use pixel_camera::texture::{
    setup_camera, FixedAxis, Rgba, SetupState, TexturePixelCamera, UVec2, DEFAULT_VIRTUAL_HEIGHT,
    DEFAULT_VIRTUAL_WIDTH,
};

#[test]
fn default_camera_configuration() {
    let camera = TexturePixelCamera::default();
    assert_eq!(camera.size, UVec2 { x: 256, y: 224 });
    assert_eq!(camera.size.x, DEFAULT_VIRTUAL_WIDTH);
    assert_eq!(camera.size.y, DEFAULT_VIRTUAL_HEIGHT);
    assert_eq!(camera.fixed_axis, FixedAxis::Unfixed);
    assert_eq!(camera.clear_color, Rgba { red: 255, green: 255, blue: 255, alpha: 255 });
    assert!(!camera.is_initialized());
}

#[test]
fn new_records_given_values() {
    let color = Rgba { red: 10, green: 20, blue: 30, alpha: 40 };
    let camera = TexturePixelCamera::new(UVec2::new(320, 180), FixedAxis::FixedVertical, color);
    assert_eq!(camera.size, UVec2 { x: 320, y: 180 });
    assert_eq!(camera.fixed_axis, FixedAxis::FixedVertical);
    assert_eq!(camera.clear_color, color);
    assert_eq!(camera.state, SetupState::Uninitialized);
}

#[test]
fn from_height_fixes_vertical_axis() {
    let camera = TexturePixelCamera::from_height(240);
    assert_eq!(camera.size, UVec2 { x: 0, y: 240 });
    assert_eq!(camera.fixed_axis, FixedAxis::FixedVertical);
    assert_eq!(camera.clear_color, Rgba { red: 255, green: 255, blue: 255, alpha: 255 });
    assert!(!camera.is_initialized());
}

#[test]
fn from_width_fixes_horizontal_axis() {
    let camera = TexturePixelCamera::from_width(320);
    assert_eq!(camera.size, UVec2 { x: 320, y: 0 });
    assert_eq!(camera.fixed_axis, FixedAxis::FixedHorizontal);
    assert!(!camera.is_initialized());
}

#[test]
fn from_size_leaves_axes_unfixed() {
    let camera = TexturePixelCamera::from_size(640, 360);
    assert_eq!(camera.size, UVec2 { x: 640, y: 360 });
    assert_eq!(camera.fixed_axis, FixedAxis::Unfixed);
    assert!(!camera.is_initialized());
}

#[test]
fn setup_plan_matches_canvas() {
    let mut camera = TexturePixelCamera::from_size(512, 288);
    let plan = setup_camera(&mut camera).expect("first setup must produce a plan");
    assert_eq!(plan.target_size, UVec2 { x: 512, y: 288 });
    assert_eq!(plan.clear_color, camera.clear_color);
    assert_eq!(plan.initial_viewport, UVec2 { x: 512, y: 288 });
    assert_eq!(plan.quad_size, UVec2 { x: 512, y: 288 });
    assert!(camera.is_initialized());
}

#[test]
fn setup_runs_exactly_once() {
    let mut camera = TexturePixelCamera::default();
    let first = setup_camera(&mut camera);
    assert!(first.is_some());
    assert!(camera.is_initialized());

    let before = camera;
    let second = setup_camera(&mut camera);
    assert!(second.is_none(), "a ready camera must not be set up again");
    assert_eq!(camera, before);

    let third = setup_camera(&mut camera);
    assert!(third.is_none());
    assert_eq!(camera, before);
}
