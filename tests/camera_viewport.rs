use black_hole_wasm::{fov_branch, init_camera, set_viewport_size, toggle_grid, FovBranch, Viewport};

#[test]
fn new_camera_has_no_grid() {
    let cam = init_camera();
    assert!(!cam.show_grid);
}

#[test]
fn toggle_grid_flips_and_restores() {
    let mut cam = init_camera();
    toggle_grid(&mut cam);
    assert!(cam.show_grid);
    toggle_grid(&mut cam);
    assert!(!cam.show_grid);
    assert_eq!(cam, init_camera());
}

#[test]
fn default_viewport_is_800_by_600() {
    let vp = Viewport::new();
    assert_eq!((vp.width, vp.height), (800, 600));
    assert_eq!(Viewport::default(), vp);
    assert_eq!(vp.frame_len(), Some(800 * 600 * 4));
}

#[test]
fn set_viewport_size_replaces_both_sides() {
    let mut vp = Viewport::new();
    set_viewport_size(&mut vp, 4, 3);
    assert_eq!((vp.width, vp.height), (4, 3));
    assert_eq!(vp.frame_len(), Some(48));
    set_viewport_size(&mut vp, 0, 7);
    assert_eq!(vp.frame_len(), Some(0));
}

#[test]
fn landscape_and_portrait_use_different_branches() {
    assert_eq!(fov_branch(800, 600), FovBranch::Wide);
    assert_eq!(fov_branch(600, 800), FovBranch::Narrow);
    assert_ne!(fov_branch(1920, 1080), fov_branch(1080, 1920));
    let mut vp = Viewport::new();
    set_viewport_size(&mut vp, 600, 800);
    assert_eq!(vp.fov_branch(), FovBranch::Narrow);
}

#[test]
fn square_viewport_keeps_unscaled_fov() {
    assert_eq!(fov_branch(500, 500), FovBranch::Wide);
    assert_eq!(fov_branch(1, 1), FovBranch::Wide);
    assert_eq!(fov_branch(501, 500), FovBranch::Wide);
    assert_eq!(fov_branch(499, 500), FovBranch::Narrow);
}
