use dioxus_bevy::{TexturePlan, TextureState};

fn bound(width: u32, height: u32) -> TextureState {
    TextureState { has_texture: true, has_view: true, last_width: width, last_height: height }
}

#[test]
fn new_state_has_no_texture() {
    let state = TextureState::new();
    assert_eq!(
        state,
        TextureState { has_texture: false, has_view: false, last_width: 0, last_height: 0 }
    );
    assert!(!state.is_ready());
}

#[test]
fn first_frame_makes_a_texture() {
    let mut state = TextureState::new();
    let plan = state.advance(640, 480, 1, true);
    assert_eq!(
        plan,
        TexturePlan::Replace { unregister_texture: false, remove_view: false, bind_camera: true }
    );
    assert_eq!(state, bound(640, 480));
    assert!(state.is_ready());
}

#[test]
fn same_size_keeps_the_texture() {
    let mut state = bound(640, 480);
    assert_eq!(state.advance(640, 480, 1, true), TexturePlan::Keep);
    assert_eq!(state.advance(640, 480, 0, false), TexturePlan::Keep);
    assert_eq!(state, bound(640, 480));
}

#[test]
fn new_size_replaces_the_texture() {
    let mut state = bound(640, 480);
    assert_eq!(
        state.advance(800, 480, 1, true),
        TexturePlan::Replace { unregister_texture: true, remove_view: true, bind_camera: true }
    );
    assert_eq!(state, bound(800, 480));
    assert_eq!(
        state.advance(800, 600, 1, true),
        TexturePlan::Replace { unregister_texture: true, remove_view: true, bind_camera: true }
    );
    assert_eq!(state, bound(800, 600));
}

#[test]
fn empty_frame_changes_nothing() {
    let mut state = TextureState::new();
    assert_eq!(state.advance(0, 480, 1, true), TexturePlan::Keep);
    assert_eq!(state.advance(640, 0, 1, true), TexturePlan::Keep);
    assert_eq!(state.advance(0, 0, 1, true), TexturePlan::Keep);
    assert_eq!(state, TextureState::new());
    let mut state = bound(640, 480);
    assert_eq!(state.advance(0, 10, 1, true), TexturePlan::Keep);
    assert_eq!(state, bound(640, 480));
}

#[test]
fn scene_without_camera_or_view_table_changes_nothing() {
    let mut state = TextureState::new();
    assert_eq!(state.advance(640, 480, 0, true), TexturePlan::Keep);
    assert_eq!(state.advance(640, 480, 1, false), TexturePlan::Keep);
    assert_eq!(state, TextureState::new());
    let mut state = bound(640, 480);
    assert_eq!(state.advance(800, 600, 0, true), TexturePlan::Keep);
    assert_eq!(state.advance(800, 600, 2, false), TexturePlan::Keep);
    assert_eq!(state, bound(640, 480));
}

#[test]
fn several_cameras_leave_the_renderer_without_texture() {
    let mut state = bound(640, 480);
    assert_eq!(
        state.advance(800, 600, 2, true),
        TexturePlan::Replace { unregister_texture: true, remove_view: true, bind_camera: false }
    );
    assert_eq!(
        state,
        TextureState { has_texture: false, has_view: false, last_width: 640, last_height: 480 }
    );
    assert!(!state.is_ready());
    assert_eq!(
        state.advance(640, 480, 1, true),
        TexturePlan::Replace { unregister_texture: false, remove_view: false, bind_camera: true }
    );
    assert_eq!(state, bound(640, 480));
}
