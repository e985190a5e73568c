use paint_panel::painting::Point;
use paint_panel::panel::{
    ui_frame, FrameInput, Images, SpawnPos, UiState, INCREMENT_STEP, SLIDER_MAX, VALUE_UNIT,
};
use paint_panel::registry::{ImageHandle, TextureRegistry};

fn fixture() -> (UiState, TextureRegistry, Images) {
    let mut state = UiState::new();
    state.configure();
    let registry = TextureRegistry::new();
    let images = Images::new(ImageHandle { id: 1 }, ImageHandle { id: 2 });
    (state, registry, images)
}

#[test]
fn startup_configuration_opens_the_window() {
    let mut state = UiState::new();
    assert!(!state.is_window_open);
    state.configure();
    assert!(state.is_window_open);
    assert_eq!(state.value, 0);
    assert_eq!(state.label, "");
    assert!(!state.inverted);
}

#[test]
fn increment_eleven_times_exceeds_the_slider_bound() {
    // Increment adds exactly 1.0 each press with no clamp: from 0.0, eleven
    // presses end at 11.0 even though the slider's range is [0, 10].
    let (mut state, mut registry, images) = fixture();
    for _ in 0..11 {
        let mut input = FrameInput::idle();
        input.increment = true;
        assert!(state.value <= i64::MAX - INCREMENT_STEP);
        ui_frame(&mut state, &mut registry, &images, input);
    }
    assert_eq!(state.value, 11 * VALUE_UNIT);
    assert!(state.value > SLIDER_MAX);
}

#[test]
fn slider_interactions_are_clamped() {
    let (mut state, mut registry, images) = fixture();
    let mut input = FrameInput::idle();
    input.set_value = Some(50 * VALUE_UNIT);
    ui_frame(&mut state, &mut registry, &images, input);
    assert_eq!(state.value, SLIDER_MAX);

    let mut input = FrameInput::idle();
    input.set_value = Some(-3 * VALUE_UNIT);
    ui_frame(&mut state, &mut registry, &images, input);
    assert_eq!(state.value, 0);

    // A drag and an increment in one frame: the drag lands first.
    let mut input = FrameInput::idle();
    input.set_value = Some(4 * VALUE_UNIT);
    input.increment = true;
    ui_frame(&mut state, &mut registry, &images, input);
    assert_eq!(state.value, 5 * VALUE_UNIT);
}

#[test]
fn invert_and_load_reuse_registered_ids() {
    // Invert toggled true, then Load: the displayed texture resolves to the
    // inverted variant; toggled back and loaded again: back to the plain
    // icon's original id, with no duplicate id allocated anywhere.
    let (mut state, mut registry, images) = fixture();

    let first = ui_frame(&mut state, &mut registry, &images, FrameInput::idle());
    let icon_id = state.rendered_texture.expect("initialized");
    assert_eq!(first.displayed_texture, Some(icon_id));
    assert_eq!(registry.resolve(icon_id), Some(images.icon));

    let mut input = FrameInput::idle();
    input.invert = true;
    ui_frame(&mut state, &mut registry, &images, input);
    assert!(state.inverted);
    let inverted_id = state.rendered_texture.expect("re-resolved");
    assert_ne!(inverted_id, icon_id);
    assert_eq!(registry.resolve(inverted_id), Some(images.icon_inverted));

    let mut input = FrameInput::idle();
    input.load = true;
    ui_frame(&mut state, &mut registry, &images, input);
    assert_eq!(state.rendered_texture, Some(inverted_id));

    let mut input = FrameInput::idle();
    input.invert = true;
    ui_frame(&mut state, &mut registry, &images, input);
    assert!(!state.inverted);
    assert_eq!(state.rendered_texture, Some(icon_id));

    let mut input = FrameInput::idle();
    input.load = true;
    ui_frame(&mut state, &mut registry, &images, input);
    assert_eq!(state.rendered_texture, Some(icon_id));
}

#[test]
fn remove_leaves_a_stale_id_that_resolves_gracefully() {
    let (mut state, mut registry, images) = fixture();
    ui_frame(&mut state, &mut registry, &images, FrameInput::idle());
    let shown = state.rendered_texture.expect("initialized");
    assert_eq!(registry.resolve(shown), Some(images.icon));

    let mut input = FrameInput::idle();
    input.remove = true;
    let out = ui_frame(&mut state, &mut registry, &images, input);
    // The frame still showed the id it had when the panel was drawn.
    assert_eq!(out.displayed_texture, Some(shown));
    // The state keeps the stale id; resolving it degrades to nothing.
    assert_eq!(state.rendered_texture, Some(shown));
    assert_eq!(registry.resolve(shown), None);
}

#[test]
fn spawn_and_quit_pass_through() {
    let (mut state, mut registry, images) = fixture();
    let pos = SpawnPos { x: -9 * VALUE_UNIT, y: 0, z: 10 * VALUE_UNIT };
    let mut input = FrameInput::idle();
    input.add_entity = Some(pos);
    input.quit = true;
    let out = ui_frame(&mut state, &mut registry, &images, input);
    assert_eq!(out.spawn, Some(pos));
    assert!(out.quit);

    let out = ui_frame(&mut state, &mut registry, &images, FrameInput::idle());
    assert_eq!(out.spawn, None);
    assert!(!out.quit);
}

#[test]
fn label_and_checkbox_bind_to_the_state() {
    let (mut state, mut registry, images) = fixture();
    let mut input = FrameInput::idle();
    input.set_label = Some(String::from("Egui Template"));
    input.set_window_open = Some(false);
    ui_frame(&mut state, &mut registry, &images, input);
    assert_eq!(state.label, "Egui Template");
    assert!(!state.is_window_open);
}

#[test]
fn a_frame_paints_and_reports_the_drawn_lines() {
    let (mut state, mut registry, images) = fixture();
    let mut input = FrameInput::idle();
    input.pointer = Some(Point { x: 0, y: 0 });
    ui_frame(&mut state, &mut registry, &images, input);
    let mut input = FrameInput::idle();
    input.pointer = Some(Point { x: 2_000, y: 0 });
    let out = ui_frame(&mut state, &mut registry, &images, input);
    assert_eq!(out.drawn.len(), 1);
    assert_eq!(out.drawn[0], vec![Point { x: 0, y: 0 }, Point { x: 2_000, y: 0 }]);

    // Clear empties the canvas within the same frame, before painting.
    let mut input = FrameInput::idle();
    input.clear = true;
    let out = ui_frame(&mut state, &mut registry, &images, input);
    assert!(out.drawn.is_empty());
    assert_eq!(state.painting.lines.len(), 1);
    assert!(state.painting.lines[0].is_empty());
}
