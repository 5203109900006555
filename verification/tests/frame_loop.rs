use grass::frame_loop::App;
use grass::input_manager::{InputEvent, KeyCode};
use grass::model::{Mesh, Vertex};
use grass::renderer::Renderer;

const MS: u64 = 1_000_000;

fn plain_ring(resolution: usize) -> Vec<Vertex> {
    (0..resolution as u32)
        .map(|i| Vertex { x_bits: i, y_bits: i, z_bits: 0, u_bits: 0, v_bits: 0 })
        .collect()
}

fn fresh_app() -> App {
    let mesh = Mesh::create_circle(&plain_ring(8)).unwrap();
    App::new(Renderer::new(mesh, 800, 600), 0)
}

fn press(key: KeyCode) -> InputEvent {
    InputEvent::Keyboard { key, pressed: true }
}

#[test]
fn close_request_sets_the_exit_flag() {
    let mut app = fresh_app();
    assert!(!app.should_exit);
    let resized = app.handle_window_event(InputEvent::CloseRequested);
    assert_eq!(resized, None);
    assert!(app.should_exit);
}

#[test]
fn accepted_resize_reports_the_new_dimensions() {
    let mut app = fresh_app();
    let resized = app.handle_window_event(InputEvent::Resized { width: 1024, height: 768 });
    assert_eq!(resized, Some((1024, 768)));
    assert_eq!(app.renderer.surface_width, 1024);
    assert_eq!(app.renderer.depth_height, 768);
    assert_eq!(app.renderer.aspect_width, 1024);
}

#[test]
fn zero_resize_is_skipped_keeping_the_last_good_state() {
    let mut app = fresh_app();
    app.handle_window_event(InputEvent::Resized { width: 1024, height: 768 });
    let resized = app.handle_window_event(InputEvent::Resized { width: 0, height: 300 });
    assert_eq!(resized, None);
    assert_eq!(app.renderer.surface_width, 1024);
    assert_eq!(app.renderer.surface_height, 768);
    assert!(!app.should_exit);
}

#[test]
fn escape_asks_to_exit_in_the_update_pass() {
    let mut app = fresh_app();
    app.handle_window_event(press(KeyCode::Escape));
    let actions = app.update_begin();
    assert!(actions.exit);
    assert!(app.should_exit);
}

#[test]
fn f11_toggles_maximize_only_on_the_press_edge() {
    let mut app = fresh_app();
    app.handle_window_event(press(KeyCode::F11));
    let actions = app.update_begin();
    assert!(actions.toggle_maximize);
    assert!(!actions.exit);
    app.update_end(16 * MS);
    // Still held the next tick, but no longer a fresh press.
    let actions = app.update_begin();
    assert!(!actions.toggle_maximize);
}

#[test]
fn held_direction_keys_become_movement_intent() {
    let mut app = fresh_app();
    app.handle_window_event(press(KeyCode::W));
    app.handle_window_event(press(KeyCode::Space));
    let actions = app.update_begin();
    assert!(actions.movement.forward);
    assert!(actions.movement.up);
    assert!(!actions.movement.backward);
    assert!(!actions.movement.left);
    assert!(!actions.movement.right);
    assert!(!actions.movement.down);
}

#[test]
fn wheel_motion_requests_a_regeneration() {
    let mut app = fresh_app();
    let actions = app.update_begin();
    assert_eq!(actions.regenerate, None);
    app.handle_window_event(InputEvent::MouseWheel {
        dx_bits: 0.0f32.to_bits(),
        dy_bits: 3.0f32.to_bits(),
    });
    let actions = app.update_begin();
    // Current vertex count 8, wheel step 3.
    assert_eq!(actions.regenerate, Some(5));
}

#[test]
fn regeneration_resolution_is_floored_at_three() {
    let mut app = fresh_app();
    app.handle_window_event(InputEvent::MouseWheel {
        dx_bits: 0.0f32.to_bits(),
        dy_bits: 100.0f32.to_bits(),
    });
    let actions = app.update_begin();
    assert_eq!(actions.regenerate, Some(3));
}

#[test]
fn negative_wheel_steps_truncate_to_zero() {
    let mut app = fresh_app();
    app.handle_window_event(InputEvent::MouseWheel {
        dx_bits: 0.0f32.to_bits(),
        dy_bits: (-2.0f32).to_bits(),
    });
    let actions = app.update_begin();
    // The wheel moved, so a regeneration is requested, but a negative
    // step truncates to zero: the resolution stays at the vertex count.
    assert_eq!(actions.regenerate, Some(8));
}

#[test]
fn fractional_wheel_steps_truncate_toward_zero() {
    let mut app = fresh_app();
    app.handle_window_event(InputEvent::MouseWheel {
        dx_bits: 0.0f32.to_bits(),
        dy_bits: 2.9f32.to_bits(),
    });
    let actions = app.update_begin();
    assert_eq!(actions.regenerate, Some(6));
}

#[test]
fn update_end_clears_the_wheel_for_the_next_tick() {
    let mut app = fresh_app();
    app.handle_window_event(InputEvent::MouseWheel {
        dx_bits: 0.0f32.to_bits(),
        dy_bits: 1.0f32.to_bits(),
    });
    app.update_begin();
    app.update_end(16 * MS);
    let actions = app.update_begin();
    assert_eq!(actions.regenerate, None);
}

#[test]
fn a_full_tick_with_regeneration_updates_the_buffers() {
    let mut app = fresh_app();
    app.handle_window_event(InputEvent::MouseWheel {
        dx_bits: 0.0f32.to_bits(),
        dy_bits: 3.0f32.to_bits(),
    });
    let actions = app.update_begin();
    let resolution = actions.regenerate.unwrap();
    assert_eq!(resolution, 5);
    // The embedder recomputes the ring at the decided resolution and asks
    // the renderer to regenerate.
    assert_eq!(app.renderer.regenerate(&plain_ring(resolution)), Ok(()));
    app.update_end(16 * MS);
    assert_eq!(app.renderer.mesh.vertices.len(), 5);
    assert_eq!(app.renderer.mesh.indices.len(), 9);
    assert_eq!(&app.renderer.vertex_buffer[..5], &plain_ring(5)[..]);
}

#[test]
fn fps_reflects_the_previous_frame_delta() {
    let mut app = fresh_app();
    let actions = app.update_begin();
    assert_eq!(actions.fps, 0);
    app.update_end(20 * MS);
    let actions = app.update_begin();
    assert_eq!(actions.fps, 50);
}

#[test]
fn pressed_keys_survive_the_tick_but_edges_do_not() {
    let mut app = fresh_app();
    app.handle_window_event(press(KeyCode::W));
    app.update_begin();
    app.update_end(16 * MS);
    assert!(app.input_manager.is_key_pressed(KeyCode::W));
    assert!(!app.input_manager.is_key_just_pressed(KeyCode::W));
}
