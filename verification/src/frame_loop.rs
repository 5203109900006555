//! The top-level driver state and the per-tick decision passes.
//!
//! One tick drains the pending window events through
//! [`App::handle_window_event`], runs [`App::update_begin`] to decide what
//! the embedder must do (exit, toggle maximize, move the camera,
//! regenerate the mesh), lets the embedder perform those actions against
//! the window and the GPU, and closes the tick with [`App::update_end`],
//! which clears the per-tick input edges and advances the clock.

use crate::camera::MovementIntent;
use crate::camera::movement_intent;
use crate::input_manager::InputEvent;
use crate::input_manager::InputManager;
use crate::input_manager::InputView;
use crate::input_manager::KeyCode;
use crate::renderer::Renderer;
use crate::renderer::spec_wheel_resolution;
use crate::timing::Timing;
use vstd::prelude::*;

verus! {

/// What the embedder must do after the decision pass of one tick.
/// Everything here is data; the driver state already reflects it.
pub struct UpdateActions {
    /// The user asked to leave (escape held); the exit flag is already set.
    pub exit: bool,
    /// Toggle the window between maximized and windowed (fresh F11 press).
    pub toggle_maximize: bool,
    /// The camera displacements to apply this tick.
    pub movement: MovementIntent,
    /// Regenerate the circle at this resolution and upload it.
    pub regenerate: Option<usize>,
    /// The frame rate to report, derived from the last frame delta.
    pub fps: u32,
}

/// The owning driver: all per-tick state under one object, touched by one
/// flow of control.
pub struct App {
    /// Keyboard and pointer state for the current frame window.
    pub input_manager: InputManager,
    /// The frame clock.
    pub timing: Timing,
    /// The GPU-resource state model.
    pub renderer: Renderer,
    /// Set once the user asked to leave; checked once per tick.
    pub should_exit: bool,
}

impl App {
    /// Well-formedness of every component.
    pub open spec fn wf(self) -> bool {
        self.input_manager@.wf() && self.timing.wf() && self.renderer.wf()
    }

    /// A fresh driver around an already-constructed renderer, with an
    /// empty input tracker and the clock anchored at `now`.
    pub fn new(renderer: Renderer, now: u64) -> (app: App)
        requires
            renderer.wf(),
        ensures
            app.wf(),
            app.renderer == renderer,
            app.should_exit == false,
            app.timing == (Timing { start_nanos: now, last_frame_nanos: now, time_delta_nanos: 0 }),
            app.input_manager@ == (InputView {
                pressed_keys: Seq::empty(),
                just_pressed_keys: Seq::empty(),
                pressed_mouse_buttons: Seq::empty(),
                just_pressed_mouse_buttons: Seq::empty(),
                mouse_position: (0u32, 0u32),
                mouse_delta: (0u32, 0u32),
            }),
    {
        App {
            input_manager: InputManager::new(),
            timing: Timing::new(now),
            renderer,
            should_exit: false,
        }
    }

    /// Take one window event. A close request sets the exit flag. A new
    /// window size resizes the renderer synchronously, within the tick the
    /// event arrived; a zero dimension is rejected and the last good state
    /// kept. Every event is handed to the input tracker. Returns the
    /// dimensions the embedder must reconfigure the surface and depth
    /// texture to, when a resize was accepted.
    pub fn handle_window_event(&mut self, event: InputEvent) -> (resized: Option<(u32, u32)>)
        requires
            old(self).wf(),
        ensures
            final(self).wf(),
            final(self).input_manager@ == old(self).input_manager@.spec_update(event),
            final(self).timing == old(self).timing,
            final(self).should_exit == (old(self).should_exit || event is CloseRequested),
            match event {
                InputEvent::Resized { width, height } => {
                    if width > 0 && height > 0 {
                        resized == Some((width, height)) && old(self).renderer.resized_to(
                            final(self).renderer,
                            width,
                            height,
                        )
                    } else {
                        resized == None::<(u32, u32)> && final(self).renderer == old(self).renderer
                    }
                },
                _ => resized == None::<(u32, u32)> && final(self).renderer == old(self).renderer,
            },
    {
        let mut resized: Option<(u32, u32)> = None;
        match event {
            InputEvent::CloseRequested => {
                self.should_exit = true;
            },
            InputEvent::Resized { width, height } => {
                match self.renderer.resize(width, height) {
                    Ok(_) => {
                        resized = Some((width, height));
                    },
                    Err(_) => {},
                }
            },
            _ => {},
        }
        self.input_manager.update(event);
        resized
    }

    /// The decision pass of one tick: fold an escape press into the exit
    /// flag and hand out everything the embedder must do — toggle
    /// maximize on a fresh F11 press, displace the camera by the held
    /// direction keys, regenerate the circle when the wheel moved this
    /// tick, and the frame rate to report. Nothing else changes.
    pub fn update_begin(&mut self) -> (actions: UpdateActions)
        requires
            old(self).wf(),
        ensures
            final(self).wf(),
            final(self).input_manager == old(self).input_manager,
            final(self).timing == old(self).timing,
            final(self).renderer == old(self).renderer,
            actions.exit == old(self).input_manager@.key_is_pressed(KeyCode::Escape),
            final(self).should_exit == (old(self).should_exit || actions.exit),
            actions.toggle_maximize == old(self).input_manager@.key_is_just_pressed(KeyCode::F11),
            actions.movement == (MovementIntent {
                forward: old(self).input_manager@.key_is_pressed(KeyCode::W),
                backward: old(self).input_manager@.key_is_pressed(KeyCode::S),
                left: old(self).input_manager@.key_is_pressed(KeyCode::A),
                right: old(self).input_manager@.key_is_pressed(KeyCode::D),
                up: old(self).input_manager@.key_is_pressed(KeyCode::Space),
                down: old(self).input_manager@.key_is_pressed(KeyCode::LShift),
            }),
            (actions.regenerate is Some) <==> !(crate::bits::f32_bits_is_zero(
                old(self).input_manager@.mouse_delta.0,
            ) && crate::bits::f32_bits_is_zero(old(self).input_manager@.mouse_delta.1)),
            actions.regenerate matches Some(n) ==> n == spec_wheel_resolution(
                old(self).renderer.mesh.vertices@.len() as int,
                crate::bits::f32_bits_trunc_spec(old(self).input_manager@.mouse_delta.1) as int,
            ),
            old(self).timing.time_delta_nanos == 0 ==> actions.fps == 0,
            old(self).timing.time_delta_nanos > 0 ==> actions.fps == 1_000_000_000u64 / old(
                self,
            ).timing.time_delta_nanos,
    {
        let exit = self.input_manager.is_key_pressed(KeyCode::Escape);
        if exit {
            self.should_exit = true;
        }
        let toggle_maximize = self.input_manager.is_key_just_pressed(KeyCode::F11);
        let movement = movement_intent(&self.input_manager);
        let regenerate = self.renderer.wheel_resolution(&self.input_manager);
        let fps = self.timing.fps();
        UpdateActions { exit, toggle_maximize, movement, regenerate, fps }
    }

    /// The closing pass of one tick, after the embedder has performed the
    /// actions: clear the per-tick input edges — the pressed sets stay —
    /// and close the frame on the clock at the monotonic timestamp `now`.
    pub fn update_end(&mut self, now: u64)
        requires
            old(self).wf(),
            old(self).timing.last_frame_nanos <= now,
        ensures
            final(self).wf(),
            final(self).input_manager@ == old(self).input_manager@.spec_clear(),
            final(self).timing == (Timing {
                start_nanos: old(self).timing.start_nanos,
                last_frame_nanos: now,
                time_delta_nanos: (now - old(self).timing.last_frame_nanos) as u64,
            }),
            final(self).renderer == old(self).renderer,
            final(self).should_exit == old(self).should_exit,
    {
        self.input_manager.clear();
        self.timing.update(now);
    }
}

} // verus!
