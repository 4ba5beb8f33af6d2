//! Control core of a terminal globe viewer.
//!
//! Terminal events (keys, mouse drags, scroll, resize) are routed into
//! camera-state changes, canvas sizing, and frame layout, all over exact
//! fixed-point integers. The 3D rendering itself and the terminal I/O live
//! outside this crate.

mod camera;
mod frame;
mod input;
mod laws;
mod session;
mod sizing;

pub use camera::CameraState;
pub use camera::MAG_LIMIT;
pub use camera::MAX_STEP;
pub use camera::Z_MAX_TENTHS;
pub use camera::sat_add;
pub use frame::FrameLayout;
pub use frame::frame_layout;
pub use frame::recenter_column;
pub use frame::wide_terminal;
pub use input::KeyInput;
pub use input::MouseInput;
pub use input::TermEvent;
pub use laws::idle_spin;
pub use laws::lemma_drag_continuity;
pub use laws::lemma_enter_recenters;
pub use laws::lemma_interactive_step_wf;
pub use laws::lemma_printable_char_exits;
pub use laws::lemma_resize_keeps_running;
pub use laws::lemma_screensaver_spins;
pub use laws::lemma_z_stays_clamped;
pub use laws::run_interactive;
pub use session::Directive;
pub use session::DragPos;
pub use session::LoopState;
pub use session::camera_after_drag;
pub use session::camera_after_key;
pub use session::interactive_step;
pub use session::screensaver_step;
pub use session::tick_interactive;
pub use session::tick_screensaver;
pub use sizing::canvas_side;
pub use sizing::canvas_size;
pub use sizing::lemma_canvas_size_packed;
