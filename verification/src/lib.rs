//! A minimal multi-window desktop shell core: the window-session state
//! machine, the keyboard-to-action binding table, and the geometry planner
//! that places new windows inside monitor bounds.
//!
//! The OS window system, the configuration file reader and the logging setup
//! are external collaborators; they hand this library plain values (window
//! identities, monitor sizes, key strings) and take plain values back.

mod act;
mod app;
mod arrive;
mod cmd;
mod lens;

pub use act::Act;
pub use app::{App, Frame, Monitor, Position, Size, WindowEventKind, FRAMES, FRAME_POOL, MIN_SPAN};
pub use app::{all_plannable, assoc_map, unique_keys};
pub use app::{lemma_be_is_idle, lemma_close_absent, lemma_exit_clears};
pub use lens::{default_title, Lens, WindowAttrs};
pub use arrive::{Arrive, Blame, Excuse};
pub use cmd::{Cmd, KeyEvent, KeyId};
pub use cmd::{binding_lookup, build_spec, cmd_view, default_source, pairs_view, source_lookup};
