//! Layered text regions for a character-cell terminal, the commands that
//! paint them, and key-driven widgets built on top of them.
//!
//! Nothing here talks to a terminal: painting produces a list of
//! [`Command`]s, and the widgets are state machines that take one [`Key`] at
//! a time and hand back the commands that show the change.

pub mod arrangement;
pub mod cursor;
pub mod keys;
pub mod layer;
pub mod prompt;
pub mod render;
pub mod select;
pub mod text;

pub use arrangement::{LayerArrangement, locate_idx};
pub use keys::{Key, RawKey, decode_key, hide_echo};
pub use layer::{Layer, Layer2D};
pub use prompt::{Ask, Mask};
pub use render::{Command, draw_layer, draw_layer2d, draw_layer2d_static, draw_layer_static, refresh};
pub use select::{Choices, YesNo, split_yes_no, yesno_label};
