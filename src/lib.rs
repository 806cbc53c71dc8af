//! State handling for an interactive chain of pendulum arms: which arms stay
//! after the user deletes some, how many physics sub-steps a frame runs, and
//! which colour each arm is drawn in.

mod chain;
mod palette;

pub use chain::{kept, lemma_remove_one_click, remove_clicked, steps_for_frame, STEPS_PER_FRAME};
pub use palette::{category10_color, get_color, Rgb, GRAY_LEVEL};
