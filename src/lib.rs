//! Single-button Morse keyer: classifies button presses into dots, dashes
//! and a transmit gesture, and decodes the keyed symbols into letters.

pub mod morse;
pub mod machine;
pub mod status;
