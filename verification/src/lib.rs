//! Keyboard and pointer event logic for macOS input simulation: modifier
//! tracking, dead-key bookkeeping, keycode mapping and the planning of the
//! native events that a simulated input stream posts.

pub mod modifiers;
#[allow(non_upper_case_globals)]
pub mod keycodes;
pub mod types;
pub mod keyboard;
pub mod simulate;
