//! The calculator logic of a Windows 3.1-style standard calculator: the
//! immediate-execution engine, the number representation it stores, and the
//! keypad's layout and keyboard/mouse bookkeeping.

pub mod binary64;
pub mod entry;
pub mod text;
pub mod engine;
pub mod keys;
pub mod layout;
pub mod keypad;
pub mod laws;
pub mod readout;
