//! A small library behind a battery-notification program.
//!
//! The program around it runs a status utility, hands the captured text to
//! this library, and forwards what the library builds to a desktop
//! notification utility. Everything the program decides or formats lives
//! here: pulling the charge percentage and the time remaining out of the
//! status text, classifying a completed run of the status utility, and the
//! exact text of every line the program prints or sends.

pub mod extract;
pub mod messages;
pub mod status;
