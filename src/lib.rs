//! A desktop shell's command surface and start-up decisions, verified.

pub mod greeting;
pub mod startup;
