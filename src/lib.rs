//! Control logic for a robot's game-piece intake: a color classifier, a
//! detection filter that steers foreign pieces away, a clear window that
//! reverses the conveyor after a scoring command is selected, and the
//! coordinator that turns all of it into per-stage drive outputs.
pub mod clear_window;
pub mod color;
pub mod command;
pub mod detection;
pub mod intake;
pub mod logger;
pub mod pneumatics;
