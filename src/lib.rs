//! Shot detection and scoring for an instrumented basketball hoop.
//!
//! The library holds the decisions of the hoop controller as verified,
//! hardware-free code: the ultrasonic ranging protocol's echo timing and
//! distance conversion, the shot state machine that classifies an attempt,
//! the shared scoreboard, and the mapping from outcomes to LED levels.
//! The program around it performs the pin I/O, the clock reads and the waits.
pub mod ranging;
pub mod scoreboard;
pub mod machine;
pub mod leds;
