//! Decision kernel of a multi-speed ventilation fan controller.
//!
//! The crate fuses occupancy and air-quality readings into fan commands,
//! debounces buttons, merges run-state events, and plans the relay switching
//! sequence that drives the fan's contactors. Time is given to every function
//! that needs it as a count of milliseconds on a monotonic clock.

pub mod air_filter;
pub mod air_quality;
pub mod buttons;
pub mod control_logic;
pub mod decimal;
pub mod display;
pub mod fan;
pub mod maybe_timer;
pub mod presence;
pub mod presence_sensors;
pub mod protocol;
pub mod reading;
pub mod run_logic;
pub mod zone;
