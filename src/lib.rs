//! Bus configuration, frame codec, controller status checks, timer settings
//! and fault escalation for a vehicle CAN node, with their contracts.

pub mod board_state;
pub mod can;
pub mod conversions;
pub mod timers;
pub mod timing;
