//! Driver for the MAX1726x family of fuel-gauge ICs, with a verified
//! register model, unit conversions, and EZ-Config initialization sequence.

pub mod comms;
pub mod error;
pub mod max17263;
pub mod registers;
pub mod rounding;
pub mod sim;
pub mod traits;
