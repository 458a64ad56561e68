//! MAX17263-specific register model: the unit conversions for its
//! measurement registers and the LED driver configuration registers.

pub mod registers;
