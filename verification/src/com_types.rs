//! The host-side value types of the codec: wire boolean, currency, date,
//! decimal, text, and the aliasing and handle wrappers.

pub mod com_bool;
pub mod currency;
pub mod date;
pub mod decimal;
pub mod ptr_wrapper;
pub mod string;
