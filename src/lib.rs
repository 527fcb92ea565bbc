//! Battery charge monitoring: classification of the charge into levels,
//! parsing of the power-supply readings, the notification latch and the
//! decision taken on each watch event.

pub mod latch;
pub mod level;
pub mod reading;
pub mod notice;
pub mod status;
pub mod watch;
