//! Status, delay and diagram computations for passenger trains along a rail line.

pub mod board;
pub mod diagram;
pub mod error;
pub mod lookup;
pub mod model;
pub mod news;
pub mod record;
pub mod report;
pub mod stations;
pub mod status;
pub mod text;
pub mod time;
pub mod timetable;
pub mod watch;
