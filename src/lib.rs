//! A terminal clock and weather display: the decisions and text behind each
//! frame, the reading of a forecast response, and the refresh schedule.

pub mod condition;
pub mod text;
pub mod calendar;
pub mod forecast;
pub mod frame;
pub mod display;
