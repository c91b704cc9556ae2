//! Minute-by-minute simulation of a football match.
//!
//! Two squads, their skill profiles and formations go in; an ordered list of
//! ticks comes out, each carrying the ball, the possession, the running
//! statistics and the events of one simulated minute. Every number is an
//! integer: pitch coordinates are held in thousandths of a pitch unit,
//! fatigue and chances in millionths.
//!
//! The match itself is in [`engine`], [`select`], [`resolve`], [`minute`],
//! [`driver`] and [`lineup`], on the state in [`state`] and the chance in
//! [`draws`]; what holds of the dismissed over a whole match is in
//! [`discipline`]. What a host does around a match is in [`host`], [`standings`],
//! [`calendar`] and [`tactics`].

pub mod model;
pub mod records;
pub mod text;
pub mod skills;
pub mod draws;
pub mod state;
pub mod engine;
pub mod select;
pub mod resolve;
pub mod minute;
pub mod driver;
pub mod discipline;
pub mod lineup;
pub mod host;
pub mod standings;
pub mod calendar;
pub mod tactics;
