//! A discrete-time model of a hydroelectric power plant: a reservoir feeds
//! water through a turbine into a generator, while a monitoring subsystem
//! records named time series, raises alerts and derives aggregate metrics.
//! A few small standalone exercises (a quota tracker, a summarizing trait,
//! a levelled character, a pig-latin converter) live beside the plant
//! model.
//!
//! Physical quantities are fixed-point integers: a field or parameter whose
//! name carries `_milli` holds thousandths of the unit that follows in the
//! name (`head_milli_m` holds thousandths of a metre). Efficiencies are
//! per-mille, so `1000` is unity. Timestamps are whole hours.

pub mod blargy;
pub mod components;
pub mod limit_tracker;
pub mod monitoring;
pub mod simulation;
pub mod summaries;
pub mod word_play;
