//! A stopwatch that also shows the latest status record published by a
//! sensor on a message bus.
//!
//! - `status`: decoding of a status payload into a [`status::SensorStatus`].
//! - `latest`: the single-slot cell shared between the bus reader and the UI.
//! - `elapsed`: rendering of an elapsed duration as `HH:MM:SS.CC`.
//! - `stopwatch`: the tick-driven timing state machine and its view model.
pub mod elapsed;
pub mod latest;
pub mod status;
pub mod stopwatch;

