//! Sequencing facade of a rollup dispatcher.
//!
//! The facade turns chain inputs into a strictly ordered, epoch-partitioned
//! stream of records and relays the claims that come back. It holds no
//! counters of its own: the position of the next record is derived from the
//! latest entry of the inputs stream each time, and the only state kept
//! between operations is the cursor into the claims stream.
//!
//! The transport that stores the streams is not part of this crate. Every
//! operation of [`facade::BrokerFacade`] takes what the transport answered and
//! decides what happens next. [`stream`] holds the mathematical model of a
//! stream; [`sequencing`] and [`cursor`] prove, on that model, the rules that
//! the operations keep on the inputs stream and on the claims stream.

pub mod events;
pub mod status;
pub mod builder;
pub mod guard;
pub mod error;
pub mod claims;
pub mod config;
pub mod facade;
pub mod stream;
pub mod sequencing;
pub mod cursor;
