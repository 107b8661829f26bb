//! Decision logic of a networked environmental sensor node.
//!
//! The node samples temperature and humidity, shows the latest reading on a
//! small screen and relays it to a collector over a wireless link. Each of its
//! jobs is a state machine here: the caller performs the action a machine asks
//! for (a sensor read, a socket write, a timed pause) and hands the outcome
//! back as an event. What the jobs share is one [`store::SharedReading`].

pub mod acquisition;
pub mod binary32;
pub mod bounded;
pub mod decimal;
pub mod display;
pub mod link;
pub mod reading;
pub mod reporter;
pub mod store;
