pub use crate::models::track::{event_time, tally_outcomes};
