//! Live synchronization engine of a terminal train-departure client: a
//! debounced station search, a background refresh producer, and a journey
//! merge that keeps the user's selection pinned to the same journey.

pub mod app;
pub mod chars;
pub mod clock;
pub mod events;
pub mod journey;
pub mod refresh;
pub mod search;
pub mod sncf;
pub mod timer;
