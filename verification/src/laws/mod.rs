//! What holds of the agent as a whole.

pub mod absence;
pub mod canned;
pub mod layout;
pub mod live;
pub mod mocking;
pub mod outcomes;
pub mod planning;
pub mod reading;
pub mod ruling;
pub mod running;
pub mod scoring;
pub mod searching;
pub mod serving;
pub mod stepping;
pub mod writing;
