//! The records that the platform keeps.

pub mod config;
pub mod course;
pub mod enrollment;
pub mod learner;

pub use config::{Config, SeasonState};
pub use course::Course;
pub use enrollment::Enrollment;
pub use learner::LearnerProfile;
