pub mod automatic_gain_control;
pub mod dither;
pub mod fade;
pub mod inspect;
pub mod pausable;
pub mod position;
pub mod stoppable;
pub mod take_duration;
pub mod take_samples;
pub mod with_data;

pub use pausable::Pausable;
pub use position::TrackPosition;
pub use stoppable::Stoppable;
pub use take_duration::TakeDuration;
pub use take_samples::TakeSamples;
pub use with_data::WithData;
