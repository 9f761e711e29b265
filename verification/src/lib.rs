pub mod common;
pub mod const_source;
pub mod duration;
pub mod dynamic_source;
pub mod dynamic_source_ext;
pub mod effects;
pub mod fixed_source;

pub use common::{BitDepth, ChannelCount, SampleRate};
pub use const_source::ConstSource;
