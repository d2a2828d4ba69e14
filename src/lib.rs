//! LZ4 block and frame codecs for a single-threaded host: the codec engine,
//! the incremental streaming sessions, and the lifecycle of off-thread codec
//! tasks with their buffer guards.

pub mod error;
pub mod frame;
pub mod lz4;
pub mod input;
pub mod codec;
pub mod stream;
pub mod task;
