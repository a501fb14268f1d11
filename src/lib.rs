pub mod config;
pub mod error;
pub mod logger;
pub mod machine;
pub mod protocol;
pub mod sample;
pub mod sse_json;
pub mod timing;
pub mod waker;
