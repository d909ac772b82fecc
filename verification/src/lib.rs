pub mod driver;
pub mod errors;
pub mod retry;
pub mod sink;
pub mod source;
pub mod stats;
