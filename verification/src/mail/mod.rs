pub mod entries;
pub mod functions;
pub mod outmail;
pub mod receive;
pub mod utils;
