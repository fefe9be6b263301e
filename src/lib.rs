pub mod cancel;
pub mod confirm;
pub mod errors;
pub mod helpers;
pub mod pipeline;
pub mod store;
pub mod types;
