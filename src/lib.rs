pub mod branch;
pub mod data;
pub mod event;
pub mod interceptor;
pub mod root;
