pub mod block;
mod text;
pub mod timeofday;
