pub mod block;
pub mod drivers;
