pub mod align;
pub mod bitmap;
pub mod bits;
pub mod le;
pub mod fmt;
