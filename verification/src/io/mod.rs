pub mod block;
pub mod net;
pub mod pci;
