pub mod arp;
pub mod bytes;
pub mod ethernet;
pub mod tcp;
pub mod udp;
