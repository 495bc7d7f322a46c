pub mod nvme;
pub mod controller;
