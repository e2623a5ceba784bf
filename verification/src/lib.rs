//! Verified lighting and GPU-detection logic for ASUS ROG laptops.

pub mod builtin_modes;
pub mod text;
pub mod error;
pub mod path;
pub mod dynamic_led;
pub mod hid_raw;
pub mod gpu_pci;
pub mod scsi_led;
pub mod slash_led;
pub mod aura_laptop;
pub mod lamparray;
pub mod aura_scsi;
pub mod aura_slash;
