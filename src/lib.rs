//! A JoyBus client that takes the slave side of a multiboot transfer: the
//! status register and transfer buffers, the command engine, the multiboot
//! listener with its key exchange and decryption, and the decisions of the
//! two-socket bridge that feeds commands to the engine.
#![allow(non_camel_case_types, non_snake_case)]

pub mod joy;

pub mod joyboot;

pub mod dolphin;

pub use joy::{JOYCMD, JOYListener, JOYManager, JOYState};
