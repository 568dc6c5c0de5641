pub mod aes_core;
pub mod mods;
