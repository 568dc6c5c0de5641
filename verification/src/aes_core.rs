pub mod gf256;
pub mod sbox;
pub mod inv_sbox;
pub mod constants;
pub mod state;
pub mod transformations;
pub mod inv_transformations;
pub mod mix_column_lemmas;
pub mod key_expansion;
pub mod cipher;
pub mod decrypt;
