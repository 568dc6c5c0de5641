pub mod cbc;
