//! A memory integrity tester: a reduced-round AES-based propagating-chaining
//! cipher is driven forwards and backwards over blocks of memory, and the
//! exact recovery of the all-zero baseline is checked.

pub mod sbox;
pub mod mixing;
pub mod aespcbc;
pub mod fence;
pub mod tester;
pub mod laws;
pub mod entropy;
pub mod worker;
pub mod options;

pub use aespcbc::Aes128Pcbc;
pub use tester::{TestBlock, TesterMessage};
pub use worker::test_cycle;
