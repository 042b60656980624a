pub mod buybot;
pub mod chain;
pub mod emulator;
pub mod ierc20_token;
pub mod private_keys;
pub mod router;
pub mod sandbox;
pub mod simulate;
pub mod snipers;
pub mod wallet;
