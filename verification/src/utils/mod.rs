pub mod decimals;
pub mod key_to_address;
