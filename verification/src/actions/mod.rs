pub mod get_buy_transaction;
