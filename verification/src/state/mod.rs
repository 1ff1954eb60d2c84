pub mod account;
pub mod events;
pub mod market;
pub mod market_map;
pub mod oracle;
pub mod user;
