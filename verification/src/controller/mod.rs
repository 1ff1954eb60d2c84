pub mod funding;
