pub mod casting;
pub mod constants;
pub mod curve;
pub mod fixed_point;
pub mod funding;
