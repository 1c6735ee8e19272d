pub mod counter;
pub mod temperature;
