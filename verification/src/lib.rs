pub mod atmos;
pub mod geo;
pub mod magnetic;
pub mod math;
pub mod math_tools;
pub mod text;
pub mod time;
