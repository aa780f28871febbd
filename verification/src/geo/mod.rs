pub mod geo_point;
pub mod geo_tile;
pub mod grid;
pub mod latitude;
pub mod longitude;
