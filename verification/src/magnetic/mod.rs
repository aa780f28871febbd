pub mod magnetic_tile;
