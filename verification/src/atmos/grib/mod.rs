pub mod grib_data_point;
pub mod grib_decoder;
pub mod grib_lemmas;
pub mod grib_message;
pub mod grib_request;
pub mod grib_tile;
pub mod grib_tile_manager;
