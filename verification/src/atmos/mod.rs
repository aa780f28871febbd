pub mod grib;
