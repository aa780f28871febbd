pub mod math_util;
