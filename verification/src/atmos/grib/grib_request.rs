use vstd::prelude::*;
use vstd::string::*;
use crate::geo::geo_tile::{Edges, GeoTile, GeoTileBounds};
use crate::text::{push_signed_decimal, push_zero_padded, signed_decimal, zero_padded};

verus! {

/// The microdegrees in a degree.
pub const MICRODEGREES_PER_DEGREE: i64 = 1_000_000;

/// The whole degrees of a number of microdegrees, rounded towards zero.
pub open spec fn whole_degrees(microdegrees: int) -> int {
    if microdegrees >= 0 {
        microdegrees / (MICRODEGREES_PER_DEGREE as int)
    } else {
        -((-microdegrees) / (MICRODEGREES_PER_DEGREE as int))
    }
}

/// The whole degrees of a number of microdegrees, rounded towards zero.
pub fn degrees_of(microdegrees: i64) -> (result: i64)
    ensures
        result == whole_degrees(microdegrees as int),
{
    if microdegrees >= 0 {
        microdegrees / MICRODEGREES_PER_DEGREE
    } else if microdegrees == i64::MIN {
        -((i64::MAX / MICRODEGREES_PER_DEGREE))
    } else {
        -((-microdegrees) / MICRODEGREES_PER_DEGREE)
    }
}

/// The whole degrees of a coordinate on the globe, rounded towards zero.
fn coordinate_degrees(microdegrees: i64) -> (result: i32)
    requires
        -180_000_000 <= microdegrees <= 180_000_000,
    ensures
        result == whole_degrees(microdegrees as int),
{
    degrees_of(microdegrees) as i32
}

/// The name of the file that holds the payload of a tile: the date stamp of the forecast
/// cycle, the cycle, the forecast hour, and the four edges of the tile in whole degrees.
pub open spec fn file_name_text(stamp: Seq<char>, cycle: nat, hour: nat, edges: Edges) -> Seq<char> {
    "GribTile_"@ + stamp + "_t"@ + zero_padded(cycle, 2) + "z_f"@ + zero_padded(hour, 3) + "_l"@
        + signed_decimal(whole_degrees(edges.left)) + "_t"@ + signed_decimal(
        whole_degrees(edges.top),
    ) + "_r"@ + signed_decimal(whole_degrees(edges.right)) + "_b"@ + signed_decimal(
        whole_degrees(edges.bottom),
    ) + ".grb"@
}

/// The address from which the payload of a tile is fetched: the forecast cycle and hour, the
/// fields and levels that a sample needs, the four edges of the tile in whole degrees, and the
/// directory of the cycle.
pub open spec fn download_url_text(stamp: Seq<char>, cycle: nat, hour: nat, edges: Edges) -> Seq<char> {
    "https://nomads.ncep.noaa.gov/cgi-bin/filter_gfs_0p25.pl?file=gfs.t"@ + zero_padded(cycle, 2)
        + "z.pgrb2.0p25.f"@ + zero_padded(hour, 3)
        + "&lev_1000_mb=on&lev_100_mb=on&lev_150_mb=on&lev_200_mb=on&lev_250_mb=on&lev_300_mb=on&lev_350_mb=on&lev_400_mb=on&lev_450_mb=on&lev_500_mb=on&lev_550_mb=on&lev_600_mb=on&lev_650_mb=on&lev_700_mb=on&lev_750_mb=on&lev_800_mb=on&lev_850_mb=on&lev_900_mb=on&lev_925_mb=on&lev_950_mb=on&lev_975_mb=on&lev_mean_sea_level=on&lev_surface=on&var_HGT=on&var_PRES=on&var_TMP=on&var_UGRD=on&var_VGRD=on&var_PRMSL=on&subregion=&leftlon="@
        + signed_decimal(whole_degrees(edges.left)) + "&rightlon="@ + signed_decimal(
        whole_degrees(edges.right),
    ) + "&toplat="@ + signed_decimal(whole_degrees(edges.top)) + "&bottomlat="@ + signed_decimal(
        whole_degrees(edges.bottom),
    ) + "&dir=%2Fgfs."@ + stamp + "%2F"@ + zero_padded(cycle, 2) + "%2Fatmos"@
}

/// The name of the file that holds the payload of a tile.
pub fn file_name_for(stamp: &str, cycle: u32, hour: u32, bounds: &GeoTileBounds) -> (result: String)
    ensures
        result@ == file_name_text(stamp@, cycle as nat, hour as nat, bounds@),
{
    let left: i32 = coordinate_degrees(bounds.left_lon().as_microdegrees());
    let top: i32 = coordinate_degrees(bounds.top_lat().as_microdegrees());
    let right: i32 = coordinate_degrees(bounds.right_lon().as_microdegrees());
    let bottom: i32 = coordinate_degrees(bounds.bottom_lat().as_microdegrees());
    let mut name = String::new();
    name.append("GribTile_");
    name.append(stamp);
    name.append("_t");
    push_zero_padded(&mut name, cycle, 2);
    name.append("z_f");
    push_zero_padded(&mut name, hour, 3);
    name.append("_l");
    push_signed_decimal(&mut name, left);
    name.append("_t");
    push_signed_decimal(&mut name, top);
    name.append("_r");
    push_signed_decimal(&mut name, right);
    name.append("_b");
    push_signed_decimal(&mut name, bottom);
    name.append(".grb");
    name
}

/// The address from which the payload of a tile is fetched.
pub fn download_url_for(stamp: &str, cycle: u32, hour: u32, bounds: &GeoTileBounds) -> (result: String)
    ensures
        result@ == download_url_text(stamp@, cycle as nat, hour as nat, bounds@),
{
    let left: i32 = coordinate_degrees(bounds.left_lon().as_microdegrees());
    let top: i32 = coordinate_degrees(bounds.top_lat().as_microdegrees());
    let right: i32 = coordinate_degrees(bounds.right_lon().as_microdegrees());
    let bottom: i32 = coordinate_degrees(bounds.bottom_lat().as_microdegrees());
    let mut url = String::new();
    url.append("https://nomads.ncep.noaa.gov/cgi-bin/filter_gfs_0p25.pl?file=gfs.t");
    push_zero_padded(&mut url, cycle, 2);
    url.append("z.pgrb2.0p25.f");
    push_zero_padded(&mut url, hour, 3);
    url.append(
        "&lev_1000_mb=on&lev_100_mb=on&lev_150_mb=on&lev_200_mb=on&lev_250_mb=on&lev_300_mb=on&lev_350_mb=on&lev_400_mb=on&lev_450_mb=on&lev_500_mb=on&lev_550_mb=on&lev_600_mb=on&lev_650_mb=on&lev_700_mb=on&lev_750_mb=on&lev_800_mb=on&lev_850_mb=on&lev_900_mb=on&lev_925_mb=on&lev_950_mb=on&lev_975_mb=on&lev_mean_sea_level=on&lev_surface=on&var_HGT=on&var_PRES=on&var_TMP=on&var_UGRD=on&var_VGRD=on&var_PRMSL=on&subregion=&leftlon=",
    );
    push_signed_decimal(&mut url, left);
    url.append("&rightlon=");
    push_signed_decimal(&mut url, right);
    url.append("&toplat=");
    push_signed_decimal(&mut url, top);
    url.append("&bottomlat=");
    push_signed_decimal(&mut url, bottom);
    url.append("&dir=%2Fgfs.");
    url.append(stamp);
    url.append("%2F");
    push_zero_padded(&mut url, cycle, 2);
    url.append("%2Fatmos");
    url
}

} // verus!
