use vstd::prelude::*;

verus! {

// Coordinates travel through this crate as the bit patterns of the binary64
// numbers that the caller holds: one sign bit, eleven bits of exponent,
// fifty-two bits of fraction. On numbers of one sign the order of the
// patterns, read as unsigned integers, is the order of the magnitudes: among
// positive numbers the larger has the larger pattern, among negative numbers
// the smaller has. Every pattern with the sign bit clear lies below every
// pattern with it set, and the infinities and NaNs lie beyond all finite
// numbers of their sign. So an interval of numbers that does not hold zero
// is an interval of patterns.
/// The pattern of 18.0, the southern edge.
pub const LAT_SOUTH: u64 = 0x4032_0000_0000_0000;

/// The pattern of 20.1, the northern edge.
pub const LAT_NORTH: u64 = 0x4034_1999_9999_999A;

/// The pattern of -74.5, the western edge.
pub const LON_WEST: u64 = 0xC052_A000_0000_0000;

/// The pattern of -71.6, the eastern edge.
pub const LON_EAST: u64 = 0xC051_E666_6666_6666;

/// Whether a site lies in the box from 18.0 to 20.1 degrees of latitude and
/// from -74.5 to -71.6 degrees of longitude, edges included. Longitudes are
/// negative here, so the western edge has the largest pattern.
pub open spec fn within_bounds(lat: u64, lon: u64) -> bool {
    &&& LAT_SOUTH <= lat <= LAT_NORTH
    &&& LON_EAST <= lon <= LON_WEST
}

/// Whether a pattern has its sign bit set.
pub open spec fn negative(bits: u64) -> bool {
    bits >> 63 == 1
}

/// The exponent that a pattern holds, its bias taken off.
pub open spec fn exponent(bits: u64) -> int {
    ((bits >> 52) & 0x7FF) - 1023
}

/// The fraction that a pattern holds, with the leading one put in front. A
/// pattern whose exponent is neither the least nor the greatest stands for
/// the number of magnitude `significand` times two to the power of
/// `exponent` less 52.
pub open spec fn significand(bits: u64) -> int {
    ((bits & 0xF_FFFF_FFFF_FFFF) | 0x10_0000_0000_0000) as int
}

/// Two to the power of 48: what a number from 16 up to 32 is multiplied by
/// to give its significand.
pub open spec fn latitude_scale() -> int {
    0x1_0000_0000_0000
}

/// Two to the power of 46: what a number from 64 up to 128 is multiplied by
/// to give its significand.
pub open spec fn longitude_scale() -> int {
    0x4000_0000_0000
}

/// The box read as numbers. A latitude is accepted exactly when it is
/// positive, lies from 16 up to 32, and scaled is at least 18 scaled and at
/// most the significand of the northern edge. A longitude is accepted
/// exactly when it is negative, has a magnitude from 64 up to 128, and
/// scaled is at least the significand of the eastern edge and at most 74.5
/// scaled. The two edges that are no binary fractions are the binary64
/// numbers nearest to 20.1 and to 71.6: ten times their significand is
/// within half a unit in the last place of 201 and of 716 scaled.
pub proof fn lemma_bounds_in_numbers(lat: u64, lon: u64)
    ensures
        within_bounds(lat, lon) <==> {
            &&& !negative(lat)
            &&& exponent(lat) == 4
            &&& 18 * latitude_scale() <= significand(lat) <= significand(LAT_NORTH)
            &&& negative(lon)
            &&& exponent(lon) == 6
            &&& significand(LON_EAST) <= significand(lon)
            &&& 10 * significand(lon) <= 745 * longitude_scale()
        },
        -5 <= 10 * significand(LAT_NORTH) - 201 * latitude_scale() <= 5,
        -5 <= 10 * significand(LON_EAST) - 716 * longitude_scale() <= 5,
{
    assert((0x4032_0000_0000_0000u64 <= lat && lat <= 0x4034_1999_9999_999Au64) <==> (lat >> 63
        != 1 && (lat >> 52) & 0x7FF == 1027 && 0x12_0000_0000_0000u64 <= ((lat
        & 0xF_FFFF_FFFF_FFFF) | 0x10_0000_0000_0000) && ((lat & 0xF_FFFF_FFFF_FFFF)
        | 0x10_0000_0000_0000) <= 0x14_1999_9999_999Au64)) by (bit_vector);
    assert((0xC051_E666_6666_6666u64 <= lon && lon <= 0xC052_A000_0000_0000u64) <==> (lon >> 63
        == 1 && (lon >> 52) & 0x7FF == 1029 && 0x11_E666_6666_6666u64 <= ((lon
        & 0xF_FFFF_FFFF_FFFF) | 0x10_0000_0000_0000) && ((lon & 0xF_FFFF_FFFF_FFFF)
        | 0x10_0000_0000_0000) <= 0x12_A000_0000_0000u64)) by (bit_vector);
    assert((0x4034_1999_9999_999Au64 & 0xF_FFFF_FFFF_FFFF) | 0x10_0000_0000_0000
        == 0x14_1999_9999_999Au64) by (bit_vector);
    assert((0xC051_E666_6666_6666u64 & 0xF_FFFF_FFFF_FFFF) | 0x10_0000_0000_0000
        == 0x11_E666_6666_6666u64) by (bit_vector);
}

/// Decides `within_bounds`.
pub fn is_within_bounds(lat: u64, lon: u64) -> (r: bool)
    ensures
        r == within_bounds(lat, lon),
{
    LAT_SOUTH <= lat && lat <= LAT_NORTH && LON_EAST <= lon && lon <= LON_WEST
}

} // verus!
