//! Geographic coordinates and their place on an equirectangular texture.
//!
//! Latitude runs from 90 degrees at the top of the texture (`v = 0`) to -90
//! at the bottom (`v = 1`); longitude from -180 at the left edge (`u = 0`) to
//! 180 at the right (`u = 1`). Each axis is mapped in two linear pieces that
//! meet at 0 degrees. This module validates an angle and picks its piece;
//! interpolating on the piece is floating-point arithmetic and is the
//! caller's.

use vstd::prelude::*;
use crate::single::{
    Single, number, whole, lemma_named_encodings, ZERO_BITS, HALF_BITS, ONE_BITS,
    MINUS_40_BITS, PLUS_89_BITS, MINUS_89_BITS, PLUS_90_BITS, MINUS_90_BITS, PLUS_180_BITS,
    MINUS_180_BITS,
};

verus! {

/// One linear piece of a mapping: inputs from `in_min` to `in_max` go to
/// outputs from `out_min` to `out_max`.
#[derive(Clone, Copy, Debug, PartialEq, Eq, Structural)]
pub struct Segment {
    pub in_min: Single,
    pub in_max: Single,
    pub out_min: Single,
    pub out_max: Single,
}

/// An angle outside the range of its axis.
#[derive(Clone, Copy, Debug, PartialEq, Eq, Structural)]
pub enum RangeError {
    /// The latitude is not a number between -90 and 90 degrees.
    Latitude,
    /// The longitude is not a number between -180 and 180 degrees.
    Longitude,
}

/// Latitudes 90 down to 0 go to `v` from 0 to 1/2.
pub open spec fn north_segment() -> Segment {
    Segment {
        in_min: number(PLUS_90_BITS),
        in_max: number(ZERO_BITS),
        out_min: number(ZERO_BITS),
        out_max: number(HALF_BITS),
    }
}

/// Latitudes 0 down to -90 go to `v` from 1/2 to 1.
pub open spec fn south_segment() -> Segment {
    Segment {
        in_min: number(ZERO_BITS),
        in_max: number(MINUS_90_BITS),
        out_min: number(HALF_BITS),
        out_max: number(ONE_BITS),
    }
}

/// Longitudes -180 up to 0 go to `u` from 0 to 1/2.
pub open spec fn west_segment() -> Segment {
    Segment {
        in_min: number(MINUS_180_BITS),
        in_max: number(ZERO_BITS),
        out_min: number(ZERO_BITS),
        out_max: number(HALF_BITS),
    }
}

/// Longitudes 0 up to 180 go to `u` from 1/2 to 1.
pub open spec fn east_segment() -> Segment {
    Segment {
        in_min: number(ZERO_BITS),
        in_max: number(PLUS_180_BITS),
        out_min: number(HALF_BITS),
        out_max: number(ONE_BITS),
    }
}

/// The angle is a number of degrees in `[-limit, limit]`.
pub open spec fn within_degrees(angle: Single, limit: int) -> bool {
    !angle.is_nan() && whole(-limit) <= angle.scaled() <= whole(limit)
}

/// The piece on which a latitude in degrees is mapped to `v`: the northern
/// one from 0 up, the southern one below; an error outside `[-90, 90]`.
pub open spec fn spec_map_latitude(lat: Single) -> Result<Segment, RangeError> {
    if !within_degrees(lat, 90) {
        Err(RangeError::Latitude)
    } else if lat.scaled() >= 0 {
        Ok(north_segment())
    } else {
        Ok(south_segment())
    }
}

/// The piece on which a longitude in degrees is mapped to `u`: the western
/// one up to 0, the eastern one above; an error outside `[-180, 180]`.
pub open spec fn spec_map_longitude(lon: Single) -> Result<Segment, RangeError> {
    if !within_degrees(lon, 180) {
        Err(RangeError::Longitude)
    } else if lon.scaled() <= 0 {
        Ok(west_segment())
    } else {
        Ok(east_segment())
    }
}

/// Whether `value` lies between the two input ends of `segment`.
pub open spec fn on_segment(segment: Segment, value: Single) -> bool {
    let lo = segment.in_min.scaled();
    let hi = segment.in_max.scaled();
    !value.is_nan() && (lo <= value.scaled() <= hi || hi <= value.scaled() <= lo)
}

impl Segment {
    fn new(in_min: u32, in_max: u32, out_min: u32, out_max: u32) -> (r: Segment)
        ensures
            r.in_min == number(in_min),
            r.in_max == number(in_max),
            r.out_min == number(out_min),
            r.out_max == number(out_max),
    {
        Segment {
            in_min: Single::from_bits(in_min),
            in_max: Single::from_bits(in_max),
            out_min: Single::from_bits(out_min),
            out_max: Single::from_bits(out_max),
        }
    }
}

/// Validates a latitude in degrees and picks the piece that maps it to `v`.
pub fn map_latitude(lat: Single) -> (r: Result<Segment, RangeError>)
    ensures
        r == spec_map_latitude(lat),
        r matches Ok(segment) ==> on_segment(segment, lat),
{
    proof {
        lemma_named_encodings();
    }
    let zero = Single::from_bits(ZERO_BITS);
    let top = Single::from_bits(PLUS_90_BITS);
    let bottom = Single::from_bits(MINUS_90_BITS);
    if !(bottom.le(lat) && lat.le(top)) {
        Err(RangeError::Latitude)
    } else if zero.le(lat) {
        Ok(Segment::new(PLUS_90_BITS, ZERO_BITS, ZERO_BITS, HALF_BITS))
    } else {
        Ok(Segment::new(ZERO_BITS, MINUS_90_BITS, HALF_BITS, ONE_BITS))
    }
}

/// Validates a longitude in degrees and picks the piece that maps it to `u`.
pub fn map_longitude(lon: Single) -> (r: Result<Segment, RangeError>)
    ensures
        r == spec_map_longitude(lon),
        r matches Ok(segment) ==> on_segment(segment, lon),
{
    proof {
        lemma_named_encodings();
    }
    let zero = Single::from_bits(ZERO_BITS);
    let east = Single::from_bits(PLUS_180_BITS);
    let west = Single::from_bits(MINUS_180_BITS);
    if !(west.le(lon) && lon.le(east)) {
        Err(RangeError::Longitude)
    } else if lon.le(zero) {
        Ok(Segment::new(MINUS_180_BITS, ZERO_BITS, ZERO_BITS, HALF_BITS))
    } else {
        Ok(Segment::new(ZERO_BITS, PLUS_180_BITS, HALF_BITS, ONE_BITS))
    }
}

/// The two pieces on which a point's texture coordinates are interpolated.
#[derive(Clone, Copy, Debug, PartialEq, Eq, Structural)]
pub struct UvSegments {
    /// Maps the longitude to `u`.
    pub u: Segment,
    /// Maps the latitude to `v`.
    pub v: Segment,
}

/// Geographic coordinates in degrees.
#[derive(Clone, Copy, Debug, PartialEq, Eq, Structural)]
pub struct GeoDegrees {
    pub latitude: Single,
    pub longitude: Single,
}

impl GeoDegrees {
    /// The pieces for both axes; the latitude is judged first.
    pub open spec fn spec_uv_segments(self) -> Result<UvSegments, RangeError> {
        match spec_map_latitude(self.latitude) {
            Err(e) => Err(e),
            Ok(v) => match spec_map_longitude(self.longitude) {
                Err(e) => Err(e),
                Ok(u) => Ok(UvSegments { u, v }),
            },
        }
    }

    /// Validates both angles and picks the pieces that map them to `(u, v)`.
    pub fn uv_segments(&self) -> (r: Result<UvSegments, RangeError>)
        ensures
            r == self.spec_uv_segments(),
    {
        match map_latitude(self.latitude) {
            Err(e) => Err(e),
            Ok(v) => match map_longitude(self.longitude) {
                Err(e) => Err(e),
                Ok(u) => Ok(UvSegments { u, v }),
            },
        }
    }

    /// The seam rule: whether `u` of a vertex must be forced to 0.
    ///
    /// It is, when the patch starts west of the prime meridian
    /// (`first_longitude < 0`) and the vertex lies east of it at a latitude
    /// strictly between -89 and 89 degrees; and also when the vertex stands
    /// in the first column of its patch (`x == 0`) at a longitude of exactly
    /// 180 degrees and a latitude below -40 degrees.
    pub open spec fn seam_forces_zero(self, first_longitude: Single, x: int) -> bool {
        let lat = self.latitude;
        let lon = self.longitude;
        ||| (!first_longitude.is_nan() && first_longitude.scaled() < 0 && !lon.is_nan()
            && lon.scaled() > 0 && !lat.is_nan() && whole(-89) < lat.scaled() < whole(89))
        ||| (x == 0 && !lon.is_nan() && lon.scaled() == whole(180) && !lat.is_nan()
            && lat.scaled() < whole(-40))
    }

    /// Decides the seam rule for a vertex in column `x` of a patch whose
    /// first vertex has the longitude `first_longitude`.
    pub fn forces_zero_u(&self, first_longitude: Single, x: u32) -> (r: bool)
        ensures
            r == self.seam_forces_zero(first_longitude, x as int),
    {
        proof {
            lemma_named_encodings();
        }
        let zero = Single::from_bits(ZERO_BITS);
        let lat = self.latitude;
        let lon = self.longitude;
        let crosses = first_longitude.lt(zero) && zero.lt(lon) && lat.lt(
            Single::from_bits(PLUS_89_BITS),
        ) && Single::from_bits(MINUS_89_BITS).lt(lat);
        let at_pole = x == 0 && lon.same(Single::from_bits(PLUS_180_BITS)) && lat.lt(
            Single::from_bits(MINUS_40_BITS),
        );
        crosses || at_pole
    }
}

/// Each piece has two different input ends, so interpolating on it never
/// divides by zero, and the pieces of an axis meet: both give 1/2 at 0
/// degrees, and together they run from 0 to 1.
pub proof fn lemma_segments_join()
    ensures
        north_segment().in_min.scaled() == whole(90),
        north_segment().in_max.scaled() == 0,
        south_segment().in_min.scaled() == 0,
        south_segment().in_max.scaled() == whole(-90),
        west_segment().in_min.scaled() == whole(-180),
        west_segment().in_max.scaled() == 0,
        east_segment().in_min.scaled() == 0,
        east_segment().in_max.scaled() == whole(180),
        north_segment().out_min.scaled() == 0,
        west_segment().out_min.scaled() == 0,
        north_segment().out_max == south_segment().out_min,
        west_segment().out_max == east_segment().out_min,
        north_segment().out_max.scaled() * 2 == whole(1),
        west_segment().out_max.scaled() * 2 == whole(1),
        south_segment().out_max.scaled() == whole(1),
        east_segment().out_max.scaled() == whole(1),
        whole(-180) < whole(-90) < 0 < whole(90) < whole(180),
{
    lemma_named_encodings();
    vstd::arithmetic::power2::lemma_pow2_pos(149);
}

} // verus!
