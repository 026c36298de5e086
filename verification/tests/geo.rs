use cube_sphere::geo::{map_latitude, map_longitude, GeoDegrees, RangeError, Segment};
use cube_sphere::single::{
    Single, HALF_BITS, MINUS_180_BITS, MINUS_90_BITS, ONE_BITS, PLUS_180_BITS, PLUS_90_BITS,
    ZERO_BITS,
};

fn single(value: f32) -> Single {
    Single::from_bits(value.to_bits())
}

fn segment(in_min: u32, in_max: u32, out_min: u32, out_max: u32) -> Segment {
    Segment {
        in_min: Single::from_bits(in_min),
        in_max: Single::from_bits(in_max),
        out_min: Single::from_bits(out_min),
        out_max: Single::from_bits(out_max),
    }
}

fn north() -> Segment {
    segment(PLUS_90_BITS, ZERO_BITS, ZERO_BITS, HALF_BITS)
}

fn south() -> Segment {
    segment(ZERO_BITS, MINUS_90_BITS, HALF_BITS, ONE_BITS)
}

fn west() -> Segment {
    segment(MINUS_180_BITS, ZERO_BITS, ZERO_BITS, HALF_BITS)
}

fn east() -> Segment {
    segment(ZERO_BITS, PLUS_180_BITS, HALF_BITS, ONE_BITS)
}

fn interpolate(segment: Segment, value: f32) -> f32 {
    let in_min = f32::from_bits(segment.in_min.to_bits());
    let in_max = f32::from_bits(segment.in_max.to_bits());
    let out_min = f32::from_bits(segment.out_min.to_bits());
    let out_max = f32::from_bits(segment.out_max.to_bits());
    out_min + (value - in_min) / (in_max - in_min) * (out_max - out_min)
}

fn uv(latitude: f32, longitude: f32) -> Result<(f32, f32), RangeError> {
    let point = GeoDegrees { latitude: single(latitude), longitude: single(longitude) };
    let segments = point.uv_segments()?;
    Ok((interpolate(segments.u, longitude), interpolate(segments.v, latitude)))
}

#[test]
fn origin_maps_to_the_middle_of_the_texture() {
    assert_eq!(uv(0.0, 0.0), Ok((0.5, 0.5)));
}

#[test]
fn poles_map_to_the_top_and_bottom_rows() {
    assert_eq!(uv(90.0, 0.0).unwrap().1, 0.0);
    assert_eq!(uv(-90.0, 0.0).unwrap().1, 1.0);
}

#[test]
fn antimeridian_maps_to_the_left_and_right_edges() {
    assert_eq!(uv(0.0, -180.0).unwrap().0, 0.0);
    assert_eq!(uv(0.0, 180.0).unwrap().0, 1.0);
}

#[test]
fn quarter_points_map_linearly() {
    assert_eq!(uv(45.0, -90.0), Ok((0.25, 0.25)));
    assert_eq!(uv(-45.0, 90.0), Ok((0.75, 0.75)));
}

#[test]
fn latitude_picks_its_segment() {
    assert_eq!(map_latitude(single(90.0)), Ok(north()));
    assert_eq!(map_latitude(single(45.0)), Ok(north()));
    assert_eq!(map_latitude(single(0.0)), Ok(north()));
    assert_eq!(map_latitude(single(-0.0)), Ok(north()));
    assert_eq!(map_latitude(single(-f32::MIN_POSITIVE)), Ok(south()));
    assert_eq!(map_latitude(single(-45.0)), Ok(south()));
    assert_eq!(map_latitude(single(-90.0)), Ok(south()));
}

#[test]
fn longitude_picks_its_segment() {
    assert_eq!(map_longitude(single(-180.0)), Ok(west()));
    assert_eq!(map_longitude(single(-10.0)), Ok(west()));
    assert_eq!(map_longitude(single(-0.0)), Ok(west()));
    assert_eq!(map_longitude(single(0.0)), Ok(west()));
    assert_eq!(map_longitude(single(f32::MIN_POSITIVE)), Ok(east()));
    assert_eq!(map_longitude(single(10.0)), Ok(east()));
    assert_eq!(map_longitude(single(180.0)), Ok(east()));
}

#[test]
fn latitude_beyond_the_poles_is_a_range_error() {
    assert_eq!(map_latitude(single(91.0)), Err(RangeError::Latitude));
    assert_eq!(map_latitude(single(-91.0)), Err(RangeError::Latitude));
    assert_eq!(map_latitude(single(90.000_01)), Err(RangeError::Latitude));
    assert_eq!(map_latitude(single(-90.000_01)), Err(RangeError::Latitude));
    assert_eq!(map_latitude(single(f32::INFINITY)), Err(RangeError::Latitude));
    assert_eq!(map_latitude(single(f32::NAN)), Err(RangeError::Latitude));
}

#[test]
fn longitude_beyond_the_antimeridian_is_a_range_error() {
    assert_eq!(map_longitude(single(181.0)), Err(RangeError::Longitude));
    assert_eq!(map_longitude(single(-181.0)), Err(RangeError::Longitude));
    assert_eq!(map_longitude(single(180.000_02)), Err(RangeError::Longitude));
    assert_eq!(map_longitude(single(f32::NEG_INFINITY)), Err(RangeError::Longitude));
    assert_eq!(map_longitude(single(f32::NAN)), Err(RangeError::Longitude));
}

#[test]
fn boundary_angles_are_in_range() {
    assert!(map_latitude(single(90.0)).is_ok());
    assert!(map_latitude(single(-90.0)).is_ok());
    assert!(map_longitude(single(180.0)).is_ok());
    assert!(map_longitude(single(-180.0)).is_ok());
    assert!(uv(90.0, 180.0).is_ok());
    assert!(uv(-90.0, -180.0).is_ok());
}

#[test]
fn uv_segments_judges_latitude_first() {
    assert_eq!(uv(91.0, 181.0), Err(RangeError::Latitude));
    assert_eq!(uv(91.0, 0.0), Err(RangeError::Latitude));
    assert_eq!(uv(0.0, 181.0), Err(RangeError::Longitude));
}

#[test]
fn uv_segments_pairs_the_axes() {
    let point = GeoDegrees { latitude: single(-30.0), longitude: single(120.0) };
    let segments = point.uv_segments().unwrap();
    assert_eq!(segments.v, south());
    assert_eq!(segments.u, east());
    let point = GeoDegrees { latitude: single(30.0), longitude: single(-120.0) };
    let segments = point.uv_segments().unwrap();
    assert_eq!(segments.v, north());
    assert_eq!(segments.u, west());
}

fn forces(first_longitude: f32, latitude: f32, longitude: f32, x: u32) -> bool {
    let point = GeoDegrees { latitude: single(latitude), longitude: single(longitude) };
    point.forces_zero_u(single(first_longitude), x)
}

#[test]
fn seam_rule_fires_when_a_western_patch_reaches_east() {
    assert!(forces(-10.0, 0.0, 10.0, 5));
    assert!(forces(-179.0, 45.0, 179.0, 3));
    assert!(forces(-0.001, -88.9, 0.001, 0));
}

#[test]
fn seam_rule_needs_a_western_start_and_an_eastern_vertex() {
    assert!(!forces(0.0, 0.0, 10.0, 5));
    assert!(!forces(-0.0, 0.0, 10.0, 5));
    assert!(!forces(10.0, 0.0, 20.0, 5));
    assert!(!forces(-10.0, 0.0, 0.0, 5));
    assert!(!forces(-10.0, 0.0, -5.0, 5));
    assert!(!forces(f32::NAN, 0.0, 10.0, 5));
    assert!(!forces(-10.0, 0.0, f32::NAN, 5));
    assert!(!forces(-10.0, f32::NAN, 10.0, 5));
}

#[test]
fn seam_rule_spares_the_polar_caps() {
    assert!(forces(-10.0, 88.999_99, 10.0, 5));
    assert!(!forces(-10.0, 89.0, 10.0, 5));
    assert!(!forces(-10.0, 89.5, 10.0, 5));
    assert!(forces(-10.0, -88.999_99, 10.0, 5));
    assert!(!forces(-10.0, -89.0, 10.0, 5));
    assert!(!forces(-10.0, -90.0, 10.0, 5));
}

#[test]
fn seam_rule_fires_in_the_first_column_on_the_antimeridian_in_the_south() {
    assert!(forces(180.0, -41.0, 180.0, 0));
    assert!(forces(180.0, -89.5, 180.0, 0));
    assert!(forces(0.0, -40.000_004, 180.0, 0));
}

#[test]
fn antimeridian_rule_keeps_to_its_column_longitude_and_latitude() {
    assert!(!forces(180.0, -41.0, 180.0, 1));
    assert!(!forces(180.0, -40.0, 180.0, 0));
    assert!(!forces(180.0, 0.0, 180.0, 0));
    assert!(!forces(180.0, -41.0, 179.999_98, 0));
    assert!(!forces(180.0, -41.0, -180.0, 0));
    assert!(!forces(180.0, f32::NAN, 180.0, 0));
}
