//! Shot results, pushed by the radar microcontroller after each shot.
//!
//! Every measured quantity is kept exact: a scaled field is the quotient of
//! the raw integer and its scale, never a rounded number.

use crate::codec::{
    be_i16, be_i24, be_u16, be_u24, float40_at, ratio16_at, ratio24_at, read_float40, read_int16,
    read_int16_scaled, read_int24, read_int24_scaled, read_uint16, read_uint24, write_uint16,
    Float40, Ratio,
};
use crate::error::{too_short, WireError};
use crate::text::{decode_trimmed, has_substring, lossy_text, text_contains, trim_control};
use vstd::prelude::*;
use vstd::utf8::{encode_utf8, valid_utf8};
use vstd::slice::slice_subrange;

verus! {

/// The divisor of polynomial coefficients: the scale on the wire, or one
/// where the wire says zero.
pub open spec fn scale_or_one(scale: int) -> int {
    if scale == 0 {
        1
    } else {
        scale
    }
}

/// The divisor of the coefficients of an early result: the scale on the
/// wire, or one where the wire says less than one.
pub open spec fn scale_at_least_one(scale: int) -> int {
    if scale < 1 {
        1
    } else {
        scale
    }
}

/// Whether `coeffs` holds the `n` signed 24-bit fields of `p` from `at` on,
/// each over `scale`.
pub open spec fn coefficients_at(coeffs: Seq<Ratio>, p: Seq<u8>, at: int, n: int, scale: int) -> bool {
    &&& coeffs.len() == n
    &&& forall|i: int| 0 <= i < n ==> #[trigger] coeffs[i] == ratio24_at(p, at + 3 * i, scale)
}

/// Reads five polynomial coefficients, signed 24-bit fields from `at` on,
/// each over `scale`.
fn read_coefficients(payload: &[u8], at: usize, scale: i64) -> (r: Result<[Ratio; 5], WireError>)
    requires
        at + 15 <= payload@.len(),
    ensures
        r is Ok,
        coefficients_at(r->Ok_0@, payload@, at as int, 5, scale as int),
{
    let len: usize = payload.len();
    let mut coeffs = [Ratio { num: 0, den: 1 }; 5];
    let mut i: usize = 0;
    while i < 5
        invariant
            i <= 5,
            len == payload@.len(),
            at + 15 <= len,
            forall|k: int| 0 <= k < i ==> #[trigger] coeffs@[k] == ratio24_at(
                payload@,
                at + 3 * k,
                scale as int,
            ),
        decreases 5 - i,
    {
        coeffs[i] = read_int24_scaled(payload, at + i * 3, scale)?;
        i += 1;
    }
    Ok(coeffs)
}

// ---------------------------------------------------------------------------
// 0xD4: primary flight result
// ---------------------------------------------------------------------------

/// Primary ball flight result, one per shot. Type `0xD4`.
///
/// Thirty-six scalar fields, a scale, and three trajectory polynomials of
/// five coefficients each. Scalars marked in thousandths are signed 24-bit
/// integers over 1000.
#[derive(Debug, Clone, Copy)]
pub struct FlightResult {
    /// Shot counter.
    pub total: i32,
    /// Tracked time (s).
    pub track_time: Ratio,
    /// Start position: forward, vertical, lateral (m).
    pub start_position: [Ratio; 3],
    /// Launch speed (m/s).
    pub launch_speed: Ratio,
    /// Launch azimuth (degrees, negative to the right).
    pub launch_azimuth: Ratio,
    /// Launch elevation (degrees).
    pub launch_elevation: Ratio,
    /// Carry distance (m).
    pub carry_distance: Ratio,
    /// Flight time (s).
    pub flight_time: Ratio,
    /// Maximum height (m).
    pub max_height: Ratio,
    /// Landing position: forward, vertical, lateral (m).
    pub landing_position: [Ratio; 3],
    /// Backspin (RPM).
    pub backspin_rpm: i32,
    /// Sidespin (RPM).
    pub sidespin_rpm: i32,
    /// Riflespin (RPM).
    pub riflespin_rpm: i32,
    /// Landing spin about the three axes (RPM).
    pub landing_spin_rpm: [i32; 3],
    /// Landing velocity: forward, vertical, lateral (m/s).
    pub landing_velocity: [Ratio; 3],
    /// Total distance (m). The device does not fill it in; the bytes are kept
    /// as they came.
    pub total_distance: Ratio,
    /// Roll distance (m). The device does not fill it in.
    pub roll_distance: Ratio,
    /// Final position (m). The device does not fill it in.
    pub final_position: [Ratio; 3],
    /// Club head speed (m/s).
    pub clubhead_speed: Ratio,
    /// Club strike direction (degrees).
    pub club_strike_direction: Ratio,
    /// Club attack angle (degrees).
    pub club_attack_angle: Ratio,
    /// Club head speed after impact (m/s).
    pub clubhead_speed_post: Ratio,
    /// Club swing plane tilt (degrees).
    pub club_swing_plane_tilt: Ratio,
    /// Club swing plane rotation (degrees).
    pub club_swing_plane_rotation: Ratio,
    /// Club effective loft (degrees).
    pub club_effective_loft: Ratio,
    /// Club face angle (degrees).
    pub club_face_angle: Ratio,
    /// Scale of the polynomial coefficients, as it came.
    pub poly_scale: i32,
    /// Trajectory polynomial, forward axis: five coefficients over the scale.
    pub poly_x: [Ratio; 5],
    /// Trajectory polynomial, vertical axis.
    pub poly_y: [Ratio; 5],
    /// Trajectory polynomial, lateral axis.
    pub poly_z: [Ratio; 5],
}

impl FlightResult {
    /// Whether the fields are those that the payload `p` lays out.
    pub open spec fn read_from(self, p: Seq<u8>) -> bool {
        &&& self.total == be_i24(p, 1)
        &&& self.track_time == ratio24_at(p, 4, 1000)
        &&& self.start_position[0] == ratio24_at(p, 7, 1000)
        &&& self.start_position[1] == ratio24_at(p, 10, 1000)
        &&& self.start_position[2] == ratio24_at(p, 13, 1000)
        &&& self.launch_speed == ratio24_at(p, 16, 1000)
        &&& self.launch_azimuth == ratio24_at(p, 19, 1000)
        &&& self.launch_elevation == ratio24_at(p, 22, 1000)
        &&& self.carry_distance == ratio24_at(p, 25, 1000)
        &&& self.flight_time == ratio24_at(p, 28, 1000)
        &&& self.max_height == ratio24_at(p, 31, 1000)
        &&& self.landing_position[0] == ratio24_at(p, 34, 1000)
        &&& self.landing_position[1] == ratio24_at(p, 37, 1000)
        &&& self.landing_position[2] == ratio24_at(p, 40, 1000)
        &&& self.backspin_rpm == be_i24(p, 43)
        &&& self.sidespin_rpm == be_i24(p, 46)
        &&& self.riflespin_rpm == be_i24(p, 49)
        &&& self.landing_spin_rpm[0] == be_i24(p, 52)
        &&& self.landing_spin_rpm[1] == be_i24(p, 55)
        &&& self.landing_spin_rpm[2] == be_i24(p, 58)
        &&& self.landing_velocity[0] == ratio24_at(p, 61, 1000)
        &&& self.landing_velocity[1] == ratio24_at(p, 64, 1000)
        &&& self.landing_velocity[2] == ratio24_at(p, 67, 1000)
        &&& self.total_distance == ratio24_at(p, 70, 1000)
        &&& self.roll_distance == ratio24_at(p, 73, 1000)
        &&& self.final_position[0] == ratio24_at(p, 76, 1000)
        &&& self.final_position[1] == ratio24_at(p, 79, 1000)
        &&& self.final_position[2] == ratio24_at(p, 82, 1000)
        &&& self.clubhead_speed == ratio24_at(p, 85, 1000)
        &&& self.club_strike_direction == ratio24_at(p, 88, 1000)
        &&& self.club_attack_angle == ratio24_at(p, 91, 1000)
        &&& self.clubhead_speed_post == ratio24_at(p, 94, 1000)
        &&& self.club_swing_plane_tilt == ratio24_at(p, 97, 1000)
        &&& self.club_swing_plane_rotation == ratio24_at(p, 100, 1000)
        &&& self.club_effective_loft == ratio24_at(p, 103, 1000)
        &&& self.club_face_angle == ratio24_at(p, 106, 1000)
        &&& self.poly_scale == be_i24(p, 109)
        &&& coefficients_at(self.poly_x@, p, 112, 5, scale_or_one(be_i24(p, 109)))
        &&& coefficients_at(self.poly_y@, p, 127, 5, scale_or_one(be_i24(p, 109)))
        &&& coefficients_at(self.poly_z@, p, 142, 5, scale_or_one(be_i24(p, 109)))
    }

    /// What decoding the payload `p` gives: the record, or a complaint that
    /// fewer than 157 bytes came.
    pub open spec fn decodes(p: Seq<u8>, r: Result<Self, WireError>) -> bool {
        match r {
            Ok(v) => p.len() >= 157 && v.read_from(p),
            Err(e) => p.len() < 157 && e@ == too_short("FlightResult"@, 157, p.len()),
        }
    }

    /// Decodes the record from a payload of at least 157 bytes.
    pub fn decode(payload: &[u8]) -> (r: Result<Self, WireError>)
        ensures
            Self::decodes(payload@, r),
    {
        if payload.len() < 157 {
            return Err(WireError::payload_too_short("FlightResult", 157, payload.len()));
        }
        let poly_scale: i32 = read_int24(payload, 109)?;
        let ps: i64 = if poly_scale == 0 {
            1
        } else {
            poly_scale as i64
        };
        let poly_x = read_coefficients(payload, 112, ps)?;
        let poly_y = read_coefficients(payload, 127, ps)?;
        let poly_z = read_coefficients(payload, 142, ps)?;
        Ok(
            FlightResult {
                total: read_int24(payload, 1)?,
                track_time: read_int24_scaled(payload, 4, 1000)?,
                start_position: [
                    read_int24_scaled(payload, 7, 1000)?,
                    read_int24_scaled(payload, 10, 1000)?,
                    read_int24_scaled(payload, 13, 1000)?,
                ],
                launch_speed: read_int24_scaled(payload, 16, 1000)?,
                launch_azimuth: read_int24_scaled(payload, 19, 1000)?,
                launch_elevation: read_int24_scaled(payload, 22, 1000)?,
                carry_distance: read_int24_scaled(payload, 25, 1000)?,
                flight_time: read_int24_scaled(payload, 28, 1000)?,
                max_height: read_int24_scaled(payload, 31, 1000)?,
                landing_position: [
                    read_int24_scaled(payload, 34, 1000)?,
                    read_int24_scaled(payload, 37, 1000)?,
                    read_int24_scaled(payload, 40, 1000)?,
                ],
                backspin_rpm: read_int24(payload, 43)?,
                sidespin_rpm: read_int24(payload, 46)?,
                riflespin_rpm: read_int24(payload, 49)?,
                landing_spin_rpm: [
                    read_int24(payload, 52)?,
                    read_int24(payload, 55)?,
                    read_int24(payload, 58)?,
                ],
                landing_velocity: [
                    read_int24_scaled(payload, 61, 1000)?,
                    read_int24_scaled(payload, 64, 1000)?,
                    read_int24_scaled(payload, 67, 1000)?,
                ],
                total_distance: read_int24_scaled(payload, 70, 1000)?,
                roll_distance: read_int24_scaled(payload, 73, 1000)?,
                final_position: [
                    read_int24_scaled(payload, 76, 1000)?,
                    read_int24_scaled(payload, 79, 1000)?,
                    read_int24_scaled(payload, 82, 1000)?,
                ],
                clubhead_speed: read_int24_scaled(payload, 85, 1000)?,
                club_strike_direction: read_int24_scaled(payload, 88, 1000)?,
                club_attack_angle: read_int24_scaled(payload, 91, 1000)?,
                clubhead_speed_post: read_int24_scaled(payload, 94, 1000)?,
                club_swing_plane_tilt: read_int24_scaled(payload, 97, 1000)?,
                club_swing_plane_rotation: read_int24_scaled(payload, 100, 1000)?,
                club_effective_loft: read_int24_scaled(payload, 103, 1000)?,
                club_face_angle: read_int24_scaled(payload, 106, 1000)?,
                poly_scale: read_int24(payload, 109)?,
                poly_x,
                poly_y,
                poly_z,
            },
        )
    }
}

// ---------------------------------------------------------------------------
// 0xE8: early flight result
// ---------------------------------------------------------------------------

/// Early flight result with preliminary measurements, sent before the
/// primary one. Type `0xE8`.
#[derive(Debug, Clone, Copy)]
pub struct FlightResultV1 {
    /// Shot counter.
    pub total: i32,
    /// Club velocity (m/s).
    pub club_velocity: Ratio,
    /// Ball velocity (m/s).
    pub ball_velocity: Ratio,
    /// Flight time (s).
    pub flight_time: Ratio,
    /// Distance (m).
    pub distance: Ratio,
    /// Height (m).
    pub height: Ratio,
    /// Lateral offset (m).
    pub lateral: Ratio,
    /// Launch elevation (degrees).
    pub elevation: Ratio,
    /// Launch azimuth (degrees).
    pub azimuth: Ratio,
    /// Tracked time (s).
    pub tracked_time: Ratio,
    /// Drag coefficient, in millionths.
    pub drag: Ratio,
    /// Backspin (RPM).
    pub backspin_rpm: i32,
    /// Sidespin (RPM).
    pub sidespin_rpm: i32,
    /// Acceleration.
    pub acceleration: Ratio,
    /// Club strike direction (degrees).
    pub club_strike_direction: Ratio,
    /// Scale of the polynomial coefficients, as it came.
    pub poly_scale: i32,
    /// Trajectory polynomial, forward axis.
    pub poly_x: [Ratio; 5],
    /// Trajectory polynomial, vertical axis.
    pub poly_y: [Ratio; 5],
    /// Trajectory polynomial, lateral axis.
    pub poly_z: [Ratio; 5],
}

impl FlightResultV1 {
    /// Whether the fields are those that the payload `p` lays out.
    pub open spec fn read_from(self, p: Seq<u8>) -> bool {
        &&& self.total == be_i24(p, 1)
        &&& self.club_velocity == ratio24_at(p, 4, 1000)
        &&& self.ball_velocity == ratio24_at(p, 7, 1000)
        &&& self.flight_time == ratio24_at(p, 10, 1000)
        &&& self.distance == ratio24_at(p, 13, 1000)
        &&& self.height == ratio24_at(p, 16, 1000)
        &&& self.lateral == ratio24_at(p, 19, 1000)
        &&& self.elevation == ratio24_at(p, 22, 1000)
        &&& self.azimuth == ratio24_at(p, 25, 1000)
        &&& self.tracked_time == ratio24_at(p, 28, 1000)
        &&& self.drag == ratio24_at(p, 31, 1000000)
        &&& self.backspin_rpm == be_i24(p, 34)
        &&& self.sidespin_rpm == be_i24(p, 37)
        &&& self.acceleration == ratio24_at(p, 40, 1000)
        &&& self.club_strike_direction == ratio24_at(p, 43, 1000)
        &&& self.poly_scale == be_i24(p, 46)
        &&& coefficients_at(self.poly_x@, p, 49, 5, scale_at_least_one(be_i24(p, 46)))
        &&& coefficients_at(self.poly_y@, p, 64, 5, scale_at_least_one(be_i24(p, 46)))
        &&& coefficients_at(self.poly_z@, p, 79, 5, scale_at_least_one(be_i24(p, 46)))
    }

    /// What decoding the payload `p` gives: the record, or a complaint that
    /// fewer than 94 bytes came.
    pub open spec fn decodes(p: Seq<u8>, r: Result<Self, WireError>) -> bool {
        match r {
            Ok(v) => p.len() >= 94 && v.read_from(p),
            Err(e) => p.len() < 94 && e@ == too_short("FlightResultV1"@, 94, p.len()),
        }
    }

    /// Decodes the record from a payload of at least 94 bytes.
    pub fn decode(payload: &[u8]) -> (r: Result<Self, WireError>)
        ensures
            Self::decodes(payload@, r),
    {
        if payload.len() < 94 {
            return Err(WireError::payload_too_short("FlightResultV1", 94, payload.len()));
        }
        let poly_scale: i32 = read_int24(payload, 46)?;
        let ps: i64 = if poly_scale < 1 {
            1
        } else {
            poly_scale as i64
        };
        let poly_x = read_coefficients(payload, 49, ps)?;
        let poly_y = read_coefficients(payload, 64, ps)?;
        let poly_z = read_coefficients(payload, 79, ps)?;
        Ok(
            FlightResultV1 {
                total: read_int24(payload, 1)?,
                club_velocity: read_int24_scaled(payload, 4, 1000)?,
                ball_velocity: read_int24_scaled(payload, 7, 1000)?,
                flight_time: read_int24_scaled(payload, 10, 1000)?,
                distance: read_int24_scaled(payload, 13, 1000)?,
                height: read_int24_scaled(payload, 16, 1000)?,
                lateral: read_int24_scaled(payload, 19, 1000)?,
                elevation: read_int24_scaled(payload, 22, 1000)?,
                azimuth: read_int24_scaled(payload, 25, 1000)?,
                tracked_time: read_int24_scaled(payload, 28, 1000)?,
                drag: read_int24_scaled(payload, 31, 1000000)?,
                backspin_rpm: read_int24(payload, 34)?,
                sidespin_rpm: read_int24(payload, 37)?,
                acceleration: read_int24_scaled(payload, 40, 1000)?,
                club_strike_direction: read_int24_scaled(payload, 43, 1000)?,
                poly_scale: read_int24(payload, 46)?,
                poly_x,
                poly_y,
                poly_z,
            },
        )
    }
}

// ---------------------------------------------------------------------------
// 0xED: club result
// ---------------------------------------------------------------------------

/// Club head measurements. The device sends it twice per shot, the second
/// time on request. Type `0xED`.
#[derive(Debug, Clone, Copy)]
pub struct ClubResult {
    /// Number of club tracking points.
    pub num_club_prc_points: u8,
    /// Flags, as they came.
    pub flags: i32,
    /// Club speed before impact (m/s).
    pub pre_club_speed: Ratio,
    /// Club speed after impact (m/s).
    pub post_club_speed: Ratio,
    /// Strike direction, the path angle (degrees).
    pub strike_direction: Ratio,
    /// Attack angle (degrees).
    pub attack_angle: Ratio,
    /// Face angle (degrees).
    pub face_angle: Ratio,
    /// Dynamic loft (degrees).
    pub dynamic_loft: Ratio,
    /// Smash factor, a ratio.
    pub smash_factor: Ratio,
    /// Dispersion correction.
    pub dispersion_correction: Ratio,
    /// Swing plane, horizontal (degrees).
    pub swing_plane_horizontal: Ratio,
    /// Swing plane, vertical (degrees).
    pub swing_plane_vertical: Ratio,
    /// Club azimuth (degrees).
    pub club_azimuth: Ratio,
    /// Club elevation (degrees).
    pub club_elevation: Ratio,
    /// Club offset (m).
    pub club_offset: Ratio,
    /// Club height (m).
    pub club_height: Ratio,
    /// Scale of the polynomial coefficients, as it came.
    pub poly_scale: i32,
    /// Twelve polynomials of three coefficients each, over the scale: speed,
    /// then x, y, z, y over x and z over x, each before and after impact.
    pub poly_coeffs: [[Ratio; 3]; 12],
    /// Time before impact (ms).
    pub pre_impact_time: Ratio,
    /// Time after impact (ms).
    pub post_impact_time: Ratio,
    /// Time from club to ball (ms).
    pub club_to_ball_time: Ratio,
}

impl ClubResult {
    /// Whether the fields are those that the payload `p` lays out.
    pub open spec fn read_from(self, p: Seq<u8>) -> bool {
        &&& self.num_club_prc_points == p[1]
        &&& self.flags == be_i24(p, 2)
        &&& self.pre_club_speed == ratio24_at(p, 5, 100)
        &&& self.post_club_speed == ratio24_at(p, 8, 100)
        &&& self.strike_direction == ratio24_at(p, 11, 100)
        &&& self.attack_angle == ratio24_at(p, 14, 100)
        &&& self.face_angle == ratio24_at(p, 17, 100)
        &&& self.dynamic_loft == ratio24_at(p, 20, 100)
        &&& self.smash_factor == ratio24_at(p, 23, 1000)
        &&& self.dispersion_correction == ratio24_at(p, 26, 1000)
        &&& self.swing_plane_horizontal == ratio24_at(p, 29, 100)
        &&& self.swing_plane_vertical == ratio24_at(p, 32, 100)
        &&& self.club_azimuth == ratio24_at(p, 35, 100)
        &&& self.club_elevation == ratio24_at(p, 38, 100)
        &&& self.club_offset == ratio24_at(p, 41, 1000)
        &&& self.club_height == ratio24_at(p, 44, 1000)
        &&& self.poly_scale == be_i24(p, 47)
        &&& self.pre_impact_time == ratio24_at(p, 158, 100)
        &&& self.post_impact_time == ratio24_at(p, 161, 100)
        &&& self.club_to_ball_time == ratio24_at(p, 164, 100)
        &&& forall|a: int, c: int|
            0 <= a < 12 && 0 <= c < 3 ==> #[trigger] self.poly_coeffs@[a]@[c] == ratio24_at(
                p,
                50 + 9 * a + 3 * c,
                scale_or_one(be_i24(p, 47)),
            )
    }

    /// What decoding the payload `p` gives: the record, or a complaint that
    /// fewer than 167 bytes came.
    pub open spec fn decodes(p: Seq<u8>, r: Result<Self, WireError>) -> bool {
        match r {
            Ok(v) => p.len() >= 167 && v.read_from(p),
            Err(e) => p.len() < 167 && e@ == too_short("ClubResult"@, 167, p.len()),
        }
    }

    /// Decodes the record from a payload of at least 167 bytes.
    pub fn decode(payload: &[u8]) -> (r: Result<Self, WireError>)
        ensures
            Self::decodes(payload@, r),
    {
        if payload.len() < 167 {
            return Err(WireError::payload_too_short("ClubResult", 167, payload.len()));
        }
        let poly_scale: i32 = read_int24(payload, 47)?;
        let ps: i64 = if poly_scale == 0 {
            1
        } else {
            poly_scale as i64
        };
        let mut poly_coeffs = [[Ratio { num: 0, den: 1 }; 3]; 12];
        let mut arr: usize = 0;
        while arr < 12
            invariant
                arr <= 12,
                payload@.len() >= 167,
                forall|a: int, c: int|
                    0 <= a < arr && 0 <= c < 3 ==> #[trigger] poly_coeffs@[a]@[c] == ratio24_at(
                        payload@,
                        50 + 9 * a + 3 * c,
                        ps as int,
                    ),
            decreases 12 - arr,
        {
            let mut coeffs = [Ratio { num: 0, den: 1 }; 3];
            let mut coeff: usize = 0;
            while coeff < 3
                invariant
                    arr < 12,
                    coeff <= 3,
                    payload@.len() >= 167,
                    forall|c: int|
                        0 <= c < coeff ==> #[trigger] coeffs@[c] == ratio24_at(
                            payload@,
                            50 + 9 * arr + 3 * c,
                            ps as int,
                        ),
                decreases 3 - coeff,
            {
                let offset: usize = 50 + arr * 9 + coeff * 3;
                coeffs[coeff] = read_int24_scaled(payload, offset, ps)?;
                coeff += 1;
            }
            poly_coeffs[arr] = coeffs;
            arr += 1;
        }
        Ok(
            ClubResult {
                num_club_prc_points: payload[1],
                flags: read_int24(payload, 2)?,
                pre_club_speed: read_int24_scaled(payload, 5, 100)?,
                post_club_speed: read_int24_scaled(payload, 8, 100)?,
                strike_direction: read_int24_scaled(payload, 11, 100)?,
                attack_angle: read_int24_scaled(payload, 14, 100)?,
                face_angle: read_int24_scaled(payload, 17, 100)?,
                dynamic_loft: read_int24_scaled(payload, 20, 100)?,
                smash_factor: read_int24_scaled(payload, 23, 1000)?,
                dispersion_correction: read_int24_scaled(payload, 26, 1000)?,
                swing_plane_horizontal: read_int24_scaled(payload, 29, 100)?,
                swing_plane_vertical: read_int24_scaled(payload, 32, 100)?,
                club_azimuth: read_int24_scaled(payload, 35, 100)?,
                club_elevation: read_int24_scaled(payload, 38, 100)?,
                club_offset: read_int24_scaled(payload, 41, 1000)?,
                club_height: read_int24_scaled(payload, 44, 1000)?,
                poly_scale: read_int24(payload, 47)?,
                pre_impact_time: read_int24_scaled(payload, 158, 100)?,
                post_impact_time: read_int24_scaled(payload, 161, 100)?,
                club_to_ball_time: read_int24_scaled(payload, 164, 100)?,
                poly_coeffs,
            },
        )
    }
}

// ---------------------------------------------------------------------------
// 0xEF: spin result
// ---------------------------------------------------------------------------

/// One element of the antenna table of a [`SpinResult`]: seven bytes.
#[derive(Debug, Clone, Copy)]
pub struct AntennaElement {
    /// Spin estimate (RPM).
    pub spin_rpm: i16,
    /// Signal peak strength, in thousandths.
    pub peak: Ratio,
    /// Signal-to-noise ratio.
    pub snr: i16,
}

impl AntennaElement {
    /// Whether the fields are those of the seven bytes of `p` at `at`.
    pub open spec fn read_at(self, p: Seq<u8>, at: int) -> bool {
        &&& self.spin_rpm == be_i16(p, at)
        &&& self.peak == ratio24_at(p, at + 2, 1000)
        &&& self.snr == be_i16(p, at + 5)
    }
}

impl Default for AntennaElement {
    fn default() -> (e: Self)
        ensures
            e.spin_rpm == 0,
            e.peak == Ratio::of(0, 1),
            e.snr == 0,
    {
        AntennaElement { spin_rpm: 0, peak: Ratio { num: 0, den: 1 }, snr: 0 }
    }
}

/// Spin measurement, one per shot. Type `0xEF`.
#[derive(Debug, Clone, Copy)]
pub struct SpinResult {
    /// Version and length byte (`0x89`).
    pub version: u8,
    /// Five antenna groups of three range bins each.
    pub antenna_data: [[AntennaElement; 3]; 5],
    /// PM spin, raw (RPM).
    pub pm_spin_raw: i16,
    /// PM spin, final: the authoritative total spin (RPM).
    pub pm_spin_final: i16,
    /// Confidence in the PM spin, 0 to 100.
    pub pm_spin_confidence: i16,
    /// Lift spin (RPM).
    pub lift_spin: i16,
    /// Spin expected by the validation (RPM).
    pub spin_validate_expected: i16,
    /// Lower limit of the validation (RPM).
    pub spin_validate_low: i16,
    /// Upper limit of the validation (RPM).
    pub spin_validate_high: i16,
    /// Scaling factor of the validation.
    pub spin_validate_scaling: i16,
    /// Which algorithm gave the spin.
    pub spin_method: u8,
    /// Spin flags, 24 bits as they came.
    pub spin_flags: i32,
    /// Launch spin (RPM).
    pub launch_spin: i16,
    /// AM spin (RPM).
    pub am_spin: i16,
    /// PM spin (RPM).
    pub pm_spin: i16,
    /// Spin axis angle (degrees), in tenths.
    pub spin_axis: Ratio,
    /// AOD spin (RPM).
    pub aod_spin: i16,
    /// PLL spin (RPM).
    pub pll_spin: i16,
}

impl SpinResult {
    /// Whether the fields are those that the payload `p` lays out.
    pub open spec fn read_from(self, p: Seq<u8>) -> bool {
        &&& self.version == p[0]
        &&& self.pm_spin_raw == be_i16(p, 106)
        &&& self.pm_spin_final == be_i16(p, 108)
        &&& self.pm_spin_confidence == be_i16(p, 110)
        &&& self.lift_spin == be_i16(p, 112)
        &&& self.spin_validate_expected == be_i16(p, 114)
        &&& self.spin_validate_low == be_i16(p, 116)
        &&& self.spin_validate_high == be_i16(p, 118)
        &&& self.spin_validate_scaling == be_i16(p, 120)
        &&& self.spin_method == p[122]
        &&& self.spin_flags == be_i24(p, 123)
        &&& self.launch_spin == be_i16(p, 126)
        &&& self.am_spin == be_i16(p, 128)
        &&& self.pm_spin == be_i16(p, 130)
        &&& self.spin_axis == ratio16_at(p, 132, 10)
        &&& self.aod_spin == be_i16(p, 134)
        &&& self.pll_spin == be_i16(p, 136)
        &&& forall|g: int, b: int|
            0 <= g < 5 && 0 <= b < 3 ==> (#[trigger] self.antenna_data@[g]@[b]).read_at(
                p,
                1 + 7 * (3 * g + b),
            )
    }

    /// What decoding the payload `p` gives: the record, or a complaint that
    /// fewer than 138 bytes came.
    pub open spec fn decodes(p: Seq<u8>, r: Result<Self, WireError>) -> bool {
        match r {
            Ok(v) => p.len() >= 138 && v.read_from(p),
            Err(e) => p.len() < 138 && e@ == too_short("SpinResult"@, 138, p.len()),
        }
    }

    /// Decodes the record from a payload of at least 138 bytes.
    pub fn decode(payload: &[u8]) -> (r: Result<Self, WireError>)
        ensures
            Self::decodes(payload@, r),
    {
        if payload.len() < 138 {
            return Err(WireError::payload_too_short("SpinResult", 138, payload.len()));
        }
        let mut antenna_data = [[AntennaElement { spin_rpm: 0, peak: Ratio { num: 0, den: 1 }, snr: 0 }; 3]; 5];
        let mut group: usize = 0;
        while group < 5
            invariant
                group <= 5,
                payload@.len() >= 138,
                forall|g: int, b: int|
                    0 <= g < group && 0 <= b < 3 ==> (#[trigger] antenna_data@[g]@[b]).read_at(
                        payload@,
                        1 + 7 * (3 * g + b),
                    ),
            decreases 5 - group,
        {
            let mut bins = [AntennaElement { spin_rpm: 0, peak: Ratio { num: 0, den: 1 }, snr: 0 }; 3];
            let mut bin: usize = 0;
            while bin < 3
                invariant
                    group < 5,
                    bin <= 3,
                    payload@.len() >= 138,
                    forall|b: int|
                        0 <= b < bin ==> (#[trigger] bins@[b]).read_at(
                            payload@,
                            1 + 7 * (3 * group + b),
                        ),
                decreases 3 - bin,
            {
                let base: usize = 1 + (group * 3 + bin) * 7;
                bins[bin] = AntennaElement {
                    spin_rpm: read_int16(payload, base)?,
                    peak: read_int24_scaled(payload, base + 2, 1000)?,
                    snr: read_int16(payload, base + 5)?,
                };
                bin += 1;
            }
            antenna_data[group] = bins;
            group += 1;
        }
        Ok(
            SpinResult {
                version: payload[0],
                pm_spin_raw: read_int16(payload, 106)?,
                pm_spin_final: read_int16(payload, 108)?,
                pm_spin_confidence: read_int16(payload, 110)?,
                lift_spin: read_int16(payload, 112)?,
                spin_validate_expected: read_int16(payload, 114)?,
                spin_validate_low: read_int16(payload, 116)?,
                spin_validate_high: read_int16(payload, 118)?,
                spin_validate_scaling: read_int16(payload, 120)?,
                spin_method: payload[122],
                spin_flags: read_int24(payload, 123)?,
                launch_spin: read_int16(payload, 126)?,
                am_spin: read_int16(payload, 128)?,
                pm_spin: read_int16(payload, 130)?,
                spin_axis: read_int16_scaled(payload, 132, 10)?,
                aod_spin: read_int16(payload, 134)?,
                pll_spin: read_int16(payload, 136)?,
                antenna_data,
            },
        )
    }
}

// ---------------------------------------------------------------------------
// 0xD9: speed profile
// ---------------------------------------------------------------------------

/// Club head speed profile, one per shot. Type `0xD9`.
///
/// A header of twelve bytes, then signed 16-bit samples. Where there is no
/// speed data the device sends a stub shorter than the header: it decodes
/// as a profile without samples.
#[derive(Debug, Clone)]
pub struct SpeedProfile {
    /// Flags byte.
    pub flags: u8,
    /// Number of samples before impact.
    pub num_pre: u8,
    /// Number of samples after impact.
    pub num_post: u8,
    /// Scale of the samples, as it came.
    pub scale_factor: i32,
    /// Time between two samples (s).
    pub time_interval: Float40,
    /// Speed samples (m/s), each over the scale.
    pub speeds: Vec<Ratio>,
}

impl SpeedProfile {
    /// Whether the fields are those that the payload `p` lays out.
    pub open spec fn read_from(self, p: Seq<u8>) -> bool {
        if p.len() < 12 {
            &&& self.flags == if p.len() > 1 {
                p[1]
            } else {
                0
            }
            &&& self.num_pre == 0
            &&& self.num_post == 0
            &&& self.scale_factor == 0
            &&& self.time_interval == Float40::of_wire(0, 0)
            &&& self.speeds@.len() == 0
        } else {
            &&& self.flags == p[1]
            &&& self.num_pre == p[2]
            &&& self.num_post == p[3]
            &&& self.scale_factor == be_i24(p, 4)
            &&& self.time_interval == float40_at(p, 7)
            &&& self.speeds@.len() == (p.len() - 12) / 2
            &&& forall|i: int|
                0 <= i < self.speeds@.len() ==> #[trigger] self.speeds@[i] == ratio16_at(
                    p,
                    12 + 2 * i,
                    scale_or_one(be_i24(p, 4)),
                )
        }
    }

    /// What decoding the payload `p` gives: always a profile.
    pub open spec fn decodes(p: Seq<u8>, r: Result<Self, WireError>) -> bool {
        r matches Ok(v) && v.read_from(p)
    }

    /// Decodes the profile. Every payload decodes.
    pub fn decode(payload: &[u8]) -> (r: Result<Self, WireError>)
        ensures
            Self::decodes(payload@, r),
    {
        let len: usize = payload.len();
        if len < 12 {
            return Ok(
                SpeedProfile {
                    flags: if len > 1 {
                        payload[1]
                    } else {
                        0
                    },
                    num_pre: 0,
                    num_post: 0,
                    scale_factor: 0,
                    time_interval: Float40::zero(),
                    speeds: Vec::new(),
                },
            );
        }
        let flags: u8 = payload[1];
        let num_pre: u8 = payload[2];
        let num_post: u8 = payload[3];
        let scale_factor: i32 = read_int24(payload, 4)?;
        let time_interval = read_float40(payload, 7)?;
        let sf: i64 = if scale_factor == 0 {
            1
        } else {
            scale_factor as i64
        };
        let num_samples: usize = (len - 12) / 2;
        let mut speeds: Vec<Ratio> = Vec::new();
        let mut i: usize = 0;
        while i < num_samples
            invariant
                i <= num_samples,
                len == payload@.len(),
                len >= 12,
                num_samples == (len - 12) / 2,
                speeds@.len() == i,
                forall|k: int|
                    0 <= k < i ==> #[trigger] speeds@[k] == ratio16_at(
                        payload@,
                        12 + 2 * k,
                        sf as int,
                    ),
            decreases num_samples - i,
        {
            let sample = read_int16_scaled(payload, 12 + i * 2, sf)?;
            speeds.push(sample);
            i += 1;
        }
        Ok(SpeedProfile { flags, num_pre, num_post, scale_factor, time_interval, speeds })
    }
}

// ---------------------------------------------------------------------------
// 0xE9: tracking status
// ---------------------------------------------------------------------------

/// Radar tracking metadata, several per shot. Type `0xE9`.
#[derive(Debug, Clone, Copy)]
pub struct TrackingStatus {
    /// State byte.
    pub state: u8,
    /// Flags byte.
    pub flags: u8,
    /// Where the pre-trigger buffer starts, a sample index.
    pub pre_trig_buf_start: u32,
    /// Sample index of the club impact; `0xFFFFFF` while it is not found.
    pub club_impact_idx: u32,
    /// Sample index of the trigger.
    pub trigger_idx: u32,
    /// First radar calibration constant.
    pub radar_cal1: u32,
    /// Second radar calibration constant.
    pub radar_cal2: u32,
    /// Radar calibration value of the microcontroller.
    pub radar_cal_avr: u16,
    /// Processing iteration, 0 to 2.
    pub processing_iteration: u8,
    /// Result quality.
    pub result_quality: u8,
    /// Detection subtype.
    pub detection_subtype: u8,
    /// Number of tracking points.
    pub prc_tracking_count: u8,
    /// Radar measurement.
    pub radar_measurement: u16,
    /// Trigger flags.
    pub trigger_flags: u8,
    /// Event counter.
    pub event_counter: u16,
    /// Radar baseline, signed.
    pub radar_baseline: i32,
    /// Measurements taken after tracking.
    pub track_measure: [i32; 3],
    /// Fourth measurement taken after tracking.
    pub track_measure4: u16,
}

impl TrackingStatus {
    /// Whether the fields are those that the payload `p` lays out.
    pub open spec fn read_from(self, p: Seq<u8>) -> bool {
        &&& self.state == p[1]
        &&& self.flags == p[2]
        &&& self.pre_trig_buf_start == be_u24(p, 22)
        &&& self.club_impact_idx == be_u24(p, 25)
        &&& self.trigger_idx == be_u24(p, 28)
        &&& self.radar_cal1 == be_u24(p, 32)
        &&& self.radar_cal2 == be_u24(p, 35)
        &&& self.radar_cal_avr == be_u16(p, 38)
        &&& self.processing_iteration == p[47]
        &&& self.result_quality == p[48]
        &&& self.detection_subtype == p[51]
        &&& self.prc_tracking_count == p[54]
        &&& self.radar_measurement == be_u16(p, 56)
        &&& self.trigger_flags == p[59]
        &&& self.event_counter == be_u16(p, 62)
        &&& self.radar_baseline == be_i24(p, 67)
        &&& self.track_measure[0] == be_i24(p, 70)
        &&& self.track_measure[1] == be_i24(p, 73)
        &&& self.track_measure[2] == be_i24(p, 76)
        &&& self.track_measure4 == be_u16(p, 80)
    }

    /// What decoding the payload `p` gives: the record, or a complaint that
    /// fewer than 82 bytes came.
    pub open spec fn decodes(p: Seq<u8>, r: Result<Self, WireError>) -> bool {
        match r {
            Ok(v) => p.len() >= 82 && v.read_from(p),
            Err(e) => p.len() < 82 && e@ == too_short("TrackingStatus"@, 82, p.len()),
        }
    }

    /// Decodes the record from a payload of at least 82 bytes.
    pub fn decode(payload: &[u8]) -> (r: Result<Self, WireError>)
        ensures
            Self::decodes(payload@, r),
    {
        if payload.len() < 82 {
            return Err(WireError::payload_too_short("TrackingStatus", 82, payload.len()));
        }
        Ok(
            TrackingStatus {
                state: payload[1],
                flags: payload[2],
                pre_trig_buf_start: read_uint24(payload, 22)?,
                club_impact_idx: read_uint24(payload, 25)?,
                trigger_idx: read_uint24(payload, 28)?,
                radar_cal1: read_uint24(payload, 32)?,
                radar_cal2: read_uint24(payload, 35)?,
                radar_cal_avr: read_uint16(payload, 38)?,
                processing_iteration: payload[47],
                result_quality: payload[48],
                detection_subtype: payload[51],
                prc_tracking_count: payload[54],
                radar_measurement: read_uint16(payload, 56)?,
                trigger_flags: payload[59],
                event_counter: read_uint16(payload, 62)?,
                radar_baseline: read_int24(payload, 67)?,
                track_measure: [
                    read_int24(payload, 70)?,
                    read_int24(payload, 73)?,
                    read_int24(payload, 76)?,
                ],
                track_measure4: read_uint16(payload, 80)?,
            },
        )
    }
}

// ---------------------------------------------------------------------------
// 0xEC: ball tracking data
// ---------------------------------------------------------------------------

/// The peak value that the signed 24-bit field of `d` at `at` stands for:
/// the field times `10000 / 2^23`.
pub open spec fn peak_at(d: Seq<u8>, at: int) -> Ratio {
    Ratio::of(be_i24(d, at) * 10000, 0x80_0000)
}

/// One ball tracking point: a record of 60 bytes.
#[derive(Debug, Clone, Copy)]
pub struct PrcPoint {
    /// Index of the point.
    pub index: i16,
    /// Peak.
    pub peak: i16,
    /// Signal-to-noise ratio.
    pub snr: i32,
    /// Buffer index.
    pub buf_idx: i16,
    /// Flags.
    pub flags: u8,
    /// Time counter.
    pub time: i32,
    /// Refractive index factor, in hundred-thousandths.
    pub n: Ratio,
    /// Azimuth (degrees), in hundredths.
    pub az: Ratio,
    /// Elevation (degrees), in hundredths.
    pub el: Ratio,
    /// Radial velocity (m/s), in hundredths.
    pub vel: Ratio,
    /// Distance (m), in thousandths.
    pub dist: Ratio,
    /// Synchronisation index.
    pub sync_idx: i32,
    /// Synchronisation buffer.
    pub sync_buf: i32,
    /// Azimuth of the first antenna (degrees), in hundredths.
    pub az1: Ratio,
    /// Azimuth of the second antenna.
    pub az2: Ratio,
    /// Azimuth of the third antenna.
    pub az3: Ratio,
    /// Elevation of the first antenna (degrees), in hundredths.
    pub el1: Ratio,
    /// Elevation of the second antenna.
    pub el2: Ratio,
    /// Six peak values, each a signed 24-bit field times `10000 / 2^23`.
    pub pk: [Ratio; 6],
}

impl PrcPoint {
    /// Whether the fields are those of the 60-byte record `d`.
    pub open spec fn read_from(self, d: Seq<u8>) -> bool {
        &&& self.index == be_i16(d, 0)
        &&& self.peak == be_i16(d, 2)
        &&& self.snr == be_i24(d, 4)
        &&& self.buf_idx == be_i16(d, 7)
        &&& self.flags == d[9]
        &&& self.time == be_i24(d, 10)
        &&& self.n == ratio24_at(d, 13, 100000)
        &&& self.az == ratio16_at(d, 16, 100)
        &&& self.el == ratio16_at(d, 18, 100)
        &&& self.vel == ratio24_at(d, 20, 100)
        &&& self.dist == ratio24_at(d, 23, 1000)
        &&& self.sync_idx == be_i24(d, 26)
        &&& self.sync_buf == be_i24(d, 29)
        &&& self.az1 == ratio16_at(d, 32, 100)
        &&& self.az2 == ratio16_at(d, 34, 100)
        &&& self.az3 == ratio16_at(d, 36, 100)
        &&& self.el1 == ratio16_at(d, 38, 100)
        &&& self.el2 == ratio16_at(d, 40, 100)
        &&& forall|j: int| 0 <= j < 6 ==> #[trigger] self.pk@[j] == peak_at(d, 42 + 3 * j)
    }

    /// Reads one record of 60 bytes.
    fn read(d: &[u8]) -> (r: Result<Self, WireError>)
        requires
            d@.len() >= 60,
        ensures
            r matches Ok(v) && v.read_from(d@),
    {
        let mut pk = [Ratio { num: 0, den: 1 }; 6];
        let mut j: usize = 0;
        while j < 6
            invariant
                j <= 6,
                d@.len() >= 60,
                forall|k: int| 0 <= k < j ==> #[trigger] pk@[k] == peak_at(d@, 42 + 3 * k),
            decreases 6 - j,
        {
            let raw: i32 = read_int24(d, 42 + j * 3)?;
            pk[j] = Ratio { num: (raw as i64) * 10000, den: 0x80_0000 };
            j += 1;
        }
        Ok(
            PrcPoint {
                index: read_int16(d, 0)?,
                peak: read_int16(d, 2)?,
                snr: read_int24(d, 4)?,
                buf_idx: read_int16(d, 7)?,
                flags: d[9],
                time: read_int24(d, 10)?,
                n: read_int24_scaled(d, 13, 100000)?,
                az: read_int16_scaled(d, 16, 100)?,
                el: read_int16_scaled(d, 18, 100)?,
                vel: read_int24_scaled(d, 20, 100)?,
                dist: read_int24_scaled(d, 23, 1000)?,
                sync_idx: read_int24(d, 26)?,
                sync_buf: read_int24(d, 29)?,
                az1: read_int16_scaled(d, 32, 100)?,
                az2: read_int16_scaled(d, 34, 100)?,
                az3: read_int16_scaled(d, 36, 100)?,
                el1: read_int16_scaled(d, 38, 100)?,
                el2: read_int16_scaled(d, 40, 100)?,
                pk,
            },
        )
    }
}

/// Raw ball tracking data. Type `0xEC`.
///
/// Four header bytes, then records of 60 bytes. The first byte tells the
/// layout: only one that is three more than a multiple of 60 is known, and
/// any other gives no points. The fourth byte counts the records; those
/// that the payload does not hold in full are left out.
#[derive(Debug, Clone)]
pub struct PrcData {
    /// Frame sequence number.
    pub sequence: i16,
    /// Tracking points.
    pub points: Vec<PrcPoint>,
}

impl PrcData {
    /// Whether the first byte of a payload announces the known layout.
    pub open spec fn known_layout(header: u8) -> bool {
        header >= 3 && (header - 3) % 60 == 0
    }

    /// How many records a payload of `len` bytes that announces `count`
    /// records holds in full.
    pub open spec fn record_count(count: u8, len: nat) -> int {
        if count as int <= (len - 4) / 60 {
            count as int
        } else {
            (len - 4) / 60
        }
    }

    /// Whether the fields are those that the payload `p` lays out.
    pub open spec fn read_from(self, p: Seq<u8>) -> bool {
        &&& self.sequence == be_i16(p, 1)
        &&& if Self::known_layout(p[0]) {
            &&& self.points@.len() == Self::record_count(p[3], p.len())
            &&& forall|i: int|
                0 <= i < self.points@.len() ==> (#[trigger] self.points@[i]).read_from(
                    p.skip(4 + 60 * i),
                )
        } else {
            self.points@.len() == 0
        }
    }

    /// What decoding the payload `p` gives: the data, or a complaint that
    /// fewer than 4 bytes came.
    pub open spec fn decodes(p: Seq<u8>, r: Result<Self, WireError>) -> bool {
        match r {
            Ok(v) => p.len() >= 4 && v.read_from(p),
            Err(e) => p.len() < 4 && e@ == too_short("PrcData"@, 4, p.len()),
        }
    }

    /// Decodes the tracking data from a payload of at least 4 bytes.
    pub fn decode(payload: &[u8]) -> (r: Result<Self, WireError>)
        ensures
            Self::decodes(payload@, r),
    {
        let len: usize = payload.len();
        if len < 4 {
            return Err(WireError::payload_too_short("PrcData", 4, len));
        }
        let header: u8 = payload[0];
        let sequence: i16 = read_int16(payload, 1)?;
        let sub_count: usize = payload[3] as usize;
        if !(header >= 3 && (header - 3) % 60 == 0) {
            return Ok(PrcData { sequence, points: Vec::new() });
        }
        let mut points: Vec<PrcPoint> = Vec::new();
        let mut i: usize = 0;
        while i < sub_count && 4 + (i + 1) * 60 <= len
            invariant
                i <= sub_count <= 255,
                len == payload@.len(),
                4 + i * 60 <= len,
                points@.len() == i,
                forall|k: int|
                    0 <= k < i ==> (#[trigger] points@[k]).read_from(payload@.skip(4 + 60 * k)),
            decreases sub_count - i,
        {
            let base: usize = 4 + i * 60;
            let record = slice_subrange(payload, base, len);
            let point = PrcPoint::read(record)?;
            points.push(point);
            i += 1;
        }
        Ok(PrcData { sequence, points })
    }
}

// ---------------------------------------------------------------------------
// 0xEE: club tracking data
// ---------------------------------------------------------------------------

/// One club head tracking point: a record of 76 bytes.
#[derive(Debug, Clone, Copy)]
pub struct ClubPrcPoint {
    /// Index of the point.
    pub index: i16,
    /// Signed offset from the trigger.
    pub buf_ofs: i16,
    /// Peak.
    pub peak: i16,
    /// Signal-to-noise ratio.
    pub snr: i32,
    /// Buffer index.
    pub buf_idx: i16,
    /// Time counter.
    pub time: i32,
    /// Refractive index factor, in hundred-thousandths.
    pub n: Ratio,
    /// Azimuth (degrees), in hundredths.
    pub az: Ratio,
    /// Elevation (degrees), in hundredths.
    pub el: Ratio,
    /// Velocity (m/s), in hundredths.
    pub vel: Ratio,
    /// Second velocity (m/s), in hundredths.
    pub vel2: Ratio,
    /// Distance (m), in thousandths.
    pub dist: Ratio,
    /// Field at offset 30, in thousandths.
    pub f30: Ratio,
    /// Field at offset 33, in thousandths.
    pub f33: Ratio,
    /// Version byte.
    pub version: u8,
    /// Field at offset 39.
    pub f39: i32,
    /// Field at offset 42.
    pub f42: i32,
    /// Field at offset 45, in thousandths.
    pub f45: Ratio,
    /// Azimuth of the first antenna (degrees), in hundredths.
    pub az1: Ratio,
    /// Azimuth of the second antenna.
    pub az2: Ratio,
    /// Azimuth of the third antenna.
    pub az3: Ratio,
    /// Elevation of the first antenna (degrees), in hundredths.
    pub el1: Ratio,
    /// Elevation of the second antenna.
    pub el2: Ratio,
    /// Six peak values, each a signed 24-bit field times `10000 / 2^23`.
    pub pk: [Ratio; 6],
}

impl ClubPrcPoint {
    /// Whether the fields are those of the 76-byte record `d`.
    pub open spec fn read_from(self, d: Seq<u8>) -> bool {
        &&& self.index == be_i16(d, 0)
        &&& self.buf_ofs == be_i16(d, 2)
        &&& self.peak == be_i16(d, 4)
        &&& self.snr == be_i24(d, 6)
        &&& self.buf_idx == be_i16(d, 9)
        &&& self.time == be_i24(d, 11)
        &&& self.n == ratio24_at(d, 14, 100000)
        &&& self.az == ratio16_at(d, 17, 100)
        &&& self.el == ratio16_at(d, 19, 100)
        &&& self.vel == ratio24_at(d, 21, 100)
        &&& self.vel2 == ratio24_at(d, 24, 100)
        &&& self.dist == ratio24_at(d, 27, 1000)
        &&& self.f30 == ratio24_at(d, 30, 1000)
        &&& self.f33 == ratio24_at(d, 33, 1000)
        &&& self.version == d[38]
        &&& self.f39 == be_i24(d, 39)
        &&& self.f42 == be_i24(d, 42)
        &&& self.f45 == ratio24_at(d, 45, 1000)
        &&& self.az1 == ratio16_at(d, 48, 100)
        &&& self.az2 == ratio16_at(d, 50, 100)
        &&& self.az3 == ratio16_at(d, 52, 100)
        &&& self.el1 == ratio16_at(d, 54, 100)
        &&& self.el2 == ratio16_at(d, 56, 100)
        &&& forall|j: int| 0 <= j < 6 ==> #[trigger] self.pk@[j] == peak_at(d, 58 + 3 * j)
    }

    /// Reads one record of 76 bytes.
    fn read(d: &[u8]) -> (r: Result<Self, WireError>)
        requires
            d@.len() >= 76,
        ensures
            r matches Ok(v) && v.read_from(d@),
    {
        let mut pk = [Ratio { num: 0, den: 1 }; 6];
        let mut j: usize = 0;
        while j < 6
            invariant
                j <= 6,
                d@.len() >= 76,
                forall|k: int| 0 <= k < j ==> #[trigger] pk@[k] == peak_at(d@, 58 + 3 * k),
            decreases 6 - j,
        {
            let raw: i32 = read_int24(d, 58 + j * 3)?;
            pk[j] = Ratio { num: (raw as i64) * 10000, den: 0x80_0000 };
            j += 1;
        }
        Ok(
            ClubPrcPoint {
                index: read_int16(d, 0)?,
                buf_ofs: read_int16(d, 2)?,
                peak: read_int16(d, 4)?,
                snr: read_int24(d, 6)?,
                buf_idx: read_int16(d, 9)?,
                time: read_int24(d, 11)?,
                n: read_int24_scaled(d, 14, 100000)?,
                az: read_int16_scaled(d, 17, 100)?,
                el: read_int16_scaled(d, 19, 100)?,
                vel: read_int24_scaled(d, 21, 100)?,
                vel2: read_int24_scaled(d, 24, 100)?,
                dist: read_int24_scaled(d, 27, 1000)?,
                f30: read_int24_scaled(d, 30, 1000)?,
                f33: read_int24_scaled(d, 33, 1000)?,
                version: d[38],
                f39: read_int24(d, 39)?,
                f42: read_int24(d, 42)?,
                f45: read_int24_scaled(d, 45, 1000)?,
                az1: read_int16_scaled(d, 48, 100)?,
                az2: read_int16_scaled(d, 50, 100)?,
                az3: read_int16_scaled(d, 52, 100)?,
                el1: read_int16_scaled(d, 54, 100)?,
                el2: read_int16_scaled(d, 56, 100)?,
                pk,
            },
        )
    }
}

/// Raw club head tracking data, sent in pages. Type `0xEE`.
///
/// The first byte is the length of the data; records of 76 bytes follow.
/// Records that the payload does not hold in full are left out, and an
/// empty payload gives no points.
#[derive(Debug, Clone)]
pub struct ClubPrc {
    /// Tracking points.
    pub points: Vec<ClubPrcPoint>,
}

impl ClubPrc {
    /// How many records a payload of `len` bytes, at least one, with the
    /// length byte `data_len` holds in full.
    pub open spec fn record_count(data_len: u8, len: nat) -> int {
        if data_len as int / 76 <= (len - 1) / 76 {
            data_len as int / 76
        } else {
            (len - 1) / 76
        }
    }

    /// Whether the points are those that the payload `p` lays out.
    pub open spec fn read_from(self, p: Seq<u8>) -> bool {
        if p.len() == 0 {
            self.points@.len() == 0
        } else {
            &&& self.points@.len() == Self::record_count(p[0], p.len())
            &&& forall|i: int|
                0 <= i < self.points@.len() ==> (#[trigger] self.points@[i]).read_from(
                    p.skip(1 + 76 * i),
                )
        }
    }

    /// What decoding the payload `p` gives: always a page of points.
    pub open spec fn decodes(p: Seq<u8>, r: Result<Self, WireError>) -> bool {
        r matches Ok(v) && v.read_from(p)
    }

    /// Decodes one page of points. Every payload decodes.
    pub fn decode(payload: &[u8]) -> (r: Result<Self, WireError>)
        ensures
            Self::decodes(payload@, r),
    {
        let len: usize = payload.len();
        if len == 0 {
            return Ok(ClubPrc { points: Vec::new() });
        }
        let data_len: usize = payload[0] as usize;
        let num_records: usize = data_len / 76;
        let mut points: Vec<ClubPrcPoint> = Vec::new();
        let mut i: usize = 0;
        while i < num_records && 1 + (i + 1) * 76 <= len
            invariant
                i <= num_records <= 3,
                len == payload@.len(),
                1 + i * 76 <= len,
                points@.len() == i,
                forall|k: int|
                    0 <= k < i ==> (#[trigger] points@[k]).read_from(payload@.skip(1 + 76 * k)),
            decreases num_records - i,
        {
            let base: usize = 1 + i * 76;
            let record = slice_subrange(payload, base, len);
            let point = ClubPrcPoint::read(record)?;
            points.push(point);
            i += 1;
        }
        Ok(ClubPrc { points })
    }

    /// The payload of a page request.
    pub open spec fn request_bytes(start_index: u16) -> Seq<u8> {
        seq![0x4Cu8] + crate::codec::be_bytes2(start_index as int) + Seq::new(74, |i: int| 0u8)
    }

    /// Encodes the request for one page: the record size, the index of the
    /// first record wanted, and zeros up to 77 bytes.
    pub fn encode_request(start_index: u16) -> (buf: Vec<u8>)
        ensures
            buf@ == Self::request_bytes(start_index),
            buf@.len() == 77,
    {
        let mut buf: Vec<u8> = Vec::new();
        buf.push(0x4C);
        write_uint16(&mut buf, start_index);
        let mut i: usize = 0;
        while i < 74
            invariant
                i <= 74,
                buf@ == seq![0x4Cu8] + crate::codec::be_bytes2(start_index as int) + Seq::new(
                    i as nat,
                    |k: int| 0u8,
                ),
            decreases 74 - i,
        {
            buf.push(0);
            i += 1;
        }
        buf
    }
}

// ---------------------------------------------------------------------------
// 0xE5: shot state text
// ---------------------------------------------------------------------------

/// What the device says while it processes a shot. Type `0xE5`.
///
/// Plain text such as `BALL TRIGGER`, `Clubimpact`, `PROCESSED`, `IDLE`.
#[derive(Debug, Clone)]
pub struct ShotText {
    pub text: String,
}

impl ShotText {
    /// What decoding the payload `p` gives: always its text, without the
    /// control bytes at either end.
    pub open spec fn decodes(p: Seq<u8>, r: Result<Self, WireError>) -> bool {
        r matches Ok(v) && v.text@ == lossy_text(trim_control(p))
    }

    /// Decodes the message from its payload.
    pub fn decode(payload: &[u8]) -> (r: Result<Self, WireError>)
        ensures
            Self::decodes(payload@, r),
            valid_utf8(trim_control(payload@)) ==> encode_utf8(r->Ok_0.text@) == trim_control(
                payload@,
            ),
    {
        Ok(ShotText { text: decode_trimmed(payload) })
    }

    /// Whether the text says that the shot is processed.
    pub fn is_processed(&self) -> (b: bool)
        ensures
            b == has_substring(self.text@, "PROCESSED"@),
    {
        text_contains(self.text.as_str(), "PROCESSED")
    }

    /// Whether the text says that the device is idle.
    pub fn is_idle(&self) -> (b: bool)
        ensures
            b == has_substring(self.text@, "IDLE"@),
    {
        text_contains(self.text.as_str(), "IDLE")
    }

    /// Whether the text says that the ball triggered the radar.
    pub fn is_trigger(&self) -> (b: bool)
        ensures
            b == has_substring(self.text@, "BALL TRIGGER"@),
    {
        text_contains(self.text.as_str(), "BALL TRIGGER")
    }
}

} // verus!
