use vstd::prelude::*;

verus! {

/// Protocol code of an unrotated output.
pub const RR_ROTATE_0: i32 = 1;

/// Protocol code of an output turned by a quarter.
pub const RR_ROTATE_90: i32 = 2;

/// Protocol code of an output turned upside down.
pub const RR_ROTATE_180: i32 = 4;

/// Protocol code of an output turned by three quarters.
pub const RR_ROTATE_270: i32 = 8;

/// The rotation of a CRTC.
#[derive(Clone, Copy, Debug, PartialEq, Eq, Structural)]
pub enum Rotation {
    Rotate0,
    Rotate90,
    Rotate180,
    Rotate270,
}

/// The protocol code of each rotation.
pub open spec fn code_of(r: Rotation) -> i32 {
    match r {
        Rotation::Rotate0 => RR_ROTATE_0,
        Rotation::Rotate90 => RR_ROTATE_90,
        Rotation::Rotate180 => RR_ROTATE_180,
        Rotation::Rotate270 => RR_ROTATE_270,
    }
}

/// The rotation that a protocol code names, if it names one.
pub open spec fn rotation_of(code: i32) -> Option<Rotation> {
    if code == RR_ROTATE_0 {
        Some(Rotation::Rotate0)
    } else if code == RR_ROTATE_90 {
        Some(Rotation::Rotate90)
    } else if code == RR_ROTATE_180 {
        Some(Rotation::Rotate180)
    } else if code == RR_ROTATE_270 {
        Some(Rotation::Rotate270)
    } else {
        None
    }
}

impl Rotation {
    /// Decodes a protocol rotation code; any code but the four defined ones
    /// gives `None`.
    pub fn from_code(code: i32) -> (r: Option<Rotation>)
        ensures
            r == rotation_of(code),
            code == RR_ROTATE_0 ==> r == Some(Rotation::Rotate0),
            code == RR_ROTATE_90 ==> r == Some(Rotation::Rotate90),
            code == RR_ROTATE_180 ==> r == Some(Rotation::Rotate180),
            code == RR_ROTATE_270 ==> r == Some(Rotation::Rotate270),
            r is None <==> (code != RR_ROTATE_0 && code != RR_ROTATE_90 && code
                != RR_ROTATE_180 && code != RR_ROTATE_270),
    {
        if code == RR_ROTATE_0 {
            Some(Rotation::Rotate0)
        } else if code == RR_ROTATE_90 {
            Some(Rotation::Rotate90)
        } else if code == RR_ROTATE_180 {
            Some(Rotation::Rotate180)
        } else if code == RR_ROTATE_270 {
            Some(Rotation::Rotate270)
        } else {
            None
        }
    }
}

/// Decoding is total and exhaustive: exactly the four defined codes name a
/// rotation, every rotation is named by its own code, and decoding a code
/// that names a rotation gives back that code.
pub proof fn lemma_rotation_codes_exhaustive(code: i32, r: Rotation)
    ensures
        rotation_of(code) is Some <==> (code == RR_ROTATE_0 || code == RR_ROTATE_90 || code
            == RR_ROTATE_180 || code == RR_ROTATE_270),
        rotation_of(code_of(r)) == Some(r),
        rotation_of(code) == Some(r) ==> code_of(r) == code,
{
}

} // verus!
