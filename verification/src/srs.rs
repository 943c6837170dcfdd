//! The structured reference string (SRS): data model, resizing, and the
//! rules for assembling one from locally read or network-fetched bytes.
//!
//! An SRS holds 64 bytes of G1 point data per point, and a G2 set whose
//! length the protocol fixes at 128 bytes. The G1 bytes come either from a
//! raw per-point `.dat` file or from a byte-range fetch of the remote G1
//! dataset; the G2 bytes are either fetched whole or taken from the bundled
//! constant below. The reads themselves happen in the surrounding
//! application; this module owns what the bytes must look like.

use vstd::prelude::*;

use crate::BbError;
use crate::utils::is_subgroup_size;
use crate::utils::compute_subgroup_size;

verus! {

/// The bundled G2 point set. G2 is a small fixed group, so deployments
/// that do not fetch it from the network use this constant.
pub const G2: [u8; 128] = [
    126, 35, 31, 236, 147, 136, 131, 176, 159, 89, 68, 7, 59, 50, 7, 139, 188, 137, 181, 179, 152,
    181, 151, 78, 1, 24, 196, 213, 184, 55, 188, 194, 78, 254, 48, 250, 192, 147, 131, 193, 234,
    81, 216, 122, 53, 142, 3, 139, 231, 255, 78, 88, 7, 145, 222, 232, 38, 14, 1, 178, 81, 246,
    241, 199, 133, 74, 135, 212, 218, 204, 94, 85, 17, 230, 221, 63, 150, 230, 206, 162, 86, 71,
    91, 66, 20, 229, 97, 94, 34, 254, 189, 163, 192, 192, 99, 42, 238, 65, 60, 128, 218, 106, 95,
    228, 156, 242, 160, 70, 65, 249, 155, 164, 210, 81, 86, 193, 187, 154, 114, 133, 4, 252, 99,
    105, 247, 17, 15, 227,
];

/// A structured reference string: G1 point data, G2 point data, and the
/// point count the G1 data covers. Immutable once constructed; resizing
/// returns a new value.
#[derive(Debug, PartialEq)]
pub struct Srs {
    pub g1_data: Vec<u8>,
    pub g2_data: Vec<u8>,
    pub num_points: u32,
}

/// The mathematical image of an [`Srs`]: its byte contents and point count.
pub struct SrsView {
    pub g1: Seq<u8>,
    pub g2: Seq<u8>,
    pub num_points: u32,
}

impl View for Srs {
    type V = SrsView;

    open spec fn view(&self) -> SrsView {
        SrsView { g1: self.g1_data@, g2: self.g2_data@, num_points: self.num_points }
    }
}

impl Srs {
    /// The G1 data holds exactly 64 bytes per point.
    pub open spec fn wf(self) -> bool {
        self.g1_data@.len() == self.num_points * 64
    }

    /// Resizes this SRS to `num_points` points. The same count hands the
    /// value back unchanged; a smaller count truncates the G1 data to
    /// exactly `num_points * 64` bytes and keeps the G2 data; a larger
    /// count is refused with [`BbError::RangeError`], since the missing
    /// points are not there to invent.
    pub fn get(self, num_points: u32) -> (r: Result<Srs, BbError>)
        requires
            self.wf(),
        ensures
            match r {
                Ok(s) => {
                    &&& num_points <= self.num_points
                    &&& s.num_points == num_points
                    &&& s.g1_data@ == self.g1_data@.subrange(0, num_points as int * 64)
                    &&& s.g2_data@ == self.g2_data@
                    &&& s.wf()
                },
                Err(e) => num_points > self.num_points && e == BbError::RangeError,
            },
    {
        if num_points > self.num_points {
            Err(BbError::RangeError)
        } else {
            let mut s = self;
            let _g1_len: usize = s.g1_data.len();
            s.g1_data.truncate((num_points as usize) * 64);
            s.num_points = num_points;
            Ok(s)
        }
    }
}

impl Clone for Srs {
    /// A field-for-field copy.
    fn clone(&self) -> (r: Self)
        ensures
            r.g1_data@ == self.g1_data@,
            r.g2_data@ == self.g2_data@,
            r.num_points == self.num_points,
    {
        Srs {
            g1_data: vstd::slice::slice_to_vec(self.g1_data.as_slice()),
            g2_data: vstd::slice::slice_to_vec(self.g2_data.as_slice()),
            num_points: self.num_points,
        }
    }
}

/// The bundled G2 constant as a byte vector.
pub fn bundled_g2() -> (g2: Vec<u8>)
    ensures
        g2@ == G2@,
        g2@.len() == 128,
{
    vstd::slice::slice_to_vec(G2.as_slice())
}

/// Assembles an SRS from fetched G1 and G2 bytes. The G1 data must cover
/// exactly `num_points` points and the G2 data must have the fixed length
/// the protocol version prescribes; anything else means the fetch went
/// wrong and is refused as [`BbError::NetworkError`] rather than stored
/// truncated.
pub fn assemble_srs(g1_data: Vec<u8>, num_points: u32, g2_data: Vec<u8>) -> (r: Result<
    Srs,
    BbError,
>)
    ensures
        match r {
            Ok(s) => {
                &&& g1_data@.len() == num_points * 64
                &&& g2_data@.len() == 128
                &&& s.g1_data@ == g1_data@
                &&& s.g2_data@ == g2_data@
                &&& s.num_points == num_points
                &&& s.wf()
            },
            Err(e) => {
                &&& (g1_data@.len() != num_points * 64 || g2_data@.len() != 128)
                &&& e == BbError::NetworkError
            },
        },
{
    if (g1_data.len() as u64) != (num_points as u64) * 64 || g2_data.len() != 128 {
        return Err(BbError::NetworkError);
    }
    Ok(Srs { g1_data, g2_data, num_points })
}

/// Assembles an SRS from fetched G1 bytes and the bundled G2 constant, for
/// deployments that do not fetch G2.
pub fn srs_with_bundled_g2(g1_data: Vec<u8>, num_points: u32) -> (r: Result<Srs, BbError>)
    ensures
        match r {
            Ok(s) => {
                &&& g1_data@.len() == num_points * 64
                &&& s.g1_data@ == g1_data@
                &&& s.g2_data@ == G2@
                &&& s.num_points == num_points
                &&& s.wf()
            },
            Err(e) => g1_data@.len() != num_points * 64 && e == BbError::NetworkError,
        },
{
    assemble_srs(g1_data, num_points, bundled_g2())
}

/// Interprets the contents of a raw per-point `.dat` file: 64 bytes per
/// point, no header, sliced down to the requested point count. A file too
/// short for the requested count is refused as
/// [`BbError::LocalFileError`]. G2 comes from the bundled constant.
pub fn srs_from_dat_bytes(data: &Vec<u8>, num_points: u32) -> (r: Result<Srs, BbError>)
    ensures
        match r {
            Ok(s) => {
                &&& num_points * 64 <= data@.len()
                &&& s.num_points == num_points
                &&& s.g1_data@ == data@.subrange(0, num_points as int * 64)
                &&& s.g2_data@ == G2@
                &&& s.wf()
            },
            Err(e) => num_points * 64 > data@.len() && e == BbError::LocalFileError,
        },
{
    let len = data.len();
    if (len as u64) < (num_points as u64) * 64 {
        return Err(BbError::LocalFileError);
    }
    let g1_data = vstd::slice::slice_to_vec(
        vstd::slice::slice_subrange(data.as_slice(), 0, (num_points as usize) * 64),
    );
    Ok(Srs { g1_data, g2_data: bundled_g2(), num_points })
}

/// The last byte offset of a G1 range fetch covering `num_points` points:
/// the fetch asks for bytes `0 ..= num_points * 64 - 1`.
pub fn g1_range_end(num_points: u32) -> (end: u64)
    requires
        num_points >= 1,
    ensures
        end == num_points * 64 - 1,
{
    (num_points as u64) * 64 - 1
}

/// How many SRS points a circuit of `circuit_size` constraints needs: one
/// more than its proving subgroup size.
pub fn srs_points_for_circuit(circuit_size: u32) -> (n: u32)
    requires
        1 <= circuit_size <= 0x8000_0000u32,
    ensures
        n >= 2,
        is_subgroup_size((n - 1) as u32, circuit_size),
{
    compute_subgroup_size(circuit_size) + 1
}

} // verus!
