//! Shared pieces of the record codec: the shape-type registry, the error of
//! a failed decode, the bounding box, the no-data convention for measures,
//! and the little-endian doubleword helpers that the point codecs build on.

use vstd::prelude::*;
use vstd::bytes::*;
use vstd::slice::slice_subrange;

pub mod point;

verus! {

/// Sign bit of an IEEE-754 double's bit pattern.
pub const F64_SIGN_BIT: u64 = 0x8000_0000_0000_0000;

/// Mask selecting everything but the sign: the magnitude of the double.
pub const F64_MAGNITUDE_MASK: u64 = 0x7FFF_FFFF_FFFF_FFFF;

/// Magnitude of an infinite double; anything above it is a NaN pattern.
pub const F64_INFINITY_MAGNITUDE: u64 = 0x7FF0_0000_0000_0000;

/// Bit pattern of the format's "no data" threshold, the double -1.0e38.
/// A measure whose value compares at or below this threshold is absent by
/// the format's convention.
pub const NO_DATA: u64 = 0xC7D2_CED3_2A16_A1B1;

/// Magnitude part of [`NO_DATA`]: the bit pattern of the double 1.0e38.
pub const NO_DATA_MAGNITUDE: u64 = 0x47D2_CED3_2A16_A1B1;

/// Whether the double with bit pattern `bits` compares at or below the
/// no-data threshold -1.0e38, so that the measure it stores is absent.
///
/// Stated on the bit pattern: among negative doubles a larger magnitude
/// means a smaller value, so the value is at or below the (negative)
/// threshold exactly when the sign bit is set and the magnitude is at least
/// the threshold's. Magnitudes above the infinity pattern are NaN, which
/// compares at or below nothing.
pub open spec fn spec_is_no_data(bits: u64) -> bool {
    &&& bits & F64_SIGN_BIT == F64_SIGN_BIT
    &&& bits & F64_MAGNITUDE_MASK >= NO_DATA_MAGNITUDE
    &&& bits & F64_MAGNITUDE_MASK <= F64_INFINITY_MAGNITUDE
}

/// Decide whether the measure with bit pattern `bits` is absent under the
/// format's no-data convention.
pub fn is_no_data(bits: u64) -> (r: bool)
    ensures
        r == spec_is_no_data(bits),
{
    (bits & F64_SIGN_BIT == F64_SIGN_BIT) && (bits & F64_MAGNITUDE_MASK >= NO_DATA_MAGNITUDE)
        && (bits & F64_MAGNITUDE_MASK <= F64_INFINITY_MAGNITUDE)
}

/// The registry of shape-type tags covered by this codec. The format knows
/// each record kind by a fixed numeric code, carried outside the record
/// itself by the enclosing stream.
#[derive(Clone, Copy, Debug, PartialEq, Eq, Structural)]
pub enum ShapeType {
    Point,
    PointM,
    PointZ,
}

impl ShapeType {
    /// The numeric code of this tag in the format's registry.
    pub open spec fn spec_code(self) -> i32 {
        match self {
            ShapeType::Point => 1,
            ShapeType::PointM => 21,
            ShapeType::PointZ => 11,
        }
    }

    /// Return the numeric code of this tag.
    pub fn code(self) -> (c: i32)
        ensures
            c == self.spec_code(),
    {
        match self {
            ShapeType::Point => 1,
            ShapeType::PointM => 21,
            ShapeType::PointZ => 11,
        }
    }
}

/// Why a decode failed. A record is read atomically from a caller-supplied
/// byte slice, so the one way to fail is a source that ends before the
/// record does.
#[derive(Clone, Copy, Debug, PartialEq, Eq, Structural)]
pub enum Error {
    NotEnoughBytes,
}

/// The minimal axis-aligned rectangle around a geometry, each bound the bit
/// pattern of a double. For a single point it is degenerate: min equals max
/// equals the coordinate.
#[derive(Clone, Copy, Debug, PartialEq, Eq, Structural)]
pub struct BBox {
    pub xmin: u64,
    pub ymin: u64,
    pub xmax: u64,
    pub ymax: u64,
}

/// A closed scalar interval, each end the bit pattern of a double; used for
/// the derived measure and elevation ranges.
#[derive(Clone, Copy, Debug, PartialEq, Eq, Structural)]
pub struct ValueRange {
    pub min: u64,
    pub max: u64,
}

/// Decode contract: a shape kind that can be materialized from a byte
/// source. The tag and the byte footprint of a record are properties of the
/// kind, known before any value exists, so that an enclosing reader can
/// dispatch on the tag and slice its stream.
///
/// Decoding is atomic: it either consumes the record's first
/// [`spec_size`](Self::spec_size) bytes of the source and yields exactly the
/// value they encode, or — when the source is shorter than the record —
/// fails, yielding no partial value.
pub trait ReadableShape: Sized {
    /// How many bytes of the source one decoded record covers.
    spec fn spec_size() -> int;

    /// The value stored in the first [`spec_size`](Self::spec_size) bytes of
    /// `bytes`; bytes past that prefix do not matter.
    spec fn spec_decoded(bytes: Seq<u8>) -> Self;

    /// The format tag of this shape kind.
    spec fn spec_shapetype() -> ShapeType;

    /// Return the format tag of this shape kind.
    fn shapetype() -> (t: ShapeType)
        ensures
            t == Self::spec_shapetype(),
    ;

    /// Decode one record from the front of `source`.
    fn read_from(source: &[u8]) -> (r: Result<Self, Error>)
        ensures
            source@.len() >= Self::spec_size() ==> r == Ok::<Self, Error>(
                Self::spec_decoded(source@),
            ),
            source@.len() < Self::spec_size() ==> r == Err::<Self, Error>(Error::NotEnoughBytes),
    ;
}

/// Encode contract: a shape value that can serialize itself as an Esri
/// shape record. Writing consumes the value; tag, byte size and bounding
/// box are queryable beforehand.
pub trait EsriShape: Sized {
    /// The format tag of this value's shape kind.
    spec fn spec_tag(&self) -> ShapeType;

    /// The exact length, in bytes, of this value's serialized form.
    spec fn spec_size_in_bytes(&self) -> int;

    /// The bytes this value serializes to.
    spec fn spec_encoding(&self) -> Seq<u8>;

    /// The bounding box derived from this value's coordinates.
    spec fn spec_bbox(&self) -> BBox;

    /// Return the format tag of this value's shape kind.
    fn shapetype(&self) -> (t: ShapeType)
        ensures
            t == self.spec_tag(),
    ;

    /// Return the exact serialized length of this value, in bytes.
    fn size_in_bytes(&self) -> (n: usize)
        ensures
            n as int == self.spec_size_in_bytes(),
            n as int == self.spec_encoding().len(),
    ;

    /// Serialize this value, appending its encoding to `dest`. The value is
    /// consumed: a shape is written once.
    fn write_to(self, dest: &mut Vec<u8>)
        ensures
            final(dest)@ == old(dest)@ + self.spec_encoding(),
    ;

    /// Derive the bounding box of this value.
    fn bbox(&self) -> (b: BBox)
        ensures
            b == self.spec_bbox(),
    ;
}

/// Append the eight little-endian bytes of `value` to `dest`.
pub(crate) fn push_u64_le(dest: &mut Vec<u8>, value: u64)
    ensures
        final(dest)@ == old(dest)@ + spec_u64_to_le_bytes(value),
{
    let mut bytes = u64_to_le_bytes(value);
    dest.append(&mut bytes);
}

/// Read the little-endian doubleword stored at `offset` in `source`.
pub(crate) fn read_u64_le_at(source: &[u8], offset: usize) -> (v: u64)
    requires
        offset + 8 <= source@.len(),
    ensures
        v == spec_u64_from_le_bytes(source@.subrange(offset as int, offset as int + 8)),
{
    // The slice length is a usize and bounds offset + 8, so the sum fits.
    let _len: usize = source.len();
    let bytes = slice_subrange(source, offset, offset + 8);
    u64_from_le_bytes(bytes)
}

} // verus!
