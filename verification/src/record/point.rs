//! The three point-family record kinds and their codecs: [`Point`] (x, y),
//! [`PointM`] (x, y, m) and [`PointZ`] (x, y, z, m).
//!
//! Every field holds the 64-bit pattern of a little-endian IEEE-754 double,
//! the format's storage for all coordinates, measures and elevations. Each
//! record is a fixed-size run of such doublewords; the byte layouts are
//!
//! | kind     | layout (offset: field)  | bytes |
//! |----------|-------------------------|-------|
//! | `Point`  | 0: x, 8: y              | 16    |
//! | `PointM` | 0: x, 8: y, 16: m       | 24    |
//! | `PointZ` | 0: x, 8: y, 16: z, 24: m| 32    |
//!
//! In a `PointZ` the elevation precedes the measure on the wire, opposite
//! of what the `PointM`-style suffix order might suggest.

use vstd::prelude::*;
use vstd::bytes::*;

use super::{
    BBox, Error, EsriShape, ReadableShape, ShapeType, ValueRange, is_no_data, push_u64_le,
    read_u64_le_at, spec_is_no_data,
};

verus! {

/// A plain 2-D point. `x` and `y` hold the bit patterns of the two
/// coordinate doubles.
#[derive(Debug, PartialEq, Eq, Structural)]
pub struct Point {
    pub x: u64,
    pub y: u64,
}

impl ReadableShape for Point {
    open spec fn spec_size() -> int {
        16
    }

    open spec fn spec_decoded(bytes: Seq<u8>) -> Point {
        Point {
            x: spec_u64_from_le_bytes(bytes.subrange(0, 8)),
            y: spec_u64_from_le_bytes(bytes.subrange(8, 16)),
        }
    }

    open spec fn spec_shapetype() -> ShapeType {
        ShapeType::Point
    }

    fn shapetype() -> ShapeType {
        ShapeType::Point
    }

    fn read_from(source: &[u8]) -> Result<Point, Error> {
        if source.len() < 16 {
            return Err(Error::NotEnoughBytes);
        }
        let x = read_u64_le_at(source, 0);
        let y = read_u64_le_at(source, 8);
        Ok(Point { x, y })
    }
}

impl EsriShape for Point {
    open spec fn spec_tag(&self) -> ShapeType {
        ShapeType::Point
    }

    open spec fn spec_size_in_bytes(&self) -> int {
        16
    }

    open spec fn spec_encoding(&self) -> Seq<u8> {
        spec_u64_to_le_bytes(self.x) + spec_u64_to_le_bytes(self.y)
    }

    open spec fn spec_bbox(&self) -> BBox {
        BBox { xmin: self.x, ymin: self.y, xmax: self.x, ymax: self.y }
    }

    fn shapetype(&self) -> ShapeType {
        ShapeType::Point
    }

    fn size_in_bytes(&self) -> usize {
        proof {
            lemma_auto_spec_u64_to_from_le_bytes();
        }
        16
    }

    fn write_to(self, dest: &mut Vec<u8>) {
        push_u64_le(dest, self.x);
        push_u64_le(dest, self.y);
        proof {
            assert(dest@ =~= old(dest)@ + self.spec_encoding());
        }
    }

    fn bbox(&self) -> BBox {
        BBox { xmin: self.x, ymin: self.y, xmax: self.x, ymax: self.y }
    }
}

impl Default for Point {
    /// The default point is the origin: both coordinates are the bit
    /// pattern of 0.0, which is zero.
    fn default() -> (p: Point)
        ensures
            p == (Point { x: 0, y: 0 }),
    {
        Point { x: 0, y: 0 }
    }
}

/// A measured 2-D point. `m` holds the bit pattern of the linear-referencing
/// measure, which may carry the format's no-data sentinel.
#[derive(Debug, PartialEq, Eq, Structural)]
pub struct PointM {
    pub x: u64,
    pub y: u64,
    pub m: u64,
}

impl ReadableShape for PointM {
    open spec fn spec_size() -> int {
        24
    }

    open spec fn spec_decoded(bytes: Seq<u8>) -> PointM {
        PointM {
            x: spec_u64_from_le_bytes(bytes.subrange(0, 8)),
            y: spec_u64_from_le_bytes(bytes.subrange(8, 16)),
            m: spec_u64_from_le_bytes(bytes.subrange(16, 24)),
        }
    }

    open spec fn spec_shapetype() -> ShapeType {
        ShapeType::PointM
    }

    fn shapetype() -> ShapeType {
        ShapeType::PointM
    }

    fn read_from(source: &[u8]) -> Result<PointM, Error> {
        let point = match Point::read_from(source) {
            Ok(point) => point,
            Err(err) => {
                return Err(err);
            },
        };
        if source.len() < 24 {
            return Err(Error::NotEnoughBytes);
        }
        let m = read_u64_le_at(source, 16);
        Ok(PointM { x: point.x, y: point.y, m })
    }
}

impl EsriShape for PointM {
    open spec fn spec_tag(&self) -> ShapeType {
        ShapeType::PointM
    }

    open spec fn spec_size_in_bytes(&self) -> int {
        24
    }

    open spec fn spec_encoding(&self) -> Seq<u8> {
        spec_u64_to_le_bytes(self.x) + spec_u64_to_le_bytes(self.y) + spec_u64_to_le_bytes(self.m)
    }

    open spec fn spec_bbox(&self) -> BBox {
        BBox { xmin: self.x, ymin: self.y, xmax: self.x, ymax: self.y }
    }

    fn shapetype(&self) -> ShapeType {
        ShapeType::PointM
    }

    fn size_in_bytes(&self) -> usize {
        proof {
            lemma_auto_spec_u64_to_from_le_bytes();
        }
        24
    }

    fn write_to(self, dest: &mut Vec<u8>) {
        push_u64_le(dest, self.x);
        push_u64_le(dest, self.y);
        push_u64_le(dest, self.m);
        proof {
            assert(dest@ =~= old(dest)@ + self.spec_encoding());
        }
    }

    fn bbox(&self) -> BBox {
        BBox { xmin: self.x, ymin: self.y, xmax: self.x, ymax: self.y }
    }
}

impl PointM {
    /// The measure range this record derives: collapsed to [0.0, 0.0] when
    /// the measure is absent by the no-data convention, else the degenerate
    /// interval [m, m]. The interval ends are bit patterns; 0 is the
    /// pattern of 0.0.
    pub open spec fn spec_m_range(&self) -> ValueRange {
        if spec_is_no_data(self.m) {
            ValueRange { min: 0, max: 0 }
        } else {
            ValueRange { min: self.m, max: self.m }
        }
    }

    /// Derive the measure range of this record.
    pub fn m_range(&self) -> (r: ValueRange)
        ensures
            r == self.spec_m_range(),
    {
        if is_no_data(self.m) {
            ValueRange { min: 0, max: 0 }
        } else {
            ValueRange { min: self.m, max: self.m }
        }
    }
}

/// An elevation point. `z` holds the bit pattern of the elevation, which has
/// no sentinel convention here; `m` holds the measure, which may carry the
/// no-data sentinel. On the wire z comes before m.
#[derive(Debug, PartialEq, Eq, Structural)]
pub struct PointZ {
    pub x: u64,
    pub y: u64,
    pub z: u64,
    pub m: u64,
}

impl ReadableShape for PointZ {
    open spec fn spec_size() -> int {
        32
    }

    open spec fn spec_decoded(bytes: Seq<u8>) -> PointZ {
        PointZ {
            x: spec_u64_from_le_bytes(bytes.subrange(0, 8)),
            y: spec_u64_from_le_bytes(bytes.subrange(8, 16)),
            z: spec_u64_from_le_bytes(bytes.subrange(16, 24)),
            m: spec_u64_from_le_bytes(bytes.subrange(24, 32)),
        }
    }

    open spec fn spec_shapetype() -> ShapeType {
        ShapeType::PointZ
    }

    fn shapetype() -> ShapeType {
        ShapeType::PointZ
    }

    fn read_from(source: &[u8]) -> Result<PointZ, Error> {
        let point = match Point::read_from(source) {
            Ok(point) => point,
            Err(err) => {
                return Err(err);
            },
        };
        if source.len() < 32 {
            return Err(Error::NotEnoughBytes);
        }
        let z = read_u64_le_at(source, 16);
        let m = read_u64_le_at(source, 24);
        Ok(PointZ { x: point.x, y: point.y, z, m })
    }
}

impl EsriShape for PointZ {
    open spec fn spec_tag(&self) -> ShapeType {
        ShapeType::PointZ
    }

    open spec fn spec_size_in_bytes(&self) -> int {
        32
    }

    open spec fn spec_encoding(&self) -> Seq<u8> {
        spec_u64_to_le_bytes(self.x) + spec_u64_to_le_bytes(self.y) + spec_u64_to_le_bytes(self.z)
            + spec_u64_to_le_bytes(self.m)
    }

    open spec fn spec_bbox(&self) -> BBox {
        BBox { xmin: self.x, ymin: self.y, xmax: self.x, ymax: self.y }
    }

    fn shapetype(&self) -> ShapeType {
        ShapeType::PointZ
    }

    fn size_in_bytes(&self) -> usize {
        proof {
            lemma_auto_spec_u64_to_from_le_bytes();
        }
        32
    }

    fn write_to(self, dest: &mut Vec<u8>) {
        push_u64_le(dest, self.x);
        push_u64_le(dest, self.y);
        push_u64_le(dest, self.z);
        push_u64_le(dest, self.m);
        proof {
            assert(dest@ =~= old(dest)@ + self.spec_encoding());
        }
    }

    fn bbox(&self) -> BBox {
        BBox { xmin: self.x, ymin: self.y, xmax: self.x, ymax: self.y }
    }
}

impl PointZ {
    /// The elevation range this record derives: always the degenerate
    /// interval [z, z]; elevations have no no-data convention in this codec.
    pub open spec fn spec_z_range(&self) -> ValueRange {
        ValueRange { min: self.z, max: self.z }
    }

    /// Derive the elevation range of this record.
    pub fn z_range(&self) -> (r: ValueRange)
        ensures
            r == self.spec_z_range(),
    {
        ValueRange { min: self.z, max: self.z }
    }

    /// The measure range this record derives; the rule is the same as for
    /// [`PointM::spec_m_range`].
    pub open spec fn spec_m_range(&self) -> ValueRange {
        if spec_is_no_data(self.m) {
            ValueRange { min: 0, max: 0 }
        } else {
            ValueRange { min: self.m, max: self.m }
        }
    }

    /// Derive the measure range of this record.
    pub fn m_range(&self) -> (r: ValueRange)
        ensures
            r == self.spec_m_range(),
    {
        if is_no_data(self.m) {
            ValueRange { min: 0, max: 0 }
        } else {
            ValueRange { min: self.m, max: self.m }
        }
    }
}

/// Round trip: the encoding of a plain point is exactly one record long,
/// and decoding it yields that same point, bit for bit in both coordinates.
pub proof fn lemma_point_round_trip(p: Point)
    ensures
        p.spec_encoding().len() == Point::spec_size(),
        Point::spec_decoded(p.spec_encoding()) == p,
{
    lemma_auto_spec_u64_to_from_le_bytes();
    let enc = p.spec_encoding();
    assert(enc.subrange(0, 8) =~= spec_u64_to_le_bytes(p.x));
    assert(enc.subrange(8, 16) =~= spec_u64_to_le_bytes(p.y));
}

/// Round trip: the same holds for a measured point, whatever the measure's
/// bit pattern — the no-data sentinel included, since the raw measure is
/// stored unchanged.
pub proof fn lemma_point_m_round_trip(p: PointM)
    ensures
        p.spec_encoding().len() == PointM::spec_size(),
        PointM::spec_decoded(p.spec_encoding()) == p,
{
    lemma_auto_spec_u64_to_from_le_bytes();
    let enc = p.spec_encoding();
    assert(enc.subrange(0, 8) =~= spec_u64_to_le_bytes(p.x));
    assert(enc.subrange(8, 16) =~= spec_u64_to_le_bytes(p.y));
    assert(enc.subrange(16, 24) =~= spec_u64_to_le_bytes(p.m));
}

/// Round trip: the same holds for an elevation point, with the byte order
/// z-before-m preserved by encode and decode alike.
pub proof fn lemma_point_z_round_trip(p: PointZ)
    ensures
        p.spec_encoding().len() == PointZ::spec_size(),
        PointZ::spec_decoded(p.spec_encoding()) == p,
{
    lemma_auto_spec_u64_to_from_le_bytes();
    let enc = p.spec_encoding();
    assert(enc.subrange(0, 8) =~= spec_u64_to_le_bytes(p.x));
    assert(enc.subrange(8, 16) =~= spec_u64_to_le_bytes(p.y));
    assert(enc.subrange(16, 24) =~= spec_u64_to_le_bytes(p.z));
    assert(enc.subrange(24, 32) =~= spec_u64_to_le_bytes(p.m));
}

/// Bounding box: a single point's box is degenerate — both x bounds are the
/// point's x and both y bounds its y. This holds for all three kinds; the
/// measure and the elevation play no part in it.
pub proof fn lemma_bbox_degenerate(p: Point, pm: PointM, pz: PointZ)
    ensures
        p.spec_bbox() == (BBox { xmin: p.x, ymin: p.y, xmax: p.x, ymax: p.y }),
        pm.spec_bbox() == (BBox { xmin: pm.x, ymin: pm.y, xmax: pm.x, ymax: pm.y }),
        pz.spec_bbox() == (BBox { xmin: pz.x, ymin: pz.y, xmax: pz.x, ymax: pz.y }),
{
}

/// Measure range: for either measured kind, a measure at or below the
/// no-data threshold collapses the range to [0.0, 0.0]; any other measure
/// gives the degenerate interval [m, m].
pub proof fn lemma_m_range_rule(pm: PointM, pz: PointZ)
    ensures
        spec_is_no_data(pm.m) ==> pm.spec_m_range() == (ValueRange { min: 0, max: 0 }),
        !spec_is_no_data(pm.m) ==> pm.spec_m_range() == (ValueRange { min: pm.m, max: pm.m }),
        spec_is_no_data(pz.m) ==> pz.spec_m_range() == (ValueRange { min: 0, max: 0 }),
        !spec_is_no_data(pz.m) ==> pz.spec_m_range() == (ValueRange { min: pz.m, max: pz.m }),
{
}

/// Elevation range: always the degenerate interval [z, z], whatever the
/// measure holds — elevations have no no-data convention in this codec.
pub proof fn lemma_z_range_rule(pz: PointZ)
    ensures
        pz.spec_z_range() == (ValueRange { min: pz.z, max: pz.z }),
{
}

/// The static tag a kind decodes under and the tag an encoded value reports
/// agree, for each of the three kinds: one registry code per kind.
pub proof fn lemma_tags_consistent(p: Point, pm: PointM, pz: PointZ)
    ensures
        p.spec_tag() == Point::spec_shapetype(),
        pm.spec_tag() == PointM::spec_shapetype(),
        pz.spec_tag() == PointZ::spec_shapetype(),
        Point::spec_shapetype().spec_code() == 1,
        PointM::spec_shapetype().spec_code() == 21,
        PointZ::spec_shapetype().spec_code() == 11,
{
}

} // verus!

