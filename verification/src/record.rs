//! What one step of the converter hands to the host.

use vstd::prelude::*;
use vstd::string::StringExecFns;
use visioncortex::PointF64;
use crate::pixels::Color;

verus! {

/// The fill color of a path.
#[derive(Clone, Copy, Debug, PartialEq, Eq, Structural)]
pub struct ColorData {
    pub r: u8,
    pub g: u8,
    pub b: u8,
}

/// One vector path: its description, its fill color and the offset that places it in
/// the image.
#[derive(Debug, PartialEq)]
pub struct PathData {
    pub d: String,
    pub color: ColorData,
    pub offset: PointF64,
}

/// What a step produced, where it produced anything.
#[derive(Debug, PartialEq)]
pub enum TickOutput {
    /// The path of the next region.
    Path(PathData),
    /// Every region has been handed out.
    Complete,
}

/// The word that tells the host that the conversion is complete.
pub open spec fn completion_sentinel_spec() -> Seq<char> {
    "complete"@
}

/// The word that tells the host that the conversion is complete.
pub fn completion_sentinel() -> (word: String)
    ensures
        word@ == completion_sentinel_spec(),
{
    String::from_str("complete")
}

/// The fill color for a region color: its three color channels.
pub open spec fn fill_of(color: Color) -> ColorData {
    ColorData { r: color.r, g: color.g, b: color.b }
}

/// Packs an outline, the color of its region and its offset into a record.
pub fn path_record(d: String, color: Color, offset: PointF64) -> (record: PathData)
    ensures
        record.d == d,
        record.color == fill_of(color),
        record.offset == offset,
{
    PathData { d, color: ColorData { r: color.r, g: color.g, b: color.b }, offset }
}

} // verus!
