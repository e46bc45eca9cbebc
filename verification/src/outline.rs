//! The outline fitter of `visioncortex`: from one region to the description of its outline.
//!
//! Nothing in this module is proved; `trace_region` states when the fitter can be called.

use vstd::prelude::*;
use serde_json::Number;
use visioncortex::color_clusters::Clusters;
use visioncortex::{PathSimplifyMode, Point2, PointF64};
use crate::engine::{region_count, region_pixels_of, source_of};
use crate::perimeter::traceable;

verus! {

/// A point of `visioncortex`; the converter only passes it on.
#[verifier::external_type_specification]
#[verifier::external_body]
#[verifier::reject_recursive_types(T)]
pub struct ExPoint2<T>(Point2<T>);

/// A JSON number; the tolerances of the fitter are kept as they came.
#[verifier::external_type_specification]
#[verifier::external_body]
pub struct ExNumber(Number);

/// The most decimal digits that a path description can be asked for.
pub const MAX_PATH_PRECISION: u32 = 65_535;

/// The longest outline, in open pixel sides, of a region that is handed to the tracer.
///
/// The tracer numbers the connected parts of a region, and then the holes of each part,
/// with 16-bit labels, and gives up at label 65535. A label for a part starts at a pixel
/// of the region whose top side is open. A label for a hole starts at a pixel outside the
/// region that lies below or to the right of a pixel of the part, across an open side,
/// or, once for each part, in the top left corner of the part's bounding box. The tracer
/// also gives up on an outline of more than a million steps, each of which runs along an
/// open side. With at most this many open sides a region stays below the label limit and
/// far below the step limit.
pub const MAX_OUTLINE_EDGES: usize = 65_533;

/// How the fitter simplifies the outline that it has walked.
#[derive(Clone, Copy, Debug, PartialEq, Eq, Structural)]
pub enum SimplifyMode {
    /// The outline as walked, pixel edge by pixel edge.
    Plain,
    /// The outline without its staircases.
    Polygon,
    /// The outline smoothed and fitted with curves.
    Spline,
}

/// `Cluster::to_compound_path` on output region number `index`, then
/// `CompoundPath::to_svg_string`: the closed outline of the region as a path description
/// in relative coordinates, and the offset that places it in the image.
///
/// The tracer indexes the output regions by `index`. In spline mode it smooths the outline
/// and asserts `max_iterations > 0` before it does. It labels the parts and holes of the
/// region with 16-bit numbers and walks at most a million steps along one outline; see
/// `MAX_OUTLINE_EDGES`. It squares differences of coordinates in 32-bit arithmetic; see
/// `MAX_SIDE`. Numbers are printed with `precision` digits, which the formatter takes up
/// to 65535. Nothing is said of the outline itself.
#[verifier::external_body]
pub(crate) fn trace_region(
    clusters: &Clusters,
    index: usize,
    mode: SimplifyMode,
    corner_threshold: &Number,
    length_threshold: &Number,
    max_iterations: usize,
    splice_threshold: &Number,
    precision: u32,
) -> (outline: (String, PointF64))
    requires
        index < region_count(*clusters),
        traceable(
            region_pixels_of(*clusters, index as nat),
            source_of(*clusters).image.width,
            source_of(*clusters).image.height,
        ),
        mode == SimplifyMode::Spline ==> max_iterations > 0,
        precision <= MAX_PATH_PRECISION,
{
    let view = clusters.view();
    let cluster = view.get_cluster(view.clusters_output[index]);
    let mode = match mode {
        SimplifyMode::Plain => PathSimplifyMode::None,
        SimplifyMode::Polygon => PathSimplifyMode::Polygon,
        SimplifyMode::Spline => PathSimplifyMode::Spline,
    };
    let (corner, length) = (corner_threshold.as_f64().unwrap_or_default(), length_threshold.as_f64().unwrap_or_default());
    let splice = splice_threshold.as_f64().unwrap_or_default();
    let paths = cluster.to_compound_path(&view, false, mode, corner, length, max_iterations, splice);
    paths.to_svg_string(true, PointF64::default(), Some(precision))
}

} // verus!
