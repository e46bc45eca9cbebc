//! The segmentation engine of `visioncortex`, as far as the converter drives it.
//!
//! Nothing in this module is proved. Each item states what the source of
//! `visioncortex::color_clusters` shows of one function, over a small model: a builder
//! works on a `Job`, reports a percentage and at some point is finished; a set of
//! clusters comes from a job and holds a number of regions, each with a color and a
//! list of pixels.

use vstd::prelude::*;
use visioncortex::color_clusters::{Clusters, IncrementalBuilder};
use crate::pixels::{Color, Image, PixelBuffer};

verus! {

/// The largest image, in pixels, that is handed to the engine.
///
/// The engine adds up the color channels of the pixels of a region in 32-bit unsigned
/// sums: 255 times this many pixels is the most that such a sum holds. Its 32-bit
/// counters and positions stay in range with it.
pub const MAX_PIXELS: usize = 16_843_009;

/// The longest side, in pixels, of an image that is handed to the engine.
///
/// The outline tracer squares differences of coordinates in 32-bit signed arithmetic.
pub const MAX_SIDE: usize = 46_340;

/// The hierarchy depth that lets the engine build its full tree of regions.
pub const HIERARCHICAL_MAX: u32 = 0xFFFF_FFFF;

/// The state of one segmentation pass, as `visioncortex` keeps it.
#[verifier::external_type_specification]
#[verifier::external_body]
pub struct ExIncrementalBuilder(IncrementalBuilder);

/// The regions that a segmentation pass hands out.
#[verifier::external_type_specification]
#[verifier::external_body]
pub struct ExClusters(Clusters);

/// What the engine does with pixels of the key color.
#[derive(Clone, Copy, Debug, PartialEq, Eq, Structural)]
pub enum KeyingAction {
    /// They make up a region of their own.
    Keep,
    /// They belong to no region.
    Discard,
}

/// The tunable parameters of one segmentation pass, field for field those of
/// `visioncortex::color_clusters::RunnerConfig`.
#[derive(Clone, Copy, Debug, PartialEq, Eq)]
pub struct SegmentationConfig {
    pub diagonal: bool,
    pub hierarchical: u32,
    pub batch_size: i32,
    pub good_min_area: usize,
    pub good_max_area: usize,
    pub is_same_color_a: i32,
    pub is_same_color_b: i32,
    pub deepen_diff: i32,
    pub hollow_neighbours: usize,
    pub key_color: Color,
    pub keying_action: KeyingAction,
}

/// One segmentation pass as a mathematical object: its parameters and the image it works on.
pub struct Job {
    pub config: SegmentationConfig,
    pub image: Image,
}

impl Job {
    /// The jobs that the engine and the outline tracer can take without giving up:
    /// a complete pixel grid of at most `MAX_PIXELS` pixels with no side longer than
    /// `MAX_SIDE`, a color shift that fits a byte, a hierarchy of at least one level and
    /// a batch of at least one pixel.
    pub open spec fn admissible(self) -> bool {
        &&& self.image.wf()
        &&& self.image.width <= MAX_SIDE
        &&& self.image.height <= MAX_SIDE
        &&& self.image.width * self.image.height <= MAX_PIXELS
        &&& 0 <= self.config.is_same_color_a < 8
        &&& self.config.hierarchical != 0
        &&& 0 < self.config.batch_size
    }

    /// Whether the engine leaves a pixel of this color out of every region: it does so
    /// with pixels of the key color where it has one and is told to discard them.
    pub open spec fn drops(self, color: Color) -> bool {
        &&& self.config.key_color != Color::none()
        &&& self.config.keying_action == KeyingAction::Discard
        &&& color == self.config.key_color
    }

    /// Whether the engine has a percentage to report: it computes one as a share of the
    /// pixels and of the region sizes, and has neither where every pixel is dropped.
    pub open spec fn reports(self) -> bool {
        exists|i: int| 0 <= i < self.image.pixels.len() && !self.drops(#[trigger] self.image.pixels[i])
    }
}

/// The job that a builder still works on; `None` once it has handed out its result.
pub uninterp spec fn job_of(builder: IncrementalBuilder) -> Option<Job>;

/// The percentage that a builder reports for its own work. It is read only of a builder
/// that has one to report.
pub uninterp spec fn percent_of(builder: IncrementalBuilder) -> nat;

/// Whether a builder has done all its work, so that a further step changes nothing.
pub uninterp spec fn finished_of(builder: IncrementalBuilder) -> bool;

/// The job that a set of clusters is the result of.
pub uninterp spec fn source_of(clusters: Clusters) -> Job;

/// The number of regions that a set of clusters puts out.
pub uninterp spec fn region_count(clusters: Clusters) -> nat;

/// The representative color of output region number `index`.
pub uninterp spec fn region_color(clusters: Clusters, index: nat) -> Color;

/// The pixels of output region number `index`, each by its row-major position in the
/// region map, in the order in which the engine keeps them.
pub uninterp spec fn region_pixels_of(clusters: Clusters, index: nat) -> Seq<u32>;

/// `Runner::new` followed by `Runner::start`: a builder for the given parameters and image,
/// with no work done yet.
///
/// `Runner::builder` asserts `is_same_color_a < 8` and shifts color channels by it. The
/// builder keeps the image and the parameters for all its life.
#[verifier::external_body]
pub(crate) fn start_segmentation(config: SegmentationConfig, image: PixelBuffer) -> (builder:
    IncrementalBuilder)
    requires
        image.wf(),
        (Job { config, image: image@ }).admissible(),
    ensures
        job_of(builder) == Some(Job { config, image: image@ }),
{
    let SegmentationConfig { diagonal, hierarchical, batch_size, good_min_area, good_max_area, is_same_color_a, is_same_color_b, deepen_diff, hollow_neighbours, key_color: k, keying_action } = config;
    let image = visioncortex::ColorImage { pixels: image.pixels, width: image.width, height: image.height };
    let key_color = visioncortex::Color::new_rgba(k.r, k.g, k.b, k.a);
    let keying_action = match keying_action {
        KeyingAction::Keep => visioncortex::color_clusters::KeyingAction::Keep,
        KeyingAction::Discard => visioncortex::color_clusters::KeyingAction::Discard,
    };
    let config = visioncortex::color_clusters::RunnerConfig { diagonal, hierarchical, batch_size, good_min_area, good_max_area, is_same_color_a, is_same_color_b, deepen_diff, hollow_neighbours, key_color, keying_action };
    visioncortex::color_clusters::Runner::new(config, image).start()
}

/// `IncrementalBuilder::tick`: one batch of work.
///
/// It unwraps the builder's state, which `result` takes away. It answers `true` exactly
/// when all work had been done before the call, and then touches nothing; otherwise it
/// works on one batch and answers `false`. The job stays the same.
pub assume_specification[ IncrementalBuilder::tick ](builder: &mut IncrementalBuilder) -> (done:
    bool)
    requires
        job_of(*old(builder)) matches Some(job) && job.admissible(),
    ensures
        done == finished_of(*old(builder)),
        done ==> *final(builder) == *old(builder),
        job_of(*final(builder)) == job_of(*old(builder)),
;

/// `IncrementalBuilder::progress`: the builder's own percentage.
///
/// In its first stage the engine divides by the number of pixels and in its second by the
/// number of region sizes, so it has nothing to report where no pixel enters a region.
pub assume_specification[ IncrementalBuilder::progress ](builder: &IncrementalBuilder) -> (percent:
    u32)
    requires
        job_of(*builder) matches Some(job) && job.admissible() && job.reports(),
    ensures
        percent == percent_of(*builder),
;

/// `IncrementalBuilder::result`: takes the clusters out of the builder, which is empty
/// afterwards.
pub assume_specification[ IncrementalBuilder::result ](builder: &mut IncrementalBuilder) -> (clusters:
    Clusters)
    requires
        job_of(*old(builder)) matches Some(job) && job.admissible(),
    ensures
        job_of(*final(builder)) is None,
        job_of(*old(builder)) == Some(source_of(clusters)),
;

/// `Clusters::output_len`: the number of output regions.
pub assume_specification[ Clusters::output_len ](clusters: &Clusters) -> (count: usize)
    ensures
        count == region_count(*clusters),
;

/// `Clusters::view` and `ClustersView::to_color_image`: every output region painted in its
/// color on a fresh image of the size of the region map, which is the size of the job's
/// image.
///
/// Painting a region divides by the number of pixels behind its color, which is at least
/// one for every output region of a hierarchical job.
#[verifier::external_body]
pub(crate) fn residue_image(clusters: &Clusters) -> (image: PixelBuffer)
    requires
        source_of(*clusters).admissible(),
    ensures
        image.wf(),
        image@.width == source_of(*clusters).image.width,
        image@.height == source_of(*clusters).image.height,
{
    let image = clusters.view().to_color_image();
    PixelBuffer { pixels: image.pixels, width: image.width, height: image.height }
}

/// `ClustersView::get_cluster` on output region number `index` and `Cluster::residue_color`
/// of it: the average of the colors behind the region, channel by channel.
///
/// The average divides by the number of those colors, which is at least one for every
/// output region of a hierarchical job.
#[verifier::external_body]
pub(crate) fn residue_color(clusters: &Clusters, index: usize) -> (color: Color)
    requires
        index < region_count(*clusters),
        source_of(*clusters).admissible(),
    ensures
        color == region_color(*clusters, index as nat),
{
    let view = clusters.view();
    let color = view.get_cluster(view.clusters_output[index]).residue_color();
    Color { r: color.r, g: color.g, b: color.b, a: color.a }
}

/// `ClustersView::get_cluster` on output region number `index` and a copy of its field
/// `indices`: the list of the pixels of the region.
#[verifier::external_body]
pub(crate) fn region_pixels(clusters: &Clusters, index: usize) -> (pixels: Vec<u32>)
    requires
        index < region_count(*clusters),
    ensures
        pixels@ == region_pixels_of(*clusters, index as nat),
{
    let view = clusters.view();
    view.get_cluster(view.clusters_output[index]).indices.clone()
}

} // verus!
