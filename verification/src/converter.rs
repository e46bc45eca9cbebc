//! The stage controller: it takes an image, drives the segmentation engine in small
//! steps through one or two passes and then hands out one path per region.

use vstd::prelude::*;
use visioncortex::color_clusters::{Clusters, IncrementalBuilder};
use crate::engine::{
    Job, KeyingAction, MAX_PIXELS, MAX_SIDE, SegmentationConfig, finished_of, job_of, percent_of,
    region_color, region_count, region_pixels, region_pixels_of, residue_color, residue_image,
    source_of, start_segmentation,
};
use crate::error::ConverterError;
use crate::keying::{key_choice, keyed_image, run_keyer};
use crate::laws::{complete, engine_kept_pace, lemma_completion_step, lemma_step_keeps_progress};
use crate::outline::{SimplifyMode, trace_region};
use crate::perimeter::{is_traceable, traceable};
use crate::params::{
    ColorImageConverterParams, Hierarchy, first_pass_config, hierarchy_of,
    make_first_pass_config, make_second_pass_config, parse_hierarchy, path_simplify_mode,
    second_pass_config, simplify_mode_of,
};
use crate::pixels::{Color, Image, PixelBuffer, colors_of};
use crate::record::{PathData, TickOutput, fill_of, path_record};

verus! {

/// Where a conversion stands.
#[derive(Clone, Copy, Debug, PartialEq, Eq, Structural)]
pub enum Phase {
    /// No image has been handed over.
    Uninitialized,
    /// The first segmentation pass is running.
    SegmentingPhase1,
    /// The second segmentation pass, over the picture of the first, is running.
    SegmentingPhase2,
    /// Regions are turned into paths, one per step.
    Vectorizing,
}

/// The stage of a conversion together with what the stage works on.
pub enum Stage {
    /// No image yet.
    New,
    /// The first pass and its builder.
    Clustering(IncrementalBuilder),
    /// The second pass and its builder.
    Reclustering(IncrementalBuilder),
    /// The regions that are handed out one by one.
    Vectorize(Clusters),
}

/// What the controller does after a batch of segmentation.
#[derive(Clone, Copy, Debug, PartialEq, Eq, Structural)]
pub enum Transition {
    /// The pass has more work: stay.
    Stay,
    /// The pass is done and its regions are vectorized.
    ToVectorize,
    /// The first pass is done and a second one follows.
    ToRecluster,
}

/// What follows a batch of the first pass: nothing while the engine has work left;
/// after that the paths in stacked mode, the second pass in cutout mode, and an error
/// for any other selector.
pub open spec fn after_first_pass(selector: Seq<char>, done: bool) -> Result<Transition, Seq<char>> {
    if !done {
        Ok(Transition::Stay)
    } else {
        match hierarchy_of(selector) {
            Some(Hierarchy::Stacked) => Ok(Transition::ToVectorize),
            Some(Hierarchy::Cutout) => Ok(Transition::ToRecluster),
            None => Err(selector),
        }
    }
}

/// Decides what follows a batch of the first pass, given whether the engine was done.
/// An unknown selector is an error only once the pass is done, and the error names it.
pub fn first_pass_transition(selector: &String, done: bool) -> (next: Result<
    Transition,
    ConverterError,
>)
    ensures
        match after_first_pass(selector@, done) {
            Ok(transition) => next == Ok::<Transition, ConverterError>(transition),
            Err(_) => next == Err::<Transition, ConverterError>(
                ConverterError::UnknownMode(*selector),
            ),
        },
{
    if !done {
        return Ok(Transition::Stay);
    }
    match parse_hierarchy(selector.as_str()) {
        Some(Hierarchy::Stacked) => Ok(Transition::ToVectorize),
        Some(Hierarchy::Cutout) => Ok(Transition::ToRecluster),
        None => Err(ConverterError::UnknownMode(selector.clone())),
    }
}

/// Decides what follows a batch of the second pass: the paths, once the engine is done.
pub fn second_pass_transition(done: bool) -> (next: Transition)
    ensures
        next == if done {
            Transition::ToVectorize
        } else {
            Transition::Stay
        },
{
    if done {
        Transition::ToVectorize
    } else {
        Transition::Stay
    }
}

/// The progress of the first pass: half of what the engine reports, and never more than
/// the fifty that the first pass has of the scale.
pub open spec fn segmenting_progress_spec(engine_percent: nat) -> int {
    if engine_percent >= 100 {
        50
    } else {
        engine_percent as int / 2
    }
}

/// The progress while paths are handed out: the second half of the scale in proportion
/// to the regions done, rounded down. With no region at all the work is done.
pub open spec fn vectorizing_progress_spec(cursor: nat, regions: nat) -> int {
    if regions == 0 {
        100
    } else {
        50 + (50 * cursor) as int / regions as int
    }
}

/// Computes the progress of the first pass from the engine's percentage.
pub fn segmenting_progress(engine_percent: u32) -> (percent: i32)
    ensures
        percent == segmenting_progress_spec(engine_percent as nat),
        0 <= percent <= 50,
        engine_percent <= 100 ==> percent == engine_percent / 2,
{
    if engine_percent >= 100 {
        50
    } else {
        (engine_percent / 2) as i32
    }
}

/// Computes the progress while paths are handed out.
pub fn vectorizing_progress(cursor: usize, regions: usize) -> (percent: i32)
    requires
        cursor <= regions,
    ensures
        percent == vectorizing_progress_spec(cursor as nat, regions as nat),
        50 <= percent <= 100,
        percent == 100 <==> cursor == regions,
{
    if regions == 0 {
        return 100;
    }
    let done: u128 = 50 * (cursor as u128);
    let share: u128 = done / (regions as u128);
    proof {
        lemma_share_of_fifty(cursor as int, regions as int);
    }
    50 + share as i32
}

/// The share of fifty that `cursor` of `regions` makes: at most fifty, and fifty only at
/// the end.
pub proof fn lemma_share_of_fifty(cursor: int, regions: int)
    requires
        0 <= cursor <= regions,
        0 < regions,
    ensures
        0 <= (50 * cursor) / regions <= 50,
        (50 * cursor) / regions == 50 <==> cursor == regions,
{
    assert(0 <= (50 * cursor) / regions <= 50 && ((50 * cursor) / regions == 50 <==> cursor
        == regions)) by (nonlinear_arith)
        requires
            0 <= cursor <= regions,
            0 < regions,
    ;
}

/// Tells whether the engine will put any pixel of the image into a region, which is
/// when it has a percentage to report.
pub fn job_reports(config: &SegmentationConfig, img: &PixelBuffer) -> (reports: bool)
    requires
        img.wf(),
    ensures
        reports == (Job { config: *config, image: img@ }).reports(),
{
    let ghost job = Job { config: *config, image: img@ };
    let count: usize = img.pixel_count();
    let drops_key: bool = config.key_color != Color::default() && config.keying_action
        == KeyingAction::Discard;
    let mut i: usize = 0;
    while i < count
        invariant
            img.wf(),
            job == (Job { config: *config, image: img@ }),
            count == img@.pixels.len(),
            drops_key == (config.key_color != Color::none() && config.keying_action
                == KeyingAction::Discard),
            i <= count,
            forall|j: int| 0 <= j < i ==> job.drops(#[trigger] img@.pixels[j]),
        decreases count - i,
    {
        let pixel = img.get_pixel_at(i);
        if !(drops_key && pixel == config.key_color) {
            assert(!job.drops(job.image.pixels[i as int]));
            return true;
        }
        i = i + 1;
    }
    false
}

/// Converts one image into paths, step by step.
pub struct ColorImageConverter {
    /// Where the conversion stands, with the builder or the regions of that stage.
    pub(crate) stage: Stage,
    /// The number of regions that have been handed out.
    pub(crate) counter: usize,
    /// How outlines are simplified, as the options say.
    pub(crate) mode: SimplifyMode,
    /// The options.
    pub(crate) params: ColorImageConverterParams,
    /// Whether the engine of the first pass has a percentage to report.
    pub(crate) reports: bool,
    /// The width of the image, which every region map shares.
    pub(crate) width: usize,
    /// The height of the image, which every region map shares.
    pub(crate) height: usize,
}

impl ColorImageConverter {
    /// What holds of every converter: the simplification is the one that the options
    /// name, a running pass works on a job that the engine can take, the cursor has not
    /// passed the last region, and from the first image on the numeric options are such
    /// that the outline fitter can take them.
    #[verifier::type_invariant]
    pub open(crate) spec fn wf(&self) -> bool {
        &&& self.mode == simplify_mode_of(self.params.mode@)
        &&& match self.stage {
            Stage::New => true,
            Stage::Clustering(builder) => {
                &&& job_of(builder) matches Some(job)
                &&& job.admissible()
                &&& self.covers(job)
                &&& self.reports == job.reports()
                &&& self.params.supported()
            },
            Stage::Reclustering(builder) => {
                &&& job_of(builder) matches Some(job)
                &&& job.admissible()
                &&& self.covers(job)
                &&& self.params.supported()
            },
            Stage::Vectorize(clusters) => {
                &&& source_of(clusters).admissible()
                &&& self.covers(source_of(clusters))
                &&& self.counter <= region_count(clusters)
                &&& self.params.supported()
            },
        }
    }

    /// The converter has noted the size of the job's image.
    pub open(crate) spec fn covers(&self, job: Job) -> bool {
        self.width == job.image.width && self.height == job.image.height
    }

    /// The phase that the converter is in.
    pub open(crate) spec fn spec_phase(&self) -> Phase {
        match self.stage {
            Stage::New => Phase::Uninitialized,
            Stage::Clustering(_) => Phase::SegmentingPhase1,
            Stage::Reclustering(_) => Phase::SegmentingPhase2,
            Stage::Vectorize(_) => Phase::Vectorizing,
        }
    }

    /// The number of regions that have been handed out.
    pub open(crate) spec fn cursor(&self) -> nat {
        self.counter as nat
    }

    /// The number of regions to hand out; zero before there are any.
    pub open(crate) spec fn regions(&self) -> nat {
        match self.stage {
            Stage::Vectorize(clusters) => region_count(clusters),
            _ => 0,
        }
    }

    /// What the engine reports for the first pass; zero outside it.
    pub open(crate) spec fn engine_percent(&self) -> nat {
        match self.stage {
            Stage::Clustering(builder) => percent_of(builder),
            _ => 0,
        }
    }

    /// Whether the engine has a percentage to report for the first pass.
    pub open(crate) spec fn engine_reports(&self) -> bool {
        self.spec_phase() == Phase::SegmentingPhase1 && self.reports
    }

    /// The options that the converter was made with.
    pub open(crate) spec fn settings(&self) -> ColorImageConverterParams {
        self.params
    }

    /// Every region has been handed out.
    pub open(crate) spec fn is_complete(&self) -> bool {
        self.spec_phase() == Phase::Vectorizing && self.cursor() == self.regions()
    }

    /// The percentage of the whole conversion that is done.
    ///
    /// Nothing before the first image; in the first pass half of what the engine reports,
    /// and nothing where the engine has nothing to report; fifty throughout the second
    /// pass; and from fifty to a hundred in proportion to the regions handed out.
    pub open(crate) spec fn spec_progress(&self) -> int {
        match self.stage {
            Stage::New => 0,
            Stage::Clustering(builder) => if self.reports {
                segmenting_progress_spec(percent_of(builder))
            } else {
                0
            },
            Stage::Reclustering(_) => 50,
            Stage::Vectorize(clusters) => vectorizing_progress_spec(
                self.cursor(),
                region_count(clusters),
            ),
        }
    }

    /// The options are those of `other`.
    pub open(crate) spec fn keeps_settings_of(&self, other: &ColorImageConverter) -> bool {
        self.params == other.params && self.mode == other.mode
    }

    /// Why `init` refuses an image, if it does. The checks come in this order: the
    /// buffer holds four bytes per pixel; no side exceeds `MAX_SIDE` and the pixel count
    /// does not exceed `MAX_PIXELS`; the hierarchy selector is known; the numeric options
    /// are supported.
    pub open(crate) spec fn refusal(&self, width: usize, height: usize, bytes: Seq<u8>) -> Option<
        ConverterError,
    > {
        if bytes.len() != 4 * (width * height) {
            Some(ConverterError::InvalidImageSize)
        } else if width > MAX_SIDE || height > MAX_SIDE || width * height > MAX_PIXELS {
            Some(ConverterError::ImageTooLarge)
        } else if hierarchy_of(self.params.hierarchical@) is None {
            Some(ConverterError::UnknownMode(self.params.hierarchical))
        } else if !self.params.supported() {
            Some(ConverterError::InvalidParameter)
        } else {
            None
        }
    }

    /// The job of the first pass over an image: the image after keying, and the options
    /// with the key color that the keyer chose.
    pub open(crate) spec fn first_job(&self, img: Image) -> Job {
        Job {
            config: first_pass_config(
                self.params,
                hierarchy_of(self.params.hierarchical@).unwrap(),
                key_choice(img),
                img.width * img.height,
            ),
            image: keyed_image(img),
        }
    }

    /// The relation between a converter before it is given an image, the converter after
    /// that and what `init` returned.
    ///
    /// A refused image leaves the converter as it was. An accepted one starts the first
    /// pass on `first_job` and sets the cursor to zero.
    pub open(crate) spec fn inits_to(
        &self,
        next: ColorImageConverter,
        width: usize,
        height: usize,
        bytes: Seq<u8>,
        out: Result<(), ConverterError>,
    ) -> bool {
        &&& next.wf()
        &&& match self.refusal(width, height, bytes) {
            Some(error) => out == Err::<(), ConverterError>(error) && next == *self,
            None => {
                &&& out == Ok::<(), ConverterError>(())
                &&& next.stage matches Stage::Clustering(builder)
                &&& job_of(builder) == Some(
                    self.first_job(
                        Image {
                            width: width as nat,
                            height: height as nat,
                            pixels: colors_of(bytes),
                        },
                    ),
                )
                &&& next.counter == 0
                &&& next.keeps_settings_of(self)
            },
        }
    }

    /// The relation between a converter before a step, the converter after it and what
    /// the step returned.
    ///
    /// - Before the first image the step fails and changes nothing.
    /// - In a segmentation pass the engine works on one batch. While it is not done the
    ///   pass goes on with the same job. Once the first pass is done, stacked mode moves
    ///   on to the paths of its regions; cutout mode starts the second pass on a picture
    ///   of the regions, of the size of the image; any other selector is an error that
    ///   leaves the converter as it was. Once the second pass is done its regions are
    ///   vectorized. All these steps return no record.
    /// - While regions are left, the step returns the path of the next one, filled with
    ///   the color of that region, and moves the cursor by one. A region whose outline
    ///   the tracer cannot take is an error that leaves the converter as it was.
    /// - After the last region the step reports completion and changes nothing.
    pub open(crate) spec fn ticks_to(
        &self,
        next: ColorImageConverter,
        out: Result<Option<TickOutput>, ConverterError>,
    ) -> bool {
        &&& next.wf()
        &&& match self.stage {
            Stage::New => {
                &&& out == Err::<Option<TickOutput>, ConverterError>(ConverterError::Uninitialized)
                &&& next == *self
            },
            Stage::Clustering(builder) => match after_first_pass(
                self.params.hierarchical@,
                finished_of(builder),
            ) {
                Ok(Transition::Stay) => {
                    &&& out == Ok::<Option<TickOutput>, ConverterError>(None)
                    &&& next.stage matches Stage::Clustering(after)
                    &&& job_of(after) == job_of(builder)
                    &&& next.counter == self.counter
                    &&& next.keeps_settings_of(self)
                },
                Ok(Transition::ToVectorize) => {
                    &&& out == Ok::<Option<TickOutput>, ConverterError>(None)
                    &&& next.stage matches Stage::Vectorize(clusters)
                    &&& job_of(builder) == Some(source_of(clusters))
                    &&& next.counter == 0
                    &&& next.keeps_settings_of(self)
                },
                Ok(Transition::ToRecluster) => {
                    &&& out == Ok::<Option<TickOutput>, ConverterError>(None)
                    &&& next.stage matches Stage::Reclustering(second)
                    &&& job_of(builder) matches Some(first)
                    &&& job_of(second) matches Some(job)
                    &&& job.config == second_pass_config(first.image.width * first.image.height)
                    &&& job.image.width == first.image.width
                    &&& job.image.height == first.image.height
                    &&& job.image.wf()
                    &&& next.counter == self.counter
                    &&& next.keeps_settings_of(self)
                },
                Err(_) => {
                    &&& out == Err::<Option<TickOutput>, ConverterError>(
                        ConverterError::UnknownMode(self.params.hierarchical),
                    )
                    &&& next == *self
                },
            },
            Stage::Reclustering(builder) => if finished_of(builder) {
                &&& out == Ok::<Option<TickOutput>, ConverterError>(None)
                &&& next.stage matches Stage::Vectorize(clusters)
                &&& job_of(builder) == Some(source_of(clusters))
                &&& next.counter == 0
                &&& next.keeps_settings_of(self)
            } else {
                &&& out == Ok::<Option<TickOutput>, ConverterError>(None)
                &&& next.stage matches Stage::Reclustering(after)
                &&& job_of(after) == job_of(builder)
                &&& next.counter == self.counter
                &&& next.keeps_settings_of(self)
            },
            Stage::Vectorize(clusters) => if self.counter >= region_count(clusters) {
                &&& out == Ok::<Option<TickOutput>, ConverterError>(Some(TickOutput::Complete))
                &&& next == *self
            } else if traceable(
                region_pixels_of(clusters, self.counter as nat),
                source_of(clusters).image.width,
                source_of(clusters).image.height,
            ) {
                &&& out matches Ok(Some(TickOutput::Path(record)))
                &&& record.color == fill_of(region_color(clusters, self.counter as nat))
                &&& next.stage == self.stage
                &&& next.counter == self.counter + 1
                &&& next.keeps_settings_of(self)
            } else {
                &&& out == Err::<Option<TickOutput>, ConverterError>(
                    ConverterError::OutlineTooLong,
                )
                &&& next == *self
            },
        }
    }

    /// A converter with the given options and no image yet. The simplification selector
    /// is read here; an unknown one means polygons.
    pub fn new(params: ColorImageConverterParams) -> (converter: ColorImageConverter)
        ensures
            converter.wf(),
            converter.spec_phase() == Phase::Uninitialized,
            converter.settings() == params,
            converter.cursor() == 0,
            converter.spec_progress() == 0,
    {
        let mode = path_simplify_mode(params.mode.as_str());
        ColorImageConverter {
            stage: Stage::New,
            counter: 0,
            mode,
            params,
            reports: false,
            width: 0,
            height: 0,
        }
    }

    /// The phase that the converter is in.
    pub fn phase(&self) -> (phase: Phase)
        ensures
            phase == self.spec_phase(),
    {
        match &self.stage {
            Stage::New => Phase::Uninitialized,
            Stage::Clustering(_) => Phase::SegmentingPhase1,
            Stage::Reclustering(_) => Phase::SegmentingPhase2,
            Stage::Vectorize(_) => Phase::Vectorizing,
        }
    }

    /// Takes an image of `width` by `height` pixels, four bytes per pixel and row by
    /// row, keys its transparency and starts the first segmentation pass.
    ///
    /// The image is refused, and the converter left as it was, exactly in the cases of
    /// `refusal`; a buffer of the wrong length is always an `InvalidImageSize`. Otherwise
    /// the converter enters the first pass with the cursor at zero; the engine gets the
    /// image as the keyer left it and the parameters of `first_pass_config` with the key
    /// color that the keyer chose. A conversion that is under way is given up for the
    /// new image.
    pub fn init(&mut self, width: usize, height: usize, pixels: Vec<u8>) -> (out: Result<
        (),
        ConverterError,
    >)
        ensures
            old(self).inits_to(*final(self), width, height, pixels@, out),
            pixels@.len() != 4 * (width * height) ==> out == Err::<(), ConverterError>(
                ConverterError::InvalidImageSize,
            ),
            out is Ok <==> old(self).refusal(width, height, pixels@) is None,
            out is Ok ==> final(self).spec_phase() == Phase::SegmentingPhase1,
            out is Err ==> *final(self) == *old(self),
    {
        proof {
            use_type_invariant(&*self);
        }
        let mut image = match PixelBuffer::new(width, height, pixels) {
            Ok(image) => image,
            Err(error) => {
                return Err(error);
            },
        };
        let area: usize = image.pixel_count();
        if width > MAX_SIDE || height > MAX_SIDE || area > MAX_PIXELS {
            return Err(ConverterError::ImageTooLarge);
        }
        let hierarchy = match parse_hierarchy(self.params.hierarchical.as_str()) {
            Some(hierarchy) => hierarchy,
            None => {
                return Err(ConverterError::UnknownMode(self.params.hierarchical.clone()));
            },
        };
        if !self.params.is_supported() {
            return Err(ConverterError::InvalidParameter);
        }
        proof {
            image.lemma_view_wf();
        }
        let key_color = run_keyer(&mut image);
        let config = make_first_pass_config(&self.params, hierarchy, key_color, area);
        let reports = job_reports(&config, &image);
        proof {
            image.lemma_view_wf();
        }
        let builder = start_segmentation(config, image);
        self.stage = Stage::New;
        self.counter = 0;
        self.reports = reports;
        self.width = width;
        self.height = height;
        self.stage = Stage::Clustering(builder);
        proof {
            use_type_invariant(&*self);
        }
        Ok(())
    }

    /// Does one bounded unit of work: a batch of segmentation, or the path of one
    /// region. See `ticks_to` for what each stage does.
    ///
    /// A step that fails leaves the converter as it was. Once every region has been
    /// handed out, every step reports completion and changes nothing. Progress does not
    /// fall, as long as what the first pass shows of the engine's percentage does not.
    pub fn tick(&mut self) -> (out: Result<Option<TickOutput>, ConverterError>)
        ensures
            old(self).ticks_to(*final(self), out),
            out is Err ==> *final(self) == *old(self),
            old(self).is_complete() <==> out == complete(),
            old(self).is_complete() ==> *final(self) == *old(self),
            engine_kept_pace(*old(self), *final(self)) ==> old(self).spec_progress()
                <= final(self).spec_progress(),
    {
        proof {
            use_type_invariant(&*self);
        }
        let mut stage = Stage::New;
        core::mem::swap(&mut self.stage, &mut stage);
        let out = match stage {
            Stage::New => Err(ConverterError::Uninitialized),
            Stage::Clustering(mut builder) => {
                let done = builder.tick();
                match first_pass_transition(&self.params.hierarchical, done) {
                    Err(error) => {
                        self.stage = Stage::Clustering(builder);
                        Err(error)
                    },
                    Ok(Transition::Stay) => {
                        self.stage = Stage::Clustering(builder);
                        Ok(None)
                    },
                    Ok(Transition::ToVectorize) => {
                        let clusters = builder.result();
                        self.counter = 0;
                        self.stage = Stage::Vectorize(clusters);
                        Ok(None)
                    },
                    Ok(Transition::ToRecluster) => {
                        let clusters = builder.result();
                        let image = residue_image(&clusters);
                        proof {
                            image.lemma_view_wf();
                        }
                        let config = make_second_pass_config(image.pixel_count());
                        let second = start_segmentation(config, image);
                        self.stage = Stage::Reclustering(second);
                        Ok(None)
                    },
                }
            },
            Stage::Reclustering(mut builder) => {
                let done = builder.tick();
                match second_pass_transition(done) {
                    Transition::ToVectorize => {
                        let clusters = builder.result();
                        self.counter = 0;
                        self.stage = Stage::Vectorize(clusters);
                        Ok(None)
                    },
                    _ => {
                        self.stage = Stage::Reclustering(builder);
                        Ok(None)
                    },
                }
            },
            Stage::Vectorize(clusters) => {
                let count: usize = clusters.output_len();
                if self.counter >= count {
                    self.stage = Stage::Vectorize(clusters);
                    Ok(Some(TickOutput::Complete))
                } else if !is_traceable(
                    &region_pixels(&clusters, self.counter),
                    self.width,
                    self.height,
                ) {
                    self.stage = Stage::Vectorize(clusters);
                    Err(ConverterError::OutlineTooLong)
                } else {
                    let color = residue_color(&clusters, self.counter);
                    let (d, offset) = trace_region(
                        &clusters,
                        self.counter,
                        self.mode,
                        &self.params.corner_threshold,
                        &self.params.length_threshold,
                        self.params.max_iterations,
                        &self.params.splice_threshold,
                        self.params.path_precision,
                    );
                    let record = path_record(d, color, offset);
                    self.counter = self.counter + 1;
                    self.stage = Stage::Vectorize(clusters);
                    Ok(Some(TickOutput::Path(record)))
                }
            },
        };
        proof {
            use_type_invariant(&*self);
            lemma_completion_step(*old(self), *self, out);
            if engine_kept_pace(*old(self), *self) {
                lemma_step_keeps_progress(*old(self), *self, out);
            }
        }
        out
    }

    /// The percentage of the whole conversion that is done; see `spec_progress`.
    /// It can be asked at any time and changes nothing.
    pub fn progress(&self) -> (percent: i32)
        ensures
            percent == self.spec_progress(),
            0 <= percent <= 100,
            percent == 100 <==> self.is_complete(),
    {
        proof {
            use_type_invariant(self);
        }
        match &self.stage {
            Stage::New => 0,
            Stage::Clustering(builder) => {
                if self.reports {
                    segmenting_progress(builder.progress())
                } else {
                    0
                }
            },
            Stage::Reclustering(_) => 50,
            Stage::Vectorize(clusters) => vectorizing_progress(self.counter, clusters.output_len()),
        }
    }
}

} // verus!
