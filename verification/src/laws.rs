//! What holds of the converter over a whole run.

use vstd::prelude::*;
use crate::converter::{
    ColorImageConverter, Phase, lemma_share_of_fifty, segmenting_progress_spec,
};
use crate::engine::{MAX_PIXELS, MAX_SIDE};
use crate::error::ConverterError;
use crate::params::hierarchy_of;
use crate::record::TickOutput;

verus! {

/// A run of the converter: `states[i]` is the converter before step `i` and
/// `states[i + 1]` the converter after it, and `outs[i]` is what step `i` returned.
pub open spec fn is_run(
    states: Seq<ColorImageConverter>,
    outs: Seq<Result<Option<TickOutput>, ConverterError>>,
) -> bool {
    &&& states.len() == outs.len() + 1
    &&& states[0].wf()
    &&& forall|i: int| 0 <= i < outs.len() ==> (#[trigger] states[i]).ticks_to(states[i + 1], outs[i])
}

/// What the first pass shows of the engine's own percentage did not fall between two
/// converters. This speaks only of two converters that are both in the first pass and
/// have an engine that reports: no other step shows that percentage.
pub open spec fn engine_kept_pace(before: ColorImageConverter, after: ColorImageConverter) -> bool {
    before.engine_reports() && after.engine_reports() ==> segmenting_progress_spec(
        before.engine_percent(),
    ) <= segmenting_progress_spec(after.engine_percent())
}

/// A larger cursor makes no smaller share of fifty.
proof fn lemma_share_grows(smaller: int, larger: int, regions: int)
    requires
        0 <= smaller <= larger,
        0 < regions,
    ensures
        (50 * smaller) / regions <= (50 * larger) / regions,
{
    assert((50 * smaller) / regions <= (50 * larger) / regions) by (nonlinear_arith)
        requires
            0 <= smaller <= larger,
            0 < regions,
    ;
}

/// The completion report.
pub open spec fn complete() -> Result<Option<TickOutput>, ConverterError> {
    Ok(Some(TickOutput::Complete))
}

/// Progress lies between 0 and 100 and is 100 exactly when every region has been handed
/// out.
pub proof fn lemma_progress_range(converter: ColorImageConverter)
    requires
        converter.wf(),
    ensures
        0 <= converter.spec_progress() <= 100,
        converter.spec_progress() == 100 <==> converter.is_complete(),
        converter.spec_phase() == Phase::Uninitialized ==> converter.spec_progress() == 0,
        converter.spec_phase() == Phase::SegmentingPhase1 ==> converter.spec_progress() <= 50,
        converter.spec_phase() == Phase::SegmentingPhase2 ==> converter.spec_progress() == 50,
        converter.spec_phase() == Phase::Vectorizing ==> converter.spec_progress() >= 50,
{
    if converter.spec_phase() == Phase::Vectorizing && converter.regions() > 0 {
        lemma_share_of_fifty(converter.cursor() as int, converter.regions() as int);
    }
}

/// One step never lowers the progress, as long as the engine's own percentage did not
/// fall during a batch of the first pass.
pub proof fn lemma_step_keeps_progress(
    before: ColorImageConverter,
    after: ColorImageConverter,
    out: Result<Option<TickOutput>, ConverterError>,
)
    requires
        before.wf(),
        before.ticks_to(after, out),
        engine_kept_pace(before, after),
    ensures
        before.spec_progress() <= after.spec_progress(),
{
    lemma_progress_range(before);
    lemma_progress_range(after);
    if before.spec_phase() == Phase::Vectorizing && after.regions() > 0 {
        lemma_share_grows(before.cursor() as int, after.cursor() as int, after.regions() as int);
    }
}

/// Every converter of a run is well-formed.
pub proof fn lemma_run_is_well_formed(
    states: Seq<ColorImageConverter>,
    outs: Seq<Result<Option<TickOutput>, ConverterError>>,
    k: int,
)
    requires
        is_run(states, outs),
        0 <= k < states.len(),
    ensures
        states[k].wf(),
{
    if k > 0 {
        assert(states[k - 1].ticks_to(states[k - 1 + 1], outs[k - 1]));
    }
}

/// Over a whole run progress never falls, as long as the engine's own percentage never
/// fell during the first pass.
pub proof fn lemma_progress_is_monotonic(
    states: Seq<ColorImageConverter>,
    outs: Seq<Result<Option<TickOutput>, ConverterError>>,
    i: int,
    j: int,
)
    requires
        is_run(states, outs),
        forall|k: int| 0 <= k < outs.len() ==> engine_kept_pace(#[trigger] states[k], states[k + 1]),
        0 <= i <= j < states.len(),
    ensures
        states[i].spec_progress() <= states[j].spec_progress(),
    decreases j - i,
{
    if i < j {
        lemma_progress_is_monotonic(states, outs, i, j - 1);
        lemma_run_is_well_formed(states, outs, j - 1);
        assert(engine_kept_pace(states[j - 1], states[j - 1 + 1]));
        assert(states[j - 1].ticks_to(states[j - 1 + 1], outs[j - 1]));
        lemma_step_keeps_progress(states[j - 1], states[j - 1 + 1], outs[j - 1]);
    }
}

/// A step reports completion exactly when every region had been handed out before it,
/// and such a step changes nothing.
pub proof fn lemma_completion_step(
    before: ColorImageConverter,
    after: ColorImageConverter,
    out: Result<Option<TickOutput>, ConverterError>,
)
    requires
        before.wf(),
        before.ticks_to(after, out),
    ensures
        out == complete() <==> before.is_complete(),
        out == complete() ==> after == before && after.spec_progress() == 100,
{
    lemma_progress_range(before);
}

/// Once a step of a run has reported completion, every later step reports it too, the
/// converter stays as it is, and progress stays at 100.
pub proof fn lemma_completion_is_final(
    states: Seq<ColorImageConverter>,
    outs: Seq<Result<Option<TickOutput>, ConverterError>>,
    i: int,
    j: int,
)
    requires
        is_run(states, outs),
        0 <= i <= j < outs.len(),
        outs[i] == complete(),
    ensures
        outs[j] == complete(),
        states[j + 1] == states[i],
        states[j + 1].spec_progress() == 100,
    decreases j - i,
{
    lemma_run_is_well_formed(states, outs, i);
    lemma_run_is_well_formed(states, outs, j);
    if i < j {
        lemma_completion_is_final(states, outs, i, j - 1);
        assert(states[j - 1 + 1] == states[j]);
        lemma_completion_step(states[i], states[i + 1], outs[i]);
    }
    lemma_completion_step(states[j], states[j + 1], outs[j]);
}

/// An image is accepted by its size: a buffer that does not hold four bytes for each
/// pixel is refused as of invalid size, whatever the options are, and the converter
/// stays as it was; a buffer that does is accepted, and the first pass begins, whenever
/// the image is within the reach of the engine and the options are in order.
pub proof fn lemma_init_by_size(
    before: ColorImageConverter,
    after: ColorImageConverter,
    width: usize,
    height: usize,
    bytes: Seq<u8>,
    out: Result<(), ConverterError>,
)
    requires
        before.inits_to(after, width, height, bytes, out),
    ensures
        bytes.len() != 4 * (width * height) ==> out == Err::<(), ConverterError>(
            ConverterError::InvalidImageSize,
        ) && after == before,
        bytes.len() == 4 * (width * height) && width <= MAX_SIDE && height <= MAX_SIDE && width
            * height <= MAX_PIXELS && hierarchy_of(before.settings().hierarchical@) is Some
            && before.settings().supported() ==> out == Ok::<(), ConverterError>(())
            && after.spec_phase() == Phase::SegmentingPhase1 && after.cursor() == 0,
        out is Err ==> after == before,
{
}

/// No step before the first image does anything but fail, and progress stays at 0.
pub proof fn lemma_uninitialized_step(
    before: ColorImageConverter,
    after: ColorImageConverter,
    out: Result<Option<TickOutput>, ConverterError>,
)
    requires
        before.ticks_to(after, out),
        before.spec_phase() == Phase::Uninitialized,
    ensures
        out == Err::<Option<TickOutput>, ConverterError>(ConverterError::Uninitialized),
        after == before,
        after.spec_progress() == 0,
{
}

/// The phases are passed in their order: a step stays in its phase or moves to a later
/// one, the second pass is entered only from the first, and a step that fails leaves
/// the converter as it was.
pub proof fn lemma_phases_in_order(
    before: ColorImageConverter,
    after: ColorImageConverter,
    out: Result<Option<TickOutput>, ConverterError>,
)
    requires
        before.ticks_to(after, out),
    ensures
        phase_rank(before.spec_phase()) <= phase_rank(after.spec_phase()),
        after.spec_phase() == Phase::SegmentingPhase2 ==> before.spec_phase()
            != Phase::Uninitialized,
        before.spec_phase() == Phase::Uninitialized ==> after.spec_phase() == Phase::Uninitialized,
        out is Err ==> after == before,
        before.cursor() <= after.cursor() || after.cursor() == 0,
{
}

/// The place of a phase in the order of the phases.
pub open spec fn phase_rank(phase: Phase) -> int {
    match phase {
        Phase::Uninitialized => 0,
        Phase::SegmentingPhase1 => 1,
        Phase::SegmentingPhase2 => 2,
        Phase::Vectorizing => 3,
    }
}

} // verus!
