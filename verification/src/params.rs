//! The configuration of a conversion and what the engine's passes are told.

use vstd::prelude::*;
use vstd::string::StringExecFns;
use serde_json::Number;
use crate::engine::{HIERARCHICAL_MAX, KeyingAction, SegmentationConfig};
use crate::outline::{MAX_PATH_PRECISION, SimplifyMode};
use crate::pixels::Color;

verus! {

/// The number of pixels that the engine looks at in one step.
pub const BATCH_SIZE: i32 = 25600;

/// The options of a conversion, as the host names them.
#[derive(Debug, PartialEq, Eq)]
pub struct ColorImageConverterParams {
    /// How outlines are simplified: `polygon`, `spline` or `none`.
    pub mode: String,
    /// How regions are layered: `stacked` for one pass, `cutout` for two.
    pub hierarchical: String,
    /// The angle, in radians, from which a turn of the outline counts as a corner.
    pub corner_threshold: Number,
    /// The segment length, in pixels, below which smoothing stops dividing.
    pub length_threshold: Number,
    /// The most rounds of smoothing.
    pub max_iterations: usize,
    /// The angle, in radians, from which a curve is spliced.
    pub splice_threshold: Number,
    /// Regions of at most this many pixels are no level of their own.
    pub filter_speckle: usize,
    /// The number of low bits that are ignored when two colors are compared.
    pub color_precision: i32,
    /// The color difference from which a region becomes a level of its own;
    /// zero also joins diagonal neighbours.
    pub layer_difference: i32,
    /// The number of decimal digits in path descriptions.
    pub path_precision: u32,
}

/// The two ways of layering regions.
#[derive(Clone, Copy, Debug, PartialEq, Eq, Structural)]
pub enum Hierarchy {
    /// One pass; regions lie on top of one another.
    Stacked,
    /// Two passes; the second cuts the picture of the first into disjoint regions.
    Cutout,
}

/// The layering that a selector names, if it names one.
pub open spec fn hierarchy_of(selector: Seq<char>) -> Option<Hierarchy> {
    if selector == "stacked"@ {
        Some(Hierarchy::Stacked)
    } else if selector == "cutout"@ {
        Some(Hierarchy::Cutout)
    } else {
        None
    }
}

/// The simplification that a selector names; an unknown one means `Polygon`.
pub open spec fn simplify_mode_of(selector: Seq<char>) -> SimplifyMode {
    if selector == "polygon"@ {
        SimplifyMode::Polygon
    } else if selector == "spline"@ {
        SimplifyMode::Spline
    } else if selector == "none"@ {
        SimplifyMode::Plain
    } else {
        SimplifyMode::Polygon
    }
}

/// Whether `text` is the word `word`.
fn is_word(text: &str, word: &str) -> (same: bool)
    ensures
        same == (text@ == word@),
{
    String::from_str(text) == String::from_str(word)
}

/// Reads the hierarchy selector.
pub fn parse_hierarchy(selector: &str) -> (parsed: Option<Hierarchy>)
    ensures
        parsed == hierarchy_of(selector@),
{
    if is_word(selector, "stacked") {
        Some(Hierarchy::Stacked)
    } else if is_word(selector, "cutout") {
        Some(Hierarchy::Cutout)
    } else {
        None
    }
}

/// Reads the simplification selector; anything unknown is taken as `polygon`.
pub fn path_simplify_mode(mode: &str) -> (parsed: SimplifyMode)
    ensures
        parsed == simplify_mode_of(mode@),
{
    if is_word(mode, "polygon") {
        SimplifyMode::Polygon
    } else if is_word(mode, "spline") {
        SimplifyMode::Spline
    } else if is_word(mode, "none") {
        SimplifyMode::Plain
    } else {
        SimplifyMode::Polygon
    }
}

impl ColorImageConverterParams {
    /// The numeric options that the engine and the outline fitter work on: a color
    /// precision of 0 to 7 bits, at least one round of smoothing where splines are asked
    /// for, and a path precision of at most `MAX_PATH_PRECISION` digits.
    pub open spec fn supported(&self) -> bool {
        &&& 0 <= self.color_precision < 8
        &&& simplify_mode_of(self.mode@) == SimplifyMode::Spline ==> self.max_iterations > 0
        &&& self.path_precision <= MAX_PATH_PRECISION
    }

    /// Checks the numeric options; see `supported`.
    pub fn is_supported(&self) -> (ok: bool)
        ensures
            ok == self.supported(),
    {
        let mode = path_simplify_mode(self.mode.as_str());
        let smoothing_ok = match mode {
            SimplifyMode::Spline => self.max_iterations > 0,
            _ => true,
        };
        0 <= self.color_precision && self.color_precision < 8 && smoothing_ok
            && self.path_precision <= MAX_PATH_PRECISION
    }
}

/// What the first pass is told about an image of `area` pixels that was keyed with
/// `key_color`: colors are compared after dropping `color_precision` bits, a region
/// becomes a level of its own from `layer_difference` on, speckles up to `filter_speckle`
/// pixels are merged away, and keyed pixels are kept as a region only in cutout mode.
pub open spec fn first_pass_config(
    params: ColorImageConverterParams,
    hierarchy: Hierarchy,
    key_color: Color,
    area: nat,
) -> SegmentationConfig {
    SegmentationConfig {
        diagonal: params.layer_difference == 0,
        hierarchical: HIERARCHICAL_MAX,
        batch_size: BATCH_SIZE,
        good_min_area: params.filter_speckle,
        good_max_area: area as usize,
        is_same_color_a: params.color_precision,
        is_same_color_b: 1,
        deepen_diff: params.layer_difference,
        hollow_neighbours: 1,
        key_color,
        keying_action: if hierarchy == Hierarchy::Cutout {
            KeyingAction::Keep
        } else {
            KeyingAction::Discard
        },
    }
}

/// What the second pass is told about a residue image of `area` pixels: no diagonal
/// neighbours, the full hierarchy, colors compared exactly, no smallest region size and
/// no key color, so that nothing is kept out of the regions.
pub open spec fn second_pass_config(area: nat) -> SegmentationConfig {
    SegmentationConfig {
        diagonal: false,
        hierarchical: HIERARCHICAL_MAX,
        batch_size: BATCH_SIZE,
        good_min_area: 0,
        good_max_area: area as usize,
        is_same_color_a: 0,
        is_same_color_b: 1,
        deepen_diff: 0,
        hollow_neighbours: 0,
        key_color: Color::none(),
        keying_action: KeyingAction::Discard,
    }
}

/// Builds the parameters of the first pass; see `first_pass_config`.
pub fn make_first_pass_config(
    params: &ColorImageConverterParams,
    hierarchy: Hierarchy,
    key_color: Color,
    area: usize,
) -> (config: SegmentationConfig)
    ensures
        config == first_pass_config(*params, hierarchy, key_color, area as nat),
{
    SegmentationConfig {
        diagonal: params.layer_difference == 0,
        hierarchical: HIERARCHICAL_MAX,
        batch_size: BATCH_SIZE,
        good_min_area: params.filter_speckle,
        good_max_area: area,
        is_same_color_a: params.color_precision,
        is_same_color_b: 1,
        deepen_diff: params.layer_difference,
        hollow_neighbours: 1,
        key_color,
        keying_action: match hierarchy {
            Hierarchy::Cutout => KeyingAction::Keep,
            Hierarchy::Stacked => KeyingAction::Discard,
        },
    }
}

/// Builds the parameters of the second pass; see `second_pass_config`.
pub fn make_second_pass_config(area: usize) -> (config: SegmentationConfig)
    ensures
        config == second_pass_config(area as nat),
{
    SegmentationConfig {
        diagonal: false,
        hierarchical: HIERARCHICAL_MAX,
        batch_size: BATCH_SIZE,
        good_min_area: 0,
        good_max_area: area,
        is_same_color_a: 0,
        is_same_color_b: 1,
        deepen_diff: 0,
        hollow_neighbours: 0,
        key_color: Color::default(),
        keying_action: KeyingAction::Discard,
    }
}

} // verus!
