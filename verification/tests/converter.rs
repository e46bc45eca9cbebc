use serde_json::Number;
use tracer::converter::{
    first_pass_transition, job_reports, second_pass_transition, segmenting_progress,
    vectorizing_progress,
};
use tracer::engine::{KeyingAction, HIERARCHICAL_MAX, MAX_PIXELS, MAX_SIDE};
use tracer::outline::{MAX_OUTLINE_EDGES, MAX_PATH_PRECISION};
use tracer::perimeter::is_traceable;
use tracer::params::{
    make_first_pass_config, make_second_pass_config, parse_hierarchy, path_simplify_mode,
};
use tracer::record::{completion_sentinel, path_record};
use tracer::{
    Color, ColorData, ColorImageConverter, ColorImageConverterParams, ConverterError, Hierarchy,
    PathData, Phase, PixelBuffer, SimplifyMode, TickOutput, Transition,
};

fn number(value: f64) -> Number {
    Number::from_f64(value).unwrap()
}

fn params(hierarchical: &str, mode: &str) -> ColorImageConverterParams {
    ColorImageConverterParams {
        mode: mode.to_string(),
        hierarchical: hierarchical.to_string(),
        corner_threshold: number(60.0f64.to_radians()),
        length_threshold: number(4.0),
        max_iterations: 10,
        splice_threshold: number(45.0f64.to_radians()),
        filter_speckle: 0,
        color_precision: 2,
        layer_difference: 16,
        path_precision: 8,
    }
}

fn four_colors() -> Vec<u8> {
    vec![255, 0, 0, 255, 0, 255, 0, 255, 0, 0, 255, 255, 255, 255, 0, 255]
}

fn half_transparent() -> Vec<u8> {
    let mut bytes = Vec::new();
    for _y in 0..4 {
        bytes.extend_from_slice(&[0, 0, 0, 0, 0, 0, 0, 0, 255, 0, 0, 255, 20, 40, 60, 255]);
    }
    bytes
}

fn checkerboard(side: usize, square: usize) -> Vec<u8> {
    checkers(side, side, square)
}

fn checkers(width: usize, height: usize, square: usize) -> Vec<u8> {
    let mut bytes = Vec::new();
    for y in 0..height {
        for x in 0..width {
            if (x / square + y / square) % 2 == 0 {
                bytes.extend_from_slice(&[255, 255, 255, 255]);
            } else {
                bytes.extend_from_slice(&[0, 0, 0, 255]);
            }
        }
    }
    bytes
}

struct Run {
    records: Vec<PathData>,
    progress: Vec<i32>,
    phases: Vec<Phase>,
}

/// Ticks until completion is reported and notes the progress after every step.
fn run(converter: &mut ColorImageConverter) -> Run {
    let mut run = Run { records: Vec::new(), progress: vec![converter.progress()], phases: vec![converter.phase()] };
    for _step in 0..100_000 {
        let out = converter.tick().unwrap();
        run.progress.push(converter.progress());
        run.phases.push(converter.phase());
        match out {
            None => {},
            Some(TickOutput::Path(record)) => run.records.push(record),
            Some(TickOutput::Complete) => return run,
        }
    }
    panic!("the conversion did not complete");
}

fn colors(run: &Run) -> Vec<(u8, u8, u8)> {
    let mut colors: Vec<(u8, u8, u8)> =
        run.records.iter().map(|record| (record.color.r, record.color.g, record.color.b)).collect();
    colors.sort();
    colors
}

#[test]
fn init_accepts_matching_sizes() {
    for (width, height) in [(0usize, 0usize), (1, 1), (2, 2), (3, 5), (7, 1), (0, 9), (100, 100)] {
        let mut converter = ColorImageConverter::new(params("stacked", "polygon"));
        assert!(converter.init(width, height, vec![200; width * height * 4]).is_ok());
        assert_eq!(converter.phase(), Phase::SegmentingPhase1);
    }
}

#[test]
fn init_rejects_size_mismatch() {
    for (width, height, len) in [(2usize, 2usize, 15usize), (2, 2, 17), (2, 2, 0), (0, 0, 4), (3, 1, 16), (1, 1, 3)] {
        let mut converter = ColorImageConverter::new(params("stacked", "polygon"));
        let error = converter.init(width, height, vec![0; len]).unwrap_err();
        assert!(matches!(error, ConverterError::InvalidImageSize));
        assert_eq!(error.message(), "invalid image size");
        assert_eq!(converter.phase(), Phase::Uninitialized);
        assert_eq!(converter.progress(), 0);
    }
    // The size is looked at before anything else.
    let mut converter = ColorImageConverter::new(params("bogus", "polygon"));
    let error = converter.init(2, 2, vec![0; 3]).unwrap_err();
    assert!(matches!(error, ConverterError::InvalidImageSize));
}

#[test]
fn init_rejects_images_beyond_the_engine() {
    let mut converter = ColorImageConverter::new(params("stacked", "polygon"));
    let (width, height) = (4105usize, 4104usize);
    assert!(width * height > MAX_PIXELS);
    let error = converter.init(width, height, vec![0; width * height * 4]).unwrap_err();
    assert_eq!(error, ConverterError::ImageTooLarge);
    assert_eq!(error.message(), "image too large");
    assert_eq!(converter.phase(), Phase::Uninitialized);
    let error = converter.init(MAX_SIDE + 1, 1, vec![0; (MAX_SIDE + 1) * 4]).unwrap_err();
    assert_eq!(error, ConverterError::ImageTooLarge);
    let error = converter.init(1, MAX_SIDE + 1, vec![0; (MAX_SIDE + 1) * 4]).unwrap_err();
    assert_eq!(error, ConverterError::ImageTooLarge);
    let error = converter.init(MAX_SIDE + 1, 0, vec![]).unwrap_err();
    assert_eq!(error, ConverterError::ImageTooLarge);
    assert!(converter.init(MAX_SIDE, 1, vec![9; MAX_SIDE * 4]).is_ok());
    assert_eq!(MAX_PIXELS, 16_843_009);
    assert_eq!(MAX_PIXELS as u64 * 255, u32::MAX as u64);
    assert_eq!(MAX_SIDE, 46_340);
    assert!((MAX_SIDE as i64) * (MAX_SIDE as i64) <= i32::MAX as i64);
    assert!((MAX_SIDE as i64 + 1) * (MAX_SIDE as i64 + 1) > i32::MAX as i64);
}

#[test]
fn init_rejects_unknown_mode() {
    let mut converter = ColorImageConverter::new(params("bogus", "polygon"));
    let error = converter.init(2, 2, four_colors()).unwrap_err();
    match &error {
        ConverterError::UnknownMode(mode) => assert_eq!(mode, "bogus"),
        other => panic!("unexpected error {:?}", other),
    }
    assert_eq!(error.message(), "unknown mode `bogus`");
    assert_eq!(converter.phase(), Phase::Uninitialized);
    assert!(matches!(converter.tick().unwrap_err(), ConverterError::Uninitialized));
}

#[test]
fn init_rejects_unsupported_parameters() {
    for precision in [-1, 8, 100, i32::MIN, i32::MAX] {
        let mut p = params("stacked", "polygon");
        p.color_precision = precision;
        let mut converter = ColorImageConverter::new(p);
        let error = converter.init(2, 2, four_colors()).unwrap_err();
        assert!(matches!(error, ConverterError::InvalidParameter));
        assert_eq!(error.message(), "invalid parameter");
        assert_eq!(converter.phase(), Phase::Uninitialized);
    }
    for precision in 0..8 {
        let mut p = params("stacked", "polygon");
        p.color_precision = precision;
        assert!(ColorImageConverter::new(p).init(2, 2, four_colors()).is_ok());
    }
    let mut p = params("stacked", "spline");
    p.max_iterations = 0;
    let error = ColorImageConverter::new(p).init(2, 2, four_colors()).unwrap_err();
    assert!(matches!(error, ConverterError::InvalidParameter));
    // Smoothing rounds matter to splines only.
    let mut p = params("stacked", "polygon");
    p.max_iterations = 0;
    assert!(ColorImageConverter::new(p).init(2, 2, four_colors()).is_ok());
    let mut p = params("stacked", "polygon");
    p.path_precision = MAX_PATH_PRECISION + 1;
    let error = ColorImageConverter::new(p).init(2, 2, four_colors()).unwrap_err();
    assert!(matches!(error, ConverterError::InvalidParameter));
    let mut p = params("stacked", "polygon");
    p.path_precision = MAX_PATH_PRECISION;
    assert!(ColorImageConverter::new(p).init(2, 2, four_colors()).is_ok());
}

#[test]
fn tick_before_init_fails() {
    let mut converter = ColorImageConverter::new(params("stacked", "polygon"));
    assert_eq!(converter.phase(), Phase::Uninitialized);
    assert_eq!(converter.progress(), 0);
    for _ in 0..3 {
        let error = converter.tick().unwrap_err();
        assert!(matches!(error, ConverterError::Uninitialized));
        assert_eq!(error.message(), "uninitialized");
        assert_eq!(converter.phase(), Phase::Uninitialized);
        assert_eq!(converter.progress(), 0);
    }
}

#[test]
fn four_colors_stacked_yield_four_paths() {
    for mode in ["polygon", "none", "spline"] {
        let mut converter = ColorImageConverter::new(params("stacked", mode));
        converter.init(2, 2, four_colors()).unwrap();
        let run = run(&mut converter);
        assert_eq!(run.records.len(), 4);
        assert_eq!(colors(&run), vec![(0, 0, 255), (0, 255, 0), (255, 0, 0), (255, 255, 0)]);
        assert_eq!(*run.progress.last().unwrap(), 100);
        assert_eq!(converter.progress(), 100);
        assert_eq!(converter.phase(), Phase::Vectorizing);
        assert!(!run.phases.contains(&Phase::SegmentingPhase2));
    }
}

#[test]
fn paths_of_single_pixels_are_placed_by_their_offset() {
    let mut converter = ColorImageConverter::new(params("stacked", "none"));
    converter.init(2, 2, four_colors()).unwrap();
    let run = run(&mut converter);
    let blue = run.records.iter().find(|r| r.color == ColorData { r: 0, g: 0, b: 255 }).unwrap();
    assert_eq!(blue.d, "M0,0 L1,0 L1,1 L0,1 Z ");
    assert_eq!((blue.offset.x, blue.offset.y), (0.0, 1.0));
    let yellow = run.records.iter().find(|r| r.color == ColorData { r: 255, g: 255, b: 0 }).unwrap();
    assert_eq!(yellow.d, "M0,0 L1,0 L1,1 L0,1 Z ");
    assert_eq!((yellow.offset.x, yellow.offset.y), (1.0, 1.0));
}

#[test]
fn uniform_image_is_one_region_of_its_color() {
    let mut converter = ColorImageConverter::new(params("stacked", "polygon"));
    converter.init(5, 3, [9u8, 9, 200, 255].repeat(15)).unwrap();
    let run = run(&mut converter);
    assert_eq!(run.records.len(), 1);
    assert_eq!(run.records[0].color, ColorData { r: 9, g: 9, b: 200 });
    assert_eq!(run.records[0].d, "M0,0 L5,0 L5,3 L0,3 Z ");
    assert_eq!((run.records[0].offset.x, run.records[0].offset.y), (0.0, 0.0));
}

#[test]
fn spline_outline_is_made_of_curves() {
    let mut converter = ColorImageConverter::new(params("stacked", "spline"));
    converter.init(5, 5, [9u8, 9, 200, 255].repeat(25)).unwrap();
    let run = run(&mut converter);
    assert_eq!(run.records.len(), 1);
    assert!(run.records[0].d.starts_with("M0 0 C"));
    assert!(run.records[0].d.ends_with("Z "));
}

#[test]
fn path_precision_limits_the_digits() {
    let mut p = params("stacked", "spline");
    p.path_precision = 1;
    let mut converter = ColorImageConverter::new(p);
    converter.init(5, 5, [9u8, 9, 200, 255].repeat(25)).unwrap();
    let run = run(&mut converter);
    for number in run.records[0].d.split(|c: char| c == ' ' || c == 'M' || c == 'C' || c == 'Z') {
        if let Some(dot) = number.find('.') {
            assert!(number.len() - dot - 1 <= 1, "{}", number);
        }
    }
}

#[test]
fn progress_never_falls_while_the_engine_keeps_pace() {
    for (hierarchical, width, height, bytes) in [
        ("stacked", 2usize, 2usize, four_colors()),
        ("cutout", 2, 2, four_colors()),
        ("stacked", 4, 4, half_transparent()),
        ("cutout", 4, 4, half_transparent()),
        ("stacked", 0, 0, vec![]),
        ("cutout", 0, 0, vec![]),
        ("stacked", 3, 3, vec![0; 36]),
        ("cutout", 3, 3, vec![0; 36]),
        ("stacked", 1, 1, vec![1, 2, 3, 255]),
    ] {
        let mut converter = ColorImageConverter::new(params(hierarchical, "polygon"));
        assert_eq!(converter.progress(), 0);
        converter.init(width, height, bytes).unwrap();
        let run = run(&mut converter);
        for pair in run.progress.windows(2) {
            assert!(pair[0] <= pair[1], "{:?}", run.progress);
        }
        for (progress, phase) in run.progress.iter().zip(run.phases.iter()) {
            match phase {
                Phase::Uninitialized => assert_eq!(*progress, 0),
                Phase::SegmentingPhase1 => assert!((0..=50).contains(progress)),
                Phase::SegmentingPhase2 => assert_eq!(*progress, 50),
                Phase::Vectorizing => assert!((50..=100).contains(progress)),
            }
        }
        // 100 is reached with the last region and not before.
        let first_full = run.progress.iter().position(|p| *p == 100).unwrap();
        assert!(first_full + 2 >= run.progress.len());
        assert_eq!(*run.progress.last().unwrap(), 100);
    }
}

#[test]
fn first_pass_progress_is_half_of_what_the_engine_reports() {
    // On this image the engine's own percentage falls while it merges regions, and the
    // first pass shows half of it as it is.
    let mut converter = ColorImageConverter::new(params("stacked", "polygon"));
    converter.init(300, 300, checkerboard(300, 10)).unwrap();
    let run = run(&mut converter);
    let first_pass: Vec<i32> = run
        .progress
        .iter()
        .zip(run.phases.iter())
        .filter(|(_, phase)| **phase == Phase::SegmentingPhase1)
        .map(|(progress, _)| *progress)
        .collect();
    assert!(first_pass.iter().all(|p| (0..=50).contains(p)));
    assert!(first_pass.windows(2).any(|pair| pair[0] > pair[1]));
    // From the end of the first pass on nothing falls any more.
    let rest: Vec<i32> = run
        .progress
        .iter()
        .zip(run.phases.iter())
        .filter(|(_, phase)| **phase == Phase::Vectorizing)
        .map(|(progress, _)| *progress)
        .collect();
    assert!(rest.windows(2).all(|pair| pair[0] <= pair[1]));
    assert_eq!(*rest.last().unwrap(), 100);
}

#[test]
fn completion_is_reported_again_and_again() {
    let mut converter = ColorImageConverter::new(params("stacked", "polygon"));
    converter.init(2, 2, four_colors()).unwrap();
    let _ = run(&mut converter);
    for _ in 0..5 {
        assert!(matches!(converter.tick().unwrap(), Some(TickOutput::Complete)));
        assert_eq!(converter.progress(), 100);
        assert_eq!(converter.phase(), Phase::Vectorizing);
    }
}

#[test]
fn cutout_runs_a_second_pass() {
    let mut converter = ColorImageConverter::new(params("cutout", "polygon"));
    converter.init(2, 2, four_colors()).unwrap();
    let run = run(&mut converter);
    let mut order = run.phases.clone();
    order.dedup();
    assert_eq!(order, vec![Phase::SegmentingPhase1, Phase::SegmentingPhase2, Phase::Vectorizing]);
    // The second pass works on the picture of the regions of the first, which for four
    // pixels of four colors is the image itself.
    assert_eq!(colors(&run), vec![(0, 0, 255), (0, 255, 0), (255, 0, 0), (255, 255, 0)]);
    assert_eq!(*run.progress.last().unwrap(), 100);
}

#[test]
fn second_pass_sees_the_mean_colors_of_the_first() {
    // Two shades that the first pass takes for one color: the picture that the second
    // pass works on holds their mean, and so does the only path.
    let mut bytes = [100u8, 100, 100, 255].repeat(2);
    bytes.extend_from_slice(&[102u8, 102, 102, 255].repeat(2));
    let mut converter = ColorImageConverter::new(params("cutout", "polygon"));
    converter.init(2, 2, bytes).unwrap();
    let run = run(&mut converter);
    assert_eq!(colors(&run), vec![(101, 101, 101)]);
    assert_eq!(run.records[0].d, "M0,0 L2,0 L2,2 L0,2 Z ");
}

#[test]
fn stacked_goes_straight_to_the_paths() {
    let mut converter = ColorImageConverter::new(params("stacked", "polygon"));
    converter.init(4, 4, half_transparent()).unwrap();
    let run = run(&mut converter);
    let mut order = run.phases.clone();
    order.dedup();
    assert_eq!(order, vec![Phase::SegmentingPhase1, Phase::Vectorizing]);
}

#[test]
fn keyed_pixels_are_no_region_in_stacked_mode() {
    let mut converter = ColorImageConverter::new(params("stacked", "polygon"));
    converter.init(4, 4, half_transparent()).unwrap();
    let run = run(&mut converter);
    // The transparent half was painted green by the keyer and then dropped by the engine.
    assert_eq!(colors(&run), vec![(20, 40, 60), (255, 0, 0)]);
}

#[test]
fn keyed_pixels_are_a_region_in_cutout_mode() {
    let mut stacked = ColorImageConverter::new(params("stacked", "none"));
    stacked.init(4, 4, half_transparent()).unwrap();
    let mut cutout = ColorImageConverter::new(params("cutout", "none"));
    cutout.init(4, 4, half_transparent()).unwrap();
    let stacked = run(&mut stacked);
    let cutout = run(&mut cutout);
    // In cutout mode the key color takes part in the picture that the second pass sees.
    assert!(cutout.records.iter().any(|r| r.color.g > 100));
    assert!(stacked.records.iter().all(|r| r.color.g < 100));
}

#[test]
fn fully_transparent_image_has_no_region_in_stacked_mode() {
    let mut converter = ColorImageConverter::new(params("stacked", "polygon"));
    converter.init(3, 3, vec![0; 36]).unwrap();
    let run = run(&mut converter);
    assert!(run.records.is_empty());
    // The engine has nothing to report on such an image.
    for (progress, phase) in run.progress.iter().zip(run.phases.iter()) {
        if *phase == Phase::SegmentingPhase1 {
            assert_eq!(*progress, 0);
        }
    }
    assert_eq!(converter.progress(), 100);
}

#[test]
fn empty_image_completes_without_paths() {
    for hierarchical in ["stacked", "cutout"] {
        let mut converter = ColorImageConverter::new(params(hierarchical, "polygon"));
        converter.init(0, 0, vec![]).unwrap();
        assert_eq!(converter.progress(), 0);
        let run = run(&mut converter);
        assert!(run.records.is_empty());
        assert_eq!(converter.progress(), 100);
    }
}

#[test]
fn init_starts_over() {
    let mut converter = ColorImageConverter::new(params("stacked", "polygon"));
    converter.init(2, 2, four_colors()).unwrap();
    let first = run(&mut converter);
    assert_eq!(converter.progress(), 100);
    converter.init(2, 2, four_colors()).unwrap();
    assert_eq!(converter.phase(), Phase::SegmentingPhase1);
    assert!(converter.progress() <= 50);
    let second = run(&mut converter);
    assert_eq!(colors(&first), colors(&second));
    // A refused image leaves a running conversion alone.
    converter.init(2, 2, four_colors()).unwrap();
    converter.tick().unwrap();
    let before = converter.progress();
    assert!(converter.init(2, 2, vec![0; 5]).is_err());
    assert_eq!(converter.phase(), Phase::SegmentingPhase1);
    assert_eq!(converter.progress(), before);
}

#[test]
fn unknown_mode_fails_once_the_first_pass_is_done() {
    let bogus = "bogus".to_string();
    assert_eq!(first_pass_transition(&bogus, false).unwrap(), Transition::Stay);
    match first_pass_transition(&bogus, true).unwrap_err() {
        ConverterError::UnknownMode(mode) => assert_eq!(mode, "bogus"),
        other => panic!("unexpected error {:?}", other),
    }
    assert_eq!(first_pass_transition(&"stacked".to_string(), true).unwrap(), Transition::ToVectorize);
    assert_eq!(first_pass_transition(&"cutout".to_string(), true).unwrap(), Transition::ToRecluster);
    assert_eq!(first_pass_transition(&"stacked".to_string(), false).unwrap(), Transition::Stay);
    assert_eq!(first_pass_transition(&"cutout".to_string(), false).unwrap(), Transition::Stay);
    assert!(first_pass_transition(&"Stacked".to_string(), true).is_err());
    assert!(first_pass_transition(&String::new(), true).is_err());
}

#[test]
fn second_pass_ends_in_the_paths() {
    assert_eq!(second_pass_transition(false), Transition::Stay);
    assert_eq!(second_pass_transition(true), Transition::ToVectorize);
}

#[test]
fn progress_formulas() {
    assert_eq!(segmenting_progress(0), 0);
    assert_eq!(segmenting_progress(1), 0);
    assert_eq!(segmenting_progress(75), 37);
    assert_eq!(segmenting_progress(100), 50);
    assert_eq!(vectorizing_progress(0, 0), 100);
    assert_eq!(vectorizing_progress(0, 3), 50);
    assert_eq!(vectorizing_progress(1, 3), 66);
    assert_eq!(vectorizing_progress(2, 3), 83);
    assert_eq!(vectorizing_progress(3, 3), 100);
    assert_eq!(vectorizing_progress(1, 4), 62);
    assert_eq!(vectorizing_progress(usize::MAX - 1, usize::MAX), 99);
    assert_eq!(vectorizing_progress(usize::MAX, usize::MAX), 100);
}

#[test]
fn selectors_are_read_exactly() {
    assert_eq!(parse_hierarchy("stacked"), Some(Hierarchy::Stacked));
    assert_eq!(parse_hierarchy("cutout"), Some(Hierarchy::Cutout));
    assert_eq!(parse_hierarchy("bogus"), None);
    assert_eq!(parse_hierarchy(""), None);
    assert_eq!(parse_hierarchy("cutout "), None);
    assert_eq!(path_simplify_mode("polygon"), SimplifyMode::Polygon);
    assert_eq!(path_simplify_mode("spline"), SimplifyMode::Spline);
    assert_eq!(path_simplify_mode("none"), SimplifyMode::Plain);
    assert_eq!(path_simplify_mode("anything"), SimplifyMode::Polygon);
    assert_eq!(path_simplify_mode(""), SimplifyMode::Polygon);
}

#[test]
fn first_pass_is_told_what_the_options_say() {
    let mut p = params("cutout", "polygon");
    p.filter_speckle = 16;
    p.color_precision = 3;
    p.layer_difference = 0;
    let key = Color::new(0, 255, 0);
    let config = make_first_pass_config(&p, Hierarchy::Cutout, key, 42);
    assert!(config.diagonal);
    assert_eq!(config.hierarchical, HIERARCHICAL_MAX);
    assert_eq!(config.hierarchical, visioncortex::color_clusters::HIERARCHICAL_MAX);
    assert_eq!(config.batch_size, 25600);
    assert_eq!(config.good_min_area, 16);
    assert_eq!(config.good_max_area, 42);
    assert_eq!(config.is_same_color_a, 3);
    assert_eq!(config.is_same_color_b, 1);
    assert_eq!(config.deepen_diff, 0);
    assert_eq!(config.hollow_neighbours, 1);
    assert_eq!(config.key_color, key);
    assert_eq!(config.keying_action, KeyingAction::Keep);
    p.layer_difference = 5;
    let config = make_first_pass_config(&p, Hierarchy::Stacked, Color::default(), 42);
    assert!(!config.diagonal);
    assert_eq!(config.deepen_diff, 5);
    assert_eq!(config.keying_action, KeyingAction::Discard);
}

#[test]
fn second_pass_compares_colors_exactly() {
    let config = make_second_pass_config(9);
    assert!(!config.diagonal);
    assert_eq!(config.hierarchical, HIERARCHICAL_MAX);
    assert_eq!(config.batch_size, 25600);
    assert_eq!(config.good_min_area, 0);
    assert_eq!(config.good_max_area, 9);
    assert_eq!(config.is_same_color_a, 0);
    assert_eq!(config.is_same_color_b, 1);
    assert_eq!(config.deepen_diff, 0);
    assert_eq!(config.hollow_neighbours, 0);
    assert_eq!(config.key_color, Color::default());
    assert_eq!(config.keying_action, KeyingAction::Discard);
}

#[test]
fn engine_reports_unless_every_pixel_is_dropped() {
    let key = Color::new(255, 0, 0);
    let p = params("stacked", "polygon");
    let drop_key = make_first_pass_config(&p, Hierarchy::Stacked, key, 4);
    let keep_key = make_first_pass_config(&p, Hierarchy::Cutout, key, 4);
    let no_key = make_first_pass_config(&p, Hierarchy::Stacked, Color::default(), 4);
    let all_key = PixelBuffer::new(2, 2, [255u8, 0, 0, 255].repeat(4)).unwrap();
    let mut bytes = [255u8, 0, 0, 255].repeat(4);
    bytes[15] = 254;
    let nearly = PixelBuffer::new(2, 2, bytes).unwrap();
    let empty = PixelBuffer::new(0, 0, vec![]).unwrap();
    assert!(!job_reports(&drop_key, &all_key));
    assert!(job_reports(&keep_key, &all_key));
    assert!(job_reports(&no_key, &all_key));
    assert!(job_reports(&drop_key, &nearly));
    assert!(!job_reports(&drop_key, &empty));
    assert!(!job_reports(&keep_key, &empty));
    assert!(!job_reports(&no_key, &empty));
}

#[test]
fn records_carry_the_three_color_channels() {
    let record = path_record("M0,0 Z ".to_string(), Color::new_rgba(1, 2, 3, 4), visioncortex::PointF64::new(1.5, -2.0));
    assert_eq!(record.d, "M0,0 Z ");
    assert_eq!(record.color, ColorData { r: 1, g: 2, b: 3 });
    assert_eq!((record.offset.x, record.offset.y), (1.5, -2.0));
    assert_eq!(completion_sentinel(), "complete");
}

#[test]
fn images_of_ordinary_size_are_converted() {
    // Two rectangles on a ground, 600 by 400 pixels.
    let (width, height) = (600usize, 400usize);
    let mut bytes = Vec::with_capacity(width * height * 4);
    for y in 0..height {
        for x in 0..width {
            if (50..250).contains(&x) && (50..350).contains(&y) {
                bytes.extend_from_slice(&[200, 30, 30, 255]);
            } else if (300..550).contains(&x) && (100..300).contains(&y) {
                bytes.extend_from_slice(&[30, 30, 200, 255]);
            } else {
                bytes.extend_from_slice(&[240, 240, 240, 255]);
            }
        }
    }
    let mut converter = ColorImageConverter::new(params("stacked", "polygon"));
    converter.init(width, height, bytes).unwrap();
    let run = run(&mut converter);
    assert_eq!(colors(&run), vec![(30, 30, 200), (200, 30, 30), (240, 240, 240)]);
    let red = run.records.iter().find(|r| r.color.r == 200).unwrap();
    assert_eq!(red.d, "M0,0 L200,0 L200,300 L0,300 Z ");
    assert_eq!((red.offset.x, red.offset.y), (50.0, 50.0));
    assert_eq!(converter.progress(), 100);
}

#[test]
fn longest_outline_that_is_traced() {
    // A single row of pixels has two open sides per pixel and one at either end.
    let width = (MAX_OUTLINE_EDGES - 2) / 2;
    assert_eq!(2 * width + 2, 65_532);
    let mut converter = ColorImageConverter::new(params("stacked", "none"));
    converter.init(width, 1, [7u8, 8, 9, 255].repeat(width)).unwrap();
    let run = run(&mut converter);
    assert_eq!(run.records.len(), 1);
    assert_eq!(run.records[0].d, format!("M0,0 L{},0 L{},1 L0,1 Z ", width, width));
}

#[test]
fn outline_beyond_the_tracer_is_an_error() {
    let width = (MAX_OUTLINE_EDGES - 2) / 2 + 1;
    assert_eq!(2 * width + 2, 65_534);
    let mut converter = ColorImageConverter::new(params("stacked", "none"));
    converter.init(width, 1, [7u8, 8, 9, 255].repeat(width)).unwrap();
    let mut steps = 0;
    while converter.phase() != Phase::Vectorizing {
        assert_eq!(converter.tick().unwrap(), None);
        steps += 1;
        assert!(steps < 1000);
    }
    let before = converter.progress();
    for _ in 0..3 {
        let error = converter.tick().unwrap_err();
        assert_eq!(error, ConverterError::OutlineTooLong);
        assert_eq!(error.message(), "outline too long");
        assert_eq!(converter.phase(), Phase::Vectorizing);
        assert_eq!(converter.progress(), before);
    }
}

#[test]
fn scattered_regions_are_traced_part_by_part() {
    // The two colors of a checkerboard of single pixels hang together over corners only:
    // each is one region of as many parts as it has pixels.
    let side = 180usize;
    let mut p = params("stacked", "none");
    p.layer_difference = 0;
    let mut converter = ColorImageConverter::new(p);
    converter.init(side, side, checkerboard(side, 1)).unwrap();
    let run = run(&mut converter);
    assert!(!run.records.is_empty());
    let parts: usize = run.records.iter().map(|record| record.d.matches('M').count()).max().unwrap();
    assert_eq!(parts, side * side / 2);
    assert_eq!(converter.progress(), 100);
}

#[test]
fn outlines_are_counted_in_open_sides() {
    // One pixel in the middle of a 3 by 3 map: four open sides.
    assert!(is_traceable(&vec![4], 3, 3));
    // A full row of three: eight open sides, two of them on the border of the map.
    assert!(is_traceable(&vec![3, 4, 5], 3, 3));
    // A pixel off the map.
    assert!(!is_traceable(&vec![9], 3, 3));
    assert!(!is_traceable(&vec![0], 0, 0));
    assert!(is_traceable(&vec![], 0, 0));
    // A map with a side that is too long.
    assert!(!is_traceable(&vec![0], MAX_SIDE + 1, 1));
    assert!(is_traceable(&vec![0], MAX_SIDE, 1));
    // Single pixels with a gap between them have four open sides each.
    let most = MAX_OUTLINE_EDGES / 4;
    let scattered: Vec<u32> = (0..most as u32).map(|i| 2 * i).collect();
    assert!(is_traceable(&scattered, 2 * most, 1));
    let scattered: Vec<u32> = (0..most as u32 + 1).map(|i| 2 * i).collect();
    assert!(!is_traceable(&scattered, 2 * most + 2, 1));
    // Neighbours close the side between them: a block of 2 by 2 has eight open sides.
    let mut block = Vec::new();
    let width = 40_000u32;
    for x in 0..16_382u32 {
        block.push(x);
        block.push(width + x);
    }
    // 2 * 16382 + 4 = 32768 open sides.
    assert!(is_traceable(&block, width as usize, 2));
    for x in 16_382..width {
        block.push(x);
        block.push(width + x);
    }
    // 2 * 40000 + 4 open sides.
    assert!(!is_traceable(&block, width as usize, 2));
}

/// A small deterministic generator of test images.
struct Noise(u64);

impl Noise {
    fn next(&mut self) -> u32 {
        self.0 = self.0.wrapping_mul(6364136223846793005).wrapping_add(1442695040888963407);
        (self.0 >> 33) as u32
    }

    fn image(&mut self, width: usize, height: usize, palette: u32, transparent: u32) -> Vec<u8> {
        let mut bytes = Vec::with_capacity(width * height * 4);
        for _ in 0..width * height {
            let c = self.next() % palette;
            let alpha = if self.next() % 100 < transparent { 0 } else { 255 };
            bytes.extend_from_slice(&[(c * 53 % 256) as u8, (c * 101 % 256) as u8, (c * 197 % 256) as u8, alpha]);
        }
        bytes
    }
}

#[test]
fn noisy_images_are_converted_in_every_mode() {
    let mut noise = Noise(7);
    for round in 0..60u32 {
        let width = 1 + (noise.next() % 24) as usize;
        let height = 1 + (noise.next() % 24) as usize;
        let palette = 1 + noise.next() % 6;
        let transparent = [0, 0, 10, 50, 100][(noise.next() % 5) as usize];
        let bytes = noise.image(width, height, palette, transparent);
        let hierarchical = if round % 2 == 0 { "stacked" } else { "cutout" };
        let mode = ["polygon", "spline", "none"][(round % 3) as usize];
        let mut p = params(hierarchical, mode);
        p.color_precision = (noise.next() % 8) as i32;
        p.layer_difference = [0, 1, 16, 200][(noise.next() % 4) as usize];
        p.filter_speckle = [0, 1, 4, 16][(noise.next() % 4) as usize];
        p.path_precision = [0, 2, 8][(noise.next() % 3) as usize];
        p.max_iterations = 1 + (noise.next() % 10) as usize;
        let mut converter = ColorImageConverter::new(p);
        converter.init(width, height, bytes).unwrap();
        let run = run(&mut converter);
        assert_eq!(converter.progress(), 100);
        assert_eq!(*run.progress.last().unwrap(), 100);
        for record in &run.records {
            assert!(record.offset.x.is_finite() && record.offset.y.is_finite());
        }
    }
}

#[test]
fn larger_noisy_images_are_converted() {
    let mut noise = Noise(99);
    for (width, height, palette) in [(120usize, 90usize, 3u32), (200, 50, 8), (64, 64, 2)] {
        for hierarchical in ["stacked", "cutout"] {
            let bytes = noise.image(width, height, palette, 5);
            let mut converter = ColorImageConverter::new(params(hierarchical, "spline"));
            converter.init(width, height, bytes).unwrap();
            let _ = run(&mut converter);
            assert_eq!(converter.progress(), 100);
        }
    }
}

#[test]
fn megapixel_image_is_converted() {
    let (width, height) = (1500usize, 1000usize);
    let mut bytes = Vec::with_capacity(width * height * 4);
    for y in 0..height {
        for x in 0..width {
            let dx = x as i64 - 750;
            let dy = y as i64 - 500;
            if dx * dx + dy * dy < 300 * 300 {
                bytes.extend_from_slice(&[250, 200, 10, 255]);
            } else {
                bytes.extend_from_slice(&[10, 20, 30, 255]);
            }
        }
    }
    let mut converter = ColorImageConverter::new(params("stacked", "spline"));
    converter.init(width, height, bytes).unwrap();
    let run = run(&mut converter);
    assert_eq!(colors(&run), vec![(10, 20, 30), (250, 200, 10)]);
    assert_eq!(converter.progress(), 100);
    for pair in run.progress.windows(2) {
        assert!(pair[0] <= pair[1]);
    }
}

/// The number of pixels of a mask on which the tracer starts a new label: those that are
/// set while neither the pixel above nor the pixel to the left is.
fn label_starts(image: &visioncortex::BinaryImage) -> usize {
    let mut starts = 0;
    for y in 0..image.height as i32 {
        for x in 0..image.width as i32 {
            if image.get_pixel_safe(x, y)
                && !image.get_pixel_safe(x, y - 1)
                && !image.get_pixel_safe(x - 1, y)
            {
                starts += 1;
            }
        }
    }
    starts
}

#[test]
fn tracer_starts_its_labels_on_open_sides() {
    let mut noise = Noise(5);
    for _ in 0..300 {
        let width = 1 + (noise.next() % 12) as usize;
        let height = 1 + (noise.next() % 12) as usize;
        let density = 1 + noise.next() % 9;
        let mut image = visioncortex::BinaryImage::new_w_h(width, height);
        let mut pixels = Vec::new();
        for y in 0..height {
            for x in 0..width {
                if noise.next() % 10 < density {
                    image.set_pixel(x, y, true);
                    pixels.push((y * width + x) as u32);
                }
            }
        }
        let mut open_sides = 0;
        for y in 0..height as i32 {
            for x in 0..width as i32 {
                if image.get_pixel_safe(x, y) {
                    for (dx, dy) in [(-1, 0), (1, 0), (0, -1), (0, 1)] {
                        if !image.get_pixel_safe(x + dx, y + dy) {
                            open_sides += 1;
                        }
                    }
                }
            }
        }
        assert!(open_sides <= MAX_OUTLINE_EDGES);
        assert!(is_traceable(&pixels, width, height));
        // The parts of the region.
        assert!(label_starts(&image) <= open_sides);
        // The holes of each part.
        for part in image.to_clusters(false).iter() {
            let holes = part.to_binary_image().negative();
            assert!(label_starts(&holes) <= open_sides + 1);
        }
    }
}
