use vlsh::anchors::{Anchors, Edge};
use vlsh::dispatch::{handle_options, CliOutcome, Dispatcher, Phase};
use vlsh::monitor::{resolve, Geometry, MonitorError, ResolvedMonitor};
use vlsh::playback::{mount, PlaybackMount};
use vlsh::request::{media_path_of, monitor_index_of, Args, OptionsDict};
use vlsh::surface::{configure, namespace, KeyboardMode, Layer, Margins, SurfaceOp, VlshExt};

const EDGES: [Edge; 4] = [Edge::Top, Edge::Bottom, Edge::Left, Edge::Right];

fn two_outputs() -> Vec<Geometry> {
    vec![
        Geometry { width: 1920, height: 1080 },
        Geometry { width: 1280, height: 1024 },
    ]
}

fn options(monitor: Option<i32>, anchors: Anchors) -> OptionsDict {
    OptionsDict {
        version: false,
        monitor,
        anchor_top: anchors.top,
        anchor_bottom: anchors.bottom,
        anchor_left: anchors.left,
        anchor_right: anchors.right,
    }
}

fn command(path: &str) -> Vec<String> {
    vec![String::from("vlsh"), String::from(path)]
}

fn request(monitor: u32, anchors: Anchors, file: &str) -> Args {
    Args {
        monitor,
        anchor_top: anchors.top,
        anchor_bottom: anchors.bottom,
        anchor_left: anchors.left,
        anchor_right: anchors.right,
        file: String::from(file),
    }
}

#[test]
fn every_anchor_subset_is_kept() {
    let monitor = ResolvedMonitor { index: 0, width: 1920, height: 1080 };
    for bits in 0u8..16 {
        let anchors = Anchors {
            top: bits & 1 != 0,
            bottom: bits & 2 != 0,
            left: bits & 4 != 0,
            right: bits & 8 != 0,
        };
        let surface = configure(&request(0, anchors, "bg.mp4"), &monitor);
        assert_eq!(surface.anchors, anchors);
        for edge in EDGES {
            assert_eq!(surface.is_anchored(edge), anchors.contains(edge));
        }
    }
}

#[test]
fn resolve_in_range_gives_geometry() {
    let outputs = two_outputs();
    assert_eq!(
        resolve(0, &outputs),
        Ok(ResolvedMonitor { index: 0, width: 1920, height: 1080 })
    );
    assert_eq!(
        resolve(1, &outputs),
        Ok(ResolvedMonitor { index: 1, width: 1280, height: 1024 })
    );
}

#[test]
fn resolve_out_of_range_fails() {
    let outputs = two_outputs();
    assert_eq!(resolve(2, &outputs), Err(MonitorError::OutOfRange { index: 2, count: 2 }));
    assert_eq!(resolve(5, &outputs), Err(MonitorError::OutOfRange { index: 5, count: 2 }));
    assert_eq!(
        resolve(0, &Vec::new()),
        Err(MonitorError::OutOfRange { index: 0, count: 0 })
    );
    assert_eq!(
        resolve(u32::MAX, &outputs),
        Err(MonitorError::OutOfRange { index: u32::MAX, count: 2 })
    );
}

#[test]
fn out_of_range_message() {
    let e = MonitorError::OutOfRange { index: 3, count: 1 };
    assert_eq!(e.message(), "monitor id is out of bounds");
}

#[test]
fn margins_are_zero_for_any_anchors_and_monitor() {
    for (i, anchors) in [Anchors::none(), Anchors::all(), Anchors { top: true, bottom: false, left: true, right: false }]
        .into_iter()
        .enumerate()
    {
        let monitor = ResolvedMonitor { index: i as u32, width: 640 + i as i32, height: 480 };
        let mut surface = configure(&request(i as u32, anchors, "a.webm"), &monitor);
        assert_eq!(surface.margins, Margins::zero());
        mount(&mut surface, String::from("a.webm"));
        for edge in EDGES {
            assert_eq!(surface.margin(edge), 0);
            assert_eq!(surface.content.as_ref().unwrap().margins.get(edge), 0);
        }
    }
}

#[test]
fn mount_hides_controls() {
    let monitor = ResolvedMonitor { index: 0, width: 1920, height: 1080 };
    let mut surface = configure(&request(0, Anchors::all(), "bg.mp4"), &monitor);
    assert!(!surface.controls_hidden());
    mount(&mut surface, String::from("/home/user/Videos/clip.mkv"));
    assert!(surface.controls_hidden());
    let m = surface.content.as_ref().unwrap();
    assert_eq!(m.media_path, "/home/user/Videos/clip.mkv");
    assert!(m.looping && m.autoplay);
    assert!(!m.hexpand && !m.vexpand);
    assert!(!m.controls_visible);
}

#[test]
fn mount_replaces_content() {
    let monitor = ResolvedMonitor { index: 0, width: 100, height: 100 };
    let mut surface = configure(&request(0, Anchors::none(), "x"), &monitor);
    mount(&mut surface, String::from("first.mp4"));
    mount(&mut surface, String::from("second.mp4"));
    assert_eq!(surface.content.as_ref().unwrap().media_path, "second.mp4");
    assert!(surface.controls_hidden());
}

#[test]
fn new_mount_plays_path() {
    let m = PlaybackMount::new(String::from("loop.mp4"));
    assert_eq!(m.media_path, "loop.mp4");
    assert!(m.looping && m.autoplay && !m.controls_visible);
}

#[test]
fn invocation_full_anchors_on_first_output() {
    let mut d = Dispatcher::new();
    let opts = options(Some(0), Anchors::all());
    assert_eq!(d.local_options(&opts), -1);
    assert_eq!(d.phase, Phase::Starting);
    let outcome = d.command_line(&opts, &command("bg.mp4"), &two_outputs());
    assert_eq!(outcome, CliOutcome::Mounted);
    assert_eq!(outcome.status(), -1);
    assert_eq!(d.phase, Phase::Running);
    assert_eq!(d.surface_count(), 1);
    let s = &d.surfaces[0];
    assert_eq!(s.default_width, 1920);
    assert_eq!(s.default_height, 1080);
    for edge in EDGES {
        assert!(s.is_anchored(edge));
    }
    assert!(s.auto_exclusive_zone);
    assert_eq!(s.exclusive_zone, 1);
    assert_eq!(s.layer, Layer::Background);
    assert_eq!(s.keyboard_mode, KeyboardMode::Disabled);
    assert_eq!(s.content.as_ref().unwrap().media_path, "bg.mp4");
}

#[test]
fn invocation_monitor_out_of_range_exits() {
    let mut d = Dispatcher::new();
    let opts = options(Some(5), Anchors::all());
    assert_eq!(d.local_options(&opts), -1);
    let outcome = d.command_line(&opts, &command("bg.mp4"), &two_outputs());
    assert_eq!(outcome, CliOutcome::Exit(0));
    assert_eq!(outcome.status(), 0);
    assert_eq!(d.surface_count(), 0);
}

#[test]
fn invocation_version_short_circuits() {
    let mut d = Dispatcher::new();
    let mut opts = options(None, Anchors::none());
    opts.version = true;
    assert_eq!(handle_options(&opts), 0);
    assert_eq!(d.local_options(&opts), 0);
    assert_eq!(d.surface_count(), 0);
    assert_ne!(d.phase, Phase::Running);
}

#[test]
fn invocation_second_invocation_adds_independent_surface() {
    let mut d = Dispatcher::new();
    let outputs = two_outputs();
    let first = options(Some(0), Anchors::all());
    d.local_options(&first);
    assert_eq!(d.command_line(&first, &command("bg.mp4"), &outputs), CliOutcome::Mounted);
    let second = options(Some(1), Anchors { top: true, bottom: false, left: false, right: false });
    assert_eq!(d.command_line(&second, &command("other.mp4"), &outputs), CliOutcome::Mounted);
    assert_eq!(d.surface_count(), 2);
    let a = &d.surfaces[0];
    let b = &d.surfaces[1];
    assert_eq!(a.anchors, Anchors::all());
    assert_eq!((a.default_width, a.default_height), (1920, 1080));
    assert_eq!(a.monitor.index, 0);
    assert_eq!(b.anchors, Anchors { top: true, bottom: false, left: false, right: false });
    assert_eq!((b.default_width, b.default_height), (1280, 1024));
    assert_eq!(b.monitor.index, 1);
    assert_eq!(b.content.as_ref().unwrap().media_path, "other.mp4");
}

#[test]
fn same_monitor_twice_stacks_two_surfaces() {
    let mut d = Dispatcher::new();
    let outputs = two_outputs();
    let opts = options(Some(0), Anchors::all());
    d.command_line(&opts, &command("bg.mp4"), &outputs);
    d.command_line(&opts, &command("bg.mp4"), &outputs);
    assert_eq!(d.surface_count(), 2);
}

#[test]
fn forwarded_out_of_range_is_rejected() {
    let mut d = Dispatcher::new();
    let outputs = two_outputs();
    d.command_line(&options(Some(0), Anchors::all()), &command("bg.mp4"), &outputs);
    let outcome = d.command_line(&options(Some(7), Anchors::all()), &command("bg.mp4"), &outputs);
    assert_eq!(outcome, CliOutcome::Rejected(MonitorError::OutOfRange { index: 7, count: 2 }));
    assert_eq!(outcome.status(), -1);
    assert_eq!(d.phase, Phase::Running);
    assert_eq!(d.surface_count(), 1);
}

#[test]
fn invocation_no_anchors() {
    let mut d = Dispatcher::new();
    let opts = options(Some(1), Anchors::none());
    assert_eq!(d.command_line(&opts, &command("bg.mp4"), &two_outputs()), CliOutcome::Mounted);
    let s = &d.surfaces[0];
    for edge in EDGES {
        assert!(!s.is_anchored(edge));
    }
    assert_eq!((s.default_width, s.default_height), (1280, 1024));
    let ops = s.operations();
    for edge in EDGES {
        assert!(ops.contains(&SurfaceOp::SetAnchor(edge, false)));
    }
    assert!(ops.contains(&SurfaceOp::SetDefaultSize(1280, 1024)));
}

#[test]
fn operations_follow_setup_order() {
    let monitor = ResolvedMonitor { index: 1, width: 2560, height: 1440 };
    let s = configure(&request(1, Anchors { top: true, bottom: true, left: false, right: false }, "v.mp4"), &monitor);
    let ops = s.operations();
    assert_eq!(
        ops,
        vec![
            SurfaceOp::InitLayerShell,
            SurfaceOp::SetLayer(Layer::Background),
            SurfaceOp::SetNamespace,
            SurfaceOp::SetKeyboardMode(KeyboardMode::Disabled),
            SurfaceOp::SetMargin(Edge::Left, 0),
            SurfaceOp::SetMargin(Edge::Right, 0),
            SurfaceOp::SetMargin(Edge::Top, 0),
            SurfaceOp::SetMargin(Edge::Bottom, 0),
            SurfaceOp::SetAnchor(Edge::Top, true),
            SurfaceOp::SetAnchor(Edge::Bottom, true),
            SurfaceOp::SetAnchor(Edge::Left, false),
            SurfaceOp::SetAnchor(Edge::Right, false),
            SurfaceOp::EnableAutoExclusiveZone,
            SurfaceOp::SetExclusiveZone(1),
            SurfaceOp::BindMonitor(1),
            SurfaceOp::SetDefaultSize(2560, 1440),
            SurfaceOp::Present,
            SurfaceOp::SetFullscreened(true),
        ]
    );
}

#[test]
fn namespace_is_fixed() {
    assert_eq!(namespace(), "vlsh");
}

#[test]
fn request_from_options() {
    let opts = options(Some(3), Anchors { top: false, bottom: true, left: true, right: false });
    let args = Args::from_variant_dict(&opts, Some(String::from("movie.mp4")));
    assert_eq!(args.monitor, 3);
    assert!(!args.anchor_top && args.anchor_bottom && args.anchor_left && !args.anchor_right);
    assert_eq!(args.file, "movie.mp4");
    assert_eq!(args.anchors(), Anchors { top: false, bottom: true, left: true, right: false });
}

#[test]
fn request_defaults() {
    let args = Args::from_variant_dict(&options(None, Anchors::none()), None);
    assert_eq!(args.monitor, 0);
    assert_eq!(args.file, "");
    assert_eq!(args.anchors(), Anchors::none());
}

#[test]
fn monitor_option_values() {
    assert_eq!(monitor_index_of(None), 0);
    assert_eq!(monitor_index_of(Some(0)), 0);
    assert_eq!(monitor_index_of(Some(2)), 2);
    assert_eq!(monitor_index_of(Some(i32::MAX)), 2147483647);
    assert_eq!(monitor_index_of(Some(-1)), 4294967295);
    assert_eq!(monitor_index_of(Some(i32::MIN)), 2147483648);
}

#[test]
fn negative_monitor_is_out_of_range() {
    let mut d = Dispatcher::new();
    let outcome = d.command_line(&options(Some(-1), Anchors::all()), &command("bg.mp4"), &two_outputs());
    assert_eq!(outcome, CliOutcome::Exit(0));
}

#[test]
fn media_path_is_last_argument() {
    assert_eq!(media_path_of(&Vec::new()), None);
    assert_eq!(media_path_of(&command("bg.mp4")), Some(String::from("bg.mp4")));
    let many = vec![String::from("vlsh"), String::from("a.mp4"), String::from("b.mp4")];
    assert_eq!(media_path_of(&many), Some(String::from("b.mp4")));
}

#[test]
fn set_monitor_binds_and_sizes() {
    let outputs = two_outputs();
    let monitor = ResolvedMonitor { index: 0, width: 1920, height: 1080 };
    let mut s = configure(&request(0, Anchors::all(), "bg.mp4"), &monitor);
    assert_eq!(s.set_monitor(1, &outputs), Ok(()));
    assert_eq!(s.monitor, ResolvedMonitor { index: 1, width: 1280, height: 1024 });
    assert_eq!((s.default_width, s.default_height), (1280, 1024));
    assert_eq!(s.set_monitor(9, &outputs), Err(MonitorError::OutOfRange { index: 9, count: 2 }));
    assert_eq!(s.monitor.index, 1);
    assert_eq!((s.default_width, s.default_height), (1280, 1024));
}

#[test]
fn local_options_without_version_continue() {
    let opts = options(Some(1), Anchors::all());
    assert_eq!(handle_options(&opts), -1);
    let mut d = Dispatcher::new();
    assert_eq!(d.phase, Phase::NotRunning);
    assert_eq!(d.local_options(&opts), -1);
    assert_eq!(d.phase, Phase::Starting);
}
