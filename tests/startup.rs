use fairy::bootstrap::{Bootstrap, Command, Report, Stage};
use fairy::errs::Error;
use fairy::frame::FrameLoop;
use fairy::functions::{first_null_index, FunctionTable, Resolution};
use fairy::logs::Level;
use fairy::window::{Profile, WindowHint, WindowMode, HEIGHT, WIDTH};

fn resolution(name: &str, address: usize) -> Resolution {
    Resolution { name: name.to_string(), address }
}

fn drive_to(seq: &mut Bootstrap, stage: Stage) {
    while seq.stage() != stage {
        let report = Report::Done;
        assert!(seq.accepts(&report));
        seq.advance(report);
    }
}

fn error_records(seq: &Bootstrap) -> usize {
    let counted = seq.records().iter().filter(|r| r.level == Level::Error).count();
    assert_eq!(counted, seq.error_records());
    counted
}

#[test]
fn commands_follow_the_fixed_order() {
    let mut seq = Bootstrap::new();
    let mut seen = Vec::new();
    while seq.stage() != Stage::SwapIntervalSet {
        seen.push(seq.command());
        seq.advance(Report::Done);
    }
    seen.push(seq.command());
    assert_eq!(seen.len(), 11);
    assert_eq!(seen[0], Command::InitLibrary);
    assert_eq!(seen[1], Command::SetErrorCallback);
    assert_eq!(seen[2], Command::ReportVersion);
    assert_eq!(seen[3], Command::ApplyHint(WindowHint::ContextVersionMajor(3)));
    assert_eq!(seen[4], Command::ApplyHint(WindowHint::ContextVersionMinor(3)));
    assert_eq!(seen[5], Command::ApplyHint(WindowHint::OpenGlProfile(Profile::Core)));
    match seen[6] {
        Command::CreateWindow(w) => {
            assert_eq!((w.width, w.height), (1280, 720));
            assert_eq!(w.mode, WindowMode::Windowed);
            assert_eq!(w.context_version(), (3, 3, Profile::Core));
        }
        other => panic!("expected window creation, got {:?}", other),
    }
    assert_eq!(seen[7], Command::MakeCurrent);
    assert_eq!(seen[8], Command::EnablePolling);
    assert_eq!(seen[9], Command::SetSwapInterval(1));
    assert_eq!(seen[10], Command::LoadFunctions);
}

#[test]
fn window_creation_failure_ends_startup() {
    let mut seq = Bootstrap::new();
    drive_to(&mut seq, Stage::ProfileHinted);
    assert!(matches!(seq.command(), Command::CreateWindow(_)));
    assert!(seq.accepts(&Report::WindowFailed));
    seq.advance(Report::WindowFailed);
    assert_eq!(seq.stage(), Stage::Failed);
    assert_eq!(seq.command(), Command::Stop);
    assert!(seq.window().is_none());
    assert_eq!(error_records(&seq), 1);
    let last = seq.records().last().unwrap();
    assert_eq!(last.level, Level::Error);
    assert_eq!(last.message, "failed to create glfw window");
    let result = seq.finish();
    assert!(matches!(result, Err(Error::GlfwWindow)));
}

#[test]
fn successful_startup_yields_full_table() {
    let mut seq = Bootstrap::new();
    drive_to(&mut seq, Stage::SwapIntervalSet);
    let names = ["glActiveTexture", "glAttachShader", "glClear"];
    let resolved: Vec<Resolution> =
        names.iter().enumerate().map(|(i, n)| resolution(n, 0x1000 + i)).collect();
    let report = Report::FunctionsResolved(resolved);
    assert!(seq.accepts(&report));
    assert!(!seq.accepts(&Report::Done));
    seq.advance(report);
    assert_eq!(seq.stage(), Stage::Ready);
    assert_eq!(seq.command(), Command::Finish);
    assert_eq!(error_records(&seq), 0);
    let w = seq.window().unwrap();
    assert_eq!((w.width, w.height), (WIDTH, HEIGHT));
    assert_eq!(seq.records().len(), 11);
    assert_eq!(seq.records()[10].level, Level::Info);
    let table = seq.finish().unwrap();
    assert_eq!(table.count(), names.len());
    for i in 0..names.len() {
        assert_ne!(table.address(i), 0);
    }
    let frame = FrameLoop::new();
    assert!(!frame.should_close());
    assert!(frame.is_running());
}

#[test]
fn library_failure_carries_its_cause() {
    let mut seq = Bootstrap::new();
    assert_eq!(seq.command(), Command::InitLibrary);
    let report = Report::LibraryFailed("no display".to_string());
    assert!(seq.accepts(&report));
    seq.advance(report);
    assert_eq!(seq.stage(), Stage::Failed);
    assert_eq!(error_records(&seq), 1);
    match seq.finish() {
        Err(e) => {
            assert!(matches!(&e, Error::GlfwInit { context } if context == "no display"));
            assert_eq!(e.message(), "failed to initialize glfw. no display");
        }
        Ok(_) => panic!("start-up should have failed"),
    }
}

#[test]
fn loader_failure_is_a_graphics_error() {
    let mut seq = Bootstrap::new();
    drive_to(&mut seq, Stage::SwapIntervalSet);
    seq.advance(Report::LoaderFailed("glClear".to_string()));
    assert_eq!(error_records(&seq), 1);
    let last = seq.records().last().unwrap();
    assert_eq!(last.level, Level::Error);
    assert_eq!(last.message, "failed to load open-gl functions: glClear");
    match seq.finish() {
        Err(Error::GlInit { context }) => assert_eq!(context, "glClear"),
        other => panic!("unexpected {:?}", other),
    }
}

#[test]
fn null_address_fails_the_table() {
    let mut seq = Bootstrap::new();
    drive_to(&mut seq, Stage::SwapIntervalSet);
    let resolved = vec![resolution("glA", 8), resolution("glB", 0), resolution("glC", 0)];
    seq.advance(Report::FunctionsResolved(resolved));
    assert_eq!(seq.stage(), Stage::Failed);
    assert_eq!(error_records(&seq), 1);
    assert_eq!(seq.records().last().unwrap().message, "failed to load open-gl functions: glB");
    match seq.finish() {
        Err(Error::GlInit { context }) => assert_eq!(context, "missing function glB"),
        other => panic!("unexpected {:?}", other),
    }
}

#[test]
fn reports_out_of_turn_are_not_accepted() {
    let seq = Bootstrap::new();
    assert!(seq.accepts(&Report::Done));
    assert!(!seq.accepts(&Report::WindowFailed));
    assert!(!seq.accepts(&Report::FunctionsResolved(Vec::new())));
    assert!(!seq.accepts(&Report::LoaderFailed("x".to_string())));
}

#[test]
fn table_of_resolved_functions() {
    let t = FunctionTable::build(vec![resolution("glA", 1), resolution("glB", 2)]).unwrap();
    assert_eq!(t.count(), 2);
    assert_eq!(t.address(0), 1);
    assert_eq!(t.address(1), 2);
    let empty = FunctionTable::build(Vec::new()).unwrap();
    assert_eq!(empty.count(), 0);
    assert_eq!(first_null_index(&vec![resolution("glA", 1), resolution("glB", 0)]), 1);
    assert_eq!(first_null_index(&vec![resolution("glA", 1)]), 1);
    assert_eq!(first_null_index(&Vec::new()), 0);
    let bad = FunctionTable::build(vec![resolution("glOnly", 0)]);
    assert!(matches!(bad, Err(Error::GlInit { context }) if context == "missing function glOnly"));
}
