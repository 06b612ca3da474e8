use fairy::any::AsAny;
use fairy::errs::Error;
use fairy::logs::{format_time, glfw_error_record, Level, Record};
use fairy::text::joined;
use fairy::window::{Hints, Library, Profile, WindowHint};

#[test]
fn hint_after_creation_leaves_window_alone() {
    let mut lib = Library::init();
    lib.window_hint(WindowHint::ContextVersionMajor(3));
    lib.window_hint(WindowHint::ContextVersionMinor(3));
    lib.window_hint(WindowHint::OpenGlProfile(Profile::Core));
    let w = lib.create_window();
    assert_eq!(w.context_version(), (3, 3, Profile::Core));
    lib.window_hint(WindowHint::ContextVersionMajor(4));
    lib.window_hint(WindowHint::OpenGlProfile(Profile::Compat));
    assert_eq!(lib.windows.len(), 1);
    assert_eq!(lib.windows[0].context_version(), (3, 3, Profile::Core));
    assert_eq!(lib.hints, Hints { major: 4, minor: 3, profile: Profile::Compat });
    let later = lib.create_window();
    assert_eq!(later.context_version(), (4, 3, Profile::Compat));
}

#[test]
fn default_hints() {
    let h = Hints::new();
    assert_eq!(h, Hints { major: 1, minor: 0, profile: Profile::Any });
    let mut h2 = h;
    h2.apply(WindowHint::ContextVersionMinor(5));
    assert_eq!(h2, Hints { major: 1, minor: 5, profile: Profile::Any });
}

#[test]
fn error_messages() {
    let e = Error::LogInit { context: "already set".to_string() };
    assert_eq!(e.message(), "failed to initialize/set env_logger. already set");
    let e = Error::GlfwInit { context: "x".to_string() };
    assert_eq!(e.message(), "failed to initialize glfw. x");
    assert_eq!(Error::GlfwWindow.message(), "failed to create glfw window.");
    let e = Error::GlInit { context: "glClear".to_string() };
    assert_eq!(e.message(), "failed to initialize opengl. glClear");
}

#[test]
fn error_callback_record() {
    let r = glfw_error_record("bad context");
    assert_eq!(r.level, Level::Error);
    assert_eq!(r.message, "glfw error: bad context");
    let r = Record::new(Level::Debug, "hello");
    assert_eq!(r.level, Level::Debug);
    assert_eq!(r.message, "hello");
}

#[test]
fn joined_text() {
    assert_eq!(joined("ab", "cd"), "abcd");
    assert_eq!(joined("", ""), "");
}

#[test]
fn any_downcasts() {
    let mut x: u32 = 7;
    assert!(x.is::<u32>());
    assert!(!x.is::<i64>());
    assert_eq!(x.downcast_ref::<u32>(), Some(&7));
    assert!(x.downcast_ref::<String>().is_none());
    if let Some(v) = x.downcast_mut::<u32>() {
        *v = 9;
    }
    assert_eq!(x, 9);
    assert!(x.downcast_mut::<u8>().is_none());
}

#[test]
fn time_text_is_zero_padded() {
    assert_eq!(format_time(2024, 3, 7, 9, 5, 0), "2024-03-07 09:05:00");
    assert_eq!(format_time(1999, 12, 31, 23, 59, 60), "1999-12-31 23:59:60");
    assert_eq!(format_time(42, 1, 1, 0, 0, 0), "0042-01-01 00:00:00");
    assert_eq!(format_time(0, 10, 10, 10, 10, 10), "0000-10-10 10:10:10");
}

#[test]
fn time_text_signs_years_out_of_range() {
    assert_eq!(format_time(-5, 1, 2, 3, 4, 5), "-0005-01-02 03:04:05");
    assert_eq!(format_time(12345, 6, 7, 8, 9, 10), "+12345-06-07 08:09:10");
    assert_eq!(format_time(10000, 1, 1, 0, 0, 0), "+10000-01-01 00:00:00");
}
