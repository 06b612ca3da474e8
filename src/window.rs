use vstd::prelude::*;

verus! {

/// Context major version asked of the windowing library.
pub const GLFW_MAJOR_VERSION: u32 = 3;
/// Context minor version asked of the windowing library.
pub const GLFW_MINOR_VERSION: u32 = 3;
/// Width of the window, in screen coordinates.
pub const WIDTH: u32 = 1280;
/// Height of the window, in screen coordinates.
pub const HEIGHT: u32 = 720;
/// Title of the window.
pub const TITLE: &'static str = "fairy engine";
/// Buffer swap interval: wait for one display refresh per frame.
pub const SWAP_INTERVAL: u32 = 1;

/// How the window is shown.
#[derive(Debug, Clone, Copy, PartialEq, Eq, Structural)]
pub enum WindowMode {
    Windowed,
    FullScreen,
}

/// Display mode of the window.
pub const MODE: WindowMode = WindowMode::Windowed;

/// Which graphics profile the context is created with.
#[derive(Debug, Clone, Copy, PartialEq, Eq, Structural)]
pub enum Profile {
    Any,
    Compat,
    Core,
}

/// A setting that the windowing library applies to windows created after it.
#[derive(Debug, Clone, Copy, PartialEq, Eq, Structural)]
pub enum WindowHint {
    ContextVersionMajor(u32),
    ContextVersionMinor(u32),
    OpenGlProfile(Profile),
}

/// The context settings that the windowing library holds for the next window.
#[derive(Debug, Clone, Copy, PartialEq, Eq, Structural)]
pub struct Hints {
    pub major: u32,
    pub minor: u32,
    pub profile: Profile,
}

/// The hint table after `hint` has been applied to `h`.
pub open spec fn with_hint(h: Hints, hint: WindowHint) -> Hints {
    match hint {
        WindowHint::ContextVersionMajor(v) => Hints { major: v, ..h },
        WindowHint::ContextVersionMinor(v) => Hints { minor: v, ..h },
        WindowHint::OpenGlProfile(p) => Hints { profile: p, ..h },
    }
}

/// The hints that start-up applies, in the order it applies them.
pub open spec fn startup_hints() -> Seq<WindowHint> {
    seq![
        WindowHint::ContextVersionMajor(GLFW_MAJOR_VERSION),
        WindowHint::ContextVersionMinor(GLFW_MINOR_VERSION),
        WindowHint::OpenGlProfile(Profile::Core),
    ]
}

impl Hints {
    /// The windowing library's own defaults: version 1.0, any profile.
    pub fn new() -> (r: Hints)
        ensures
            r == (Hints { major: 1, minor: 0, profile: Profile::Any }),
    {
        Hints { major: 1, minor: 0, profile: Profile::Any }
    }

    /// Applies one hint; it affects only windows created afterwards.
    pub fn apply(&mut self, hint: WindowHint)
        ensures
            *final(self) == with_hint(*old(self), hint),
    {
        match hint {
            WindowHint::ContextVersionMajor(v) => self.major = v,
            WindowHint::ContextVersionMinor(v) => self.minor = v,
            WindowHint::OpenGlProfile(p) => self.profile = p,
        }
    }
}

/// What a window is created with: its size, its mode and the context that the
/// hints asked for when it was created.
#[derive(Debug, Clone, Copy, PartialEq, Eq, Structural)]
pub struct WindowSpec {
    pub width: u32,
    pub height: u32,
    pub mode: WindowMode,
    pub context: Hints,
}

impl WindowSpec {
    /// The context version and profile of the window, as a triple.
    pub open spec fn context_version_spec(&self) -> (u32, u32, Profile) {
        (self.context.major, self.context.minor, self.context.profile)
    }

    /// The context version and profile that the window was created with.
    pub fn context_version(&self) -> (r: (u32, u32, Profile))
        ensures
            r == self.context_version_spec(),
    {
        (self.context.major, self.context.minor, self.context.profile)
    }
}

/// The windowing library once it is initialized: its hint table and the
/// windows created through it, oldest first. A window exists only as one
/// created through a `Library`, so none can be made before the library is.
#[derive(Debug)]
pub struct Library {
    pub hints: Hints,
    pub windows: Vec<WindowSpec>,
}

/// The window that the next creation under `hints` yields.
pub open spec fn spec_of(hints: Hints) -> WindowSpec {
    WindowSpec { width: WIDTH, height: HEIGHT, mode: MODE, context: hints }
}

impl Library {
    /// A freshly initialized library: default hints and no window yet.
    pub fn init() -> (r: Library)
        ensures
            r.hints == (Hints { major: 1, minor: 0, profile: Profile::Any }),
            r.windows@.len() == 0,
    {
        Library { hints: Hints::new(), windows: Vec::new() }
    }

    /// Applies a hint to the table; windows that already exist keep their context.
    pub fn window_hint(&mut self, hint: WindowHint)
        ensures
            final(self).hints == with_hint(old(self).hints, hint),
            final(self).windows@ == old(self).windows@,
    {
        self.hints.apply(hint);
    }

    /// The window that creating one now would yield.
    pub fn next_window(&self) -> (r: WindowSpec)
        ensures
            r == spec_of(self.hints),
    {
        WindowSpec { width: WIDTH, height: HEIGHT, mode: MODE, context: self.hints }
    }

    /// Creates a window under the current hints and returns what it was created with.
    pub fn create_window(&mut self) -> (r: WindowSpec)
        requires
            old(self).windows@.len() < usize::MAX,
        ensures
            r == spec_of(old(self).hints),
            final(self).hints == old(self).hints,
            final(self).windows@ == old(self).windows@.push(r),
    {
        let w = self.next_window();
        self.windows.push(w);
        w
    }
}

/// Changing a hint after a window was created does not alter that window:
/// it keeps the context version and profile of the table it was created under.
pub proof fn lemma_hint_after_creation(before: Library, created: Library, w: WindowSpec, hint: WindowHint, after: Library)
    requires
        w == spec_of(before.hints),
        created.hints == before.hints,
        created.windows@ == before.windows@.push(w),
        after.hints == with_hint(created.hints, hint),
        after.windows@ == created.windows@,
    ensures
        after.windows@.last().context == before.hints,
        after.windows@.last().context_version_spec() == (before.hints.major, before.hints.minor, before.hints.profile),
{
}

} // verus!
