use vstd::prelude::*;

use crate::errs::Error;
use crate::functions::{all_resolved, build_error, first_null, first_null_index, FunctionTable, Resolution};
use crate::text::joined;
use crate::logs::{error_count, Level, Record};
use crate::window::{
    spec_of, Hints, Library, Profile, WindowHint, WindowSpec, GLFW_MAJOR_VERSION,
    GLFW_MINOR_VERSION, SWAP_INTERVAL,
};

verus! {

/// How far start-up has come. Each stage names the last step that succeeded.
#[derive(Debug, Clone, Copy, PartialEq, Eq, Structural)]
pub enum Stage {
    Start,
    LibraryReady,
    CallbackSet,
    VersionReported,
    MajorHinted,
    MinorHinted,
    ProfileHinted,
    WindowCreated,
    ContextCurrent,
    Polling,
    SwapIntervalSet,
    Ready,
    Failed,
}

/// The next piece of outside work that start-up asks for.
#[derive(Debug, Clone, Copy, PartialEq, Eq, Structural)]
pub enum Command {
    /// Initialize the windowing library.
    InitLibrary,
    /// Install the process-wide error callback that logs windowing errors.
    SetErrorCallback,
    /// Query and log the windowing library's version.
    ReportVersion,
    /// Apply this hint to the windowing library.
    ApplyHint(WindowHint),
    /// Create a window of this size and mode, windowed, with the fixed title.
    CreateWindow(WindowSpec),
    /// Make the new window's context current on this thread.
    MakeCurrent,
    /// Enable delivery of every kind of event.
    EnablePolling,
    /// Set the buffer swap interval.
    SetSwapInterval(u32),
    /// Resolve every graphics function through the current context.
    LoadFunctions,
    /// Start-up succeeded: hand the resources to the caller.
    Finish,
    /// Start-up failed: release what was acquired and report the error.
    Stop,
}

/// What came of the last command.
#[derive(Debug)]
pub enum Report {
    /// The command was carried out.
    Done,
    /// The windowing library could not be initialized, with the cause.
    LibraryFailed(String),
    /// No window could be created.
    WindowFailed,
    /// The loader ran; each function it asked for, with its address.
    FunctionsResolved(Vec<Resolution>),
    /// The loader failed as a whole, with its message.
    LoaderFailed(String),
}

/// The position of a stage in the protocol; `Failed` stands past all others.
pub open spec fn rank(s: Stage) -> int {
    match s {
        Stage::Start => 0,
        Stage::LibraryReady => 1,
        Stage::CallbackSet => 2,
        Stage::VersionReported => 3,
        Stage::MajorHinted => 4,
        Stage::MinorHinted => 5,
        Stage::ProfileHinted => 6,
        Stage::WindowCreated => 7,
        Stage::ContextCurrent => 8,
        Stage::Polling => 9,
        Stage::SwapIntervalSet => 10,
        Stage::Ready => 11,
        Stage::Failed => 12,
    }
}

/// The windowing library exists at this stage.
pub open spec fn library_exists(s: Stage) -> bool {
    1 <= rank(s) <= 11
}

/// Start-up has ended, in success or failure.
pub open spec fn is_terminal(s: Stage) -> bool {
    s == Stage::Ready || s == Stage::Failed
}

/// The hint table that the windowing library holds at a stage.
pub open spec fn hints_at(s: Stage) -> Hints {
    Hints {
        major: if rank(s) >= 4 { GLFW_MAJOR_VERSION } else { 1 },
        minor: if rank(s) >= 5 { GLFW_MINOR_VERSION } else { 0 },
        profile: if rank(s) >= 6 { Profile::Core } else { Profile::Any },
    }
}

/// The command that start-up issues at a stage.
pub open spec fn command_of(s: Stage) -> Command {
    match s {
        Stage::Start => Command::InitLibrary,
        Stage::LibraryReady => Command::SetErrorCallback,
        Stage::CallbackSet => Command::ReportVersion,
        Stage::VersionReported => Command::ApplyHint(WindowHint::ContextVersionMajor(GLFW_MAJOR_VERSION)),
        Stage::MajorHinted => Command::ApplyHint(WindowHint::ContextVersionMinor(GLFW_MINOR_VERSION)),
        Stage::MinorHinted => Command::ApplyHint(WindowHint::OpenGlProfile(Profile::Core)),
        Stage::ProfileHinted => Command::CreateWindow(spec_of(hints_at(s))),
        Stage::WindowCreated => Command::MakeCurrent,
        Stage::ContextCurrent => Command::EnablePolling,
        Stage::Polling => Command::SetSwapInterval(SWAP_INTERVAL),
        Stage::SwapIntervalSet => Command::LoadFunctions,
        Stage::Ready => Command::Finish,
        Stage::Failed => Command::Stop,
    }
}

/// `r` is an answer that the command of stage `s` can have.
pub open spec fn fits(s: Stage, r: Report) -> bool {
    match r {
        Report::Done => s != Stage::SwapIntervalSet && !is_terminal(s),
        Report::LibraryFailed(_) => s == Stage::Start,
        Report::WindowFailed => s == Stage::ProfileHinted,
        Report::FunctionsResolved(_) => s == Stage::SwapIntervalSet,
        Report::LoaderFailed(_) => s == Stage::SwapIntervalSet,
    }
}

/// The stage after stage `s` is answered with `r`. No step is retried: every
/// failure ends start-up.
pub open spec fn next_stage(s: Stage, r: Report) -> Stage {
    match r {
        Report::Done => match s {
            Stage::Start => Stage::LibraryReady,
            Stage::LibraryReady => Stage::CallbackSet,
            Stage::CallbackSet => Stage::VersionReported,
            Stage::VersionReported => Stage::MajorHinted,
            Stage::MajorHinted => Stage::MinorHinted,
            Stage::MinorHinted => Stage::ProfileHinted,
            Stage::ProfileHinted => Stage::WindowCreated,
            Stage::WindowCreated => Stage::ContextCurrent,
            Stage::ContextCurrent => Stage::Polling,
            Stage::Polling => Stage::SwapIntervalSet,
            _ => s,
        },
        Report::FunctionsResolved(v) => if all_resolved(v@) { Stage::Ready } else { Stage::Failed },
        _ => Stage::Failed,
    }
}

/// `e` is the error that start-up ends in when stage `s` is answered with `r`.
pub open spec fn fails_with(s: Stage, r: Report, e: Error) -> bool {
    match r {
        Report::LibraryFailed(c) => e == Error::GlfwInit { context: c },
        Report::WindowFailed => e == Error::GlfwWindow,
        Report::FunctionsResolved(v) => build_error(v@, e),
        Report::LoaderFailed(c) => e == Error::GlInit { context: c },
        Report::Done => false,
    }
}

/// The severity of what is logged when stage `s` is followed by stage `n`:
/// one error-level record for the step that failed, and none otherwise.
pub open spec fn note_level(s: Stage, n: Stage) -> Level {
    if n == Stage::Failed {
        Level::Error
    } else if n == Stage::Ready {
        Level::Info
    } else {
        Level::Debug
    }
}

/// The text that begins the record of a failed graphics load.
pub open spec fn loader_failure_prefix() -> Seq<char> {
    "failed to load open-gl functions: "@
}

/// The message logged when stage `s` is answered with `r`. A failed load
/// names what the loader reported, or the first function that is missing.
pub open spec fn note_text(s: Stage, r: Report) -> Seq<char> {
    match r {
        Report::Done => match s {
            Stage::Start => "glfw (handle) initialized."@,
            Stage::LibraryReady => "glfw error callback set."@,
            Stage::CallbackSet => "glfw version reported."@,
            Stage::VersionReported => "glfw context major version hint set."@,
            Stage::MajorHinted => "glfw context minor version hint set."@,
            Stage::MinorHinted => "glfw profile hint set."@,
            Stage::ProfileHinted => "glfw window created."@,
            Stage::WindowCreated => "glfw window context made current."@,
            Stage::ContextCurrent => "glfw window polling enabled."@,
            _ => "glfw window swap interval set."@,
        },
        Report::LibraryFailed(_) => "failed to initialize glfw."@,
        Report::WindowFailed => "failed to create glfw window"@,
        Report::FunctionsResolved(v) => if all_resolved(v@) {
            "open-gl initialized."@
        } else {
            loader_failure_prefix() + v@[first_null(v@)].name@
        },
        Report::LoaderFailed(c) => loader_failure_prefix() + c@,
    }
}

/// The record logged when a carried-out step at stage `s` moves start-up on.
fn done_note(s: Stage) -> (r: Record)
    requires
        !is_terminal(s),
        s != Stage::SwapIntervalSet,
    ensures
        r.level == note_level(s, next_stage(s, Report::Done)),
        r.message@ == note_text(s, Report::Done),
{
    let text = match s {
        Stage::Start => "glfw (handle) initialized.",
        Stage::LibraryReady => "glfw error callback set.",
        Stage::CallbackSet => "glfw version reported.",
        Stage::VersionReported => "glfw context major version hint set.",
        Stage::MajorHinted => "glfw context minor version hint set.",
        Stage::MinorHinted => "glfw profile hint set.",
        Stage::ProfileHinted => "glfw window created.",
        Stage::WindowCreated => "glfw window context made current.",
        Stage::ContextCurrent => "glfw window polling enabled.",
        _ => "glfw window swap interval set.",
    };
    Record::new(Level::Debug, text)
}

/// The error-level record of a failed graphics load, naming `what`.
fn loader_failure_note(what: &str) -> (r: Record)
    ensures
        r.level == Level::Error,
        r.message@ == loader_failure_prefix() + what@,
{
    Record { level: Level::Error, message: joined("failed to load open-gl functions: ", what) }
}

/// The stage that follows `s` when its command was carried out.
fn after_done(s: Stage) -> (n: Stage)
    ensures
        n == next_stage(s, Report::Done),
{
    match s {
        Stage::Start => Stage::LibraryReady,
        Stage::LibraryReady => Stage::CallbackSet,
        Stage::CallbackSet => Stage::VersionReported,
        Stage::VersionReported => Stage::MajorHinted,
        Stage::MajorHinted => Stage::MinorHinted,
        Stage::MinorHinted => Stage::ProfileHinted,
        Stage::ProfileHinted => Stage::WindowCreated,
        Stage::WindowCreated => Stage::ContextCurrent,
        Stage::ContextCurrent => Stage::Polling,
        Stage::Polling => Stage::SwapIntervalSet,
        _ => s,
    }
}

/// The start-up sequencer: it issues the steps of start-up one at a time,
/// in a fixed order, and is told what came of each. It keeps a model of the
/// windowing library, the window, the function table once built, the error
/// that ended start-up, and every record to be logged.
pub struct Bootstrap {
    stage: Stage,
    library: Option<Library>,
    window: Option<WindowSpec>,
    table: Option<FunctionTable>,
    error: Option<Error>,
    journal: Vec<Record>,
    trace: Ghost<Seq<Report>>,
}

/// The severities of `records`, in order.
pub open spec fn levels(records: Seq<Record>) -> Seq<Level> {
    records.map_values(|r: Record| r.level)
}

impl Bootstrap {
    /// The stage reached.
    pub closed spec fn stage_spec(&self) -> Stage {
        self.stage
    }

    /// The records logged so far, oldest first.
    pub closed spec fn journal_spec(&self) -> Seq<Record> {
        self.journal@
    }

    /// The reports taken in so far, oldest first.
    pub closed spec fn trace_spec(&self) -> Seq<Report> {
        self.trace@
    }

    /// The error that start-up ended in, once it failed.
    pub closed spec fn error_spec(&self) -> Option<Error> {
        self.error
    }

    /// The function table, once built.
    pub closed spec fn table_spec(&self) -> Option<FunctionTable> {
        self.table
    }

    /// The window, once created.
    pub closed spec fn window_spec(&self) -> Option<WindowSpec> {
        self.window
    }

    /// The model agrees with the stage: the library exists exactly from its
    /// initialization on, with the hints applied so far and at most the one
    /// window; a finished start-up holds its table, a failed one its error.
    pub closed spec fn wf(&self) -> bool {
        &&& (self.stage == Stage::Start ==> self.library is None)
        &&& (library_exists(self.stage) ==> {
            &&& self.library is Some
            &&& self.library->0.hints == hints_at(self.stage)
            &&& self.library->0.windows@.len() == (if rank(self.stage) >= 7 { 1int } else { 0int })
        })
        &&& (rank(self.stage) <= 6 ==> self.window is None)
        &&& (7 <= rank(self.stage) <= 11 ==> self.window == Some(spec_of(hints_at(Stage::ProfileHinted))))
        &&& (self.stage == Stage::Ready ==> self.table is Some)
        &&& (self.stage == Stage::Failed ==> self.error is Some)
        &&& valid_trace(self.trace@)
        &&& run(self.trace@) == self.stage
        &&& levels(self.journal@) == trace_levels(self.trace@)
    }

    /// A sequencer that has done nothing yet.
    pub fn new() -> (r: Bootstrap)
        ensures
            r.wf(),
            r.stage_spec() == Stage::Start,
            r.journal_spec().len() == 0,
            r.trace_spec().len() == 0,
            r.window_spec() is None,
    {
        proof {
            assert(levels(Seq::<Record>::empty()) =~= Seq::<Level>::empty());
        }
        Bootstrap {
            stage: Stage::Start,
            library: None,
            window: None,
            table: None,
            error: None,
            journal: Vec::new(),
            trace: Ghost(Seq::empty()),
        }
    }

    /// The stage reached.
    pub fn stage(&self) -> (r: Stage)
        ensures
            r == self.stage_spec(),
    {
        self.stage
    }

    /// The records logged so far, oldest first.
    pub fn records(&self) -> (r: &Vec<Record>)
        ensures
            r@ == self.journal_spec(),
    {
        &self.journal
    }

    /// The window that was created, if start-up got that far.
    pub fn window(&self) -> (r: Option<WindowSpec>)
        ensures
            r == self.window_spec(),
    {
        self.window
    }

    /// The next step to carry out.
    pub fn command(&self) -> (r: Command)
        requires
            self.wf(),
        ensures
            r == command_of(self.stage_spec()),
    {
        match self.stage {
            Stage::Start => Command::InitLibrary,
            Stage::LibraryReady => Command::SetErrorCallback,
            Stage::CallbackSet => Command::ReportVersion,
            Stage::VersionReported => Command::ApplyHint(WindowHint::ContextVersionMajor(GLFW_MAJOR_VERSION)),
            Stage::MajorHinted => Command::ApplyHint(WindowHint::ContextVersionMinor(GLFW_MINOR_VERSION)),
            Stage::MinorHinted => Command::ApplyHint(WindowHint::OpenGlProfile(Profile::Core)),
            Stage::ProfileHinted => {
                let lib = self.library.as_ref().unwrap();
                Command::CreateWindow(lib.next_window())
            },
            Stage::WindowCreated => Command::MakeCurrent,
            Stage::ContextCurrent => Command::EnablePolling,
            Stage::Polling => Command::SetSwapInterval(SWAP_INTERVAL),
            Stage::SwapIntervalSet => Command::LoadFunctions,
            Stage::Ready => Command::Finish,
            Stage::Failed => Command::Stop,
        }
    }

    /// `report` answers the step that is due.
    pub fn accepts(&self, report: &Report) -> (r: bool)
        ensures
            r == fits(self.stage_spec(), *report),
    {
        let s = self.stage;
        match report {
            Report::Done => s != Stage::SwapIntervalSet && s != Stage::Ready && s != Stage::Failed,
            Report::LibraryFailed(_) => s == Stage::Start,
            Report::WindowFailed => s == Stage::ProfileHinted,
            Report::FunctionsResolved(_) => s == Stage::SwapIntervalSet,
            Report::LoaderFailed(_) => s == Stage::SwapIntervalSet,
        }
    }

    /// Applies a hint to the library model.
    fn hint(&mut self, h: WindowHint)
        requires
            old(self).library is Some,
        ensures
            final(self).library is Some,
            final(self).library->0.hints == crate::window::with_hint(old(self).library->0.hints, h),
            final(self).library->0.windows@ == old(self).library->0.windows@,
            final(self).stage == old(self).stage,
            final(self).window == old(self).window,
            final(self).table == old(self).table,
            final(self).error == old(self).error,
            final(self).journal@ == old(self).journal@,
            final(self).trace == old(self).trace,
    {
        let mut lib = self.library.take().unwrap();
        lib.window_hint(h);
        self.library = Some(lib);
    }

    /// Takes in what came of the step that was due, moves to the next stage
    /// and logs one record for it. A failure ends start-up with its error.
    pub fn advance(&mut self, report: Report)
        requires
            old(self).wf(),
            fits(old(self).stage_spec(), report),
        ensures
            final(self).wf(),
            final(self).stage_spec() == next_stage(old(self).stage_spec(), report),
            final(self).trace_spec() == old(self).trace_spec().push(report),
            final(self).journal_spec().len() == old(self).journal_spec().len() + 1,
            final(self).journal_spec().drop_last() == old(self).journal_spec(),
            final(self).journal_spec().last().level == note_level(old(self).stage_spec(), final(self).stage_spec()),
            final(self).journal_spec().last().message@ == note_text(old(self).stage_spec(), report),
            final(self).window_spec() == (if old(self).stage_spec() == Stage::ProfileHinted && report is Done {
                Some(spec_of(hints_at(Stage::ProfileHinted)))
            } else {
                old(self).window_spec()
            }),
            final(self).stage_spec() == Stage::Failed ==> fails_with(old(self).stage_spec(), report, final(self).error_spec()->0),
            final(self).stage_spec() == Stage::Ready ==> (report matches Report::FunctionsResolved(v) && final(self).table_spec()->0@ == v@),
    {
        let s = self.stage;
        let n: Stage;
        let rec: Record;
        let ghost answered = report;
        match report {
            Report::Done => {
                n = after_done(s);
                rec = done_note(s);
                match s {
                    Stage::Start => {
                        self.library = Some(Library::init());
                    },
                    Stage::VersionReported => {
                        self.hint(WindowHint::ContextVersionMajor(GLFW_MAJOR_VERSION));
                    },
                    Stage::MajorHinted => {
                        self.hint(WindowHint::ContextVersionMinor(GLFW_MINOR_VERSION));
                    },
                    Stage::MinorHinted => {
                        self.hint(WindowHint::OpenGlProfile(Profile::Core));
                    },
                    Stage::ProfileHinted => {
                        let mut lib = self.library.take().unwrap();
                        let w = lib.create_window();
                        self.library = Some(lib);
                        self.window = Some(w);
                    },
                    _ => {},
                }
            },
            Report::LibraryFailed(context) => {
                n = Stage::Failed;
                rec = Record::new(Level::Error, "failed to initialize glfw.");
                self.error = Some(Error::GlfwInit { context });
            },
            Report::WindowFailed => {
                n = Stage::Failed;
                rec = Record::new(Level::Error, "failed to create glfw window");
                self.error = Some(Error::GlfwWindow);
            },
            Report::FunctionsResolved(v) => {
                let k = first_null_index(&v);
                if k < v.len() {
                    rec = loader_failure_note(v[k].name.as_str());
                } else {
                    rec = Record::new(Level::Info, "open-gl initialized.");
                }
                match FunctionTable::build(v) {
                    Ok(t) => {
                        n = Stage::Ready;
                        self.table = Some(t);
                    },
                    Err(e) => {
                        n = Stage::Failed;
                        self.error = Some(e);
                    },
                }
            },
            Report::LoaderFailed(context) => {
                n = Stage::Failed;
                rec = loader_failure_note(context.as_str());
                self.error = Some(Error::GlInit { context });
            },
        }
        self.stage = n;

        self.journal.push(rec);
        proof {
            let t = old(self).trace@.push(answered);
            assert(t.drop_last() =~= old(self).trace@);
            self.trace = Ghost(t);
            assert(self.journal@.drop_last() =~= old(self).journal@);
            assert(levels(self.journal@) =~= levels(old(self).journal@).push(rec.level));
        }
    }

    /// Number of error-level records logged so far: one once start-up has
    /// failed, none otherwise.
    pub fn error_records(&self) -> (r: usize)
        requires
            self.wf(),
        ensures
            r == error_count(levels(self.journal_spec())),
            r == (if self.stage_spec() == Stage::Failed { 1usize } else { 0usize }),
    {
        proof {
            lemma_one_error_record(self.trace@);
        }
        let mut count: usize = 0;
        let mut i: usize = 0;
        while i < self.journal.len()
            invariant
                0 <= i <= self.journal@.len(),
                count == error_count(levels(self.journal@.take(i as int))),
                error_count(levels(self.journal@)) <= 1,
            decreases self.journal@.len() - i,
        {
            proof {
                let pre = self.journal@.take(i as int + 1);
                assert(pre.drop_last() =~= self.journal@.take(i as int));
                assert(levels(pre).drop_last() =~= levels(pre.drop_last()));
                lemma_error_count_prefix(levels(self.journal@), i as int + 1);
                assert(levels(self.journal@).take(i as int + 1) =~= levels(pre));
            }
            if self.journal[i].level == Level::Error {
                count = count + 1;
            }
            i = i + 1;
        }
        proof {
            assert(self.journal@.take(i as int) =~= self.journal@);
        }
        count
    }

    /// Ends start-up: the function table when every step succeeded, the
    /// error that ended it otherwise.
    pub fn finish(self) -> (r: Result<FunctionTable, Error>)
        requires
            self.wf(),
            is_terminal(self.stage_spec()),
        ensures
            r is Ok <==> self.stage_spec() == Stage::Ready,
            r is Ok ==> self.table_spec() == Some(r->Ok_0),
            r is Err ==> self.error_spec() == Some(r->Err_0),
    {
        if self.stage == Stage::Ready {
            Ok(self.table.unwrap())
        } else {
            Err(self.error.unwrap())
        }
    }
}

/// Counting errors over a prefix never gives more than over the whole.
proof fn lemma_error_count_prefix(ls: Seq<Level>, k: int)
    requires
        0 <= k <= ls.len(),
    ensures
        error_count(ls.take(k)) <= error_count(ls),
    decreases ls.len(),
{
    if k < ls.len() {
        lemma_error_count_prefix(ls.drop_last(), k);
        assert(ls.drop_last().take(k) =~= ls.take(k));
    } else {
        assert(ls.take(k) =~= ls);
    }
}

/// The stage reached from the start when the steps are answered with
/// `reports`, in order.
pub open spec fn run(reports: Seq<Report>) -> Stage
    decreases reports.len(),
{
    if reports.len() == 0 {
        Stage::Start
    } else {
        next_stage(run(reports.drop_last()), reports.last())
    }
}

/// Each report answers the step that was due when it came.
pub open spec fn valid_trace(reports: Seq<Report>) -> bool
    decreases reports.len(),
{
    reports.len() == 0 || (valid_trace(reports.drop_last()) && fits(run(reports.drop_last()), reports.last()))
}

/// The severities logged along `reports`, one per step.
pub open spec fn trace_levels(reports: Seq<Report>) -> Seq<Level>
    decreases reports.len(),
{
    if reports.len() == 0 {
        Seq::empty()
    } else {
        trace_levels(reports.drop_last()).push(note_level(run(reports.drop_last()), run(reports)))
    }
}

/// Whenever the windowing library exists, it was initialized by an earlier
/// step: a step issued at the start stage that was carried out.
pub proof fn lemma_library_was_initialized(reports: Seq<Report>)
    requires
        valid_trace(reports),
        library_exists(run(reports)),
    ensures
        exists|j: int| 0 <= j < reports.len() && run(reports.take(j)) == Stage::Start && #[trigger] reports[j] is Done,
    decreases reports.len(),
{
    let p = reports.drop_last();
    let j = reports.len() - 1;
    if run(p) == Stage::Start {
        assert(reports.take(j) =~= p);
        assert(reports[j] is Done);
    } else {
        lemma_library_was_initialized(p);
        let k = choose|k: int| 0 <= k < p.len() && run(p.take(k)) == Stage::Start && #[trigger] p[k] is Done;
        assert(reports.take(k) =~= p.take(k));
        assert(reports[k] is Done);
    }
}

/// Window creation is never asked for before the windowing library exists:
/// at the stage that creates the window, the library was initialized by an
/// earlier step that was carried out, and the library model is in place.
pub proof fn lemma_window_after_library(reports: Seq<Report>)
    requires
        valid_trace(reports),
    ensures
        command_of(run(reports)) is CreateWindow ==> library_exists(run(reports)),
        command_of(run(reports)) is CreateWindow ==> exists|j: int|
            0 <= j < reports.len() && run(reports.take(j)) == Stage::Start && #[trigger] reports[j] is Done,
{
    if command_of(run(reports)) is CreateWindow {
        lemma_library_was_initialized(reports);
    }
}

/// Along any run, exactly one error-level record is logged if start-up failed,
/// and none otherwise.
pub proof fn lemma_one_error_record(reports: Seq<Report>)
    requires
        valid_trace(reports),
    ensures
        error_count(trace_levels(reports)) == (if run(reports) == Stage::Failed { 1nat } else { 0nat }),
    decreases reports.len(),
{
    if reports.len() > 0 {
        let p = reports.drop_last();
        lemma_one_error_record(p);
        assert(trace_levels(reports).drop_last() =~= trace_levels(p));
    }
}

/// Start-up succeeds only through a load in which every function the loader
/// asked for resolved to a non-null address.
pub proof fn lemma_ready_means_complete(reports: Seq<Report>)
    requires
        valid_trace(reports),
        run(reports) == Stage::Ready,
    ensures
        reports.len() > 0,
        reports.last() matches Report::FunctionsResolved(v) && all_resolved(v@),
{
    if reports.len() == 0 {
        assert(run(reports) == Stage::Start);
    }
}

} // verus!
