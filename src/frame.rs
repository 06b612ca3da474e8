use vstd::prelude::*;

verus! {

/// A keyboard key, as far as the event handling tells keys apart.
#[derive(Debug, Clone, Copy, PartialEq, Eq, Structural)]
pub enum Key {
    Escape,
    /// Any other key, by its key code.
    Other(i32),
}

/// What happened to a key.
#[derive(Debug, Clone, Copy, PartialEq, Eq, Structural)]
pub enum Action {
    Release,
    Press,
    Repeat,
}

/// An input or window event delivered by the windowing library.
#[derive(Debug, Clone, Copy, PartialEq, Eq, Structural)]
pub enum WindowEvent {
    /// The user asked to close the window.
    Close,
    /// A key event: key, platform scancode, action and modifier bits.
    Key(Key, i32, Action, u32),
    /// Any other event; it is ignored.
    Other,
}

/// The event asks for the window to close.
pub open spec fn requests_close(e: WindowEvent) -> bool {
    match e {
        WindowEvent::Close => true,
        WindowEvent::Key(key, _, action, _) => key == Key::Escape && action == Action::Press,
        WindowEvent::Other => false,
    }
}

/// The should-close flag after the events, in order, starting from `flag`.
pub open spec fn closing_after(flag: bool, events: Seq<WindowEvent>) -> bool
    decreases events.len(),
{
    if events.len() == 0 {
        flag
    } else {
        closing_after(flag, events.drop_last()) || requests_close(events.last())
    }
}

/// The frame loop's state: running until the window's should-close flag is
/// set, and closing from then on.
#[derive(Debug)]
pub struct FrameLoop {
    should_close: bool,
}

impl View for FrameLoop {
    type V = bool;

    /// The should-close flag.
    closed spec fn view(&self) -> bool {
        self.should_close
    }
}

impl FrameLoop {
    /// A loop for a freshly created window, whose should-close flag is false.
    pub fn new() -> (r: FrameLoop)
        ensures
            !r@,
    {
        FrameLoop { should_close: false }
    }

    /// The window's should-close flag.
    pub fn should_close(&self) -> (r: bool)
        ensures
            r == self@,
    {
        self.should_close
    }

    /// Another frame is to run: checked at the top of each iteration.
    pub fn is_running(&self) -> (r: bool)
        ensures
            r == !self@,
    {
        !self.should_close
    }

    /// Handles one event: a close request, or a press of Escape, sets the
    /// should-close flag; every other event leaves it as it was.
    pub fn dispatch(&mut self, event: &WindowEvent)
        ensures
            final(self)@ == (old(self)@ || requests_close(*event)),
    {
        match event {
            WindowEvent::Close => {
                self.should_close = true;
            },
            WindowEvent::Key(key, _, action, _) => {
                if *action == Action::Press && *key == Key::Escape {
                    self.should_close = true;
                }
            },
            WindowEvent::Other => {},
        }
    }

    /// Handles the events drained in one frame, in arrival order.
    pub fn dispatch_all(&mut self, events: &Vec<WindowEvent>)
        ensures
            final(self)@ == closing_after(old(self)@, events@),
    {
        let mut i: usize = 0;
        while i < events.len()
            invariant
                0 <= i <= events@.len(),
                self@ == closing_after(old(self)@, events@.take(i as int)),
            decreases events@.len() - i,
        {
            proof {
                assert(events@.take(i as int + 1).drop_last() =~= events@.take(i as int));
            }
            self.dispatch(&events[i]);
            i = i + 1;
        }
        proof {
            assert(events@.take(i as int) =~= events@);
        }
    }
}

/// Once the should-close flag is set, no sequence of events clears it.
pub proof fn lemma_close_flag_stays(events: Seq<WindowEvent>)
    ensures
        closing_after(true, events),
    decreases events.len(),
{
    if events.len() > 0 {
        lemma_close_flag_stays(events.drop_last());
    }
}

/// The flag after handling events is set exactly when it was set before, or
/// when one of the events asks to close.
pub proof fn lemma_closing_iff_request(flag: bool, events: Seq<WindowEvent>)
    ensures
        closing_after(flag, events) == (flag || exists|i: int|
            0 <= i < events.len() && #[trigger] requests_close(events[i])),
    decreases events.len(),
{
    if events.len() > 0 {
        let prefix = events.drop_last();
        lemma_closing_iff_request(flag, prefix);
        if exists|i: int| 0 <= i < prefix.len() && #[trigger] requests_close(prefix[i]) {
            let i = choose|i: int| 0 <= i < prefix.len() && #[trigger] requests_close(prefix[i]);
            assert(requests_close(events[i]));
        }
        if requests_close(events.last()) {
            assert(requests_close(events[events.len() - 1]));
        }
        if exists|i: int| 0 <= i < events.len() && #[trigger] requests_close(events[i]) {
            let i = choose|i: int| 0 <= i < events.len() && #[trigger] requests_close(events[i]);
            if i < events.len() - 1 {
                assert(requests_close(prefix[i]));
            }
        }
    }
}

} // verus!
