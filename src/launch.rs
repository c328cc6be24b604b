use crate::plugins::{plugin_at, plugin_order, Plugin};
use crate::timing::{duration_text, setup_line, setup_line_spec, Elapsed};
use vstd::prelude::*;

verus! {

/// The number of plugins that a launch registers.
pub const PLUGIN_COUNT: usize = 8;

/// The message with which a launch aborts when the run loop fails.
pub open spec fn failure_message() -> Seq<char> {
    "error while running tauri application"@
}

/// Where a launch stands.
#[derive(Clone, Copy, Debug, PartialEq, Eq, Structural)]
pub enum Phase {
    /// Not entered yet.
    Idle,
    /// Registering plugins; `registered` of them are done.
    Registering,
    /// The run loop was started; setup has not completed.
    Starting,
    /// Setup completed and its line was printed; the run loop is live.
    Running,
    /// The run loop returned normally.
    Exited,
    /// The run loop failed and the process aborts.
    Aborted,
}

/// What the surrounding program reports to the launch.
#[derive(Clone, Copy, Debug, PartialEq, Eq, Structural)]
pub enum Event {
    /// The entry point was invoked; the setup clock starts here.
    Entered,
    /// The plugin last asked for was registered.
    Registered,
    /// The setup hook ran, this long after entry.
    SetupInvoked(Elapsed),
    /// The run loop returned; `true` where it succeeded.
    RunReturned(bool),
}

/// What the surrounding program is to do next.
#[derive(Debug, PartialEq, Eq)]
pub enum Action {
    /// Register this plugin on the builder.
    Register(Plugin),
    /// Start the framework's blocking run loop.
    StartRunLoop,
    /// Print this line on standard output.
    Print(String),
    /// Return normally from the entry point.
    Return,
    /// Abort the process with this message.
    Abort(String),
    /// Nothing to do.
    Idle,
}

/// An action, with its text as a sequence of characters.
pub enum ActionView {
    Register(Plugin),
    StartRunLoop,
    Print(Seq<char>),
    Return,
    Abort(Seq<char>),
    Idle,
}

impl View for Action {
    type V = ActionView;

    open spec fn view(&self) -> ActionView {
        match self {
            Action::Register(p) => ActionView::Register(*p),
            Action::StartRunLoop => ActionView::StartRunLoop,
            Action::Print(s) => ActionView::Print(s@),
            Action::Return => ActionView::Return,
            Action::Abort(s) => ActionView::Abort(s@),
            Action::Idle => ActionView::Idle,
        }
    }
}

/// The state of one launch of the application shell.
#[derive(Clone, Copy, Debug, PartialEq, Eq, Structural)]
pub struct Launch {
    pub phase: Phase,
    pub registered: usize,
}

/// The state before the entry point runs.
pub open spec fn initial() -> Launch {
    Launch { phase: Phase::Idle, registered: 0 }
}

/// The state that an event leads to.
pub open spec fn next_state(s: Launch, e: Event) -> Launch {
    match (s.phase, e) {
        (Phase::Idle, Event::Entered) => Launch { phase: Phase::Registering, registered: 0 },
        (Phase::Registering, Event::Registered) => if s.registered + 1 < PLUGIN_COUNT {
            Launch { phase: Phase::Registering, registered: (s.registered + 1) as usize }
        } else {
            Launch { phase: Phase::Starting, registered: PLUGIN_COUNT }
        },
        (Phase::Starting, Event::SetupInvoked(_)) => Launch { phase: Phase::Running, ..s },
        (Phase::Starting, Event::RunReturned(ok)) | (Phase::Running, Event::RunReturned(ok)) => {
            Launch { phase: if ok { Phase::Exited } else { Phase::Aborted }, ..s }
        },
        _ => s,
    }
}

/// The action that an event calls for.
pub open spec fn next_action(s: Launch, e: Event) -> ActionView {
    match (s.phase, e) {
        (Phase::Idle, Event::Entered) => ActionView::Register(plugin_order()[0]),
        (Phase::Registering, Event::Registered) => if s.registered + 1 < PLUGIN_COUNT {
            ActionView::Register(plugin_order()[s.registered + 1])
        } else {
            ActionView::StartRunLoop
        },
        (Phase::Starting, Event::SetupInvoked(d)) => ActionView::Print(
            setup_line_spec(duration_text(d.secs, d.nanos)),
        ),
        (Phase::Starting, Event::RunReturned(ok)) | (Phase::Running, Event::RunReturned(ok)) => {
            if ok {
                ActionView::Return
            } else {
                ActionView::Abort(failure_message())
            }
        },
        _ => ActionView::Idle,
    }
}

/// Every measured span that an event carries is well formed.
pub open spec fn event_ok(e: Event) -> bool {
    match e {
        Event::SetupInvoked(d) => d.wf(),
        _ => true,
    }
}

impl Launch {
    /// The count of registered plugins stays within the plan.
    pub open spec fn wf(self) -> bool {
        self.registered < PLUGIN_COUNT || (self.registered == PLUGIN_COUNT && self.phase != Phase::Registering)
    }

    /// A launch that has not been entered.
    pub fn new() -> (r: Launch)
        ensures
            r == initial(),
            r.wf(),
    {
        Launch { phase: Phase::Idle, registered: 0 }
    }

    /// Takes in one event: moves to the next state and says what to do.
    pub fn step(&mut self, e: Event) -> (a: Action)
        requires
            old(self).wf(),
            event_ok(e),
        ensures
            *final(self) == next_state(*old(self), e),
            a@ == next_action(*old(self), e),
            final(self).wf(),
    {
        match (self.phase, e) {
            (Phase::Idle, Event::Entered) => {
                self.phase = Phase::Registering;
                self.registered = 0;
                Action::Register(plugin_at(0))
            },
            (Phase::Registering, Event::Registered) => {
                if self.registered + 1 < PLUGIN_COUNT {
                    self.registered = self.registered + 1;
                    Action::Register(plugin_at(self.registered))
                } else {
                    self.phase = Phase::Starting;
                    self.registered = PLUGIN_COUNT;
                    Action::StartRunLoop
                }
            },
            (Phase::Starting, Event::SetupInvoked(d)) => {
                self.phase = Phase::Running;
                Action::Print(setup_line(d))
            },
            (Phase::Starting, Event::RunReturned(ok)) | (Phase::Running, Event::RunReturned(ok)) => {
                if ok {
                    self.phase = Phase::Exited;
                    Action::Return
                } else {
                    self.phase = Phase::Aborted;
                    let m = String::from_str("error while running tauri application");
                    proof {
                        reveal_strlit("error while running tauri application");
                    }
                    Action::Abort(m)
                }
            },
            _ => Action::Idle,
        }
    }

    /// Whether the launch has ended, normally or not.
    pub fn is_finished(&self) -> (r: bool)
        ensures
            r == (self.phase == Phase::Exited || self.phase == Phase::Aborted),
    {
        self.phase == Phase::Exited || self.phase == Phase::Aborted
    }
}

} // verus!
