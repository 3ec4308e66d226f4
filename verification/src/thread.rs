//! The life of the thread that owns the engine.
use crate::engine_ops::EngineCmd;
use crate::error::EngineError;
use vstd::prelude::*;

verus! {

/// How many commands may wait for the engine thread: at least one.
pub fn command_buffer(wanted: usize) -> (r: usize)
    ensures
        r == (if wanted == 0 {
            1
        } else {
            wanted as int
        }),
{
    if wanted == 0 {
        1
    } else {
        wanted
    }
}

/// What the engine thread does next.
pub enum ThreadAction {
    /// Enter the COM apartment of this thread.
    EnterCom,
    /// Build the engine.
    MakeEngine,
    /// Tell the one who waits that the engine is ready, with its interrupt handle, or why it is
    /// not.
    SignalReady(Result<(), EngineError>),
    /// Take the next command.
    Receive,
    /// Run a command and send its reply.
    Run(EngineCmd),
    /// End the session; `terminate` would kill a live target.
    Detach { terminate: bool },
    /// Signal the end, with an exit code if one is known, and end.
    Exit { code: Option<i64> },
}

/// What came of it.
pub enum ThreadEvent {
    Entered(Result<(), EngineError>),
    Made(Result<(), EngineError>),
    /// Whether the one who waits was still there.
    Signalled { delivered: bool },
    /// The next command; none when nobody can send one any more.
    Received(Option<EngineCmd>),
    Ran,
    Detached,
}

/// Where the engine thread is.
#[derive(Debug, Clone, Copy, PartialEq, Eq, Structural)]
pub enum ThreadPhase {
    Entering,
    Making,
    /// Reporting a failure: there is no engine.
    Failing,
    /// Reporting that the engine is ready.
    Starting,
    Receiving,
    Running,
    Detaching,
    Over,
}

/// The engine thread.
pub struct EngineThread {
    pub phase: ThreadPhase,
}

impl EngineThread {
    /// Whether `event` is what the thread waits for.
    pub open spec fn expects(self, event: ThreadEvent) -> bool {
        match self.phase {
            ThreadPhase::Entering => event is Entered,
            ThreadPhase::Making => event is Made,
            ThreadPhase::Failing | ThreadPhase::Starting => event is Signalled,
            ThreadPhase::Receiving => event is Received,
            ThreadPhase::Running => event is Ran,
            ThreadPhase::Detaching => event is Detached,
            ThreadPhase::Over => false,
        }
    }

    /// How the thread goes on from an event to its next action.
    pub open spec fn steps(
        self,
        event: ThreadEvent,
        after: EngineThread,
        action: ThreadAction,
    ) -> bool {
        match (self.phase, event) {
            (ThreadPhase::Entering, ThreadEvent::Entered(Err(e))) => after.phase is Failing
                && action == ThreadAction::SignalReady(Err(e)),
            (ThreadPhase::Entering, ThreadEvent::Entered(Ok(_))) => after.phase is Making && action
                is MakeEngine,
            (ThreadPhase::Making, ThreadEvent::Made(Err(e))) => after.phase is Failing && action
                == ThreadAction::SignalReady(Err(e)),
            (ThreadPhase::Making, ThreadEvent::Made(Ok(_))) => after.phase is Starting && (
            action matches ThreadAction::SignalReady(Ok(_))),
            (ThreadPhase::Failing, ThreadEvent::Signalled { .. }) => after.phase is Over && action
                == (ThreadAction::Exit { code: None }),
            (ThreadPhase::Starting, ThreadEvent::Signalled { delivered }) => if delivered {
                after.phase is Receiving && action is Receive
            } else {
                after.phase is Detaching && action == (ThreadAction::Detach { terminate: false })
            },
            (ThreadPhase::Receiving, ThreadEvent::Received(Some(cmd))) => after.phase is Running
                && action == ThreadAction::Run(cmd),
            (ThreadPhase::Receiving, ThreadEvent::Received(None)) => after.phase is Detaching
                && action == (ThreadAction::Detach { terminate: false }),
            (ThreadPhase::Running, ThreadEvent::Ran) => after.phase is Receiving && action
                is Receive,
            (ThreadPhase::Detaching, ThreadEvent::Detached) => after.phase is Over && action == (
            ThreadAction::Exit { code: None }),
            _ => false,
        }
    }

    /// The thread at its start, and its first action.
    pub fn start() -> (r: (EngineThread, ThreadAction))
        ensures
            r.0.phase is Entering,
            r.1 is EnterCom,
    {
        (EngineThread { phase: ThreadPhase::Entering }, ThreadAction::EnterCom)
    }

    /// Goes on from an event.
    pub fn on(&mut self, event: ThreadEvent) -> (r: ThreadAction)
        requires
            old(self).expects(event),
        ensures
            old(self).steps(event, *final(self), r),
    {
        match (self.phase, event) {
            (ThreadPhase::Entering, ThreadEvent::Entered(Err(e))) => {
                self.phase = ThreadPhase::Failing;
                ThreadAction::SignalReady(Err(e))
            },
            (ThreadPhase::Entering, ThreadEvent::Entered(Ok(_))) => {
                self.phase = ThreadPhase::Making;
                ThreadAction::MakeEngine
            },
            (ThreadPhase::Making, ThreadEvent::Made(Err(e))) => {
                self.phase = ThreadPhase::Failing;
                ThreadAction::SignalReady(Err(e))
            },
            (ThreadPhase::Making, ThreadEvent::Made(Ok(_))) => {
                self.phase = ThreadPhase::Starting;
                ThreadAction::SignalReady(Ok(()))
            },
            (ThreadPhase::Starting, ThreadEvent::Signalled { delivered }) => if delivered {
                self.phase = ThreadPhase::Receiving;
                ThreadAction::Receive
            } else {
                self.phase = ThreadPhase::Detaching;
                ThreadAction::Detach { terminate: false }
            },
            (ThreadPhase::Receiving, ThreadEvent::Received(Some(cmd))) => {
                self.phase = ThreadPhase::Running;
                ThreadAction::Run(cmd)
            },
            (ThreadPhase::Receiving, ThreadEvent::Received(None)) => {
                self.phase = ThreadPhase::Detaching;
                ThreadAction::Detach { terminate: false }
            },
            (ThreadPhase::Running, ThreadEvent::Ran) => {
                self.phase = ThreadPhase::Receiving;
                ThreadAction::Receive
            },
            _ => {
                self.phase = ThreadPhase::Over;
                ThreadAction::Exit { code: None }
            },
        }
    }
}

// ---- what holds of every life of the thread ----

/// Whether `threads`, `events` and `actions` are a life of the thread: `actions[i]` was taken
/// when the thread got to `threads[i]`, and `events[i]` came of it.
pub open spec fn is_life(
    threads: Seq<EngineThread>,
    events: Seq<ThreadEvent>,
    actions: Seq<ThreadAction>,
) -> bool {
    &&& threads.len() == actions.len()
    &&& threads.len() == events.len() + 1
    &&& threads[0].phase is Entering
    &&& actions[0] is EnterCom
    &&& forall|i: int|
        0 <= i < events.len() ==> (#[trigger] threads[i]).steps(
            events[i],
            threads[i + 1],
            actions[i + 1],
        )
}

/// Whether the thread has an engine.
pub open spec fn has_engine(phase: ThreadPhase) -> bool {
    phase is Starting || phase is Receiving || phase is Running || phase is Detaching
}

/// The thread never kills the target: whenever it ends a session of its own accord, it detaches.
pub proof fn thread_never_kills(
    threads: Seq<EngineThread>,
    events: Seq<ThreadEvent>,
    actions: Seq<ThreadAction>,
    i: int,
)
    requires
        is_life(threads, events, actions),
        0 <= i < actions.len(),
    ensures
        actions[i] != (ThreadAction::Detach { terminate: true }),
{
    if i > 0 {
        assert(threads[i - 1].steps(events[i - 1], threads[i], actions[i]));
    }
}

/// A thread that had an engine detaches from the target right before it exits.
pub proof fn thread_detaches_before_exit(
    threads: Seq<EngineThread>,
    events: Seq<ThreadEvent>,
    actions: Seq<ThreadAction>,
    i: int,
)
    requires
        is_life(threads, events, actions),
        0 < i < actions.len(),
        actions[i] is Exit,
        has_engine(threads[i - 1].phase),
    ensures
        actions[i - 1] == (ThreadAction::Detach { terminate: false }),
{
    assert(threads[i - 1].steps(events[i - 1], threads[i], actions[i]));
    if i - 1 > 0 {
        assert(threads[i - 2].steps(events[i - 2], threads[i - 1], actions[i - 1]));
    }
}

/// A command is run only after the readiness of the engine was signalled and heard.
pub proof fn thread_runs_only_when_ready(
    threads: Seq<EngineThread>,
    events: Seq<ThreadEvent>,
    actions: Seq<ThreadAction>,
    i: int,
)
    requires
        is_life(threads, events, actions),
        0 <= i < actions.len(),
        actions[i] is Run || threads[i].phase is Receiving || threads[i].phase is Running,
    ensures
        exists|j: int|
            0 <= j < i && (#[trigger] actions[j] matches ThreadAction::SignalReady(Ok(_)))
                && events[j] == (ThreadEvent::Signalled { delivered: true }),
    decreases i,
{
    if i > 0 {
        assert(threads[i - 1].steps(events[i - 1], threads[i], actions[i]));
        if threads[i - 1].phase is Starting {
            if i - 1 > 0 {
                assert(threads[i - 2].steps(events[i - 2], threads[i - 1], actions[i - 1]));
            }
            assert(actions[i - 1] is SignalReady);
        } else {
            thread_runs_only_when_ready(threads, events, actions, i - 1);
            let j = choose|j: int|
                0 <= j < i - 1 && (#[trigger] actions[j] matches ThreadAction::SignalReady(Ok(_)))
                    && events[j] == (ThreadEvent::Signalled { delivered: true });
            assert(actions[j] is SignalReady);
        }
    }
}

/// The thread runs the commands that it receives, each as it was received and once, and nothing
/// else; it reports the very error for which there is no engine; and it goes on as long as
/// commands come.
pub proof fn thread_runs_what_it_receives(
    threads: Seq<EngineThread>,
    events: Seq<ThreadEvent>,
    actions: Seq<ThreadAction>,
    i: int,
)
    requires
        is_life(threads, events, actions),
        0 < i < actions.len(),
    ensures
        actions[i] matches ThreadAction::Run(cmd) ==> events[i - 1] == ThreadEvent::Received(
            Some(cmd),
        ),
        events[i - 1] matches ThreadEvent::Received(Some(cmd)) ==> actions[i] == ThreadAction::Run(
            cmd,
        ),
        events[i - 1] is Ran ==> actions[i] is Receive,
        events[i - 1] == ThreadEvent::Received(None) ==> actions[i] is Detach,
        events[i - 1] matches ThreadEvent::Entered(Err(e)) ==> actions[i]
            == ThreadAction::SignalReady(Err(e)),
        events[i - 1] matches ThreadEvent::Made(Err(e)) ==> actions[i]
            == ThreadAction::SignalReady(Err(e)),
        events[i - 1] matches ThreadEvent::Made(Ok(_)) ==> (
        actions[i] matches ThreadAction::SignalReady(Ok(_))),
        actions[i] matches ThreadAction::Exit { code } ==> code is None,
{
    assert(threads[i - 1].steps(events[i - 1], threads[i], actions[i]));
}

} // verus!
