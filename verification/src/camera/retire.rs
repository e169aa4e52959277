//! The protocol by which a running graph is retired.
//!
//! A graph is never stopped cold: an end-of-stream marker is sent into it,
//! and only when the graph has acknowledged the marker, or has reported an
//! error, or a bounded wait has run out, are its nodes forced to stop and its
//! resources released. Stopping without draining can cut off a file that is
//! being written, or leave a sensor locked for the graph that comes next.

use vstd::prelude::*;

verus! {

/// How long a retiring graph is given to drain, in seconds.
pub const DRAIN_TIMEOUT_SECONDS: u64 = 5;

/// How far the retirement of a graph has come.
#[derive(Copy, Clone, PartialEq, Eq, Structural, Debug)]
pub enum Retirement {
    /// The graph runs; nothing has been asked of it.
    Running,
    /// The end-of-stream marker is on its way through the graph.
    EosSent,
    /// The graph has acknowledged the marker or reported an error.
    Drained,
    /// The wait for the graph ran out.
    TimedOut,
    /// The nodes of the graph have stopped.
    Stopped,
    /// The resources of the graph are free.
    Released,
}

/// What is seen of a graph while it is retired.
#[derive(Copy, Clone, PartialEq, Eq, Structural, Debug)]
pub enum Signal {
    /// The retirement is to begin.
    Begin,
    /// The graph has acknowledged the end-of-stream marker.
    EosObserved,
    /// The graph has reported an error.
    ErrorObserved,
    /// The bounded wait for the graph has run out.
    TimeoutElapsed,
    /// The nodes of the graph have come to a stop.
    StopCompleted,
    /// The resources of the graph have been let go.
    ReleaseCompleted,
}

/// What is to be done to a graph that is being retired.
#[derive(Copy, Clone, PartialEq, Eq, Structural, Debug)]
pub enum Order {
    /// Send the end-of-stream marker and wait, for at most
    /// [`DRAIN_TIMEOUT_SECONDS`], for what the graph makes of it.
    SendEos,
    /// Force every node to a stop.
    ForceStop,
    /// Let go of the graph's resources.
    Release,
}

impl Signal {
    /// Whether this signal ends the wait for the graph to drain.
    pub open spec fn ends_drain(self) -> bool {
        self == Signal::EosObserved || self == Signal::ErrorObserved || self
            == Signal::TimeoutElapsed
    }
}

impl Retirement {
    /// Whether the nodes of the graph have been stopped.
    pub open spec fn is_stopped(self) -> bool {
        self == Retirement::Stopped || self == Retirement::Released
    }

    /// The state that follows `self` when `signal` is seen, together with
    /// what is then to be done. A signal that the state does not wait for
    /// changes nothing and asks for nothing.
    pub open spec fn after(self, signal: Signal) -> (Retirement, Option<Order>) {
        match (self, signal) {
            (Retirement::Running, Signal::Begin) => (Retirement::EosSent, Some(Order::SendEos)),
            (Retirement::EosSent, Signal::EosObserved) => (
                Retirement::Drained,
                Some(Order::ForceStop),
            ),
            (Retirement::EosSent, Signal::ErrorObserved) => (
                Retirement::Drained,
                Some(Order::ForceStop),
            ),
            (Retirement::EosSent, Signal::TimeoutElapsed) => (
                Retirement::TimedOut,
                Some(Order::ForceStop),
            ),
            (Retirement::Drained, Signal::StopCompleted) => (
                Retirement::Stopped,
                Some(Order::Release),
            ),
            (Retirement::TimedOut, Signal::StopCompleted) => (
                Retirement::Stopped,
                Some(Order::Release),
            ),
            (Retirement::Stopped, Signal::ReleaseCompleted) => (Retirement::Released, None),
            _ => (self, None),
        }
    }

    /// The state reached from `self` once the signals were seen, first to
    /// last.
    pub open spec fn after_all(self, signals: Seq<Signal>) -> Retirement
        decreases signals.len(),
    {
        if signals.len() == 0 {
            self
        } else {
            self.after_all(signals.drop_last()).after(signals.last()).0
        }
    }

    /// Takes one signal: moves to the state that follows and says what is to
    /// be done.
    pub fn advance(self, signal: Signal) -> (step: (Retirement, Option<Order>))
        ensures
            step == self.after(signal),
    {
        match self {
            Retirement::Running => match signal {
                Signal::Begin => (Retirement::EosSent, Some(Order::SendEos)),
                _ => (self, None),
            },
            Retirement::EosSent => match signal {
                Signal::EosObserved | Signal::ErrorObserved => (
                    Retirement::Drained,
                    Some(Order::ForceStop),
                ),
                Signal::TimeoutElapsed => (Retirement::TimedOut, Some(Order::ForceStop)),
                _ => (self, None),
            },
            Retirement::Drained | Retirement::TimedOut => match signal {
                Signal::StopCompleted => (Retirement::Stopped, Some(Order::Release)),
                _ => (self, None),
            },
            Retirement::Stopped => match signal {
                Signal::ReleaseCompleted => (Retirement::Released, None),
                _ => (self, None),
            },
            Retirement::Released => (self, None),
        }
    }
}

/// The order to stop is given at one point only: when a graph to which the
/// marker was sent has drained or has run out of time.
pub proof fn lemma_stop_is_ordered_after_drain(state: Retirement, signal: Signal)
    ensures
        state.after(signal).1 == Some(Order::ForceStop) <==> state == Retirement::EosSent
            && signal.ends_drain(),
        state.after(signal).1 == Some(Order::SendEos) <==> state == Retirement::Running && signal
            == Signal::Begin,
        state.after(signal).1 == Some(Order::Release) ==> signal == Signal::StopCompleted,
{
}

/// Whatever is seen of a graph, and in whatever order: where it ends up
/// stopped, the retirement had begun, then the graph drained or ran out of
/// time, and only after that did its nodes stop.
pub proof fn lemma_drain_precedes_stop(signals: Seq<Signal>)
    requires
        Retirement::Running.after_all(signals).is_stopped(),
    ensures
        exists|begun: int, drained: int, stopped: int|
            0 <= begun < drained < stopped < signals.len()
                && #[trigger] signals[begun] == Signal::Begin
                && (#[trigger] signals[drained]).ends_drain()
                && #[trigger] signals[stopped] == Signal::StopCompleted,
{
    lemma_history(signals);
}

/// What the state of a retirement tells of the signals that led to it.
pub open spec fn history_shows(state: Retirement, signals: Seq<Signal>) -> bool {
    match state {
        Retirement::Running => true,
        Retirement::EosSent => exists|begun: int|
            0 <= begun < signals.len() && #[trigger] signals[begun] == Signal::Begin,
        Retirement::Drained | Retirement::TimedOut => exists|begun: int, drained: int|
            0 <= begun < drained < signals.len() && #[trigger] signals[begun] == Signal::Begin
                && (#[trigger] signals[drained]).ends_drain(),
        Retirement::Stopped | Retirement::Released => exists|
            begun: int,
            drained: int,
            stopped: int,
        |
            0 <= begun < drained < stopped < signals.len()
                && #[trigger] signals[begun] == Signal::Begin
                && (#[trigger] signals[drained]).ends_drain()
                && #[trigger] signals[stopped] == Signal::StopCompleted,
    }
}

proof fn lemma_history(signals: Seq<Signal>)
    ensures
        history_shows(Retirement::Running.after_all(signals), signals),
    decreases signals.len(),
{
    if signals.len() > 0 {
        let earlier = signals.drop_last();
        let last = signals.last();
        let before = Retirement::Running.after_all(earlier);
        let now = before.after(last).0;
        let end = signals.len() - 1;
        lemma_history(earlier);
        assert(forall|i: int| 0 <= i < earlier.len() ==> earlier[i] == signals[i]);
        match before {
            Retirement::Running => {
                if now == Retirement::EosSent {
                    assert(signals[end] == Signal::Begin);
                }
            },
            Retirement::EosSent => {
                let begun = choose|begun: int|
                    0 <= begun < earlier.len() && #[trigger] earlier[begun] == Signal::Begin;
                assert(signals[begun] == Signal::Begin);
                if now != before {
                    assert(signals[end].ends_drain());
                }
            },
            Retirement::Drained | Retirement::TimedOut => {
                let (begun, drained) = choose|begun: int, drained: int|
                    0 <= begun < drained < earlier.len() && #[trigger] earlier[begun]
                        == Signal::Begin && (#[trigger] earlier[drained]).ends_drain();
                assert(signals[begun] == Signal::Begin && signals[drained].ends_drain());
                if now != before {
                    assert(signals[end] == Signal::StopCompleted);
                }
            },
            Retirement::Stopped | Retirement::Released => {
                let (begun, drained, stopped) = choose|begun: int, drained: int, stopped: int|
                    0 <= begun < drained < stopped < earlier.len()
                        && #[trigger] earlier[begun] == Signal::Begin
                        && (#[trigger] earlier[drained]).ends_drain()
                        && #[trigger] earlier[stopped] == Signal::StopCompleted;
                assert(signals[begun] == Signal::Begin && signals[drained].ends_drain()
                    && signals[stopped] == Signal::StopCompleted);
            },
        }
    }
}

} // verus!
