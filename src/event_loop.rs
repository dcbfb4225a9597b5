use vstd::prelude::*;
use crate::geometry::{extent, extent_of, placement_of, Placement};
use crate::island::{IslandView, XamlIsland};

verus! {

/// A window event of the hosting window, as the loop sees it. Events of
/// other windows, and every other kind, arrive as `Other`.
#[derive(Clone, Copy, Debug, PartialEq, Eq, Structural)]
pub enum LoopEvent {
    CloseRequested,
    Resized { width: u32, height: u32 },
    Other,
}

/// What the loop asks of the platform after an event.
#[derive(Clone, Copy, Debug, PartialEq, Eq, Structural)]
pub enum Action {
    /// Nothing to do: wait for the next event.
    Idle,
    /// Hand this request to the window-positioning call.
    Reposition(Placement),
    /// Stop the loop: the process ends with success.
    Exit,
}

/// The loop's control flow after an event.
#[derive(Clone, Copy, Debug, PartialEq, Eq, Structural)]
pub enum Flow {
    Wait,
    Exit,
}

/// What a dispatcher is, abstractly: the bridge it drives and whether the
/// loop has been told to stop.
pub struct DispatcherView {
    pub island: IslandView,
    pub exited: bool,
}

/// The state after one event, and what the loop asks of the platform.
pub open spec fn step(s: DispatcherView, e: LoopEvent) -> (DispatcherView, Action) {
    if s.exited {
        (s, Action::Idle)
    } else {
        match e {
            LoopEvent::CloseRequested => (DispatcherView { exited: true, ..s }, Action::Exit),
            LoopEvent::Resized { width, height } => {
                let island = IslandView {
                    width: extent_of(width),
                    height: extent_of(height),
                    ..s.island
                };
                (DispatcherView { island, ..s }, Action::Reposition(island.placement()))
            },
            LoopEvent::Other => (s, Action::Idle),
        }
    }
}

/// The state after a run of events, and the actions asked for, in order.
pub open spec fn trace(s: DispatcherView, events: Seq<LoopEvent>) -> (DispatcherView, Seq<Action>)
    decreases events.len(),
{
    if events.len() == 0 {
        (s, Seq::empty())
    } else {
        let (next, a) = step(s, events[0]);
        let (last, rest) = trace(next, events.drop_first());
        (last, seq![a] + rest)
    }
}

/// A run yields one action per event.
proof fn lemma_trace_len(s: DispatcherView, events: Seq<LoopEvent>)
    ensures
        trace(s, events).1.len() == events.len(),
    decreases events.len(),
{
    if events.len() > 0 {
        lemma_trace_len(step(s, events[0]).0, events.drop_first());
    }
}

/// Once the loop has exited, a run changes nothing and asks for nothing.
proof fn lemma_exited_is_inert(s: DispatcherView, events: Seq<LoopEvent>)
    requires
        s.exited,
    ensures
        trace(s, events).0 == s,
        forall|j: int| 0 <= j < events.len() ==> #[trigger] trace(s, events).1[j] == Action::Idle,
    decreases events.len(),
{
    lemma_trace_len(s, events);
    if events.len() > 0 {
        lemma_exited_is_inert(s, events.drop_first());
        let rest = trace(s, events.drop_first()).1;
        assert forall|j: int| 0 <= j < events.len() implies #[trigger] trace(s, events).1[j]
            == Action::Idle by {
            if j > 0 {
                assert(trace(s, events).1[j] == rest[j - 1]);
            }
        }
    }
}

/// Closing is final. After the window's close request, the loop dispatches
/// nothing more (no resize reaches the bridge, whose state stays as the
/// close request left it), it ends exited, and it asks to exit exactly once:
/// at the first close request, if it was running when the run began.
pub proof fn lemma_close_is_final(s: DispatcherView, events: Seq<LoopEvent>, i: int)
    requires
        0 <= i < events.len(),
        events[i] == LoopEvent::CloseRequested,
    ensures
        ({
            let (last, acts) = trace(s, events);
            &&& acts.len() == events.len()
            &&& last.exited
            &&& last == trace(s, events.take(i + 1)).0
            &&& forall|j: int| i < j < acts.len() ==> #[trigger] acts[j] == Action::Idle
            &&& !s.exited ==> exists|c: int| 0 <= c <= i && #[trigger] acts[c] == Action::Exit
            &&& forall|j: int, k: int|
                0 <= j < acts.len() && 0 <= k < acts.len() && #[trigger] acts[j] == Action::Exit
                    && #[trigger] acts[k] == Action::Exit ==> j == k
        }),
    decreases i,
{
    lemma_trace_len(s, events);
    let (next, a) = step(s, events[0]);
    let tail = events.drop_first();
    let rest = trace(next, tail).1;
    let acts = trace(s, events).1;
    lemma_trace_len(next, tail);
    assert(events.take(i + 1).drop_first() =~= tail.take(i));
    assert(events.take(i + 1)[0] == events[0]);
    assert forall|j: int| 0 < j < acts.len() implies #[trigger] acts[j] == rest[j - 1] by {}
    if s.exited {
        lemma_exited_is_inert(s, events);
        lemma_exited_is_inert(s, events.take(i + 1));
    } else if i == 0 {
        lemma_exited_is_inert(next, tail);
        lemma_exited_is_inert(next, tail.take(0));
        assert(acts[0] == Action::Exit);
    } else {
        lemma_close_is_final(next, tail, i - 1);
        assert(a != Action::Exit ==> !next.exited);
        if a == Action::Exit {
            lemma_exited_is_inert(next, tail);
        }
        if !next.exited {
            let c = choose|c: int| 0 <= c <= i - 1 && #[trigger] rest[c] == Action::Exit;
            assert(acts[c + 1] == Action::Exit);
        }
    }
}

/// The decisions of the event loop that drives a bridge: closing stops the
/// loop, once; a resize of the hosting window resizes the hosted region.
pub struct Dispatcher {
    island: XamlIsland,
    exited: bool,
}

impl View for Dispatcher {
    type V = DispatcherView;

    closed spec fn view(&self) -> DispatcherView {
        DispatcherView { island: self.island@, exited: self.exited }
    }
}

impl Dispatcher {
    /// A running loop over `island`.
    pub fn new(island: XamlIsland) -> (r: Dispatcher)
        ensures
            r@ == (DispatcherView { island: island@, exited: false }),
    {
        Dispatcher { island, exited: false }
    }

    /// Takes one event: returns what the platform must do, and moves to the
    /// next state. Once the loop has exited, every event is ignored.
    pub fn dispatch(&mut self, event: LoopEvent) -> (r: Action)
        ensures
            (final(self)@, r) == step(old(self)@, event),
    {
        if self.exited {
            return Action::Idle;
        }
        match event {
            LoopEvent::CloseRequested => {
                self.exited = true;
                Action::Exit
            },
            LoopEvent::Resized { width, height } => {
                let p = self.island.resize(extent(width), extent(height));
                Action::Reposition(p)
            },
            LoopEvent::Other => Action::Idle,
        }
    }

    /// Takes the events in order and returns the actions they ask for.
    pub fn run(&mut self, events: &Vec<LoopEvent>) -> (r: Vec<Action>)
        ensures
            (final(self)@, r@) == trace(old(self)@, events@),
    {
        let mut out: Vec<Action> = Vec::new();
        let mut i: usize = 0;
        proof {
            assert(events@.skip(0) =~= events@);
            let (last, rest) = trace(self@, events@);
            assert(out@ + rest =~= rest);
        }
        while i < events.len()
            invariant
                i <= events@.len(),
                trace(old(self)@, events@) == ({
                    let (last, rest) = trace(self@, events@.skip(i as int));
                    (last, out@ + rest)
                }),
            decreases events@.len() - i,
        {
            let ghost before = self@;
            let ghost acts = out@;
            let a = self.dispatch(events[i]);
            out.push(a);
            proof {
                assert(events@.skip(i as int).drop_first() =~= events@.skip(i + 1));
                let (last, rest) = trace(self@, events@.skip(i + 1));
                assert(acts + (seq![a] + rest) =~= out@ + rest);
            }
            i = i + 1;
        }
        proof {
            assert(events@.skip(i as int) =~= Seq::<LoopEvent>::empty());
            assert(out@ + Seq::<Action>::empty() =~= out@);
        }
        out
    }

    /// The loop's control flow.
    pub fn flow(&self) -> (r: Flow)
        ensures
            r == (if self@.exited { Flow::Exit } else { Flow::Wait }),
    {
        if self.exited {
            Flow::Exit
        } else {
            Flow::Wait
        }
    }

    /// The bridge the loop drives.
    pub fn island(&self) -> (r: &XamlIsland)
        ensures
            r@ == self@.island,
    {
        &self.island
    }
}

} // verus!
