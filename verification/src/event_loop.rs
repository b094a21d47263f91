//! The event loop as a state machine.
//!
//! The loop is Running until a quit event arrives and Terminated from then
//! on. While it runs, a resize event rebuilds the swap-surface at once; all
//! other events are ignored. One iteration drains the pending events and,
//! if the loop still runs, draws one frame.

use crate::error::{FrameError, Outcome};
use crate::surface::{SurfaceManager, SwapSurface};
use vstd::prelude::*;

verus! {

/// What the window reports.
#[derive(Clone, Copy, Debug, PartialEq, Eq, Structural)]
pub enum Event {
    /// The user asked to quit.
    Quit,
    /// The drawable now measures `width` by `height` pixels.
    Resized { width: u32, height: u32 },
    /// Anything else.
    Other,
}

/// The two states of the loop.
#[derive(Clone, Copy, Debug, PartialEq, Eq, Structural)]
pub enum LoopState {
    Running,
    Terminated,
}

/// What has to be done about one event.
#[derive(Clone, Copy, Debug, PartialEq, Eq, Structural)]
pub enum Action {
    /// Nothing.
    Ignore,
    /// Build this swap-surface and drop the old one.
    Rebuild(SwapSurface),
    /// Leave the loop.
    Exit,
}

/// The loop as a value: its state and the swap-surface that frames go to.
pub struct LoopModel {
    pub state: LoopState,
    pub surface: SwapSurface,
}

/// The loop after one event.
pub open spec fn step(model: LoopModel, event: Event) -> LoopModel {
    match model.state {
        LoopState::Terminated => model,
        LoopState::Running => match event {
            Event::Quit => LoopModel { state: LoopState::Terminated, surface: model.surface },
            Event::Resized { width, height } => LoopModel {
                state: LoopState::Running,
                surface: SwapSurface::configured(width, height),
            },
            Event::Other => model,
        },
    }
}

/// What one event asks for.
pub open spec fn action_for(model: LoopModel, event: Event) -> Action {
    match model.state {
        LoopState::Terminated => Action::Ignore,
        LoopState::Running => match event {
            Event::Quit => Action::Exit,
            Event::Resized { width, height } => Action::Rebuild(
                SwapSurface::configured(width, height),
            ),
            Event::Other => Action::Ignore,
        },
    }
}

/// The loop after a run of events, taken in order.
pub open spec fn run(model: LoopModel, events: Seq<Event>) -> LoopModel
    decreases events.len(),
{
    if events.len() == 0 {
        model
    } else {
        step(run(model, events.drop_last()), events.last())
    }
}

/// The swap-surfaces that a run of events has built, in order.
pub open spec fn rebuilds(model: LoopModel, events: Seq<Event>) -> Seq<SwapSurface>
    decreases events.len(),
{
    if events.len() == 0 {
        Seq::empty()
    } else {
        let earlier = rebuilds(model, events.drop_last());
        match action_for(run(model, events.drop_last()), events.last()) {
            Action::Rebuild(surface) => earlier.push(surface),
            _ => earlier,
        }
    }
}

/// What one iteration of the loop asks of the device.
#[derive(Debug, PartialEq, Eq)]
pub struct Iteration {
    /// The swap-surfaces to build, in order; the last one stays.
    pub rebuilt: Vec<SwapSurface>,
    /// The swap-surface to draw one frame into, or `None` when the loop has
    /// terminated and nothing more is drawn.
    pub target: Option<SwapSurface>,
}

/// The event loop: its state and the owner of the swap-surface.
#[derive(Debug, PartialEq, Eq)]
pub struct EventLoop {
    state: LoopState,
    surface: SurfaceManager,
}

impl View for EventLoop {
    type V = LoopModel;

    closed spec fn view(&self) -> LoopModel {
        LoopModel { state: self.state, surface: self.surface@ }
    }
}

impl EventLoop {
    /// A running loop whose swap-surface fits a drawable of `width` by
    /// `height` pixels.
    pub fn new(width: u32, height: u32) -> (event_loop: EventLoop)
        ensures
            event_loop@.state == LoopState::Running,
            event_loop@.surface == SwapSurface::configured(width, height),
    {
        EventLoop { state: LoopState::Running, surface: SurfaceManager::new(width, height) }
    }

    /// Whether the loop runs.
    pub fn state(&self) -> (state: LoopState)
        ensures
            state == self@.state,
    {
        self.state
    }

    /// The swap-surface that frames go to.
    pub fn surface(&self) -> (surface: SwapSurface)
        ensures
            surface == self@.surface,
    {
        self.surface.current()
    }

    /// Pixel size of the drawable that the swap-surface was built for.
    pub fn drawable_size(&self) -> (size: (u32, u32))
        ensures
            size == (self@.surface.width, self@.surface.height),
    {
        self.surface.dimensions()
    }

    /// Takes one event: a quit terminates the loop, a resize rebuilds the
    /// swap-surface, anything else changes nothing. A terminated loop
    /// ignores every event.
    pub fn handle_event(&mut self, event: Event) -> (action: Action)
        ensures
            final(self)@ == step(old(self)@, event),
            action == action_for(old(self)@, event),
    {
        match self.state {
            LoopState::Terminated => Action::Ignore,
            LoopState::Running => match event {
                Event::Quit => {
                    self.state = LoopState::Terminated;
                    Action::Exit
                },
                Event::Resized { width, height } => {
                    let surface = self.surface.create_or_resize(width, height);
                    Action::Rebuild(surface)
                },
                Event::Other => Action::Ignore,
            },
        }
    }

    /// One iteration: drains the pending events in order, then asks for one
    /// frame if the loop still runs.
    pub fn run_iteration(&mut self, pending: &Vec<Event>) -> (iteration: Iteration)
        ensures
            final(self)@ == run(old(self)@, pending@),
            iteration.rebuilt@ == rebuilds(old(self)@, pending@),
            final(self)@.state == LoopState::Running ==> iteration.target == Some(
                final(self)@.surface,
            ),
            final(self)@.state == LoopState::Terminated ==> iteration.target is None,
    {
        let mut rebuilt: Vec<SwapSurface> = Vec::new();
        let mut i: usize = 0;
        assert(pending@.take(0) =~= Seq::empty());
        while i < pending.len()
            invariant
                i <= pending.len(),
                self@ == run(old(self)@, pending@.take(i as int)),
                rebuilt@ == rebuilds(old(self)@, pending@.take(i as int)),
            decreases pending.len() - i,
        {
            assert(pending@.take(i + 1).drop_last() =~= pending@.take(i as int));
            assert(pending@.take(i + 1).last() == pending@[i as int]);
            match self.handle_event(pending[i]) {
                Action::Rebuild(surface) => {
                    rebuilt.push(surface);
                },
                _ => {},
            }
            i += 1;
        }
        assert(pending@.take(i as int) =~= pending@);
        let target = match self.state {
            LoopState::Running => Some(self.surface.current()),
            LoopState::Terminated => None,
        };
        Iteration { rebuilt, target }
    }

    /// Ends the loop after a failure that no frame survives, and says how
    /// the process ends.
    pub fn abort(&mut self, error: FrameError) -> (outcome: Outcome)
        ensures
            final(self)@.state == LoopState::Terminated,
            final(self)@.surface == old(self)@.surface,
            outcome == Outcome::Frame(error),
    {
        self.state = LoopState::Terminated;
        Outcome::Frame(error)
    }
}

/// Events taken in two runs leave the loop as the same events taken in one.
pub proof fn lemma_run_in_parts(model: LoopModel, first: Seq<Event>, second: Seq<Event>)
    ensures
        run(model, first + second) == run(run(model, first), second),
        rebuilds(model, first + second) == rebuilds(model, first) + rebuilds(
            run(model, first),
            second,
        ),
    decreases second.len(),
{
    if second.len() == 0 {
        assert(first + second =~= first);
        assert(rebuilds(model, first) + Seq::<SwapSurface>::empty() =~= rebuilds(model, first));
    } else {
        lemma_run_in_parts(model, first, second.drop_last());
        assert((first + second).drop_last() =~= first + second.drop_last());
        assert((first + second).last() == second.last());
        let earlier = rebuilds(model, first) + rebuilds(run(model, first), second.drop_last());
        match action_for(run(run(model, first), second.drop_last()), second.last()) {
            Action::Rebuild(surface) => {
                assert(earlier.push(surface) =~= rebuilds(model, first) + rebuilds(
                    run(model, first),
                    second.drop_last(),
                ).push(surface));
            },
            _ => {},
        }
    }
}

/// A terminated loop stays as it is: no event changes its state or its
/// swap-surface, and none rebuilds anything.
pub proof fn lemma_terminated_is_final(model: LoopModel, events: Seq<Event>)
    requires
        model.state == LoopState::Terminated,
    ensures
        run(model, events) == model,
        rebuilds(model, events) == Seq::<SwapSurface>::empty(),
    decreases events.len(),
{
    if events.len() > 0 {
        lemma_terminated_is_final(model, events.drop_last());
    }
}

/// A quit event anywhere among the events terminates the loop by the end of
/// the run, whatever comes before or after it.
pub proof fn lemma_quit_terminates(model: LoopModel, events: Seq<Event>)
    requires
        events.contains(Event::Quit),
    ensures
        run(model, events).state == LoopState::Terminated,
    decreases events.len(),
{
    let i = choose|i: int| 0 <= i < events.len() && events[i] == Event::Quit;
    if events.last() != Event::Quit {
        assert(events.drop_last()[i] == Event::Quit);
        lemma_quit_terminates(model, events.drop_last());
    }
}

/// Without a quit event a running loop keeps running.
pub proof fn lemma_runs_until_quit(model: LoopModel, events: Seq<Event>)
    requires
        model.state == LoopState::Running,
        !events.contains(Event::Quit),
    ensures
        run(model, events).state == LoopState::Running,
    decreases events.len(),
{
    if events.len() > 0 {
        assert forall|i: int| 0 <= i < events.drop_last().len() implies events.drop_last()[i]
            != Event::Quit by {
            assert(events.contains(events[i]));
        }
        lemma_runs_until_quit(model, events.drop_last());
        assert(events.contains(events.last()));
    }
}

/// Without a resize event the swap-surface stays the one the loop had.
pub proof fn lemma_surface_stays_without_resize(model: LoopModel, events: Seq<Event>)
    requires
        forall|i: int| 0 <= i < events.len() ==> !(events[i] is Resized),
    ensures
        run(model, events).surface == model.surface,
        rebuilds(model, events) == Seq::<SwapSurface>::empty(),
    decreases events.len(),
{
    if events.len() > 0 {
        lemma_surface_stays_without_resize(model, events.drop_last());
    }
}

/// While the loop runs the last resize wins: if the events hold no quit and
/// their last resize reports `width` by `height`, the loop ends the run with
/// the swap-surface for exactly that size.
pub proof fn lemma_last_resize_wins(
    model: LoopModel,
    events: Seq<Event>,
    last: int,
    width: u32,
    height: u32,
)
    requires
        model.state == LoopState::Running,
        !events.contains(Event::Quit),
        0 <= last < events.len(),
        events[last] == (Event::Resized { width, height }),
        forall|i: int| last < i < events.len() ==> !(events[i] is Resized),
    ensures
        run(model, events).state == LoopState::Running,
        run(model, events).surface == SwapSurface::configured(width, height),
        run(model, events).surface.dimensions() == (width, height),
        rebuilds(model, events).len() > 0,
        rebuilds(model, events).last() == SwapSurface::configured(width, height),
{
    let before = events.take(last);
    let after = events.skip(last + 1);
    let at = seq![events[last]];
    assert(events =~= (before + at) + after);
    assert forall|i: int| 0 <= i < before.len() implies before[i] != Event::Quit by {
        assert(events.contains(events[i]));
    }
    lemma_runs_until_quit(model, before);
    lemma_run_in_parts(model, before, at);
    lemma_run_in_parts(model, before + at, after);
    assert(at.drop_last() =~= Seq::<Event>::empty());
    assert(run(run(model, before), at) == step(run(model, before), events[last]));
    assert(rebuilds(run(model, before), at) =~= seq![SwapSurface::configured(width, height)]) by {
        assert(rebuilds(run(model, before), at.drop_last()) =~= Seq::<SwapSurface>::empty());
        assert(run(run(model, before), at.drop_last()) == run(model, before));
        assert(at.last() == events[last]);
    }
    lemma_surface_stays_without_resize(run(model, before + at), after);
    assert forall|i: int| 0 <= i < after.len() implies after[i] != Event::Quit by {
        assert(events.contains(events[last + 1 + i]));
    }
    lemma_runs_until_quit(run(model, before + at), after);
}

} // verus!
