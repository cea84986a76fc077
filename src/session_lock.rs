//! The compositor-side session lock: its state machine, the set of connected
//! outputs, and the lock surfaces provisioned for them.
//!
//! `Coordinator` holds the decisions only. The event-loop thread feeds it the
//! compositor's events in receipt order and performs the returned actions.

use vstd::prelude::*;

verus! {

/// Phase of the compositor session lock.
#[derive(Clone, Copy, Debug, PartialEq, Eq, Structural)]
pub enum SessionLockState {
    Unlocked,
    AwaitingLock,
    Locked,
    Finished,
}

/// What the event-loop thread reports to the coordinator. Outputs are named
/// by the compositor's identifier for them.
#[derive(Clone, Copy, Debug, PartialEq, Eq, Structural)]
pub enum LockEvent {
    /// The process asks to lock the session.
    LockRequested,
    /// The compositor confirmed that the lock has taken effect.
    LockGranted,
    /// The lock request could not be made (no lock capability).
    LockRefused,
    OutputAdded(u32),
    OutputRemoved(u32),
    /// The compositor configured the lock surface of an output.
    Configure { output: u32, serial: u32 },
    /// The compositor ended the lock on its own.
    Finished,
    /// Authentication succeeded and the session may be unlocked.
    UnlockRequested,
}

/// What the event-loop thread must do in answer to an event, in order.
#[derive(Clone, Copy, Debug, PartialEq, Eq, Structural)]
pub enum LockAction {
    /// Send the lock request to the compositor.
    RequestLock,
    /// Create the lock surface of an output; its drawable is built on the UI thread.
    CreateSurface(u32),
    /// Tear down the lock surface of an output.
    DestroySurface(u32),
    /// Acknowledge a surface configuration, by its serial.
    AckConfigure { output: u32, serial: u32 },
    /// Release the lock and round-trip with the compositor so that it has
    /// processed the surfaces' destruction.
    ReleaseLock,
    /// Report that the session could not be locked; no surface is shown.
    ReportFatal,
    /// Stop the dispatch loop.
    Stop,
}

/// Mathematical model of a `Coordinator`.
pub struct CoordinatorView {
    pub state: SessionLockState,
    /// Connected outputs, in the order they appeared.
    pub outputs: Seq<u32>,
    /// Outputs that hold a live lock surface.
    pub surfaces: Seq<u32>,
}

impl CoordinatorView {
    /// No output is listed twice; while locked every connected output has
    /// exactly one surface, and otherwise there is none.
    pub open spec fn wf(self) -> bool {
        &&& self.outputs.no_duplicates()
        &&& self.state == SessionLockState::Locked ==> self.surfaces == self.outputs
        &&& self.state != SessionLockState::Locked ==> self.surfaces.len() == 0
    }
}

/// The model of a freshly made coordinator.
pub open spec fn initial_view() -> CoordinatorView {
    CoordinatorView { state: SessionLockState::Unlocked, outputs: Seq::empty(), surfaces: Seq::empty() }
}

/// One `CreateSurface` per output, in order.
pub open spec fn creations(ids: Seq<u32>) -> Seq<LockAction> {
    ids.map_values(|o: u32| LockAction::CreateSurface(o))
}

/// One `DestroySurface` per output, in order.
pub open spec fn teardown(ids: Seq<u32>) -> Seq<LockAction> {
    ids.map_values(|o: u32| LockAction::DestroySurface(o))
}

/// The next model and the actions for one event.
pub open spec fn lock_step(v: CoordinatorView, e: LockEvent) -> (CoordinatorView, Seq<LockAction>) {
    let unchanged = (v, Seq::<LockAction>::empty());
    match e {
        LockEvent::LockRequested => if v.state == SessionLockState::Unlocked {
            (CoordinatorView { state: SessionLockState::AwaitingLock, ..v }, seq![LockAction::RequestLock])
        } else {
            unchanged
        },
        LockEvent::LockGranted => if v.state == SessionLockState::AwaitingLock {
            (CoordinatorView { state: SessionLockState::Locked, surfaces: v.outputs, ..v }, creations(v.outputs))
        } else {
            unchanged
        },
        LockEvent::LockRefused => if v.state == SessionLockState::AwaitingLock {
            (
                CoordinatorView { state: SessionLockState::Finished, ..v },
                seq![LockAction::ReportFatal, LockAction::Stop],
            )
        } else {
            unchanged
        },
        LockEvent::OutputAdded(id) => if v.state == SessionLockState::Finished || v.outputs.contains(id) {
            unchanged
        } else if v.state == SessionLockState::Locked {
            (
                CoordinatorView { outputs: v.outputs.push(id), surfaces: v.surfaces.push(id), ..v },
                seq![LockAction::CreateSurface(id)],
            )
        } else {
            (CoordinatorView { outputs: v.outputs.push(id), ..v }, Seq::empty())
        },
        LockEvent::OutputRemoved(id) => if v.state == SessionLockState::Finished || !v.outputs.contains(
            id,
        ) {
            unchanged
        } else if v.state == SessionLockState::Locked {
            (
                CoordinatorView {
                    outputs: v.outputs.remove(v.outputs.index_of(id)),
                    surfaces: v.surfaces.remove(v.surfaces.index_of(id)),
                    ..v
                },
                seq![LockAction::DestroySurface(id)],
            )
        } else {
            (CoordinatorView { outputs: v.outputs.remove(v.outputs.index_of(id)), ..v }, Seq::empty())
        },
        LockEvent::Configure { output, serial } => if v.state == SessionLockState::Locked
            && v.surfaces.contains(output) {
            (v, seq![LockAction::AckConfigure { output, serial }])
        } else {
            unchanged
        },
        LockEvent::Finished => if v.state == SessionLockState::AwaitingLock {
            (
                CoordinatorView { state: SessionLockState::Finished, ..v },
                seq![LockAction::ReportFatal, LockAction::Stop],
            )
        } else if v.state == SessionLockState::Locked {
            (
                CoordinatorView { state: SessionLockState::Finished, surfaces: Seq::empty(), ..v },
                teardown(v.surfaces).push(LockAction::Stop),
            )
        } else {
            unchanged
        },
        LockEvent::UnlockRequested => if v.state == SessionLockState::Locked {
            (
                CoordinatorView { state: SessionLockState::Finished, surfaces: Seq::empty(), ..v },
                teardown(v.surfaces).push(LockAction::ReleaseLock).push(LockAction::Stop),
            )
        } else {
            unchanged
        },
    }
}

/// The model after a sequence of events, and all actions, in order.
pub open spec fn lock_run(v: CoordinatorView, es: Seq<LockEvent>) -> (CoordinatorView, Seq<LockAction>)
    decreases es.len(),
{
    if es.len() == 0 {
        (v, Seq::empty())
    } else {
        let (v1, a1) = lock_step(v, es[0]);
        let (v2, a2) = lock_run(v1, es.drop_first());
        (v2, a1 + a2)
    }
}

/// Every event keeps the model well formed.
pub proof fn lemma_step_keeps_wf(v: CoordinatorView, e: LockEvent)
    requires
        v.wf(),
    ensures
        lock_step(v, e).0.wf(),
{
    match e {
        LockEvent::OutputAdded(id) => {
            if v.state != SessionLockState::Finished && !v.outputs.contains(id) {
                let o = v.outputs.push(id);
                assert forall|a: int, b: int| 0 <= a < o.len() && 0 <= b < o.len() && a != b implies o[a]
                    != o[b] by {
                    if a == v.outputs.len() as int {
                        assert(v.outputs[b] != id);
                    } else if b == v.outputs.len() as int {
                        assert(v.outputs[a] != id);
                    }
                }
            }
        },
        LockEvent::OutputRemoved(id) => {
            if v.state != SessionLockState::Finished && v.outputs.contains(id) {
                let i = v.outputs.index_of(id);
                let o = v.outputs.remove(i);
                v.outputs.remove_ensures(i);
                assert forall|a: int, b: int| 0 <= a < o.len() && 0 <= b < o.len() && a != b implies o[a]
                    != o[b] by {
                    let a0 = if a < i { a } else { a + 1 };
                    let b0 = if b < i { b } else { b + 1 };
                    assert(o[a] == v.outputs[a0]);
                    assert(o[b] == v.outputs[b0]);
                }
            }
        },
        _ => {},
    }
}

/// Running a sequence and then one more event is running the longer sequence.
pub proof fn lemma_run_push(v: CoordinatorView, es: Seq<LockEvent>, e: LockEvent)
    ensures
        lock_run(v, es.push(e)) == ({
            let (w, a) = lock_run(v, es);
            let (w2, a2) = lock_step(w, e);
            (w2, a + a2)
        }),
    decreases es.len(),
{
    if es.len() == 0 {
        assert(es.push(e).drop_first() =~= Seq::<LockEvent>::empty());
        assert(lock_run(lock_step(v, e).0, Seq::<LockEvent>::empty()).1 =~= Seq::<LockAction>::empty());
        assert(lock_step(v, e).1 + Seq::<LockAction>::empty() =~= lock_step(v, e).1);
        assert(Seq::<LockAction>::empty() + lock_step(v, e).1 =~= lock_step(v, e).1);
    } else {
        let (v1, a1) = lock_step(v, es[0]);
        assert(es.push(e).drop_first() =~= es.drop_first().push(e));
        assert(es.push(e)[0] == es[0]);
        lemma_run_push(v1, es.drop_first(), e);
        let (w, a) = lock_run(v1, es.drop_first());
        let (w2, a2) = lock_step(w, e);
        assert(a1 + (a + a2) =~= (a1 + a) + a2);
    }
}

/// Over any sequence of events, from a well-formed model, the live lock
/// surfaces match the connected outputs one for one while the session is
/// locked (no leak, no duplicate), and there are none otherwise.
pub proof fn lemma_surfaces_track_outputs(v: CoordinatorView, es: Seq<LockEvent>)
    requires
        v.wf(),
    ensures
        ({
            let w = lock_run(v, es).0;
            &&& w.wf()
            &&& w.state == SessionLockState::Locked ==> {
                &&& w.surfaces.len() == w.outputs.len()
                &&& w.surfaces.no_duplicates()
                &&& forall|o: u32| w.surfaces.contains(o) <==> w.outputs.contains(o)
            }
            &&& w.state != SessionLockState::Locked ==> w.surfaces.len() == 0
        }),
    decreases es.len(),
{
    if es.len() > 0 {
        lemma_step_keeps_wf(v, es[0]);
        lemma_surfaces_track_outputs(lock_step(v, es[0]).0, es.drop_first());
    }
}

/// Asking twice for the unlock does what asking once does: the second
/// request changes nothing and asks for no action.
pub proof fn lemma_unlock_idempotent(v: CoordinatorView)
    requires
        v.wf(),
    ensures
        lock_run(v, seq![LockEvent::UnlockRequested, LockEvent::UnlockRequested]) == lock_step(
            v,
            LockEvent::UnlockRequested,
        ),
        lock_step(v, LockEvent::UnlockRequested).0.state == SessionLockState::Finished
            || v.state != SessionLockState::Locked,
{
    let es = seq![LockEvent::UnlockRequested, LockEvent::UnlockRequested];
    let (v1, a1) = lock_step(v, LockEvent::UnlockRequested);
    assert(es.drop_first() =~= seq![LockEvent::UnlockRequested]);
    assert(es.drop_first().drop_first() =~= Seq::<LockEvent>::empty());
    assert(lock_step(v1, LockEvent::UnlockRequested) == (v1, Seq::<LockAction>::empty()));
    let one = es.drop_first();
    assert(one[0] == LockEvent::UnlockRequested);
    assert(es[0] == LockEvent::UnlockRequested);
    assert(lock_run(v1, one.drop_first()) == (v1, Seq::<LockAction>::empty()));
    let tail = lock_run(v1, one);
    assert(tail.0 == v1);
    assert(tail.1 =~= Seq::<LockAction>::empty());
    let whole = lock_run(v, es);
    assert(whole.0 == v1);
    assert(whole.1 =~= a1);
}

/// The events that bring up a lock over the outputs already known: each
/// output is announced, then the lock is requested.
pub open spec fn start_events(seed: Seq<u32>) -> Seq<LockEvent> {
    seed.map_values(|o: u32| LockEvent::OutputAdded(o)).push(LockEvent::LockRequested)
}

/// Decision core of the compositor event loop.
pub struct Coordinator {
    state: SessionLockState,
    outputs: Vec<u32>,
    surfaces: Vec<u32>,
}

impl View for Coordinator {
    type V = CoordinatorView;

    closed spec fn view(&self) -> CoordinatorView {
        CoordinatorView { state: self.state, outputs: self.outputs@, surfaces: self.surfaces@ }
    }
}

/// Position of `id` in `v`, if it is there.
fn find(v: &Vec<u32>, id: u32) -> (r: Option<usize>)
    ensures
        match r {
            Some(i) => i < v@.len() && v@[i as int] == id,
            None => !v@.contains(id),
        },
{
    let mut i: usize = 0;
    while i < v.len()
        invariant
            i <= v@.len(),
            forall|j: int| 0 <= j < i ==> v@[j] != id,
        decreases v@.len() - i,
    {
        if v[i] == id {
            return Some(i);
        }
        i = i + 1;
    }
    None
}

/// One `CreateSurface` or one `DestroySurface` per output of `ids`, in order.
fn surface_actions(ids: &Vec<u32>, create: bool) -> (r: Vec<LockAction>)
    ensures
        r@ == if create { creations(ids@) } else { teardown(ids@) },
{
    let mut r: Vec<LockAction> = Vec::new();
    let mut i: usize = 0;
    while i < ids.len()
        invariant
            i <= ids@.len(),
            r@ == if create { creations(ids@.subrange(0, i as int)) } else { teardown(ids@.subrange(0, i as int)) },
        decreases ids@.len() - i,
    {
        let id = ids[i];
        if create {
            r.push(LockAction::CreateSurface(id));
        } else {
            r.push(LockAction::DestroySurface(id));
        }
        proof {
            assert(ids@.subrange(0, i + 1) == ids@.subrange(0, i as int).push(id));
        }
        i = i + 1;
    }
    proof {
        assert(ids@.subrange(0, ids@.len() as int) == ids@);
    }
    r
}

impl Coordinator {
    /// An unlocked coordinator that knows of no output.
    pub fn new() -> (c: Coordinator)
        ensures
            c@ == initial_view(),
            c@.wf(),
    {
        Coordinator { state: SessionLockState::Unlocked, outputs: Vec::new(), surfaces: Vec::new() }
    }

    /// A coordinator that knows the outputs of `seed` (each once) and has
    /// asked for the lock; the actions hold the lock request.
    pub fn start(seed: &Vec<u32>) -> (r: (Coordinator, Vec<LockAction>))
        ensures
            (r.0@, r.1@) == lock_run(initial_view(), start_events(seed@)),
            r.0@.wf(),
            r.0@.state == SessionLockState::AwaitingLock,
    {
        let mut c = Coordinator::new();
        let mut acts: Vec<LockAction> = Vec::new();
        let ghost evs = start_events(seed@);
        let mut i: usize = 0;
        proof {
            assert(evs.subrange(0, 0) =~= Seq::<LockEvent>::empty());
        }
        while i < seed.len()
            invariant
                i <= seed@.len(),
                evs == start_events(seed@),
                c@.wf(),
                c@.state == SessionLockState::Unlocked,
                (c@, acts@) == lock_run(initial_view(), evs.subrange(0, i as int)),
            decreases seed@.len() - i,
        {
            let e = LockEvent::OutputAdded(seed[i]);
            let mut step_acts = c.step(e);
            proof {
                assert(evs[i as int] == e);
                assert(evs.subrange(0, i + 1) =~= evs.subrange(0, i as int).push(e));
                lemma_run_push(initial_view(), evs.subrange(0, i as int), e);
            }
            acts.append(&mut step_acts);
            i = i + 1;
        }
        let mut step_acts = c.step(LockEvent::LockRequested);
        proof {
            let n = seed@.len() as int;
            assert(evs[n] == LockEvent::LockRequested);
            assert(evs =~= evs.subrange(0, n).push(LockEvent::LockRequested));
            lemma_run_push(initial_view(), evs.subrange(0, n), LockEvent::LockRequested);
        }
        acts.append(&mut step_acts);
        (c, acts)
    }

    /// Phase of the session lock.
    pub fn state(&self) -> (r: SessionLockState)
        ensures
            r == self@.state,
    {
        self.state
    }

    /// Whether the dispatch loop must keep running.
    pub fn is_running(&self) -> (r: bool)
        ensures
            r == (self@.state != SessionLockState::Finished),
    {
        self.state != SessionLockState::Finished
    }

    /// Number of live lock surfaces.
    pub fn live_surfaces(&self) -> (r: usize)
        ensures
            r == self@.surfaces.len(),
    {
        self.surfaces.len()
    }

    /// Whether the output holds a live lock surface.
    pub fn has_surface(&self, output: u32) -> (r: bool)
        ensures
            r == self@.surfaces.contains(output),
    {
        find(&self.surfaces, output).is_some()
    }

    /// Whether the output is connected.
    pub fn has_output(&self, output: u32) -> (r: bool)
        ensures
            r == self@.outputs.contains(output),
    {
        find(&self.outputs, output).is_some()
    }

    /// Applies one event and returns the actions to perform, in order.
    pub fn step(&mut self, e: LockEvent) -> (acts: Vec<LockAction>)
        requires
            old(self)@.wf(),
        ensures
            (final(self)@, acts@) == lock_step(old(self)@, e),
            final(self)@.wf(),
    {
        let ghost v0 = self@;
        let mut acts: Vec<LockAction> = Vec::new();
        match e {
            LockEvent::LockRequested => {
                if self.state == SessionLockState::Unlocked {
                    self.state = SessionLockState::AwaitingLock;
                    acts.push(LockAction::RequestLock);
                }
            },
            LockEvent::LockGranted => {
                if self.state == SessionLockState::AwaitingLock {
                    self.state = SessionLockState::Locked;
                    self.surfaces = self.outputs.clone();
                    acts = surface_actions(&self.outputs, true);
                }
            },
            LockEvent::LockRefused => {
                if self.state == SessionLockState::AwaitingLock {
                    self.state = SessionLockState::Finished;
                    acts.push(LockAction::ReportFatal);
                    acts.push(LockAction::Stop);
                }
            },
            LockEvent::OutputAdded(id) => {
                if self.state != SessionLockState::Finished {
                    match find(&self.outputs, id) {
                        Some(_) => {},
                        None => {
                            self.outputs.push(id);
                            if self.state == SessionLockState::Locked {
                                self.surfaces.push(id);
                                acts.push(LockAction::CreateSurface(id));
                            }
                        },
                    }
                }
            },
            LockEvent::OutputRemoved(id) => {
                if self.state != SessionLockState::Finished {
                    match find(&self.outputs, id) {
                        None => {},
                        Some(i) => {
                            proof {
                                let k = v0.outputs.index_of(id);
                                assert(v0.outputs[i as int] == id);
                                assert(0 <= k < v0.outputs.len() && v0.outputs[k] == id);
                                assert(k == i as int);
                            }
                            self.outputs.remove(i);
                            if self.state == SessionLockState::Locked {
                                self.surfaces.remove(i);
                                acts.push(LockAction::DestroySurface(id));
                            }
                        },
                    }
                }
            },
            LockEvent::Configure { output, serial } => {
                if self.state == SessionLockState::Locked && find(&self.surfaces, output).is_some() {
                    acts.push(LockAction::AckConfigure { output, serial });
                }
            },
            LockEvent::Finished => {
                if self.state == SessionLockState::AwaitingLock {
                    self.state = SessionLockState::Finished;
                    acts.push(LockAction::ReportFatal);
                    acts.push(LockAction::Stop);
                } else if self.state == SessionLockState::Locked {
                    self.state = SessionLockState::Finished;
                    acts = surface_actions(&self.surfaces, false);
                    acts.push(LockAction::Stop);
                    self.surfaces = Vec::new();
                }
            },
            LockEvent::UnlockRequested => {
                if self.state == SessionLockState::Locked {
                    self.state = SessionLockState::Finished;
                    acts = surface_actions(&self.surfaces, false);
                    acts.push(LockAction::ReleaseLock);
                    acts.push(LockAction::Stop);
                    self.surfaces = Vec::new();
                }
            },
        }
        proof {
            assert(acts@ =~= lock_step(v0, e).1);
            assert(self@ =~= lock_step(v0, e).0);
            lemma_step_keeps_wf(v0, e);
        }
        acts
    }
}

/// Model of a `SurfaceSlots`: outputs whose surface was asked for but not yet
/// made, and outputs whose surface is live.
pub struct SlotsView {
    pub pending: Set<u32>,
    pub live: Set<u32>,
}

/// The table after the surface of `id` is asked for. An output whose surface
/// is live is left as it is.
pub open spec fn slots_schedule(v: SlotsView, id: u32) -> SlotsView {
    if v.live.contains(id) {
        v
    } else {
        SlotsView { pending: v.pending.insert(id), ..v }
    }
}

/// Whether the UI thread may make the surface of `id`, and the table after.
pub open spec fn slots_claim(v: SlotsView, id: u32) -> (SlotsView, bool) {
    if v.pending.contains(id) {
        (SlotsView { pending: v.pending.remove(id), live: v.live.insert(id) }, true)
    } else {
        (v, false)
    }
}

/// The table after the surface of `id` is withdrawn, and whether a live
/// surface must be torn down.
pub open spec fn slots_withdraw(v: SlotsView, id: u32) -> (SlotsView, bool) {
    (SlotsView { pending: v.pending.remove(id), live: v.live.remove(id) }, v.live.contains(id))
}

/// A surface that was asked for is made at most once: a second claim is refused.
pub proof fn lemma_claim_at_most_once(v: SlotsView, id: u32)
    ensures
        !slots_claim(slots_claim(v, id).0, id).1,
{
}

/// While no output is both pending and live, a claim never makes a second
/// surface for an output whose surface is live.
pub proof fn lemma_claim_never_duplicates(v: SlotsView, id: u32)
    requires
        v.pending.disjoint(v.live),
    ensures
        slots_claim(v, id).1 ==> !v.live.contains(id),
        slots_claim(v, id).0.pending.disjoint(slots_claim(v, id).0.live),
{
    let w = slots_claim(v, id).0;
    assert(w.pending.disjoint(w.live));
}

/// A surface withdrawn before the UI thread gets to it is never made.
pub proof fn lemma_withdrawn_never_made(v: SlotsView, id: u32)
    ensures
        !slots_claim(slots_withdraw(v, id).0, id).1,
{
}

/// The lock surfaces that the UI thread is to make or has made, by output.
/// It is shared between the event-loop thread, which asks for and withdraws
/// surfaces, and the UI thread, which makes them; a mutex guards it.
pub struct SurfaceSlots {
    pending: Vec<u32>,
    live: Vec<u32>,
}

impl View for SurfaceSlots {
    type V = SlotsView;

    closed spec fn view(&self) -> SlotsView {
        SlotsView { pending: self.pending@.to_set(), live: self.live@.to_set() }
    }
}

/// Removes `id` from a list without duplicates.
fn remove_id(v: &mut Vec<u32>, id: u32)
    requires
        old(v)@.no_duplicates(),
    ensures
        final(v)@.no_duplicates(),
        final(v)@.to_set() == old(v)@.to_set().remove(id),
{
    let ghost v0 = v@;
    match find(v, id) {
        None => {
            assert(v@.to_set() =~= v0.to_set().remove(id));
        },
        Some(i) => {
            v.remove(i);
            proof {
                v0.remove_ensures(i as int);
                let w = v@;
                assert forall|a: int, b: int| 0 <= a < w.len() && 0 <= b < w.len() && a != b implies w[a]
                    != w[b] by {
                    let a0 = if a < i { a } else { a + 1 };
                    let b0 = if b < i { b } else { b + 1 };
                    assert(w[a] == v0[a0]);
                    assert(w[b] == v0[b0]);
                }
                assert forall|x: u32| w.contains(x) <==> (v0.contains(x) && x != id) by {
                    if w.contains(x) {
                        let k = choose|k: int| 0 <= k < w.len() && w[k] == x;
                        let k0 = if k < i { k } else { k + 1 };
                        assert(w[k] == v0[k0]);
                        assert(k0 != i as int);
                    }
                    if v0.contains(x) && x != id {
                        let k0 = choose|k: int| 0 <= k < v0.len() && v0[k] == x;
                        assert(k0 != i as int);
                        if k0 < i {
                            assert(w[k0] == x);
                        } else {
                            assert(w[k0 - 1] == x);
                        }
                    }
                }
                assert(w.to_set() =~= v0.to_set().remove(id));
            }
        },
    }
}

/// Appends `id` to a list without duplicates that lacks it.
fn add_id(v: &mut Vec<u32>, id: u32)
    requires
        old(v)@.no_duplicates(),
        !old(v)@.contains(id),
    ensures
        final(v)@.no_duplicates(),
        final(v)@.to_set() == old(v)@.to_set().insert(id),
{
    let ghost v0 = v@;
    v.push(id);
    proof {
        let w = v@;
        assert forall|a: int, b: int| 0 <= a < w.len() && 0 <= b < w.len() && a != b implies w[a]
            != w[b] by {
            if a == v0.len() as int {
                assert(v0[b] != id);
            } else if b == v0.len() as int {
                assert(v0[a] != id);
            }
        }
        assert forall|x: u32| w.contains(x) <==> (v0.contains(x) || x == id) by {
            if v0.contains(x) {
                let k = choose|k: int| 0 <= k < v0.len() && v0[k] == x;
                assert(w[k] == x);
            }
            if x == id {
                assert(w[v0.len() as int] == id);
            }
            if w.contains(x) {
                let k = choose|k: int| 0 <= k < w.len() && w[k] == x;
                if k < v0.len() {
                    assert(v0[k] == x);
                }
            }
        }
        assert(w.to_set() =~= v0.to_set().insert(id));
    }
}

impl SurfaceSlots {
    /// Neither list holds an output twice, and no output is both pending and live.
    pub closed spec fn wf(&self) -> bool {
        &&& self.pending@.no_duplicates()
        &&& self.live@.no_duplicates()
        &&& self@.pending.disjoint(self@.live)
    }

    /// An empty table.
    pub fn new() -> (t: SurfaceSlots)
        ensures
            t.wf(),
            t@.pending.disjoint(t@.live),
            t@.pending == Set::<u32>::empty(),
            t@.live == Set::<u32>::empty(),
    {
        let t = SurfaceSlots { pending: Vec::new(), live: Vec::new() };
        proof {
            assert(t@.pending =~= Set::<u32>::empty());
            assert(t@.live =~= Set::<u32>::empty());
        }
        t
    }

    /// Asks for the surface of `id`.
    pub fn schedule(&mut self, id: u32)
        requires
            old(self).wf(),
        ensures
            final(self).wf(),
            final(self)@.pending.disjoint(final(self)@.live),
            final(self)@ == slots_schedule(old(self)@, id),
    {
        let ghost v0 = self@;
        if find(&self.live, id).is_none() && find(&self.pending, id).is_none() {
            add_id(&mut self.pending, id);
        }
        proof {
            assert(self@.pending =~= slots_schedule(v0, id).pending);
        }
    }

    /// Whether the surface of `id` may be made now; if so it counts as live
    /// from here on.
    pub fn claim(&mut self, id: u32) -> (r: bool)
        requires
            old(self).wf(),
        ensures
            final(self).wf(),
            final(self)@.pending.disjoint(final(self)@.live),
            (final(self)@, r) == slots_claim(old(self)@, id),
    {
        let ghost v0 = self@;
        if find(&self.pending, id).is_some() {
            proof {
                assert(v0.pending.contains(id));
                assert(!v0.live.contains(id));
            }
            remove_id(&mut self.pending, id);
            add_id(&mut self.live, id);
            proof {
                assert(self@.pending.disjoint(self@.live));
            }
            true
        } else {
            false
        }
    }

    /// Withdraws the surface of `id`; returns whether a live one must be torn down.
    pub fn withdraw(&mut self, id: u32) -> (r: bool)
        requires
            old(self).wf(),
        ensures
            final(self).wf(),
            final(self)@.pending.disjoint(final(self)@.live),
            (final(self)@, r) == slots_withdraw(old(self)@, id),
    {
        let r = find(&self.live, id).is_some();
        remove_id(&mut self.pending, id);
        remove_id(&mut self.live, id);
        r
    }

    /// Whether the surface of `id` was asked for and is not made yet.
    pub fn is_pending(&self, id: u32) -> (r: bool)
        ensures
            r == self@.pending.contains(id),
    {
        find(&self.pending, id).is_some()
    }

    /// Whether the surface of `id` is live.
    pub fn is_live(&self, id: u32) -> (r: bool)
        ensures
            r == self@.live.contains(id),
    {
        find(&self.live, id).is_some()
    }
}

} // verus!
