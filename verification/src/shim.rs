//! The shim runtime model: the behaviour the lowered code relies on for
//! primitives with no native equivalent in the single-threaded,
//! cooperatively scheduled target — one-shot and repeating timers with
//! idempotent cancellation, synchronous key-value storage with absence as
//! a first-class outcome, the network-request state machine with
//! registration-ordered listeners and no replay, and single-shot
//! animation-frame scheduling.

use vstd::prelude::*;

verus! {

/// The lifecycle of one scheduled timer.
#[derive(Clone, Copy, PartialEq, Eq, Structural, Debug)]
pub enum TimerState {
    Pending,
    Fired,
    Cancelled,
}

/// One timer slot: whether it repeats, and where it stands.
#[derive(Clone, Copy, PartialEq, Eq, Structural, Debug)]
pub struct TimerSlot {
    pub repeating: bool,
    pub state: TimerState,
}

/// The scheduler's table of timers; a handle is a position in it.
pub struct TimerTable {
    pub slots: Vec<TimerSlot>,
}

/// What cancellation does: a live handle is marked cancelled whatever its
/// state, an unknown handle changes nothing; there is no failing case.
pub open spec fn cancel_s(slots: Seq<TimerSlot>, h: int) -> Seq<TimerSlot> {
    if 0 <= h < slots.len() {
        slots.update(h, TimerSlot { repeating: slots[h].repeating, state: TimerState::Cancelled })
    } else {
        slots
    }
}

/// What the host firing a timer does: a pending one-shot fires once and
/// is spent, a pending repeating timer fires and stays pending, anything
/// else does not run.
pub open spec fn fire_s(slots: Seq<TimerSlot>, h: int) -> (Seq<TimerSlot>, bool) {
    if 0 <= h < slots.len() && slots[h].state == TimerState::Pending {
        if slots[h].repeating {
            (slots, true)
        } else {
            (slots.update(h, TimerSlot { repeating: false, state: TimerState::Fired }), true)
        }
    } else {
        (slots, false)
    }
}

impl TimerTable {
    /// A table with no timers.
    pub fn new() -> (r: TimerTable)
        ensures
            r.slots@ == Seq::<TimerSlot>::empty(),
    {
        TimerTable { slots: Vec::new() }
    }

    /// Schedules a one-shot timer; the returned handle names its slot.
    pub fn schedule_once(&mut self) -> (h: usize)
        ensures
            final(self).slots@ == old(self).slots@.push(
                TimerSlot { repeating: false, state: TimerState::Pending },
            ),
            h == old(self).slots@.len(),
    {
        let h = self.slots.len();
        self.slots.push(TimerSlot { repeating: false, state: TimerState::Pending });
        h
    }

    /// Schedules a repeating timer; the returned handle names its slot.
    pub fn schedule_repeating(&mut self) -> (h: usize)
        ensures
            final(self).slots@ == old(self).slots@.push(
                TimerSlot { repeating: true, state: TimerState::Pending },
            ),
            h == old(self).slots@.len(),
    {
        let h = self.slots.len();
        self.slots.push(TimerSlot { repeating: true, state: TimerState::Pending });
        h
    }

    /// Cancels a handle.  Total: cancelling an already-fired, already-
    /// cancelled or unknown handle is a silent no-op, never an error.
    pub fn cancel(&mut self, h: usize)
        ensures
            final(self).slots@ == cancel_s(old(self).slots@, h as int),
    {
        if h < self.slots.len() {
            let repeating = self.slots[h].repeating;
            self.slots.set(h, TimerSlot { repeating, state: TimerState::Cancelled });
        }
    }

    /// Lets the host fire a handle; reports whether the callback ran.
    pub fn fire(&mut self, h: usize) -> (ran: bool)
        ensures
            final(self).slots@ == fire_s(old(self).slots@, h as int).0,
            ran == fire_s(old(self).slots@, h as int).1,
    {
        if h < self.slots.len() {
            let slot = self.slots[h];
            let is_pending = matches!(slot.state, TimerState::Pending);
            if is_pending {
                if !slot.repeating {
                    self.slots.set(h, TimerSlot { repeating: false, state: TimerState::Fired });
                }
                return true;
            }
        }
        false
    }
}

/// Law: cancellation is idempotent.  Cancelling a handle a second time —
/// or cancelling one that already fired — changes nothing and, the
/// operation being total, raises no error on either call.
pub proof fn lemma_cancel_idempotent(slots: Seq<TimerSlot>, h: int)
    ensures
        cancel_s(cancel_s(slots, h), h) == cancel_s(slots, h),
{
    if 0 <= h < slots.len() {
        assert(cancel_s(cancel_s(slots, h), h) =~= cancel_s(slots, h));
    }
}

/// Law: a cancelled handle never runs again.
pub proof fn lemma_cancelled_never_fires(slots: Seq<TimerSlot>, h: int)
    ensures
        !fire_s(cancel_s(slots, h), h).1,
{
}

/// The synchronous key-value store; a key is present or absent, absence
/// being an ordinary outcome rather than an error.
pub struct KeyValueStore {
    pub entries: Vec<(String, String)>,
}

/// The ghost reading of the store's entries.
pub open spec fn store_view(entries: Seq<(String, String)>) -> Seq<(Seq<char>, Seq<char>)> {
    entries.map_values(|p: (String, String)| (p.0@, p.1@))
}

/// The elementwise reading of `store_view`.
pub proof fn store_view_props(entries: Seq<(String, String)>)
    ensures
        store_view(entries).len() == entries.len(),
        forall|i: int|
            0 <= i < entries.len() ==> #[trigger] store_view(entries)[i] == (
                entries[i].0@,
                entries[i].1@,
            ),
{
}

/// The value stored under `k`: the first entry holding it, if any.
pub open spec fn lookup_s(es: Seq<(Seq<char>, Seq<char>)>, k: Seq<char>, i: int) -> Option<
    Seq<char>,
>
    decreases es.len() - i,
{
    if 0 <= i < es.len() {
        if es[i].0 == k {
            Some(es[i].1)
        } else {
            lookup_s(es, k, i + 1)
        }
    } else {
        None
    }
}

/// What an unconditional overwrite does: the first entry under the key is
/// replaced in place, a fresh key is appended.
pub open spec fn store_set_s(es: Seq<(Seq<char>, Seq<char>)>, k: Seq<char>, v: Seq<char>) -> Seq<
    (Seq<char>, Seq<char>),
> {
    store_set_from_s(es, k, v, 0)
}

pub open spec fn store_set_from_s(
    es: Seq<(Seq<char>, Seq<char>)>,
    k: Seq<char>,
    v: Seq<char>,
    i: int,
) -> Seq<(Seq<char>, Seq<char>)>
    decreases es.len() - i,
{
    if 0 <= i < es.len() {
        if es[i].0 == k {
            es.update(i, (k, v))
        } else {
            store_set_from_s(es, k, v, i + 1)
        }
    } else {
        es.push((k, v))
    }
}

impl KeyValueStore {
    /// An empty store.
    pub fn new() -> (r: KeyValueStore)
        ensures
            store_view(r.entries@) == Seq::<(Seq<char>, Seq<char>)>::empty(),
    {
        let r = KeyValueStore { entries: Vec::new() };
        proof {
            assert(store_view(r.entries@) =~= Seq::<(Seq<char>, Seq<char>)>::empty());
        }
        r
    }

    /// Reads a key: the stored value, or absence.
    pub fn get(&self, k: &String) -> (r: Option<String>)
        ensures
            match r {
                Some(v) => lookup_s(store_view(self.entries@), k@, 0) == Some(v@),
                None => lookup_s(store_view(self.entries@), k@, 0) is None,
            },
    {
        proof {
            store_view_props(self.entries@);
        }
        let ghost es = store_view(self.entries@);
        let n = self.entries.len();
        let mut j: usize = 0;
        while j < n
            invariant
                n == self.entries@.len(),
                0 <= j <= n,
                es == store_view(self.entries@),
                lookup_s(es, k@, 0) == lookup_s(es, k@, j as int),
            decreases n - j,
        {
            proof {
                store_view_props(self.entries@);
            }
            if self.entries[j].0 == *k {
                assert(es[j as int].0 == k@);
                return Some(self.entries[j].1.clone());
            }
            assert(es[j as int].0 != k@);
            j = j + 1;
        }
        None
    }

    /// Writes a key, overwriting unconditionally and synchronously.
    pub fn set_value(&mut self, k: String, v: String)
        ensures
            store_view(final(self).entries@) == store_set_s(
                store_view(old(self).entries@),
                k@,
                v@,
            ),
    {
        let ghost es = store_view(old(self).entries@);
        proof {
            store_view_props(self.entries@);
        }
        let n = self.entries.len();
        let mut j: usize = 0;
        while j < n
            invariant
                n == self.entries@.len(),
                0 <= j <= n,
                es == store_view(self.entries@),
                es == store_view(old(self).entries@),
                store_set_s(es, k@, v@) == store_set_from_s(es, k@, v@, j as int),
            decreases n - j,
        {
            proof {
                store_view_props(self.entries@);
            }
            if self.entries[j].0 == k {
                assert(es[j as int].0 == k@);
                self.entries.set(j, (k, v));
                proof {
                    store_view_props(self.entries@);
                    assert(store_view(self.entries@) =~= es.update(j as int, (k@, v@)));
                }
                return ;
            }
            assert(es[j as int].0 != k@);
            j = j + 1;
        }
        self.entries.push((k, v));
        proof {
            store_view_props(self.entries@);
            assert(store_view(self.entries@) =~= es.push((k@, v@)));
        }
    }
}

/// Law: reading a key right after writing it yields the written value.
pub proof fn lemma_store_get_after_set(es: Seq<(Seq<char>, Seq<char>)>, k: Seq<char>, v: Seq<char>)
    ensures
        lookup_s(store_set_s(es, k, v), k, 0) == Some(v),
{
    lemma_store_set_from(es, k, v, 0);
}

proof fn lemma_store_set_from(es: Seq<(Seq<char>, Seq<char>)>, k: Seq<char>, v: Seq<char>, i: int)
    requires
        0 <= i <= es.len(),
        forall|j: int| 0 <= j < i ==> es[j].0 != k,
    ensures
        lookup_s(store_set_from_s(es, k, v, i), k, 0) == Some(v),
    decreases es.len() - i,
{
    if i < es.len() {
        if es[i].0 == k {
            lemma_lookup_update(es, k, v, i, 0);
        } else {
            lemma_store_set_from(es, k, v, i + 1);
        }
    } else {
        lemma_lookup_push(es, k, v, 0);
    }
}

proof fn lemma_lookup_update(
    es: Seq<(Seq<char>, Seq<char>)>,
    k: Seq<char>,
    v: Seq<char>,
    i: int,
    j: int,
)
    requires
        0 <= j <= i < es.len(),
        es[i].0 == k,
        forall|m: int| 0 <= m < i ==> es[m].0 != k,
    ensures
        lookup_s(es.update(i, (k, v)), k, j) == Some(v),
    decreases es.len() - j,
{
    if j < i {
        lemma_lookup_update(es, k, v, i, j + 1);
    }
}

proof fn lemma_lookup_push(es: Seq<(Seq<char>, Seq<char>)>, k: Seq<char>, v: Seq<char>, j: int)
    requires
        0 <= j <= es.len(),
        forall|m: int| 0 <= m < es.len() ==> es[m].0 != k,
    ensures
        lookup_s(es.push((k, v)), k, j) == Some(v),
    decreases es.len() - j,
{
    if j < es.len() {
        lemma_lookup_push(es, k, v, j + 1);
    }
}

/// The ready states of a host network request.
#[derive(Clone, Copy, PartialEq, Eq, Structural, Debug)]
pub enum ReadyState {
    Unsent,
    Opened,
    HeadersReceived,
    Loading,
    Done,
}

/// The numeric code the host exposes for each ready state.
pub open spec fn ready_state_code_s(s: ReadyState) -> int {
    match s {
        ReadyState::Unsent => 0,
        ReadyState::Opened => 1,
        ReadyState::HeadersReceived => 2,
        ReadyState::Loading => 3,
        ReadyState::Done => 4,
    }
}

/// The numeric ready-state code, as lowered comparisons read it.
pub fn ready_state_code(s: &ReadyState) -> (r: u16)
    ensures
        r as int == ready_state_code_s(*s),
{
    match s {
        ReadyState::Unsent => 0,
        ReadyState::Opened => 1,
        ReadyState::HeadersReceived => 2,
        ReadyState::Loading => 3,
        ReadyState::Done => 4,
    }
}

/// The listener classes a request distinguishes.
#[derive(Clone, Copy, PartialEq, Eq, Structural, Debug)]
pub enum RequestEvent {
    Load,
    Failure,
    ReadyStateChange,
}

/// A host network request: its state machine and its listeners, kept in
/// registration order.
pub struct HostRequest {
    pub state: ReadyState,
    pub listeners: Vec<(RequestEvent, usize)>,
}

/// The listeners, from position `i` on and in registration order, that a
/// transition invokes: every ready-state-change listener, plus the load
/// listeners when the request completes, plus the failure listeners when
/// it fails.
pub open spec fn selected_s(
    ls: Seq<(RequestEvent, usize)>,
    completed: bool,
    failed: bool,
    i: int,
) -> Seq<usize>
    decreases ls.len() - i,
{
    if 0 <= i < ls.len() {
        (if ls[i].0 == RequestEvent::ReadyStateChange || (completed && ls[i].0
            == RequestEvent::Load) || (failed && ls[i].0 == RequestEvent::Failure) {
            seq![ls[i].1]
        } else {
            Seq::empty()
        }) + selected_s(ls, completed, failed, i + 1)
    } else {
        Seq::empty()
    }
}

/// The next state while a sent request progresses.
pub open spec fn advance_state_s(s: ReadyState) -> ReadyState {
    match s {
        ReadyState::Unsent => ReadyState::Unsent,
        ReadyState::Opened => ReadyState::HeadersReceived,
        ReadyState::HeadersReceived => ReadyState::Loading,
        ReadyState::Loading => ReadyState::Done,
        ReadyState::Done => ReadyState::Done,
    }
}

fn collect_selected(
    ls: &Vec<(RequestEvent, usize)>,
    completed: bool,
    failed: bool,
    i: usize,
) -> (r: Vec<usize>)
    requires
        i <= ls@.len(),
    ensures
        r@ == selected_s(ls@, completed, failed, i as int),
    decreases ls@.len() - i,
{
    if i >= ls.len() {
        let r: Vec<usize> = Vec::new();
        proof {
            assert(r@ =~= selected_s(ls@, completed, failed, i as int));
        }
        r
    } else {
        let mut rest = collect_selected(ls, completed, failed, i + 1);
        let entry = ls[i];
        let hit = matches!(entry.0, RequestEvent::ReadyStateChange) || (completed && matches!(
            entry.0,
            RequestEvent::Load,
        )) || (failed && matches!(entry.0, RequestEvent::Failure));
        if hit {
            rest.insert(0, entry.1);
            proof {
                assert(rest@ =~= selected_s(ls@, completed, failed, i as int));
            }
        } else {
            proof {
                assert(rest@ =~= selected_s(ls@, completed, failed, i as int));
            }
        }
        rest
    }
}

impl HostRequest {
    /// A fresh, unsent request with no listeners.
    pub fn new() -> (r: HostRequest)
        ensures
            r.state == ReadyState::Unsent,
            r.listeners@ == Seq::<(RequestEvent, usize)>::empty(),
    {
        HostRequest { state: ReadyState::Unsent, listeners: Vec::new() }
    }

    /// Registers a listener; invocation order is registration order.
    pub fn add_listener(&mut self, ev: RequestEvent, id: usize)
        ensures
            final(self).state == old(self).state,
            final(self).listeners@ == old(self).listeners@.push((ev, id)),
    {
        self.listeners.push((ev, id));
    }

    /// Opens the request; every ready-state-change listener registered so
    /// far is invoked, in registration order.
    pub fn open_request(&mut self) -> (invoked: Vec<usize>)
        requires
            old(self).state == ReadyState::Unsent,
        ensures
            final(self).state == ReadyState::Opened,
            final(self).listeners@ == old(self).listeners@,
            invoked@ == selected_s(old(self).listeners@, false, false, 0),
    {
        self.state = ReadyState::Opened;
        collect_selected(&self.listeners, false, false, 0)
    }

    /// One asynchronous step of a sent request.  Before completion the
    /// ready-state-change listeners run; the step into the terminal state
    /// also runs the load listeners.  A finished request steps no further
    /// and invokes nothing — a listener registered after the terminal
    /// state is never replayed.
    pub fn advance(&mut self) -> (invoked: Vec<usize>)
        ensures
            final(self).state == if old(self).state == ReadyState::Unsent {
                ReadyState::Unsent
            } else {
                advance_state_s(old(self).state)
            },
            final(self).listeners@ == old(self).listeners@,
            invoked@ == if old(self).state == ReadyState::Unsent || old(self).state
                == ReadyState::Done {
                Seq::<usize>::empty()
            } else {
                selected_s(
                    old(self).listeners@,
                    advance_state_s(old(self).state) == ReadyState::Done,
                    false,
                    0,
                )
            },
    {
        let stay = matches!(self.state, ReadyState::Unsent) || matches!(
            self.state,
            ReadyState::Done,
        );
        if stay {
            let r: Vec<usize> = Vec::new();
            proof {
                assert(r@ =~= Seq::<usize>::empty());
            }
            return r;
        }
        let next = match self.state {
            ReadyState::Opened => ReadyState::HeadersReceived,
            ReadyState::HeadersReceived => ReadyState::Loading,
            ReadyState::Loading => ReadyState::Done,
            _ => ReadyState::Done,
        };
        self.state = next;
        let completed = matches!(next, ReadyState::Done);
        collect_selected(&self.listeners, completed, false, 0)
    }

    /// The host reports a failure: the request finishes, running the
    /// ready-state-change and failure listeners in registration order.
    pub fn fail(&mut self) -> (invoked: Vec<usize>)
        requires
            old(self).state != ReadyState::Unsent,
            old(self).state != ReadyState::Done,
        ensures
            final(self).state == ReadyState::Done,
            final(self).listeners@ == old(self).listeners@,
            invoked@ == selected_s(old(self).listeners@, false, true, 0),
    {
        self.state = ReadyState::Done;
        collect_selected(&self.listeners, false, true, 0)
    }
}

/// Law: no replay.  Once a request has reached its terminal state,
/// further steps invoke no listener at all, so a listener registered
/// after completion is never invoked for that request.
pub proof fn lemma_request_no_replay(r: HostRequest)
    requires
        r.state == ReadyState::Done,
    ensures
        advance_state_s(r.state) == r.state,
{
}

/// The animation-frame queue: each request schedules one invocation
/// before the next paint.
pub struct FrameQueue {
    pub queue: Vec<usize>,
}

impl FrameQueue {
    /// An empty queue.
    pub fn new() -> (r: FrameQueue)
        ensures
            r.queue@ == Seq::<usize>::empty(),
    {
        FrameQueue { queue: Vec::new() }
    }

    /// Schedules one callback for the next frame.
    pub fn request_frame(&mut self, id: usize)
        ensures
            final(self).queue@ == old(self).queue@.push(id),
    {
        self.queue.push(id);
    }

    /// Runs one frame: the callbacks scheduled so far, in order, and an
    /// emptied queue — a callback that re-schedules itself lands in the
    /// next frame, so each invocation returns before the next is
    /// scheduled and a self-rescheduling chain never grows the stack.
    pub fn run_frame(&mut self) -> (cbs: Vec<usize>)
        ensures
            cbs@ == old(self).queue@,
            final(self).queue@ == Seq::<usize>::empty(),
    {
        let mut cbs: Vec<usize> = Vec::new();
        core::mem::swap(&mut cbs, &mut self.queue);
        cbs
    }
}

} // verus!
