//! Window-event subscriptions: the scope of each native hook, the table
//! that routes a delivered event to the window that owns its hook, and the
//! bookkeeping of the hooks that one subscription has installed.
use vstd::prelude::*;
use nohash_hasher::{IntMap, NoHashHasher};
use std::hash::BuildHasherDefault;

verus! {

/// A window was minimized (the start of its minimized time, not of the
/// animation).
pub const EVENT_SYSTEM_MINIMIZESTART: u32 = 0x0016;
/// A window or other UI object was created.
pub const EVENT_OBJECT_CREATE: u32 = 0x8000;
/// A window or other UI object was destroyed.
pub const EVENT_OBJECT_DESTROY: u32 = 0x8001;
/// A hidden object is shown.
pub const EVENT_OBJECT_SHOW: u32 = 0x8002;
/// An object's name, for a window its title, changed.
pub const EVENT_OBJECT_NAMECHANGE: u32 = 0x800C;
/// The object id that an event carries when it is about the window itself.
pub const OBJID_WINDOW: i32 = 0;
/// The child id that an event carries when it is about the object itself.
pub const CHILDID_SELF: i32 = 0;

/// Hook flag: events are delivered to the installing thread's queue.
pub const WINEVENT_OUTOFCONTEXT: u32 = 0x0000;
/// Hook flag: no events from the installing thread.
pub const WINEVENT_SKIPOWNTHREAD: u32 = 0x0001;
/// Hook flag: no events from the installing process.
pub const WINEVENT_SKIPOWNPROCESS: u32 = 0x0002;

/// An abstract and/or concrete set of processes and threads.
#[derive(Clone, Copy, Debug, PartialEq, Eq)]
pub enum ProcessThreadSet {
    All,
    AllProcessesExclCurrent,
    /// The threads of all other processes as well as the threads of the
    /// current process excluding the current thread.
    AllThreadsExclCurrent,
    CurrentProcessExclCurrentThread,
    /// All threads in the process with the given id.
    Process(u32),
    /// In the process with the first id, only the thread with the second id.
    ProcessAndThread(u32, u32),
}

/// What one native hook is installed with.
#[derive(Clone, Copy, Debug, PartialEq, Eq)]
pub struct HookParams {
    pub min_event_id: u32,
    pub max_event_id: u32,
    /// 0 for all processes.
    pub process_id: u32,
    /// 0 for all threads.
    pub thread_id: u32,
    pub flags: u32,
}

/// One delivered window event, with plain values.
#[derive(Clone, Copy, Debug, PartialEq, Eq)]
pub struct WinEvent {
    pub event_id: u32,
    pub hwnd: isize,
    pub object_id: i32,
    pub child_id: i32,
    pub thread_id: u32,
    pub time_millis: u32,
}

impl WinEvent {
    /// The event is about a window itself, not about a part of it.
    pub open spec fn spec_is_window_itself(&self) -> bool {
        self.object_id == OBJID_WINDOW && self.child_id == CHILDID_SELF
    }

    pub fn is_window_itself(&self) -> (r: bool)
        ensures
            r == self.spec_is_window_itself(),
    {
        self.object_id == OBJID_WINDOW && self.child_id == CHILDID_SELF
    }
}

/// The process id, thread id and flags that a scope is installed with.
pub open spec fn scope_params(set: ProcessThreadSet, current_process_id: u32) -> (u32, u32, u32) {
    match set {
        ProcessThreadSet::All => (0, 0, WINEVENT_OUTOFCONTEXT),
        ProcessThreadSet::AllProcessesExclCurrent => (
            0,
            0,
            WINEVENT_OUTOFCONTEXT | WINEVENT_SKIPOWNPROCESS,
        ),
        ProcessThreadSet::AllThreadsExclCurrent => (
            0,
            0,
            WINEVENT_OUTOFCONTEXT | WINEVENT_SKIPOWNTHREAD,
        ),
        ProcessThreadSet::CurrentProcessExclCurrentThread => (
            current_process_id,
            0,
            WINEVENT_OUTOFCONTEXT | WINEVENT_SKIPOWNTHREAD,
        ),
        ProcessThreadSet::Process(p) => (p, 0, WINEVENT_OUTOFCONTEXT),
        ProcessThreadSet::ProcessAndThread(p, t) => (p, t, WINEVENT_OUTOFCONTEXT),
    }
}

/// The parameters of the native hook for an event range over a scope.
pub fn hook_params(
    min_event_id: u32,
    max_event_id: u32,
    process_thread_set: ProcessThreadSet,
    current_process_id: u32,
) -> (r: HookParams)
    ensures
        r.min_event_id == min_event_id,
        r.max_event_id == max_event_id,
        (r.process_id, r.thread_id, r.flags) == scope_params(
            process_thread_set,
            current_process_id,
        ),
{
    let mut process_id: u32 = 0;
    let mut thread_id: u32 = 0;
    let mut flags: u32 = WINEVENT_OUTOFCONTEXT;
    match process_thread_set {
        ProcessThreadSet::All => {},
        ProcessThreadSet::AllProcessesExclCurrent => {
            flags = flags | WINEVENT_SKIPOWNPROCESS;
        },
        ProcessThreadSet::AllThreadsExclCurrent => {
            flags = flags | WINEVENT_SKIPOWNTHREAD;
        },
        ProcessThreadSet::CurrentProcessExclCurrentThread => {
            process_id = current_process_id;
            flags = flags | WINEVENT_SKIPOWNTHREAD;
        },
        ProcessThreadSet::Process(id) => {
            process_id = id;
        },
        ProcessThreadSet::ProcessAndThread(id_1, id_2) => {
            process_id = id_1;
            thread_id = id_2;
        },
    }
    HookParams { min_event_id, max_event_id, process_id, thread_id, flags }
}

/// nohash_hasher's hasher, which the hook table's `IntMap` builds through
/// std's `BuildHasherDefault`.
#[verifier::external_type_specification]
#[verifier::external_body]
#[verifier::reject_recursive_types(T)]
pub struct ExNoHashHasher<T>(NoHashHasher<T>);

/// std's builder of default-constructed hashers, as the `IntMap` uses it.
#[verifier::external_type_specification]
#[verifier::external_body]
#[verifier::reject_recursive_types(H)]
pub struct ExBuildHasherDefault<H>(BuildHasherDefault<H>);

/// A table without entries.
pub open spec fn empty_table() -> Map<isize, (isize, u32)> {
    Map::empty()
}

/// Relies on `HashMap::insert` of an `IntMap`: the key maps to the value
/// afterwards, the other keys are untouched. (vstd states this only for
/// hashers it knows; nohash_hasher's hashes an integer to itself.)
#[verifier::external_body]
fn map_insert(m: &mut IntMap<isize, (isize, u32)>, handle: isize, target: (isize, u32))
    ensures
        final(m)@ == old(m)@.insert(handle, target),
{
    m.insert(handle, target);
}

/// Relies on `HashMap::remove` of an `IntMap`: the key is gone afterwards,
/// the other keys are untouched.
#[verifier::external_body]
fn map_remove(m: &mut IntMap<isize, (isize, u32)>, handle: isize)
    ensures
        final(m)@ == old(m)@.remove(handle),
{
    m.remove(&handle);
}

/// Relies on `HashMap::get` of an `IntMap`: the value of the key, if the
/// map holds it.
#[verifier::external_body]
fn map_get(m: &IntMap<isize, (isize, u32)>, handle: isize) -> (r: Option<(isize, u32)>)
    ensures
        match r {
            Some(v) => m@.contains_key(handle) && m@[handle] == v,
            None => !m@.contains_key(handle),
        },
{
    m.get(&handle).copied()
}

/// The process-wide table from native hook handle to the receiving window
/// and message id. The delivery callback, which runs on an arbitrary
/// thread, resolves its recipient here.
pub struct HookTable {
    entries: IntMap<isize, (isize, u32)>,
}

impl HookTable {
    /// For each installed hook, the window that receives its events and the
    /// message id they are sent with.
    pub closed spec fn spec_entries(&self) -> Map<isize, (isize, u32)> {
        self.entries@
    }

    /// A table without entries.
    pub fn new() -> (r: HookTable)
        ensures
            r.spec_entries() == empty_table(),
    {
        HookTable { entries: IntMap::default() }
    }

    fn insert(&mut self, handle: isize, target: (isize, u32))
        ensures
            final(self).spec_entries() == old(self).spec_entries().insert(handle, target),
    {
        map_insert(&mut self.entries, handle, target);
    }

    fn remove(&mut self, handle: isize)
        ensures
            final(self).spec_entries() == old(self).spec_entries().remove(handle),
    {
        map_remove(&mut self.entries, handle);
    }

    /// The window and message id that the events of a hook go to, if the
    /// hook is in the table.
    pub fn route(&self, handle: isize) -> (r: Option<(isize, u32)>)
        ensures
            match r {
                Some(v) => self.spec_entries().contains_key(handle) && self.spec_entries()[handle]
                    == v,
                None => !self.spec_entries().contains_key(handle),
            },
    {
        map_get(&self.entries, handle)
    }
}

/// The error of a hook that could not be installed.
#[derive(Clone, Copy, Debug, PartialEq, Eq)]
pub enum HookError {
    /// The native call returned no handle; with the thread's last error code.
    NotInstalled(u32),
}

/// A logical subscription: the native hooks installed for one receiving
/// window and message id. Each installed hook has its entry in the hook
/// table while the subscription holds it.
pub struct WinEventHook {
    process_thread_set: ProcessThreadSet,
    h_win_event_hooks: Vec<isize>,
    event_hwnd: isize,
    window_msg_id: u32,
}

impl WinEventHook {
    pub closed spec fn spec_hooks(&self) -> Seq<isize> {
        self.h_win_event_hooks@
    }

    pub closed spec fn spec_target(&self) -> (isize, u32) {
        (self.event_hwnd, self.window_msg_id)
    }

    pub closed spec fn spec_scope(&self) -> ProcessThreadSet {
        self.process_thread_set
    }

    /// Every hook of this subscription is a non-zero handle, listed once,
    /// and routes to its target in `table`.
    pub open spec fn registered_in(&self, table: Map<isize, (isize, u32)>) -> bool {
        &&& forall|i: int|
            0 <= i < self.spec_hooks().len() ==> #[trigger] self.spec_hooks()[i] != 0
                && table.contains_key(self.spec_hooks()[i]) && table[self.spec_hooks()[i]]
                == self.spec_target()
        &&& forall|i: int, j: int|
            0 <= i < j < self.spec_hooks().len() ==> self.spec_hooks()[i]
                != self.spec_hooks()[j]
    }

    /// A subscription without hooks. Hooks are installed per event range
    /// with the scope given here, or with one of their own.
    pub fn new(process_thread_set: ProcessThreadSet, event_hwnd: isize, window_msg_id: u32) -> (r:
        WinEventHook)
        ensures
            r.spec_hooks() == Seq::<isize>::empty(),
            r.spec_target() == (event_hwnd, window_msg_id),
            r.spec_scope() == process_thread_set,
    {
        WinEventHook {
            process_thread_set,
            h_win_event_hooks: Vec::new(),
            event_hwnd,
            window_msg_id,
        }
    }

    pub fn hooks(&self) -> (r: Vec<isize>)
        ensures
            r@ == self.spec_hooks(),
    {
        self.h_win_event_hooks.clone()
    }

    pub fn hook_count(&self) -> (r: usize)
        ensures
            r == self.spec_hooks().len(),
    {
        self.h_win_event_hooks.len()
    }

    /// The parameters for one event over the subscription's scope.
    pub fn add_event(&self, event_id: u32, current_process_id: u32) -> (r: HookParams)
        ensures
            r == (HookParams {
                min_event_id: event_id,
                max_event_id: event_id,
                process_id: scope_params(self.spec_scope(), current_process_id).0,
                thread_id: scope_params(self.spec_scope(), current_process_id).1,
                flags: scope_params(self.spec_scope(), current_process_id).2,
            }),
    {
        hook_params(event_id, event_id, self.process_thread_set, current_process_id)
    }

    /// The parameters for one event over a scope of its own.
    pub fn add_filtered_event(
        &self,
        event_id: u32,
        process_thread_set: ProcessThreadSet,
        current_process_id: u32,
    ) -> (r: HookParams)
        ensures
            r == (HookParams {
                min_event_id: event_id,
                max_event_id: event_id,
                process_id: scope_params(process_thread_set, current_process_id).0,
                thread_id: scope_params(process_thread_set, current_process_id).1,
                flags: scope_params(process_thread_set, current_process_id).2,
            }),
    {
        hook_params(event_id, event_id, process_thread_set, current_process_id)
    }

    /// The parameters for an event range over the subscription's scope.
    pub fn add_event_range(&self, min_event_id: u32, max_event_id: u32, current_process_id: u32) -> (r:
        HookParams)
        ensures
            r == (HookParams {
                min_event_id,
                max_event_id,
                process_id: scope_params(self.spec_scope(), current_process_id).0,
                thread_id: scope_params(self.spec_scope(), current_process_id).1,
                flags: scope_params(self.spec_scope(), current_process_id).2,
            }),
    {
        hook_params(min_event_id, max_event_id, self.process_thread_set, current_process_id)
    }

    /// The parameters for an event range over a scope of its own.
    pub fn add_filtered_event_range(
        &self,
        min_event_id: u32,
        max_event_id: u32,
        process_thread_set: ProcessThreadSet,
        current_process_id: u32,
    ) -> (r: HookParams)
        ensures
            r == (HookParams {
                min_event_id,
                max_event_id,
                process_id: scope_params(process_thread_set, current_process_id).0,
                thread_id: scope_params(process_thread_set, current_process_id).1,
                flags: scope_params(process_thread_set, current_process_id).2,
            }),
    {
        hook_params(min_event_id, max_event_id, process_thread_set, current_process_id)
    }

    /// Records the handle that installing a hook returned: 0 is a failure,
    /// reported with the last error code; any other handle joins this
    /// subscription and routes to its target in `table`.
    pub fn record_hook(&mut self, table: &mut HookTable, handle: isize, last_error: u32) -> (r:
        Result<(), HookError>)
        requires
            old(self).registered_in(old(table).spec_entries()),
            !old(self).spec_hooks().contains(handle),
        ensures
            final(self).spec_target() == old(self).spec_target(),
            final(self).spec_scope() == old(self).spec_scope(),
            final(self).registered_in(final(table).spec_entries()),
            handle == 0 ==> r == Err::<(), HookError>(HookError::NotInstalled(last_error))
                && *final(self) == *old(self) && final(table).spec_entries()
                == old(table).spec_entries(),
            handle != 0 ==> r is Ok && final(self).spec_hooks() == old(self).spec_hooks().push(
                handle,
            ) && final(table).spec_entries() == old(table).spec_entries().insert(
                handle,
                old(self).spec_target(),
            ),
    {
        if handle == 0 {
            return Err(HookError::NotInstalled(last_error));
        }
        table.insert(handle, (self.event_hwnd, self.window_msg_id));
        self.h_win_event_hooks.push(handle);
        proof {
            let hooks = self.h_win_event_hooks@;
            assert forall|i: int| 0 <= i < hooks.len() implies #[trigger] hooks[i] != 0
                && table.spec_entries().contains_key(hooks[i]) && table.spec_entries()[hooks[i]]
                == self.spec_target() by {
                if i < hooks.len() - 1 {
                    assert(hooks[i] == old(self).spec_hooks()[i]);
                }
            }
        }
        Ok(())
    }

    /// Records a batch of hooks installed in order. Installation stops at
    /// the first failure, a 0 handle, reported with `last_error`. The batch
    /// is all or nothing: on a failure, the hooks installed before it in the
    /// batch are removed again and returned, to be uninstalled.
    pub fn record_batch(&mut self, table: &mut HookTable, handles: &Vec<isize>, last_error: u32) -> (r:
        Result<(), (HookError, Vec<isize>)>)
        requires
            old(self).registered_in(old(table).spec_entries()),
            forall|i: int|
                0 <= i < handles@.len() && #[trigger] handles@[i] != 0 ==> !old(self).spec_hooks().contains(handles@[i]) && !old(table).spec_entries().contains_key(
                    handles@[i],
                ),
            forall|i: int, j: int|
                0 <= i < j < handles@.len() && handles@[i] != 0 ==> handles@[i] != handles@[j],
        ensures
            final(self).spec_target() == old(self).spec_target(),
            final(self).spec_scope() == old(self).spec_scope(),
            final(self).registered_in(final(table).spec_entries()),
            (forall|i: int| 0 <= i < handles@.len() ==> #[trigger] handles@[i] != 0) ==> r is Ok
                && final(self).spec_hooks() == old(self).spec_hooks() + handles@ && final(table).spec_entries().remove_keys(handles@.to_set()) == old(table).spec_entries(),
            forall|k: int|
                is_first_zero(handles@, k) ==> (match r {
                    Err((e, removed)) => e == HookError::NotInstalled(last_error) && removed@
                        == handles@.take(k),
                    Ok(()) => false,
                }) && final(self).spec_hooks() == old(self).spec_hooks() && final(table).spec_entries()
                    == old(table).spec_entries(),
    {
        let mark = self.h_win_event_hooks.len();
        let ghost hooks0 = self.h_win_event_hooks@;
        let ghost table0 = table.spec_entries();
        let ghost target = self.spec_target();
        let mut i: usize = 0;
        while i < handles.len()
            invariant
                0 <= i <= handles@.len(),
                mark == hooks0.len(),
                hooks0 == old(self).spec_hooks(),
                table0 == old(table).spec_entries(),
                target == old(self).spec_target(),
                self.spec_target() == target,
                self.spec_scope() == old(self).spec_scope(),
                self.registered_in(table.spec_entries()),
                old(self).registered_in(table0),
                forall|j: int| 0 <= j < i ==> #[trigger] handles@[j] != 0,
                self.spec_hooks() == hooks0 + handles@.take(i as int),
                forall|h: isize| #[trigger]
                    table.spec_entries().contains_key(h) <==> (table0.contains_key(h)
                        || handles@.take(i as int).contains(h)),
                forall|h: isize|
                    table0.contains_key(h) ==> #[trigger] table.spec_entries()[h] == table0[h],
                forall|a: int|
                    0 <= a < handles@.len() && #[trigger] handles@[a] != 0 ==> !hooks0.contains(
                        handles@[a],
                    ) && !table0.contains_key(handles@[a]),
                forall|a: int, b: int|
                    0 <= a < b < handles@.len() && handles@[a] != 0 ==> handles@[a] != handles@[b],
            decreases handles@.len() - i,
        {
            let h = handles[i];
            if h == 0 {
                let ghost mid = table.spec_entries();
                let removed = self.rollback_to(table, mark);
                proof {
                    assert((hooks0 + handles@.take(i as int)).skip(mark as int) =~= handles@.take(
                        i as int,
                    ));
                    assert((hooks0 + handles@.take(i as int)).take(mark as int) =~= hooks0);
                    assert(table.spec_entries() =~= table0) by {
                        assert forall|x: isize| #[trigger]
                            table.spec_entries().contains_key(x) == table0.contains_key(x) by {
                            if handles@.take(i as int).contains(x) {
                                let c = choose|c: int|
                                    0 <= c < i && #[trigger] handles@.take(i as int)[c] == x;
                                assert(handles@[c] == x && x != 0);
                            }
                        }
                    }
                    assert forall|k: int| is_first_zero(handles@, k) implies k == i by {
                        if k < i {
                            assert(handles@[k] != 0);
                        }
                    }
                }
                return Err((HookError::NotInstalled(last_error), removed));
            }
            proof {
                assert(!self.spec_hooks().contains(h)) by {
                    if self.spec_hooks().contains(h) {
                        let c = choose|c: int| 0 <= c < self.spec_hooks().len() && self.spec_hooks()[c]
                            == h;
                        if c < hooks0.len() {
                            assert(hooks0[c] == h);
                        } else {
                            assert(handles@[c - hooks0.len()] == h);
                        }
                    }
                }
            }
            let _ = self.record_hook(table, h, last_error);
            proof {
                assert(handles@.take(i + 1) == handles@.take(i as int).push(h));
                assert(hooks0 + handles@.take(i + 1) =~= (hooks0 + handles@.take(i as int)).push(h));
                assert forall|x: isize| #[trigger]
                    table.spec_entries().contains_key(x) <==> (table0.contains_key(x)
                        || handles@.take(i + 1).contains(x)) by {
                    if handles@.take(i + 1).contains(x) && x != h {
                        let c = choose|c: int| 0 <= c < i + 1 && #[trigger] handles@.take(i + 1)[c] == x;
                        assert(handles@.take(i as int)[c] == x);
                    }
                    if handles@.take(i as int).contains(x) {
                        let c = choose|c: int| 0 <= c < i && #[trigger] handles@.take(i as int)[c] == x;
                        assert(handles@.take(i + 1)[c] == x);
                    }
                    if x == h {
                        assert(handles@.take(i + 1)[i as int] == x);
                    }
                }
            }
            i = i + 1;
        }
        proof {
            assert(handles@.take(handles@.len() as int) == handles@);
            assert(table.spec_entries().remove_keys(handles@.to_set()) =~= table0) by {
                assert forall|x: isize| #[trigger]
                    table.spec_entries().remove_keys(handles@.to_set()).contains_key(x)
                        == table0.contains_key(x) by {
                    if table0.contains_key(x) && handles@.to_set().contains(x) {
                        let c = choose|c: int| 0 <= c < handles@.len() && #[trigger] handles@[c] == x;
                        assert(handles@[c] != 0);
                    }
                }
            }
            assert forall|k: int| !is_first_zero(handles@, k) by {
                if is_first_zero(handles@, k) {
                    assert(handles@[k] != 0);
                }
            }
        }
        Ok(())
    }

    /// Disposes of every hook and points the subscription at a new scope:
    /// the old hooks are replaced, not supplemented. Returns the removed
    /// hooks, to be uninstalled.
    pub fn rescope(&mut self, table: &mut HookTable, process_thread_set: ProcessThreadSet) -> (removed:
        Vec<isize>)
        requires
            old(self).registered_in(old(table).spec_entries()),
        ensures
            final(self).spec_target() == old(self).spec_target(),
            final(self).spec_scope() == process_thread_set,
            final(self).spec_hooks() == Seq::<isize>::empty(),
            final(self).registered_in(final(table).spec_entries()),
            removed@ == old(self).spec_hooks(),
            final(table).spec_entries() == old(table).spec_entries().remove_keys(
                removed@.to_set(),
            ),
    {
        let removed = self.rollback_to(table, 0);
        self.process_thread_set = process_thread_set;
        proof {
            assert(old(self).spec_hooks().skip(0) == old(self).spec_hooks());
        }
        removed
    }

    /// Removes the hooks installed after the first `keep` ones, and their
    /// table entries, and returns them, in order, to be uninstalled. With
    /// `keep == 0` this disposes of the whole subscription; after a failed
    /// registration in a batch it rolls the batch back.
    pub fn rollback_to(&mut self, table: &mut HookTable, keep: usize) -> (removed: Vec<isize>)
        requires
            old(self).registered_in(old(table).spec_entries()),
            keep <= old(self).spec_hooks().len(),
        ensures
            final(self).spec_target() == old(self).spec_target(),
            final(self).spec_scope() == old(self).spec_scope(),
            final(self).registered_in(final(table).spec_entries()),
            final(self).spec_hooks() == old(self).spec_hooks().take(keep as int),
            removed@ == old(self).spec_hooks().skip(keep as int),
            final(table).spec_entries() == old(table).spec_entries().remove_keys(
                removed@.to_set(),
            ),
    {
        let mut removed: Vec<isize> = Vec::new();
        let ghost hooks0 = self.h_win_event_hooks@;
        let ghost table0 = table.spec_entries();
        let mut i: usize = keep;
        while i < self.h_win_event_hooks.len()
            invariant
                keep <= i <= hooks0.len(),
                self.h_win_event_hooks@ == hooks0,
                self.event_hwnd == old(self).event_hwnd,
                self.window_msg_id == old(self).window_msg_id,
                self.process_thread_set == old(self).process_thread_set,
                old(self).spec_hooks() == hooks0,
                old(self).registered_in(table0),
                removed@ == hooks0.subrange(keep as int, i as int),
                table.spec_entries() == table0.remove_keys(removed@.to_set()),
            decreases hooks0.len() - i,
        {
            let h = self.h_win_event_hooks[i];
            table.remove(h);
            proof {
                removed@.lemma_push_to_set_commute(h);
                assert(removed@.push(h).to_set() == removed@.to_set().insert(h));
                assert(table0.remove_keys(removed@.to_set()).remove(h) =~= table0.remove_keys(
                    removed@.to_set().insert(h),
                ));
            }
            removed.push(h);
            proof {
                assert(hooks0.subrange(keep as int, i + 1) == hooks0.subrange(
                    keep as int,
                    i as int,
                ).push(h));
            }
            i = i + 1;
        }
        self.h_win_event_hooks.truncate(keep);
        proof {
            assert(removed@ == hooks0.skip(keep as int));
            let kept = self.h_win_event_hooks@;
            assert(kept == hooks0.take(keep as int));
            assert forall|a: int| 0 <= a < kept.len() implies #[trigger] kept[a] != 0
                && table.spec_entries().contains_key(kept[a]) && table.spec_entries()[kept[a]]
                == self.spec_target() by {
                assert(kept[a] == hooks0[a]);
                assert(hooks0[a] != 0 && table0.contains_key(hooks0[a]));
                if removed@.to_set().contains(kept[a]) {
                    let b = choose|b: int| 0 <= b < removed@.len() && removed@[b] == kept[a];
                    assert(removed@[b] == hooks0[keep + b]);
                    assert(hooks0[a] != hooks0[keep + b]);
                }
            }
        }
        removed
    }
}

/// `k` is the position of the first 0 in `s`.
pub open spec fn is_first_zero(s: Seq<isize>, k: int) -> bool {
    0 <= k < s.len() && s[k] == 0 && forall|j: int| 0 <= j < k ==> #[trigger] s[j] != 0
}


} // verus!
