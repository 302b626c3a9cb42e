//! The tracker of the one foreign window: discovery in the launched
//! process tree, by polling and by window events, and the events and
//! operations of the window once it is found.
use vstd::prelude::*;
use crate::process_set::{
    distinct, grown, has_earlier_parent, lemma_grow_appends_after_parents, ProcessEntry, ProcessSet,
};
use crate::text::{lossy_utf16_of, text_of};
use crate::window_ops::{
    show_command, show_command_for, title_from_query, title_result, ShowCommand, TitleError,
    TitleQuery, WindowPlacement,
};
use crate::win_event_hook::{
    WinEvent, EVENT_OBJECT_CREATE, EVENT_OBJECT_DESTROY, EVENT_OBJECT_NAMECHANGE,
    EVENT_OBJECT_SHOW, EVENT_SYSTEM_MINIMIZESTART,
};

verus! {

/// Time after launch, in milliseconds, after which polling gives up.
pub const TIMEOUT_MILLIS: u64 = 2000;

/// Where the tracker stands.
#[derive(Clone, Copy, Debug, PartialEq, Eq)]
pub enum TrackerPhase {
    /// Looking for the window, with broad event scope and polling.
    WaitingForProcess,
    /// The window is found; the narrow event scope is being installed.
    Binding,
    /// The window is tracked with narrow event scope.
    WindowFound,
    /// The window was destroyed.
    Destroyed,
    /// Discovery timed out, or the narrow scope could not be installed.
    Failed,
}

/// The identity of the tracked window.
#[derive(Clone, Copy, Debug, PartialEq, Eq)]
pub struct TrackedWindow {
    pub hwnd: isize,
    pub process_id: u32,
    pub thread_id: u32,
}

/// A top-level window as an enumeration of the desktop reports it.
#[derive(Clone, Debug)]
pub struct TopLevelWindow {
    pub hwnd: isize,
    pub process_id: u32,
    pub thread_id: u32,
    pub visible: bool,
    /// The window class name in UTF-16; empty where it could not be read.
    pub class_name: Vec<u16>,
}

/// What the host hears of the tracked window.
#[derive(Clone, Copy, Debug, PartialEq, Eq)]
pub enum ForeignWindowEvent {
    Found,
    Minimized,
    TitleChanged,
    Destroyed,
    /// Nothing for the host; the event was consumed.
    Internal,
}

/// The failures that end tracking.
#[derive(Clone, Copy, Debug, PartialEq, Eq)]
pub enum TrackerError {
    /// No matching window appeared in time.
    DiscoveryTimeout,
    /// The narrow event scope could not be installed after discovery.
    MonitoringSetupFailed,
}

/// What one polling tick asks of the host.
#[derive(Clone, Debug)]
pub struct PollOutcome {
    /// Processes that joined the tree in this tick, in order; each gets
    /// creation and show filters.
    pub new_process_ids: Vec<u32>,
    /// The error to report, if this tick ends discovery with one.
    pub error: Option<TrackerError>,
    /// Whether the polling timer is to be stopped now.
    pub stop_timer: bool,
}

/// The state of a tracker, as plain values.
pub struct TrackerView {
    pub phase: TrackerPhase,
    /// A window that a creation event announced, waiting to be shown.
    pub candidate: Option<TrackedWindow>,
    pub target: Option<TrackedWindow>,
    pub known: Seq<u32>,
    pub polling: bool,
    pub window_class: Seq<char>,
    pub exe_path: Option<Seq<char>>,
}

/// The consistency of a tracker state.
pub open spec fn view_wf(v: TrackerView) -> bool {
    &&& v.known.len() >= 1
    &&& distinct(v.known)
    &&& (v.target is Some <==> (v.phase == TrackerPhase::Binding || v.phase
        == TrackerPhase::WindowFound))
    &&& (v.polling ==> v.phase == TrackerPhase::WaitingForProcess)
}

/// The class name, read as UTF-16, is the searched one.
pub open spec fn class_matches(window_class: Seq<char>, units: Seq<u16>) -> bool {
    units.len() > 0 && lossy_utf16_of(units) == window_class
}

/// A visible window of one of `pids` with the searched class.
pub open spec fn is_candidate(w: TopLevelWindow, pids: Seq<u32>, window_class: Seq<char>) -> bool {
    pids.contains(w.process_id) && w.visible && class_matches(window_class, w.class_name@)
}

pub open spec fn has_candidate(
    ws: Seq<TopLevelWindow>,
    pids: Seq<u32>,
    window_class: Seq<char>,
) -> bool {
    exists|i: int| 0 <= i < ws.len() && #[trigger] is_candidate(ws[i], pids, window_class)
}

/// `ws[i]` is the first candidate in enumeration order.
pub open spec fn is_first_candidate(
    ws: Seq<TopLevelWindow>,
    pids: Seq<u32>,
    window_class: Seq<char>,
    i: int,
) -> bool {
    &&& 0 <= i < ws.len()
    &&& is_candidate(ws[i], pids, window_class)
    &&& forall|j: int| 0 <= j < i ==> !#[trigger] is_candidate(ws[j], pids, window_class)
}

/// The first candidate in enumeration order, where there is one.
pub open spec fn first_candidate(
    ws: Seq<TopLevelWindow>,
    pids: Seq<u32>,
    window_class: Seq<char>,
) -> TopLevelWindow {
    ws[choose|i: int| is_first_candidate(ws, pids, window_class, i)]
}

pub open spec fn target_of(w: TopLevelWindow) -> TrackedWindow {
    TrackedWindow { hwnd: w.hwnd, process_id: w.process_id, thread_id: w.thread_id }
}

/// The tracker state right after launch, given the enumeration made then.
pub open spec fn launch_view(
    root_process_id: u32,
    window_class: Seq<char>,
    ws: Seq<TopLevelWindow>,
) -> TrackerView {
    let found = has_candidate(ws, seq![root_process_id], window_class);
    TrackerView {
        phase: if found {
            TrackerPhase::Binding
        } else {
            TrackerPhase::WaitingForProcess
        },
        candidate: None,
        target: if found {
            Some(target_of(first_candidate(ws, seq![root_process_id], window_class)))
        } else {
            None
        },
        known: seq![root_process_id],
        polling: !found,
        window_class,
        exe_path: None,
    }
}

/// Polling is running.
pub open spec fn poll_active(v: TrackerView) -> bool {
    v.phase == TrackerPhase::WaitingForProcess && v.polling
}

/// The processes that a tick adds to the tree.
pub open spec fn poll_new_ids(v: TrackerView, snapshot: Seq<ProcessEntry>) -> Seq<u32> {
    if poll_active(v) {
        grown(v.known, snapshot).skip(v.known.len() as int)
    } else {
        Seq::empty()
    }
}

/// A tick finds the window among the windows of the processes it added.
pub open spec fn poll_found(
    v: TrackerView,
    snapshot: Seq<ProcessEntry>,
    ws: Seq<TopLevelWindow>,
) -> bool {
    poll_active(v) && has_candidate(ws, poll_new_ids(v, snapshot), v.window_class)
}

/// A tick finds nothing after the timeout.
pub open spec fn poll_timed_out(
    v: TrackerView,
    snapshot: Seq<ProcessEntry>,
    ws: Seq<TopLevelWindow>,
    elapsed_ms: u64,
) -> bool {
    poll_active(v) && !poll_found(v, snapshot, ws) && elapsed_ms > TIMEOUT_MILLIS
}

/// The tracker state after a tick.
pub open spec fn poll_view(
    v: TrackerView,
    snapshot: Seq<ProcessEntry>,
    ws: Seq<TopLevelWindow>,
    elapsed_ms: u64,
) -> TrackerView {
    if !poll_active(v) {
        v
    } else if poll_found(v, snapshot, ws) {
        TrackerView {
            phase: TrackerPhase::Binding,
            target: Some(
                target_of(first_candidate(ws, poll_new_ids(v, snapshot), v.window_class)),
            ),
            known: grown(v.known, snapshot),
            polling: false,
            ..v
        }
    } else if elapsed_ms > TIMEOUT_MILLIS {
        TrackerView {
            phase: TrackerPhase::Failed,
            known: grown(v.known, snapshot),
            polling: false,
            ..v
        }
    } else {
        TrackerView { known: grown(v.known, snapshot), ..v }
    }
}

/// The window that a creation event announces, where it is one: a window
/// with the searched class whose owning thread could be read (thread id
/// not 0).
pub open spec fn announced(
    v: TrackerView,
    ev: WinEvent,
    class_name: Seq<u16>,
    owner_process_id: u32,
    owner_thread_id: u32,
) -> Option<TrackedWindow> {
    if class_matches(v.window_class, class_name) && owner_thread_id != 0 {
        Some(TrackedWindow { hwnd: ev.hwnd, process_id: owner_process_id, thread_id: owner_thread_id })
    } else {
        None
    }
}

/// A creation event for a window itself, while no window is announced.
pub open spec fn is_announcement(v: TrackerView, ev: WinEvent) -> bool {
    v.phase == TrackerPhase::WaitingForProcess && v.candidate is None && ev.event_id
        == EVENT_OBJECT_CREATE && ev.spec_is_window_itself()
}

/// A show event for the announced window: the event side of discovery.
pub open spec fn event_discovers(v: TrackerView, ev: WinEvent) -> bool {
    &&& v.phase == TrackerPhase::WaitingForProcess
    &&& ev.event_id == EVENT_OBJECT_SHOW
    &&& ev.spec_is_window_itself()
    &&& v.candidate is Some
    &&& v.candidate->0.hwnd == ev.hwnd
}

/// An event about the tracked window.
pub open spec fn is_about_target(v: TrackerView, ev: WinEvent) -> bool {
    v.phase == TrackerPhase::WindowFound && v.target is Some && v.target->0.hwnd == ev.hwnd
}

/// What the host hears of a window event. Announcements and discovery are
/// consumed (`Internal`), whatever the class of the announced window.
pub open spec fn event_out(v: TrackerView, ev: WinEvent) -> Option<ForeignWindowEvent> {
    if is_announcement(v, ev) || event_discovers(v, ev) {
        Some(ForeignWindowEvent::Internal)
    } else if is_about_target(v, ev) {
        if ev.event_id == EVENT_SYSTEM_MINIMIZESTART {
            Some(ForeignWindowEvent::Minimized)
        } else if ev.event_id == EVENT_OBJECT_NAMECHANGE && ev.spec_is_window_itself() {
            Some(ForeignWindowEvent::TitleChanged)
        } else if ev.event_id == EVENT_OBJECT_DESTROY && ev.spec_is_window_itself() {
            Some(ForeignWindowEvent::Destroyed)
        } else {
            None
        }
    } else {
        None
    }
}

/// The tracker state after a window event.
pub open spec fn event_view(
    v: TrackerView,
    ev: WinEvent,
    class_name: Seq<u16>,
    owner_process_id: u32,
    owner_thread_id: u32,
) -> TrackerView {
    if is_announcement(v, ev) {
        TrackerView {
            candidate: announced(v, ev, class_name, owner_process_id, owner_thread_id),
            ..v
        }
    } else if event_discovers(v, ev) {
        TrackerView { phase: TrackerPhase::Binding, target: v.candidate, polling: false, ..v }
    } else if is_about_target(v, ev) && ev.event_id == EVENT_OBJECT_DESTROY
        && ev.spec_is_window_itself() {
        TrackerView { phase: TrackerPhase::Destroyed, target: None, ..v }
    } else {
        v
    }
}

/// The tracker state after the narrow scope was installed, or failed to.
pub open spec fn finish_view(v: TrackerView, narrow_bound: bool) -> TrackerView {
    if narrow_bound {
        TrackerView { phase: TrackerPhase::WindowFound, ..v }
    } else {
        TrackerView { phase: TrackerPhase::Failed, target: None, ..v }
    }
}

proof fn lemma_first_candidate(ws: Seq<TopLevelWindow>, pids: Seq<u32>, window_class: Seq<char>, i: int)
    requires
        is_first_candidate(ws, pids, window_class, i),
    ensures
        first_candidate(ws, pids, window_class) == ws[i],
{
    let k = choose|k: int| is_first_candidate(ws, pids, window_class, k);
    assert(is_first_candidate(ws, pids, window_class, k));
    if k < i {
        assert(!is_candidate(ws[k], pids, window_class));
    } else if i < k {
        assert(!is_candidate(ws[i], pids, window_class));
    }
}

/// Tracks the one foreign window of a launched process tree.
pub struct ForeignProcessTree {
    known_process_ids: ProcessSet,
    window_class: String,
    phase: TrackerPhase,
    candidate: Option<TrackedWindow>,
    target: Option<TrackedWindow>,
    window_exe_path: Option<String>,
    polling: bool,
}

impl View for ForeignProcessTree {
    type V = TrackerView;

    closed spec fn view(&self) -> TrackerView {
        TrackerView {
            phase: self.phase,
            candidate: self.candidate,
            target: self.target,
            known: self.known_process_ids@,
            polling: self.polling,
            window_class: self.window_class@,
            exe_path: match self.window_exe_path {
                Some(p) => Some(p@),
                None => None,
            },
        }
    }
}

fn contains_id(ids: &Vec<u32>, id: u32) -> (r: bool)
    ensures
        r == ids@.contains(id),
{
    let mut i: usize = 0;
    while i < ids.len()
        invariant
            0 <= i <= ids@.len(),
            forall|k: int| 0 <= k < i ==> ids@[k] != id,
        decreases ids@.len() - i,
    {
        if ids[i] == id {
            return true;
        }
        i = i + 1;
    }
    false
}

impl ForeignProcessTree {
    pub closed spec fn wf(&self) -> bool {
        self.known_process_ids.wf() && view_wf(self@)
    }

    /// Starts tracking for a launched root process, given the top-level
    /// windows enumerated right after launch: a visible window of the root
    /// process with the searched class is found at once; else polling
    /// starts.
    pub fn new(root_process_id: u32, window_class: String, windows: &Vec<TopLevelWindow>) -> (r:
        ForeignProcessTree)
        ensures
            r.wf(),
            r@ == launch_view(root_process_id, window_class@, windows@),
    {
        let known_process_ids = ProcessSet::new(root_process_id);
        let mut instance = ForeignProcessTree {
            known_process_ids,
            window_class,
            phase: TrackerPhase::WaitingForProcess,
            candidate: None,
            target: None,
            window_exe_path: None,
            polling: true,
        };
        let mut roots: Vec<u32> = Vec::new();
        roots.push(root_process_id);
        match instance.find_window(windows, &roots) {
            Some(i) => {
                proof {
                    lemma_first_candidate(windows@, roots@, instance.window_class@, i as int);
                }
                let w = &windows[i];
                instance.target = Some(
                    TrackedWindow { hwnd: w.hwnd, process_id: w.process_id, thread_id: w.thread_id },
                );
                instance.phase = TrackerPhase::Binding;
                instance.polling = false;
            },
            None => {},
        }
        proof {
            assert(roots@ == seq![root_process_id]);
        }
        instance
    }

    fn class_matches(&self, class_name: &Vec<u16>) -> (r: bool)
        ensures
            r == class_matches(self.window_class@, class_name@),
    {
        if class_name.len() == 0 {
            false
        } else {
            let name = text_of(class_name);
            name == self.window_class
        }
    }

    /// The first window in enumeration order that belongs to one of `pids`,
    /// is visible and has the searched class.
    fn find_window(&self, windows: &Vec<TopLevelWindow>, pids: &Vec<u32>) -> (r: Option<usize>)
        ensures
            match r {
                Some(i) => is_first_candidate(windows@, pids@, self.window_class@, i as int),
                None => !has_candidate(windows@, pids@, self.window_class@),
            },
    {
        let mut i: usize = 0;
        while i < windows.len()
            invariant
                0 <= i <= windows@.len(),
                forall|j: int|
                    0 <= j < i ==> !#[trigger] is_candidate(
                        windows@[j],
                        pids@,
                        self.window_class@,
                    ),
            decreases windows@.len() - i,
        {
            let w = &windows[i];
            if contains_id(pids, w.process_id) && w.visible && self.class_matches(&w.class_name) {
                return Some(i);
            }
            i = i + 1;
        }
        None
    }

    /// One polling tick, for the timer with id `timer_id`, given a snapshot
    /// of all processes, the top-level windows enumerated after it and the
    /// time since launch. Returns `None` for a timer that is not the
    /// polling timer.
    pub fn handle_timer_window_msg(
        &mut self,
        timer_id: usize,
        snapshot: &Vec<ProcessEntry>,
        windows: &Vec<TopLevelWindow>,
        elapsed_ms: u64,
    ) -> (r: Option<PollOutcome>)
        requires
            old(self).wf(),
        ensures
            final(self).wf(),
            timer_id != crate::background_window::POLL_TIMER_ID ==> r is None && final(self)@
                == old(self)@,
            timer_id == crate::background_window::POLL_TIMER_ID ==> r is Some && final(self)@
                == poll_view(old(self)@, snapshot@, windows@, elapsed_ms) && r->0.new_process_ids@
                == poll_new_ids(old(self)@, snapshot@) && r->0.error == (if poll_timed_out(
                old(self)@,
                snapshot@,
                windows@,
                elapsed_ms,
            ) {
                Some(TrackerError::DiscoveryTimeout)
            } else {
                None
            }) && r->0.stop_timer == (poll_found(old(self)@, snapshot@, windows@)
                || poll_timed_out(old(self)@, snapshot@, windows@, elapsed_ms)),
    {
        if timer_id != crate::background_window::POLL_TIMER_ID {
            return None;
        }
        if !(matches!(self.phase, TrackerPhase::WaitingForProcess) && self.polling) {
            return Some(PollOutcome { new_process_ids: Vec::new(), error: None, stop_timer: false });
        }
        let new_process_ids = self.known_process_ids.grow(snapshot);
        proof {
            assert(new_process_ids@ == grown(old(self)@.known, snapshot@).skip(
                old(self)@.known.len() as int,
            ));
        }
        match self.find_window(windows, &new_process_ids) {
            Some(i) => {
                proof {
                    lemma_first_candidate(windows@, new_process_ids@, self.window_class@, i as int);
                }
                let w = &windows[i];
                self.target = Some(
                    TrackedWindow { hwnd: w.hwnd, process_id: w.process_id, thread_id: w.thread_id },
                );
                self.phase = TrackerPhase::Binding;
                self.polling = false;
                Some(PollOutcome { new_process_ids, error: None, stop_timer: true })
            },
            None => {
                if elapsed_ms > TIMEOUT_MILLIS {
                    self.phase = TrackerPhase::Failed;
                    self.polling = false;
                    Some(
                        PollOutcome {
                            new_process_ids,
                            error: Some(TrackerError::DiscoveryTimeout),
                            stop_timer: true,
                        },
                    )
                } else {
                    Some(PollOutcome { new_process_ids, error: None, stop_timer: false })
                }
            },
        }
    }
    /// Translates a window event, given the class name of the event's
    /// window (UTF-16, empty where unreadable) and its owning process and
    /// thread (thread id 0 where unreadable).
    ///
    /// While waiting, a creation event of a window with the searched class
    /// announces it, and the show event of the announced window discovers
    /// it: the tracker moves on to installing the narrow scope (see
    /// `finish_discovery`). Once the window is tracked, minimizing, title
    /// changes and destruction are reported; destruction ends tracking.
    /// All else is ignored.
    pub fn translate_win_event(
        &mut self,
        event: WinEvent,
        class_name: &Vec<u16>,
        owner_process_id: u32,
        owner_thread_id: u32,
    ) -> (r: Option<ForeignWindowEvent>)
        requires
            old(self).wf(),
        ensures
            final(self).wf(),
            r == event_out(old(self)@, event),
            final(self)@ == event_view(
                old(self)@,
                event,
                class_name@,
                owner_process_id,
                owner_thread_id,
            ),
    {
        let waiting = matches!(self.phase, TrackerPhase::WaitingForProcess);
        let itself = event.is_window_itself();
        if waiting && self.candidate.is_none() && event.event_id == EVENT_OBJECT_CREATE && itself {
            if self.class_matches(class_name) && owner_thread_id != 0 {
                self.candidate = Some(
                    TrackedWindow {
                        hwnd: event.hwnd,
                        process_id: owner_process_id,
                        thread_id: owner_thread_id,
                    },
                );
            }
            return Some(ForeignWindowEvent::Internal);
        }
        if waiting && event.event_id == EVENT_OBJECT_SHOW && itself {
            match self.candidate {
                Some(c) => {
                    if c.hwnd == event.hwnd {
                        self.target = Some(c);
                        self.phase = TrackerPhase::Binding;
                        self.polling = false;
                        return Some(ForeignWindowEvent::Internal);
                    }
                },
                None => {},
            }
        }
        if !matches!(self.phase, TrackerPhase::WindowFound) {
            return None;
        }
        match self.target {
            Some(t) => {
                if t.hwnd != event.hwnd {
                    return None;
                }
            },
            None => {
                return None;
            },
        }
        if event.event_id == EVENT_SYSTEM_MINIMIZESTART {
            Some(ForeignWindowEvent::Minimized)
        } else if event.event_id == EVENT_OBJECT_NAMECHANGE && itself {
            Some(ForeignWindowEvent::TitleChanged)
        } else if event.event_id == EVENT_OBJECT_DESTROY && itself {
            self.phase = TrackerPhase::Destroyed;
            self.target = None;
            Some(ForeignWindowEvent::Destroyed)
        } else {
            None
        }
    }

    /// The window whose narrow scope is to be installed now: present
    /// exactly while the tracker is binding.
    pub fn binding_target(&self) -> (r: Option<TrackedWindow>)
        requires
            self.wf(),
        ensures
            self@.phase == TrackerPhase::Binding ==> r == self@.target,
            self@.phase != TrackerPhase::Binding ==> r is None,
    {
        if matches!(self.phase, TrackerPhase::Binding) {
            self.target
        } else {
            None
        }
    }

    /// Completes discovery once the host has tried to install the narrow
    /// scope (minimize-start, title change and destruction for the window's
    /// process and thread, replacing the broad scope): `Found` when it was
    /// installed, else tracking fails with `MonitoringSetupFailed`.
    pub fn finish_discovery(&mut self, narrow_bound: bool) -> (r: Result<
        ForeignWindowEvent,
        TrackerError,
    >)
        requires
            old(self).wf(),
            old(self)@.phase == TrackerPhase::Binding,
        ensures
            final(self).wf(),
            final(self)@ == finish_view(old(self)@, narrow_bound),
            narrow_bound ==> r == Ok::<ForeignWindowEvent, TrackerError>(
                ForeignWindowEvent::Found,
            ),
            !narrow_bound ==> r == Err::<ForeignWindowEvent, TrackerError>(
                TrackerError::MonitoringSetupFailed,
            ),
    {
        if narrow_bound {
            self.phase = TrackerPhase::WindowFound;
            Ok(ForeignWindowEvent::Found)
        } else {
            self.phase = TrackerPhase::Failed;
            self.target = None;
            Err(TrackerError::MonitoringSetupFailed)
        }
    }

    pub fn phase(&self) -> (r: TrackerPhase)
        ensures
            r == self@.phase,
    {
        self.phase
    }

    /// The tracked window, while it is present.
    pub fn target(&self) -> (r: Option<TrackedWindow>)
        ensures
            r == self@.target,
    {
        self.target
    }

    /// Whether the polling timer is meant to run.
    pub fn polling(&self) -> (r: bool)
        ensures
            r == self@.polling,
    {
        self.polling
    }

    /// The known processes of the tree, in order of discovery.
    pub fn known_process_ids(&self) -> (r: Vec<u32>)
        ensures
            r@ == self@.known,
    {
        self.known_process_ids.ids()
    }
    /// Whether the tracked window is visible, given what the windowing
    /// system says of it: never without a tracked window.
    pub fn window_visible(&self, os_visible: bool) -> (r: bool)
        ensures
            r == (self@.target is Some && os_visible),
    {
        self.target.is_some() && os_visible
    }

    /// The command that makes the tracked window visible or hidden, given
    /// its current visibility and placement; none where it is there
    /// already or no window is tracked.
    pub fn set_window_visible(
        &self,
        new_visible: bool,
        currently_visible: bool,
        placement: WindowPlacement,
    ) -> (r: Option<ShowCommand>)
        ensures
            self@.target is None ==> r is None,
            self@.target is Some ==> r == show_command(new_visible, currently_visible, placement),
    {
        if self.target.is_none() {
            return None;
        }
        show_command_for(new_visible, currently_visible, placement)
    }

    /// The command that flips the tracked window's visibility.
    pub fn toggle_window_visible(&self, currently_visible: bool, placement: WindowPlacement) -> (r:
        Option<ShowCommand>)
        ensures
            self@.target is None ==> r is None,
            self@.target is Some ==> r == show_command(
                !currently_visible,
                currently_visible,
                placement,
            ),
    {
        self.set_window_visible(!currently_visible, currently_visible, placement)
    }

    /// The tracked window's title, from the host's query of it.
    pub fn window_title(&self, query: &TitleQuery) -> (r: Result<String, TitleError>)
        ensures
            self@.target is None ==> r == Err::<String, TitleError>(
                TitleError::InvalidWindowHandle,
            ),
            self@.target is Some ==> match (r, title_result(*query)) {
                (Ok(s), Ok(t)) => s@ == t,
                (Err(e), Err(f)) => e == f,
                _ => false,
            },
    {
        if self.target.is_none() {
            return Err(TitleError::InvalidWindowHandle);
        }
        title_from_query(query)
    }

    /// The executable path of the tracked window's process, once resolved.
    pub fn window_exe_path(&self) -> (r: Option<String>)
        ensures
            match r {
                Some(p) => self@.exe_path == Some(p@),
                None => self@.exe_path is None,
            },
    {
        match &self.window_exe_path {
            Some(p) => Some(p.clone()),
            None => None,
        }
    }

    /// Caches the resolved executable path; the first one resolved stays.
    pub fn set_window_exe_path(&mut self, path: String)
        requires
            old(self).wf(),
        ensures
            final(self).wf(),
            final(self)@ == (TrackerView {
                exe_path: if old(self)@.exe_path is None {
                    Some(path@)
                } else {
                    old(self)@.exe_path
                },
                ..old(self)@
            }),
    {
        if self.window_exe_path.is_none() {
            self.window_exe_path = Some(path);
        }
    }

    /// The icon messages to post to the tracked window: the small icon
    /// (`ICON_SMALL`, 0), then the large one (`ICON_BIG`, 1); none
    /// without a tracked window.
    pub fn set_icon(&self, small_hicon: isize, large_hicon: isize) -> (r: Vec<(usize, isize)>)
        ensures
            self@.target is None ==> r@.len() == 0,
            self@.target is Some ==> r@ == seq![(0usize, small_hicon), (1usize, large_hicon)],
    {
        let mut r: Vec<(usize, isize)> = Vec::new();
        if self.target.is_some() {
            r.push((0, small_hicon));
            r.push((1, large_hicon));
        }
        r
    }

    /// The window to post a close request to: the tracked one. Its
    /// destruction event, not the request, confirms that it closed.
    pub fn close_window(&self) -> (r: Option<isize>)
        ensures
            match self@.target {
                Some(t) => r == Some(t.hwnd),
                None => r is None,
            },
    {
        match self.target {
            Some(t) => Some(t.hwnd),
            None => None,
        }
    }
}

} // verus!

verus! {

/// The tracker's known processes only grow: no step drops or reorders
/// one, and each process that a tick adds was listed with a parent known
/// before it.
pub proof fn lemma_known_processes_grow(
    v: TrackerView,
    snapshot: Seq<ProcessEntry>,
    ws: Seq<TopLevelWindow>,
    elapsed_ms: u64,
    ev: WinEvent,
    class_name: Seq<u16>,
    owner_process_id: u32,
    owner_thread_id: u32,
    narrow_bound: bool,
)
    requires
        view_wf(v),
    ensures
        ({
            let after = poll_view(v, snapshot, ws, elapsed_ms).known;
            &&& after.len() >= v.known.len()
            &&& after.take(v.known.len() as int) == v.known
            &&& after == v.known + poll_new_ids(v, snapshot)
            &&& forall|i: int|
                v.known.len() <= i < after.len() ==> #[trigger] has_earlier_parent(
                    after,
                    snapshot,
                    i,
                )
        }),
        event_view(v, ev, class_name, owner_process_id, owner_thread_id).known == v.known,
        finish_view(v, narrow_bound).known == v.known,
{
    lemma_grow_appends_after_parents(v.known, snapshot);
    if poll_active(v) {
        let g = grown(v.known, snapshot);
        assert(g =~= g.take(v.known.len() as int) + g.skip(v.known.len() as int));
    } else {
        assert(v.known + Seq::<u32>::empty() =~= v.known);
        assert(v.known.take(v.known.len() as int) =~= v.known);
    }
}

/// A step that moves the tracker from waiting to binding: the discovery
/// transition.
pub open spec fn discovers(before: TrackerView, after: TrackerView) -> bool {
    before.phase == TrackerPhase::WaitingForProcess && after.phase == TrackerPhase::Binding
}

/// When a polling tick and a show event both discover the window, in
/// either order, exactly one of them effects the discovery transition; in
/// no order do both.
pub proof fn lemma_single_discovery(
    v: TrackerView,
    ev: WinEvent,
    class_name: Seq<u16>,
    owner_process_id: u32,
    owner_thread_id: u32,
    snapshot: Seq<ProcessEntry>,
    ws: Seq<TopLevelWindow>,
    elapsed_ms: u64,
)
    requires
        view_wf(v),
    ensures
        ({
            let e1 = event_view(v, ev, class_name, owner_process_id, owner_thread_id);
            let p2 = poll_view(e1, snapshot, ws, elapsed_ms);
            &&& !(discovers(v, e1) && discovers(e1, p2))
            &&& (event_discovers(v, ev) || poll_found(v, snapshot, ws)) ==> (discovers(v, e1)
                || discovers(e1, p2))
        }),
        ({
            let p1 = poll_view(v, snapshot, ws, elapsed_ms);
            let e2 = event_view(p1, ev, class_name, owner_process_id, owner_thread_id);
            &&& !(discovers(v, p1) && discovers(p1, e2))
            &&& (event_discovers(v, ev) && poll_found(v, snapshot, ws)) ==> (discovers(v, p1)
                || discovers(p1, e2))
        }),
{
}

/// A destruction event for the tracked window ends tracking with one
/// `Destroyed`; afterwards every event is ignored and changes nothing, and
/// polling stays off.
pub proof fn lemma_destroyed_once(
    v: TrackerView,
    ev: WinEvent,
    class_name: Seq<u16>,
    owner_process_id: u32,
    owner_thread_id: u32,
    later: WinEvent,
    later_class_name: Seq<u16>,
    later_owner_process_id: u32,
    later_owner_thread_id: u32,
)
    requires
        view_wf(v),
        v.phase == TrackerPhase::WindowFound,
        ev.event_id == EVENT_OBJECT_DESTROY,
        ev.spec_is_window_itself(),
        ev.hwnd == v.target->0.hwnd,
    ensures
        ({
            let d = event_view(v, ev, class_name, owner_process_id, owner_thread_id);
            &&& event_out(v, ev) == Some(ForeignWindowEvent::Destroyed)
            &&& d.phase == TrackerPhase::Destroyed
            &&& d.target is None
            &&& view_wf(d)
            &&& event_out(d, later) is None
            &&& event_view(d, later, later_class_name, later_owner_process_id, later_owner_thread_id)
                == d
            &&& !poll_active(d)
        }),
{
}

/// With no matching window, a tick reports the timeout exactly when more
/// than `TIMEOUT_MILLIS` have passed, and then stops polling; every later
/// tick reports nothing and stops nothing.
pub proof fn lemma_timeout_once(
    v: TrackerView,
    snapshot: Seq<ProcessEntry>,
    ws: Seq<TopLevelWindow>,
    elapsed_ms: u64,
    later_snapshot: Seq<ProcessEntry>,
    later_ws: Seq<TopLevelWindow>,
    later_elapsed_ms: u64,
)
    requires
        view_wf(v),
        poll_active(v),
        !has_candidate(ws, poll_new_ids(v, snapshot), v.window_class),
    ensures
        poll_timed_out(v, snapshot, ws, elapsed_ms) <==> elapsed_ms > TIMEOUT_MILLIS,
        elapsed_ms <= TIMEOUT_MILLIS ==> poll_active(poll_view(v, snapshot, ws, elapsed_ms)),
        elapsed_ms > TIMEOUT_MILLIS ==> ({
            let after = poll_view(v, snapshot, ws, elapsed_ms);
            &&& !poll_active(after)
            &&& !poll_found(after, later_snapshot, later_ws)
            &&& !poll_timed_out(after, later_snapshot, later_ws, later_elapsed_ms)
            &&& poll_view(after, later_snapshot, later_ws, later_elapsed_ms) == after
        }),
{
}

} // verus!
