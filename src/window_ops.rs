//! The decisions behind the operations on the tracked window: which show
//! command changes its visibility, how a title query is read, and how the
//! executable path query grows its buffer.
use vstd::prelude::*;
use crate::text::{lossy_utf16_of, text_of_prefix};

verus! {

/// `showCmd` of a window placement for a minimized window.
pub const SW_SHOWMINIMIZED: u32 = 2;
/// Placement flag: a minimized window is restored to maximized.
pub const WPF_RESTORETOMAXIMIZED: u32 = 0x0002;
/// The windowing system's error for an invalid window handle.
pub const ERROR_INVALID_WINDOW_HANDLE: u32 = 1400;
/// The windowing system's error for a buffer that is too small.
pub const ERROR_INSUFFICIENT_BUFFER: u32 = 122;
/// Initial capacity, in UTF-16 units, of the executable path buffer.
pub const MAX_PATH: usize = 260;
/// How many times the executable path is queried at most.
pub const PATH_QUERY_ATTEMPTS: u32 = 8;

/// The placement of a window, as the windowing system reports it; all zero
/// where it could not be read.
#[derive(Clone, Copy, Debug, PartialEq, Eq, Default)]
pub struct WindowPlacement {
    pub show_cmd: u32,
    pub flags: u32,
}

/// A command that shows or hides a window.
#[derive(Clone, Copy, Debug, PartialEq, Eq)]
pub enum ShowCommand {
    Hide,
    /// Restore a minimized window that was maximized.
    ShowMaximized,
    /// Restore a minimized window to its normal placement.
    Restore,
    /// Show without changing the placement.
    Show,
}

impl ShowCommand {
    pub open spec fn spec_code(&self) -> i32 {
        match self {
            ShowCommand::Hide => 0,
            ShowCommand::ShowMaximized => 3,
            ShowCommand::Restore => 9,
            ShowCommand::Show => 5,
        }
    }

    /// The windowing system's number for the command.
    pub fn code(&self) -> (r: i32)
        ensures
            r == self.spec_code(),
    {
        match self {
            ShowCommand::Hide => 0,
            ShowCommand::ShowMaximized => 3,
            ShowCommand::Restore => 9,
            ShowCommand::Show => 5,
        }
    }
}

/// The command that brings a window from `currently_visible` to
/// `new_visible`, or none where it is there already. A minimized window is
/// restored to maximized or normal as its placement says; any other
/// hidden window is shown without a restore, which would undo an arranged
/// (snapped) placement.
pub open spec fn show_command(
    new_visible: bool,
    currently_visible: bool,
    placement: WindowPlacement,
) -> Option<ShowCommand> {
    if new_visible == currently_visible {
        None
    } else if currently_visible {
        Some(ShowCommand::Hide)
    } else if placement.show_cmd == SW_SHOWMINIMIZED {
        if restores_to_maximized(placement.flags) {
            Some(ShowCommand::ShowMaximized)
        } else {
            Some(ShowCommand::Restore)
        }
    } else {
        Some(ShowCommand::Show)
    }
}

/// The `WPF_RESTORETOMAXIMIZED` bit is set in placement flags.
pub open spec fn restores_to_maximized(flags: u32) -> bool {
    (flags / 2) % 2 == 1
}

/// Visibility after a command, or unchanged where there is none.
pub open spec fn visible_after(command: Option<ShowCommand>, before: bool) -> bool {
    match command {
        None => before,
        Some(ShowCommand::Hide) => false,
        Some(_) => true,
    }
}

pub fn show_command_for(new_visible: bool, currently_visible: bool, placement: WindowPlacement) -> (r:
    Option<ShowCommand>)
    ensures
        r == show_command(new_visible, currently_visible, placement),
{
    if new_visible == currently_visible {
        None
    } else if currently_visible {
        Some(ShowCommand::Hide)
    } else if placement.show_cmd == SW_SHOWMINIMIZED {
        let flags = placement.flags;
        assert(flags & 0x0002 != 0 <==> (flags / 2) % 2 == 1) by (bit_vector);
        if flags & WPF_RESTORETOMAXIMIZED != 0 {
            Some(ShowCommand::ShowMaximized)
        } else {
            Some(ShowCommand::Restore)
        }
    } else {
        Some(ShowCommand::Show)
    }
}

/// Showing a window that is visible does nothing, and two toggles in a
/// row, whatever the placements, bring the visibility back to where it
/// was.
pub proof fn lemma_toggle_twice(visible: bool, first: WindowPlacement, second: WindowPlacement)
    ensures
        show_command(true, true, first) is None,
        visible_after(
            show_command(
                !visible_after(show_command(!visible, visible, first), visible),
                visible_after(show_command(!visible, visible, first), visible),
                second,
            ),
            visible_after(show_command(!visible, visible, first), visible),
        ) == visible,
{
}

/// What the host read when it queried a window title: the length query's
/// result and the last error right after it (cleared before it), then the
/// copy into a buffer of `length + 1` units, the count of units copied and
/// the last error after it.
#[derive(Clone, Debug)]
pub struct TitleQuery {
    pub length: usize,
    pub length_error: u32,
    pub buffer: Vec<u16>,
    pub copied: usize,
    pub copy_error: u32,
}

/// Why a title could not be read.
#[derive(Clone, Copy, Debug, PartialEq, Eq)]
pub enum TitleError {
    /// There is no window to ask.
    InvalidWindowHandle,
    /// The windowing system reported this error code.
    Os(u32),
}

impl TitleError {
    /// The windowing system's error code.
    pub fn code(&self) -> (r: u32)
        ensures
            r == match self {
                TitleError::InvalidWindowHandle => ERROR_INVALID_WINDOW_HANDLE,
                TitleError::Os(c) => *c,
            },
    {
        match self {
            TitleError::InvalidWindowHandle => ERROR_INVALID_WINDOW_HANDLE,
            TitleError::Os(c) => *c,
        }
    }
}

/// The title that a query yields: a zero length is an empty title only
/// where no error was set; otherwise the copy must hold exactly `length`
/// units.
pub open spec fn title_result(q: TitleQuery) -> Result<Seq<char>, TitleError> {
    if q.length == 0 {
        if q.length_error == 0 {
            Ok(Seq::empty())
        } else {
            Err(TitleError::Os(q.length_error))
        }
    } else if q.copied == q.length && q.length <= q.buffer@.len() {
        Ok(lossy_utf16_of(q.buffer@.take(q.length as int)))
    } else {
        Err(TitleError::Os(q.copy_error))
    }
}

pub fn title_from_query(q: &TitleQuery) -> (r: Result<String, TitleError>)
    ensures
        match (r, title_result(*q)) {
            (Ok(s), Ok(t)) => s@ == t,
            (Err(e), Err(f)) => e == f,
            _ => false,
        },
{
    if q.length == 0 {
        if q.length_error == 0 {
            Ok(String::new())
        } else {
            Err(TitleError::Os(q.length_error))
        }
    } else if q.copied == q.length && q.length <= q.buffer.len() {
        Ok(text_of_prefix(&q.buffer, q.length))
    } else {
        Err(TitleError::Os(q.copy_error))
    }
}

/// What to do after one executable path query.
#[derive(Clone, Copy, Debug, PartialEq, Eq)]
pub enum PathStep {
    /// The path is in the buffer.
    Done,
    /// Query again with a buffer of this many units.
    Retry(usize),
    /// Give up with this error code.
    Fail(u32),
}

/// 2 to the power `n`.
pub open spec fn pow2(n: nat) -> nat
    decreases n,
{
    if n == 0 {
        1
    } else {
        2 * pow2((n - 1) as nat)
    }
}

/// The step after the query numbered `attempt` (from 0), which ended with
/// `error` (0 for success).
pub open spec fn path_step(attempt: nat, error: u32) -> PathStep {
    if error == 0 {
        PathStep::Done
    } else if error == ERROR_INSUFFICIENT_BUFFER && attempt + 1 < PATH_QUERY_ATTEMPTS {
        PathStep::Retry((MAX_PATH * pow2(attempt + 1)) as usize)
    } else {
        PathStep::Fail(error)
    }
}

/// The executable path query in progress: how many queries were made and
/// the buffer capacity for the next one, which doubles on each retry.
pub struct ExePathQuery {
    attempts: u32,
    capacity: usize,
}

impl ExePathQuery {
    pub closed spec fn spec_attempts(&self) -> nat {
        self.attempts as nat
    }

    pub closed spec fn spec_capacity(&self) -> nat {
        self.capacity as nat
    }

    pub open spec fn wf(&self) -> bool {
        self.spec_attempts() < PATH_QUERY_ATTEMPTS && self.spec_capacity() == MAX_PATH * pow2(
            self.spec_attempts(),
        )
    }

    pub fn new() -> (r: ExePathQuery)
        ensures
            r.wf(),
            r.spec_attempts() == 0,
            r.spec_capacity() == MAX_PATH,
    {
        ExePathQuery { attempts: 0, capacity: MAX_PATH }
    }

    /// The buffer capacity, in UTF-16 units, for the next query.
    pub fn capacity(&self) -> (r: usize)
        ensures
            r == self.spec_capacity(),
    {
        self.capacity
    }

    /// Records the error code of a query (0 for success) and says what
    /// comes next: done, a retry with twice the capacity after a too small
    /// buffer, or failure with the error; a too small buffer at the last
    /// attempt fails with it.
    pub fn record(&mut self, error: u32) -> (r: PathStep)
        requires
            old(self).wf(),
        ensures
            r == path_step(old(self).spec_attempts(), error),
            r is Retry ==> final(self).wf() && final(self).spec_attempts() == old(
                self,
            ).spec_attempts() + 1 && final(self).spec_capacity() == 2 * old(self).spec_capacity()
                && r == PathStep::Retry(final(self).spec_capacity() as usize),
            !(r is Retry) ==> *final(self) == *old(self),
    {
        if error == 0 {
            return PathStep::Done;
        }
        if error == ERROR_INSUFFICIENT_BUFFER && self.attempts + 1 < PATH_QUERY_ATTEMPTS {
            proof {
                lemma_capacity_bound(self.attempts as nat);
            }
            self.attempts = self.attempts + 1;
            self.capacity = self.capacity * 2;
            PathStep::Retry(self.capacity)
        } else {
            PathStep::Fail(error)
        }
    }
}

proof fn lemma_capacity_bound(a: nat)
    requires
        a < PATH_QUERY_ATTEMPTS,
    ensures
        pow2(a) <= 128,
        pow2(a + 1) == 2 * pow2(a),
{
    reveal_with_fuel(pow2, 9);
    assert(a == 0 || a == 1 || a == 2 || a == 3 || a == 4 || a == 5 || a == 6 || a == 7);
}

/// Each too small buffer doubles the capacity, from `MAX_PATH`, until the
/// eighth attempt; a too small buffer then ends the query with an error.
pub proof fn lemma_path_query_doubles(attempt: nat)
    requires
        attempt < PATH_QUERY_ATTEMPTS,
    ensures
        attempt + 1 < PATH_QUERY_ATTEMPTS ==> path_step(attempt, ERROR_INSUFFICIENT_BUFFER)
            == PathStep::Retry((MAX_PATH * pow2(attempt + 1)) as usize),
        attempt + 1 == PATH_QUERY_ATTEMPTS ==> path_step(attempt, ERROR_INSUFFICIENT_BUFFER)
            == PathStep::Fail(ERROR_INSUFFICIENT_BUFFER),
        pow2(attempt + 1) == 2 * pow2(attempt),
{
    lemma_capacity_bound(attempt);
}

} // verus!
