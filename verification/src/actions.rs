//! What the engine asks the unverified shell to do, and what the shell
//! tells the engine about the outside world. The processor is a pure
//! decision function: it mutates the model and returns a list of actions;
//! the shell performs them (OS calls, file writes, socket responses) after
//! the call returns.

use vstd::prelude::*;
use crate::model::Window;
use crate::rect::Point;
use crate::rect::Rect;

verus! {

/// One side effect for the shell to perform, in order. Window geometry is
/// not modeled here: the shell computes layout rectangles from the updated
/// model snapshot after each command.
#[derive(Clone, Debug, PartialEq)]
pub enum Action {
    /// Restore a window to visibility.
    Show(u64),
    /// Maximize a window.
    Maximize(u64),
    /// Restore a maximized window.
    Restore(u64),
    /// Turn the OS-native focus-follows-mouse implementation on.
    EnableOsFocusFollowsMouse,
    /// Turn the OS-native focus-follows-mouse implementation off.
    DisableOsFocusFollowsMouse,
    /// Write the resize-delta sequence to the fixed quicksave file.
    PersistQuicksave(Vec<Option<Rect>>),
    /// Write the resize-delta sequence to a caller-supplied path.
    PersistSave(String, Vec<Option<Rect>>),
    /// Serialize the full state snapshot to the response socket.
    RespondState,
    /// Write a decimal integer to the response socket.
    RespondQuery(usize),
    /// Re-read the configuration.
    ReloadConfiguration,
    /// Start or stop watching the configuration for changes.
    WatchConfiguration(bool),
    /// Terminate the process with exit code 0.
    Exit,
}

/// Actions that do not change the OS focus-follows-mouse setting.
pub open spec fn benign_ffm_action(a: Action) -> bool {
    &&& !(a is EnableOsFocusFollowsMouse)
    &&& !(a is DisableOsFocusFollowsMouse)
}

/// What the OS focus-follows-mouse setting will report after the shell has
/// performed `s`, if it reported `os0` before.
pub open spec fn os_ffm_after(os0: bool, s: Seq<Action>) -> bool
    decreases s.len(),
{
    if s.len() == 0 {
        os0
    } else if s.last() is EnableOsFocusFollowsMouse {
        true
    } else if s.last() is DisableOsFocusFollowsMouse {
        false
    } else {
        os_ffm_after(os0, s.drop_last())
    }
}

/// A run of actions that never touches the OS setting leaves it alone.
pub proof fn lemma_os_ffm_after_benign(os0: bool, s: Seq<Action>)
    requires
        forall|i: int| 0 <= i < s.len() ==> benign_ffm_action(s[i]),
    ensures
        os_ffm_after(os0, s) == os0,
    decreases s.len(),
{
    if s.len() > 0 {
        lemma_os_ffm_after_benign(os0, s.drop_last());
    }
}

/// Environmental inputs the shell gathers before a command is processed:
/// what the OS reports, and anything the command will need that only I/O
/// can supply (pre-read file contents, a pre-connected pipe, the window
/// under the OS focus).
pub struct ExternalContext {
    /// Whether the OS-native focus-follows-mouse implementation reports
    /// itself enabled.
    pub os_focus_follows_mouse_enabled: bool,
    /// The cursor position, if the OS could supply one.
    pub cursor_pos: Option<Point>,
    /// The parsed contents of the quicksave/load file, for the load
    /// commands; `None` when the file is missing or unreadable.
    pub loaded_resize: Option<Vec<Option<Rect>>>,
    /// A handle token for the subscriber pipe the shell pre-connected, for
    /// `AddSubscriber`; `None` when the pipe does not exist yet.
    pub pipe_handle: Option<u64>,
    /// The window the OS reports as focused, for `ManageFocusedWindow`.
    pub focused_os_window: Option<Window>,
}

impl ExternalContext {
    /// A context reporting nothing: no cursor, no file, no pipe, no window.
    pub fn empty(os_ffm: bool) -> (r: ExternalContext)
        ensures
            r.os_focus_follows_mouse_enabled == os_ffm,
            r.cursor_pos is None,
            r.loaded_resize is None,
            r.pipe_handle is None,
            r.focused_os_window is None,
    {
        ExternalContext {
            os_focus_follows_mouse_enabled: os_ffm,
            cursor_pos: None,
            loaded_resize: None,
            pipe_handle: None,
            focused_os_window: None,
        }
    }
}

/// What one processed command hands back to the listener loop.
#[derive(Debug)]
pub struct ProcessOutcome {
    /// Side effects to perform, in order.
    pub actions: Vec<Action>,
    /// Whether a state-change notification is owed to the subscribers.
    pub notify: bool,
}

} // verus!
