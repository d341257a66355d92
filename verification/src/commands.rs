//! The command vocabulary: a single tagged union enumerating every external
//! command the engine accepts, together with the small enums its payloads
//! use. One command arrives per line of the inbound IPC stream; the
//! unverified shell decodes the line and hands the engine a `SocketMessage`.

use vstd::prelude::*;
use crate::rect::Rect;
use crate::ring::CycleDirection;

verus! {

/// A spatial direction carried by focus/move/stack commands. The engine
/// folds it onto ring order: `Left`/`Up` step to the previous slot,
/// `Right`/`Down` to the next, wrapping at both ends.
#[derive(Clone, Copy, Debug, PartialEq, Eq, Structural)]
pub enum OperationDirection {
    Left,
    Right,
    Up,
    Down,
}

impl OperationDirection {
    /// The ring direction this spatial direction folds onto.
    pub open spec fn spec_cycle_direction(self) -> CycleDirection {
        match self {
            OperationDirection::Left => CycleDirection::Previous,
            OperationDirection::Up => CycleDirection::Previous,
            OperationDirection::Right => CycleDirection::Next,
            OperationDirection::Down => CycleDirection::Next,
        }
    }

    pub fn cycle_direction(self) -> (r: CycleDirection)
        ensures
            r == self.spec_cycle_direction(),
    {
        match self {
            OperationDirection::Left => CycleDirection::Previous,
            OperationDirection::Up => CycleDirection::Previous,
            OperationDirection::Right => CycleDirection::Next,
            OperationDirection::Down => CycleDirection::Next,
        }
    }
}

/// Whether an adjustment grows or shrinks its subject.
#[derive(Clone, Copy, Debug, PartialEq, Eq, Structural)]
pub enum Sizing {
    Increase,
    Decrease,
}

/// Predefined tiling layouts.
#[derive(Clone, Copy, Debug, PartialEq, Eq, Structural)]
pub enum Layout {
    Bsp,
    Columns,
    Rows,
    VerticalStack,
    HorizontalStack,
    UltrawideVerticalStack,
}

/// Mirror axes for flipping a layout.
#[derive(Clone, Copy, Debug, PartialEq, Eq, Structural)]
pub enum LayoutFlip {
    Horizontal,
    Vertical,
    HorizontalAndVertical,
}

/// Which classifying identifier of a window a rule matches against.
#[derive(Clone, Copy, Debug, PartialEq, Eq, Structural)]
pub enum ApplicationIdentifier {
    Exe,
    Class,
    Title,
}

/// The two mutually exclusive focus-follows-mouse implementations.
#[derive(Clone, Copy, Debug, PartialEq, Eq, Structural)]
pub enum FocusFollowsMouseImplementation {
    /// The engine's own implementation (requires the capability flag).
    Komorebi,
    /// The implementation native to the OS.
    Windows,
}

/// What a `Query` command asks for.
#[derive(Clone, Copy, Debug, PartialEq, Eq, Structural)]
pub enum StateQuery {
    FocusedMonitorIndex,
    FocusedWorkspaceIndex,
    FocusedContainerIndex,
    FocusedWindowIndex,
}

/// Every external command. Paths are carried as plain strings; the shell
/// resolves them against the filesystem.
#[derive(Clone, Debug)]
pub enum SocketMessage {
    FocusWindow(OperationDirection),
    MoveWindow(OperationDirection),
    CycleFocusWindow(CycleDirection),
    CycleMoveWindow(CycleDirection),
    StackWindow(OperationDirection),
    UnstackWindow,
    CycleStack(CycleDirection),
    Promote,
    ToggleFloat,
    ToggleMonocle,
    ToggleMaximize,
    TogglePause,
    ToggleTiling,
    ToggleMouseFollowsFocus,
    ContainerPadding(usize, usize, i32),
    WorkspacePadding(usize, usize, i32),
    AdjustContainerPadding(Sizing, i32),
    AdjustWorkspacePadding(Sizing, i32),
    WorkspaceRule(ApplicationIdentifier, String, usize, usize),
    ManageRule(ApplicationIdentifier, String),
    FloatRule(ApplicationIdentifier, String),
    IdentifyBorderOverflow(ApplicationIdentifier, String),
    IdentifyTrayApplication(ApplicationIdentifier, String),
    MoveContainerToWorkspaceNumber(usize),
    MoveContainerToMonitorNumber(usize),
    SendContainerToWorkspaceNumber(usize),
    SendContainerToMonitorNumber(usize),
    CycleFocusMonitor(CycleDirection),
    FocusMonitorNumber(usize),
    CycleFocusWorkspace(CycleDirection),
    FocusWorkspaceNumber(usize),
    Retile,
    FlipLayout(LayoutFlip),
    ChangeLayout(Layout),
    ChangeLayoutCustom(String),
    WorkspaceLayout(usize, usize, Layout),
    WorkspaceLayoutCustom(usize, usize, String),
    WorkspaceTiling(usize, usize, bool),
    EnsureWorkspaces(usize, usize),
    NewWorkspace,
    WorkspaceName(usize, usize, String),
    ResizeWindow(OperationDirection, Sizing),
    InvisibleBorders(Rect),
    WorkAreaOffset(Rect),
    FocusFollowsMouse(FocusFollowsMouseImplementation, bool),
    ToggleFocusFollowsMouse(FocusFollowsMouseImplementation),
    ManageFocusedWindow,
    UnmanageFocusedWindow,
    QuickSave,
    QuickLoad,
    Save(String),
    Load(String),
    State,
    Query(StateQuery),
    AddSubscriber(String),
    RemoveSubscriber(String),
    ReloadConfiguration,
    WatchConfiguration(bool),
    Stop,
}

impl SocketMessage {
    /// The commands that are still honored while the engine is paused.
    pub open spec fn honored_while_paused(self) -> bool {
        ||| self is TogglePause
        ||| self is State
        ||| self is Stop
    }

    /// Introspection commands answer on the response socket and emit no
    /// state-change notification.
    pub open spec fn is_introspection(self) -> bool {
        ||| self is State
        ||| self is Query
    }
}

} // verus!
