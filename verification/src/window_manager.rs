//! The command processor: a single-writer state machine over the monitor
//! tree. `process_command` is invoked with exclusive access to the state;
//! it validates the command, mutates the model, and returns the side
//! effects the shell must perform, in order.

use vstd::prelude::*;
use crate::actions::benign_ffm_action;
use crate::actions::lemma_os_ffm_after_benign;
use crate::actions::os_ffm_after;
use crate::actions::Action;
use crate::actions::ExternalContext;
use crate::actions::ProcessOutcome;
use crate::commands::FocusFollowsMouseImplementation;
use crate::commands::LayoutFlip;
use crate::commands::Sizing;
use crate::commands::SocketMessage;
use crate::commands::StateQuery;
use crate::errors::WmError;
use crate::model::same_monitor_shell;
use crate::model::same_workspace_config;
use crate::model::spec_adjust_delta;
use crate::model::Container;
use crate::model::Monitor;
use crate::model::Window;
use crate::model::Workspace;
use crate::model::spec_normalize_deltas;
use crate::rect::delta_bounded;
use crate::rect::Point;
use crate::rect::Rect;
use crate::rect::PADDING_LIMIT;
use crate::ring::next_idx;
use crate::ring::spec_next_idx;
use crate::ring::CycleDirection;
use crate::rules::insert_identifier;
use crate::rules::insert_unique_spec;
use crate::rules::RuleTables;
use crate::subscribers::spec_remove_subscriber;
use crate::subscribers::SubscriberRegistry;

verus! {

/// The focus-follows-mouse field never names the implementation the OS
/// reports as inactive's opposite: while the OS-native implementation is
/// enabled the engine's own one is never recorded, and vice versa.
pub open spec fn spec_ffm_consistent(
    ffm: Option<FocusFollowsMouseImplementation>,
    os_enabled: bool,
) -> bool {
    &&& os_enabled ==> ffm != Some(FocusFollowsMouseImplementation::Komorebi)
    &&& !os_enabled ==> ffm != Some(FocusFollowsMouseImplementation::Windows)
}


/// The processor's result with its payload stripped, for comparing against
/// the unit results of its sub-operations.
pub open spec fn strip_outcome(r: Result<ProcessOutcome, WmError>) -> Result<(), WmError> {
    match r {
        Ok(_) => Ok(()),
        Err(e) => Err(e),
    }
}

/// The index of the first monitor whose rectangle contains `p`.
pub open spec fn spec_monitor_from_point(monitors: Seq<Monitor>, p: Point) -> Option<int>
    decreases monitors.len(),
{
    if monitors.len() == 0 {
        None
    } else if monitors[0].size.spec_contains(p) {
        Some(0int)
    } else {
        match spec_monitor_from_point(monitors.skip(1), p) {
            Some(i) => Some(i + 1),
            None => None,
        }
    }
}

/// The first-match index is the one before which nothing matches.
pub proof fn lemma_monitor_from_point_first(s: Seq<Monitor>, p: Point, i: int)
    requires
        0 <= i < s.len(),
        s[i].size.spec_contains(p),
        forall|j: int| 0 <= j < i ==> !s[j].size.spec_contains(p),
    ensures
        spec_monitor_from_point(s, p) == Some(i),
    decreases i,
{
    if i == 0 {
    } else {
        assert(!s[0].size.spec_contains(p));
        assert(s.skip(1)[i - 1] == s[i]);
        assert forall|j: int| 0 <= j < i - 1 implies !s.skip(1)[j].size.spec_contains(p) by {
            assert(s.skip(1)[j] == s[j + 1]);
        }
        lemma_monitor_from_point_first(s.skip(1), p, i - 1);
    }
}

/// When no monitor contains the point there is no first match.
pub proof fn lemma_monitor_from_point_none(s: Seq<Monitor>, p: Point)
    requires
        forall|j: int| 0 <= j < s.len() ==> !s[j].size.spec_contains(p),
    ensures
        spec_monitor_from_point(s, p) is None,
    decreases s.len(),
{
    if s.len() > 0 {
        assert forall|j: int| 0 <= j < s.skip(1).len() implies !s.skip(
            1,
        )[j].size.spec_contains(p) by {
            assert(s.skip(1)[j] == s[j + 1]);
        }
        lemma_monitor_from_point_none(s.skip(1), p);
    }
}

/// The answer a `Query` command is owed: the focused index of the queried
/// level, or the error when the queried entity does not exist.
pub open spec fn spec_query_response(wm: WindowManager, q: StateQuery) -> Result<usize, WmError> {
    match q {
        StateQuery::FocusedMonitorIndex => Ok(wm.focused_monitor_idx),
        StateQuery::FocusedWorkspaceIndex => Ok(
            wm.monitors@[wm.focused_monitor_idx as int].focused_workspace_idx,
        ),
        StateQuery::FocusedContainerIndex => Ok(wm.spec_focused_workspace().focused_container_idx),
        StateQuery::FocusedWindowIndex => {
            let ws = wm.spec_focused_workspace();
            if ws.containers@.len() == 0 {
                Err(WmError::NoContainer)
            } else {
                Ok(ws.containers@[ws.focused_container_idx as int].focused_window_idx)
            }
        },
    }
}

/// How a command that operates on the focused workspace transforms it:
/// exactly the contract of the corresponding workspace operation. Commands
/// outside this family place no constraint here.
pub open spec fn focused_ws_transition(
    message: SocketMessage,
    ws0: Workspace,
    ws1: Workspace,
    r: Result<(), WmError>,
) -> bool {
    match message {
        SocketMessage::FocusWindow(d) => if ws0.containers@.len() == 0 {
            r == Err::<(), WmError>(WmError::NoContainer)
        } else {
            r == Ok::<(), WmError>(()) && ws1 == (Workspace {
                focused_container_idx: spec_next_idx(
                    d.spec_cycle_direction(),
                    ws0.focused_container_idx as nat,
                    ws0.containers@.len(),
                ) as usize,
                ..ws0
            })
        },
        SocketMessage::CycleFocusWindow(d) => if ws0.containers@.len() == 0 {
            r == Err::<(), WmError>(WmError::NoContainer)
        } else {
            r == Ok::<(), WmError>(()) && ws1 == (Workspace {
                focused_container_idx: spec_next_idx(
                    d,
                    ws0.focused_container_idx as nat,
                    ws0.containers@.len(),
                ) as usize,
                ..ws0
            })
        },
        SocketMessage::MoveWindow(d) => spec_swapped_containers(
            ws0,
            ws1,
            r,
            d.spec_cycle_direction(),
        ),
        SocketMessage::CycleMoveWindow(d) => spec_swapped_containers(ws0, ws1, r, d),
        SocketMessage::CycleStack(d) => if ws0.containers@.len() == 0 {
            r == Err::<(), WmError>(WmError::NoContainer)
        } else if ws0.containers@[ws0.focused_container_idx as int].windows@.len() == 0 {
            r == Err::<(), WmError>(WmError::NoWindow)
        } else {
            let fci = ws0.focused_container_idx as int;
            let c = ws0.containers@[fci];
            &&& r == Ok::<(), WmError>(())
            &&& ws1.containers@ == ws0.containers@.update(
                fci,
                Container {
                    focused_window_idx: spec_next_idx(
                        d,
                        c.focused_window_idx as nat,
                        c.windows@.len(),
                    ) as usize,
                    ..c
                },
            )
            &&& ws1.focused_container_idx == ws0.focused_container_idx
            &&& same_workspace_config(ws0, ws1)
        },
        SocketMessage::StackWindow(d) => if ws0.containers@.len() < 2 {
            r == Err::<(), WmError>(WmError::NoContainer)
        } else if ws0.containers@[ws0.focused_container_idx as int].windows@.len() == 0 {
            r == Err::<(), WmError>(WmError::NoWindow)
        } else {
            let fci = ws0.focused_container_idx as int;
            let src = ws0.containers@[fci];
            let w = src.windows@[src.focused_window_idx as int];
            let tgt = spec_next_idx(
                d.spec_cycle_direction(),
                ws0.focused_container_idx as nat,
                ws0.containers@.len(),
            ) as int;
            &&& r == Ok::<(), WmError>(())
            &&& ws1.containers@[ws1.focused_container_idx as int].windows@
                == ws0.containers@[tgt].windows@.push(w)
            &&& (src.windows@.len() == 1 ==> ws1.containers@.len() == ws0.containers@.len() - 1)
            &&& (src.windows@.len() > 1 ==> ws1.containers@.len() == ws0.containers@.len()
                && ws1.containers@[fci].windows@ == src.windows@.remove(
                src.focused_window_idx as int,
            ))
            &&& same_workspace_config(ws0, ws1)
        },
        SocketMessage::UnstackWindow => if ws0.containers@.len() == 0 {
            r == Err::<(), WmError>(WmError::NoContainer)
        } else if ws0.containers@[ws0.focused_container_idx as int].windows@.len() == 0 {
            r == Err::<(), WmError>(WmError::NoWindow)
        } else if ws0.containers@[ws0.focused_container_idx as int].windows@.len() == 1 {
            r == Err::<(), WmError>(WmError::SingleWindow)
        } else {
            let fci = ws0.focused_container_idx as int;
            let src = ws0.containers@[fci];
            let w = src.windows@[src.focused_window_idx as int];
            &&& r == Ok::<(), WmError>(())
            &&& ws1.containers@.len() == ws0.containers@.len() + 1
            &&& ws1.containers@[fci].windows@ == src.windows@.remove(
                src.focused_window_idx as int,
            )
            &&& ws1.containers@[fci + 1].windows@ == Seq::<Window>::empty().push(w)
            &&& ws1.focused_container_idx == fci + 1
            &&& same_workspace_config(ws0, ws1)
        },
        SocketMessage::Promote => if ws0.containers@.len() == 0 {
            r == Err::<(), WmError>(WmError::NoContainer)
        } else {
            let fci = ws0.focused_container_idx as int;
            &&& r == Ok::<(), WmError>(())
            &&& ws1.containers@ == seq![ws0.containers@[fci]] + ws0.containers@.remove(fci)
            &&& ws1.resize_dimensions@ == seq![ws0.resize_dimensions@[fci]]
                + ws0.resize_dimensions@.remove(fci)
            &&& ws1.focused_container_idx == 0
            &&& same_workspace_config(ws0, ws1)
        },
        SocketMessage::ToggleFloat => if ws0.containers@.len() == 0 {
            r == Err::<(), WmError>(WmError::NoContainer)
        } else {
            let fci = ws0.focused_container_idx as int;
            let c = ws0.containers@[fci];
            &&& r == Ok::<(), WmError>(())
            &&& ws1.containers@ == ws0.containers@.update(fci, Container { floating: !c.floating, ..c })
            &&& ws1.focused_container_idx == ws0.focused_container_idx
            &&& same_workspace_config(ws0, ws1)
        },
        SocketMessage::ToggleMonocle => if ws0.monocle_container_idx is None
            && ws0.containers@.len() == 0 {
            r == Err::<(), WmError>(WmError::NoContainer)
        } else if ws0.monocle_container_idx is None {
            r == Ok::<(), WmError>(()) && ws1 == (Workspace {
                monocle_container_idx: Some(ws0.focused_container_idx),
                ..ws0
            })
        } else {
            r == Ok::<(), WmError>(()) && ws1 == (Workspace {
                monocle_container_idx: None,
                ..ws0
            })
        },
        SocketMessage::ToggleMaximize => match ws0.maximized_window {
            Some(h) => r == Ok::<(), WmError>(()) && ws1 == (Workspace {
                maximized_window: None,
                ..ws0
            }),
            None => if ws0.containers@.len() == 0 {
                r == Err::<(), WmError>(WmError::NoContainer)
            } else if ws0.containers@[ws0.focused_container_idx as int].windows@.len() == 0 {
                r == Err::<(), WmError>(WmError::NoWindow)
            } else {
                let c = ws0.containers@[ws0.focused_container_idx as int];
                let h = c.windows@[c.focused_window_idx as int].hwnd;
                r == Ok::<(), WmError>(()) && ws1 == (Workspace {
                    maximized_window: Some(h),
                    ..ws0
                })
            },
        },
        SocketMessage::ResizeWindow(d, sz) => if ws0.containers@.len() == 0 {
            r == Err::<(), WmError>(WmError::NoContainer)
        } else {
            let fci = ws0.focused_container_idx as int;
            &&& r == Ok::<(), WmError>(())
            &&& ws1.resize_dimensions@ == ws0.resize_dimensions@.update(
                fci,
                Some(spec_adjust_delta(ws0.resize_dimensions@[fci], d, sz, 50)),
            )
            &&& ws1.containers@ == ws0.containers@
            &&& ws1.focused_container_idx == ws0.focused_container_idx
            &&& same_workspace_config(ws0, ws1)
        },
        SocketMessage::ToggleTiling => r == Ok::<(), WmError>(()) && ws1 == (Workspace {
            tile: !ws0.tile,
            ..ws0
        }),
        SocketMessage::AdjustContainerPadding(sz, adj) => r == Ok::<(), WmError>(()) && ws1 == (
        Workspace {
            container_padding: spec_adjust_padding(ws0.container_padding as int, sz, adj as int),
            ..ws0
        }),
        SocketMessage::AdjustWorkspacePadding(sz, adj) => r == Ok::<(), WmError>(()) && ws1 == (
        Workspace {
            workspace_padding: spec_adjust_padding(ws0.workspace_padding as int, sz, adj as int),
            ..ws0
        }),
        SocketMessage::FlipLayout(a) => r == Ok::<(), WmError>(()) && ws1 == (Workspace {
            layout_flip: spec_combine_flip(ws0.layout_flip, a),
            ..ws0
        }),
        SocketMessage::ChangeLayout(l) => r == Ok::<(), WmError>(()) && ws1 == (Workspace {
            layout: l,
            custom_layout: None,
            ..ws0
        }),
        SocketMessage::ChangeLayoutCustom(p) => r == Ok::<(), WmError>(()) && ws1 == (Workspace {
            custom_layout: Some(p),
            ..ws0
        }),
        SocketMessage::UnmanageFocusedWindow => if ws0.containers@.len() == 0 {
            r == Err::<(), WmError>(WmError::NoContainer)
        } else if ws0.containers@[ws0.focused_container_idx as int].windows@.len() == 0 {
            r == Err::<(), WmError>(WmError::NoWindow)
        } else {
            let fci = ws0.focused_container_idx as int;
            let c = ws0.containers@[fci];
            let fwi = c.focused_window_idx as int;
            &&& r == Ok::<(), WmError>(())
            &&& (c.windows@.len() == 1 ==> ws1.containers@ == ws0.containers@.remove(fci)
                && ws1.resize_dimensions@ == ws0.resize_dimensions@.remove(fci))
            &&& (c.windows@.len() > 1 ==> ws1.containers@.len() == ws0.containers@.len()
                && ws1.containers@[fci].windows@ == c.windows@.remove(fwi)
                && ws1.resize_dimensions@ == ws0.resize_dimensions@
                && ws1.focused_container_idx == ws0.focused_container_idx)
            &&& same_workspace_config(ws0, ws1)
        },
        _ => true,
    }
}

/// The focused container and its delta swapped with the ring neighbour.
pub open spec fn spec_swapped_containers(
    ws0: Workspace,
    ws1: Workspace,
    r: Result<(), WmError>,
    d: CycleDirection,
) -> bool {
    if ws0.containers@.len() == 0 {
        r == Err::<(), WmError>(WmError::NoContainer)
    } else {
        let src = ws0.focused_container_idx as int;
        let dst = spec_next_idx(d, ws0.focused_container_idx as nat, ws0.containers@.len()) as int;
        &&& r == Ok::<(), WmError>(())
        &&& ws1.focused_container_idx == dst
        &&& ws1.containers@ == ws0.containers@.update(src, ws0.containers@[dst]).update(
            dst,
            ws0.containers@[src],
        )
        &&& ws1.resize_dimensions@ == ws0.resize_dimensions@.update(
            src,
            ws0.resize_dimensions@[dst],
        ).update(dst, ws0.resize_dimensions@[src])
        &&& same_workspace_config(ws0, ws1)
    }
}

/// How a command addressed to workspace `w` of monitor `m` transforms the
/// state. Commands outside this family place no constraint here.
pub open spec fn targeted_ws_transition(
    message: SocketMessage,
    pre: WindowManager,
    post: WindowManager,
    r: Result<(), WmError>,
) -> bool {
    match message {
        SocketMessage::ContainerPadding(m, w, size) => targeted_field_set(
            pre,
            post,
            r,
            m,
            w,
            size < -PADDING_LIMIT || size > PADDING_LIMIT,
            (Workspace {
                container_padding: size,
                ..spec_ws_at(pre, m as int, w as int)
            }),
        ),
        SocketMessage::WorkspacePadding(m, w, size) => targeted_field_set(
            pre,
            post,
            r,
            m,
            w,
            size < -PADDING_LIMIT || size > PADDING_LIMIT,
            (Workspace {
                workspace_padding: size,
                ..spec_ws_at(pre, m as int, w as int)
            }),
        ),
        SocketMessage::WorkspaceName(m, w, name) => targeted_field_set(
            pre,
            post,
            r,
            m,
            w,
            false,
            (Workspace { name: Some(name), ..spec_ws_at(pre, m as int, w as int) }),
        ),
        SocketMessage::WorkspaceTiling(m, w, tile) => targeted_field_set(
            pre,
            post,
            r,
            m,
            w,
            false,
            (Workspace { tile: tile, ..spec_ws_at(pre, m as int, w as int) }),
        ),
        SocketMessage::WorkspaceLayout(m, w, layout) => targeted_field_set(
            pre,
            post,
            r,
            m,
            w,
            false,
            (Workspace {
                layout: layout,
                custom_layout: None,
                ..spec_ws_at(pre, m as int, w as int)
            }),
        ),
        SocketMessage::WorkspaceLayoutCustom(m, w, path) => targeted_field_set(
            pre,
            post,
            r,
            m,
            w,
            false,
            (Workspace {
                custom_layout: Some(path),
                ..spec_ws_at(pre, m as int, w as int)
            }),
        ),
        SocketMessage::EnsureWorkspaces(m, count) => if m >= pre.monitors@.len() {
            r == Err::<(), WmError>(WmError::NoMonitor) && post == pre
        } else {
            &&& r == Ok::<(), WmError>(())
            &&& WindowManager::frame_non_tree(pre, post)
            &&& post.monitors@.len() == pre.monitors@.len()
            &&& (forall|j: int|
                0 <= j < post.monitors@.len() && j != m ==> post.monitors@[j] == pre.monitors@[j])
            &&& post.monitors@[m as int].workspaces@.len() == if pre.monitors@[
                m as int
            ].workspaces@.len() >= count {
                pre.monitors@[m as int].workspaces@.len() as int
            } else {
                count as int
            }
            &&& (forall|k: int|
                0 <= k < pre.monitors@[m as int].workspaces@.len() ==> post.monitors@[
                    m as int
                ].workspaces@[k] == pre.monitors@[m as int].workspaces@[k])
            &&& post.monitors@[m as int].focused_workspace_idx == pre.monitors@[
                m as int
            ].focused_workspace_idx
        },
        _ => true,
    }
}

/// Workspace `w` of monitor `m`.
pub open spec fn spec_ws_at(wm: WindowManager, m: int, w: int) -> Workspace {
    wm.monitors@[m].workspaces@[w]
}

/// A single workspace field update at (m, w): out-of-range indices give the
/// matching error, a rejected value gives the geometry error, and otherwise
/// exactly that workspace becomes `ws1`.
pub open spec fn targeted_field_set(
    pre: WindowManager,
    post: WindowManager,
    r: Result<(), WmError>,
    m: usize,
    w: usize,
    rejected: bool,
    ws1: Workspace,
) -> bool {
    if m >= pre.monitors@.len() {
        r == Err::<(), WmError>(WmError::NoMonitor) && post == pre
    } else if w >= pre.monitors@[m as int].workspaces@.len() {
        r == Err::<(), WmError>(WmError::NoWorkspace) && post == pre
    } else if rejected {
        r == Err::<(), WmError>(WmError::GeometryOutOfRange) && post == pre
    } else {
        &&& r == Ok::<(), WmError>(())
        &&& only_ws_at_changed(pre, post, m as int, w as int)
        &&& spec_ws_at(post, m as int, w as int) == ws1
    }
}

/// `post` equals `pre` everywhere but (possibly) at workspace `w` of
/// monitor `m`.
pub open spec fn only_ws_at_changed(pre: WindowManager, post: WindowManager, m: int, w: int) -> bool {
    &&& WindowManager::frame_non_tree(pre, post)
    &&& post.monitors@.len() == pre.monitors@.len()
    &&& (forall|j: int|
        0 <= j < post.monitors@.len() && j != m ==> post.monitors@[j] == pre.monitors@[j])
    &&& same_monitor_shell(pre.monitors@[m], post.monitors@[m])
    &&& post.monitors@[m].focused_workspace_idx == pre.monitors@[m].focused_workspace_idx
    &&& post.monitors@[m].workspaces@.len() == pre.monitors@[m].workspaces@.len()
    &&& (forall|k: int|
        0 <= k < post.monitors@[m].workspaces@.len() && k != w ==> post.monitors@[m].workspaces@[k]
            == pre.monitors@[m].workspaces@[k])
}

/// `post` equals `pre` everywhere but (possibly) at the focused workspace.
pub open spec fn only_focused_ws_changed(pre: WindowManager, post: WindowManager) -> bool {
    only_ws_at_changed(
        pre,
        post,
        pre.focused_monitor_idx as int,
        pre.monitors@[pre.focused_monitor_idx as int].focused_workspace_idx as int,
    )
}

/// A managed window became a fresh container at the end of the focused
/// workspace, floating exactly when a float rule classifies it.
pub open spec fn spec_managed_window(
    ws0: Workspace,
    ws1: Workspace,
    w: Window,
    float_ids: Seq<String>,
) -> bool {
    let floating = exists|i: int| 0 <= i < float_ids.len() && w.spec_matches_id(float_ids[i]@);
    &&& ws1.containers@.len() == ws0.containers@.len() + 1
    &&& ws1.containers@[ws0.containers@.len() as int].windows@.len() == 1
    &&& ws1.containers@[ws0.containers@.len() as int].windows@[0].hwnd == w.hwnd
    &&& ws1.containers@[ws0.containers@.len() as int].windows@[0].exe@ == w.exe@
    &&& ws1.containers@[ws0.containers@.len() as int].windows@[0].class@ == w.class@
    &&& ws1.containers@[ws0.containers@.len() as int].windows@[0].title@ == w.title@
    &&& ws1.containers@[ws0.containers@.len() as int].floating == floating
    &&& (forall|c: int| 0 <= c < ws0.containers@.len() ==> ws1.containers@[c] == ws0.containers@[c])
    &&& ws1.resize_dimensions@ == ws0.resize_dimensions@.push(None)
    &&& ws1.focused_container_idx == ws0.containers@.len()
    &&& same_workspace_config(ws0, ws1)
}


/// The focused container relocated to workspace `target` on the focused
/// monitor; `follow` decides whether workspace focus moves with it.
pub open spec fn spec_moved_to_workspace(
    pre: WindowManager,
    post: WindowManager,
    r: Result<(), WmError>,
    target: usize,
    follow: bool,
) -> bool {
    let fmi = pre.focused_monitor_idx as int;
    let m0 = pre.monitors@[fmi];
    let fwi0 = m0.focused_workspace_idx;
    let src = m0.workspaces@[fwi0 as int];
    &&& (target == usize::MAX ==> r == Err::<(), WmError>(WmError::NoWorkspace) && post == pre)
    &&& (target != usize::MAX && target == fwi0 ==> r == Ok::<(), WmError>(()) && post == pre)
    &&& (target != usize::MAX && target != fwi0 && src.containers@.len() == 0 ==> r == Err::<
        (),
        WmError,
    >(WmError::NoContainer) && post == pre)
    &&& (target != usize::MAX && target != fwi0 && src.containers@.len() > 0 ==> {
        let fci = src.focused_container_idx as int;
        let tgt0 = if target < m0.workspaces@.len() {
            m0.workspaces@[target as int].containers@
        } else {
            Seq::empty()
        };
        let m1 = post.monitors@[fmi];
        &&& r == Ok::<(), WmError>(())
        &&& post.monitors@.len() == pre.monitors@.len()
        &&& (forall|j: int|
            0 <= j < post.monitors@.len() && j != fmi ==> post.monitors@[j] == pre.monitors@[j])
        &&& m1.workspaces@[target as int].containers@ == tgt0.push(src.containers@[fci])
        &&& m1.workspaces@[target as int].focused_container_idx == tgt0.len()
        &&& m1.workspaces@[fwi0 as int].containers@ == src.containers@.remove(fci)
        &&& m1.focused_workspace_idx == if follow {
            target as int
        } else {
            fwi0 as int
        }
        &&& post.focused_monitor_idx == pre.focused_monitor_idx
    })
}

/// The focused container relocated to the focused workspace of monitor
/// `target`; `follow` decides whether monitor focus moves with it.
pub open spec fn spec_moved_to_monitor(
    pre: WindowManager,
    post: WindowManager,
    r: Result<(), WmError>,
    target: usize,
    follow: bool,
) -> bool {
    let fmi = pre.focused_monitor_idx as int;
    let m0 = pre.monitors@[fmi];
    let fwi0 = m0.focused_workspace_idx;
    let src = m0.workspaces@[fwi0 as int];
    &&& (target >= pre.monitors@.len() ==> r == Err::<(), WmError>(WmError::NoMonitor) && post
        == pre)
    &&& (target < pre.monitors@.len() && target == fmi ==> r == Ok::<(), WmError>(()) && post
        == pre)
    &&& (target < pre.monitors@.len() && target != fmi && src.containers@.len() == 0 ==> r
        == Err::<(), WmError>(WmError::NoContainer) && post == pre)
    &&& (target < pre.monitors@.len() && target != fmi && src.containers@.len() > 0 ==> {
        let fci = src.focused_container_idx as int;
        let tm0 = pre.monitors@[target as int];
        let tws0 = tm0.workspaces@[tm0.focused_workspace_idx as int];
        &&& r == Ok::<(), WmError>(())
        &&& post.monitors@.len() == pre.monitors@.len()
        &&& (forall|j: int|
            0 <= j < post.monitors@.len() && j != fmi && j != target ==> post.monitors@[j]
                == pre.monitors@[j])
        &&& post.monitors@[target as int].workspaces@[tm0.focused_workspace_idx as int].containers@
            == tws0.containers@.push(src.containers@[fci])
        &&& post.monitors@[fmi].workspaces@[fwi0 as int].containers@ == src.containers@.remove(fci)
        &&& post.focused_monitor_idx == if follow {
            target as int
        } else {
            fmi
        }
    })
}

/// A resize-delta sequence loaded from disk replaces the focused
/// workspace's deltas (normalized to the container count); a missing file
/// gives `missing`, an out-of-bounds delta the geometry error.
pub open spec fn spec_loaded_resize(
    pre: WindowManager,
    post: WindowManager,
    r: Result<(), WmError>,
    loaded: Option<Vec<Option<Rect>>>,
    missing: WmError,
) -> bool {
    &&& (loaded is None ==> r == Err::<(), WmError>(missing) && post == pre)
    &&& (loaded matches Some(v) ==> if forall|i: int| 0 <= i < v@.len() ==> delta_bounded(v@[i]) {
        let ws0 = pre.spec_focused_workspace();
        let ws1 = post.spec_focused_workspace();
        &&& r == Ok::<(), WmError>(())
        &&& ws1.resize_dimensions@ == spec_normalize_deltas(v@, ws0.containers@.len())
        &&& ws1.containers@ == ws0.containers@
        &&& only_focused_ws_changed(pre, post)
    } else {
        r == Err::<(), WmError>(WmError::GeometryOutOfRange) && post == pre
    })
}

/// Workspace cycling rebinds focus to the monitor under the cursor first,
/// then steps that monitor's focused workspace around the ring.
pub open spec fn spec_cursor_workspace_cycle(
    pre: WindowManager,
    post: WindowManager,
    r: Result<(), WmError>,
    d: CycleDirection,
    cursor: Option<Point>,
) -> bool {
    match cursor {
        None => r == Err::<(), WmError>(WmError::NoMonitorAtCursor) && post == pre,
        Some(p) => match spec_monitor_from_point(pre.monitors@, p) {
            None => r == Err::<(), WmError>(WmError::NoMonitorAtCursor) && post == pre,
            Some(mi) => {
                let m0 = pre.monitors@[mi];
                let nw = spec_next_idx(d, m0.focused_workspace_idx as nat, m0.workspaces@.len());
                &&& r == Ok::<(), WmError>(())
                &&& post.focused_monitor_idx == mi
                &&& post.monitors@.len() == pre.monitors@.len()
                &&& post.monitors@[mi].focused_workspace_idx == nw
                &&& post.monitors@[mi].workspaces@.len() == m0.workspaces@.len()
                &&& (forall|j: int|
                    0 <= j < post.monitors@.len() && j != mi ==> post.monitors@[j]
                        == pre.monitors@[j])
                &&& (forall|k: int|
                    0 <= k < m0.workspaces@.len() ==> post.monitors@[mi].workspaces@[k]
                        == m0.workspaces@[k])
            },
        },
    }
}

/// Focusing a workspace by number also rebinds focus to the monitor under
/// the cursor, then focuses (lazily creating) that workspace there.
pub open spec fn spec_cursor_workspace_focus(
    pre: WindowManager,
    post: WindowManager,
    r: Result<(), WmError>,
    idx: usize,
    cursor: Option<Point>,
) -> bool {
    if idx == usize::MAX {
        r == Err::<(), WmError>(WmError::NoWorkspace) && post == pre
    } else {
        match cursor {
            None => r == Err::<(), WmError>(WmError::NoMonitorAtCursor) && post == pre,
            Some(p) => match spec_monitor_from_point(pre.monitors@, p) {
                None => r == Err::<(), WmError>(WmError::NoMonitorAtCursor) && post == pre,
                Some(mi) => {
                    let m0 = pre.monitors@[mi];
                    &&& r == Ok::<(), WmError>(())
                    &&& post.focused_monitor_idx == mi
                    &&& post.monitors@.len() == pre.monitors@.len()
                    &&& post.monitors@[mi].focused_workspace_idx == idx
                    &&& post.monitors@[mi].workspaces@.len() == if m0.workspaces@.len() >= idx + 1 {
                        m0.workspaces@.len() as int
                    } else {
                        idx + 1
                    }
                    &&& (forall|j: int|
                        0 <= j < post.monitors@.len() && j != mi ==> post.monitors@[j]
                            == pre.monitors@[j])
                    &&& (forall|k: int|
                        0 <= k < m0.workspaces@.len() ==> post.monitors@[mi].workspaces@[k]
                            == m0.workspaces@[k])
                },
            },
        }
    }
}

/// The focused-workspace commands that edit its containers and windows.
pub open spec fn is_focused_ws_container_command(m: SocketMessage) -> bool {
    ||| m is FocusWindow
    ||| m is CycleFocusWindow
    ||| m is MoveWindow
    ||| m is CycleMoveWindow
    ||| m is CycleStack
    ||| m is StackWindow
    ||| m is UnstackWindow
    ||| m is Promote
    ||| m is ToggleFloat
    ||| m is ToggleMonocle
    ||| m is ToggleMaximize
    ||| m is UnmanageFocusedWindow
    ||| m is ResizeWindow
}

/// The focused-workspace commands that edit its configuration.
pub open spec fn is_focused_ws_config_command(m: SocketMessage) -> bool {
    ||| m is ToggleTiling
    ||| m is AdjustContainerPadding
    ||| m is AdjustWorkspacePadding
    ||| m is FlipLayout
    ||| m is ChangeLayout
    ||| m is ChangeLayoutCustom
}

/// The commands that operate on the focused workspace alone.
pub open spec fn is_focused_ws_command(m: SocketMessage) -> bool {
    ||| is_focused_ws_container_command(m)
    ||| is_focused_ws_config_command(m)
}

/// The commands addressed to a (monitor, workspace) pair.
pub open spec fn is_targeted_ws_command(m: SocketMessage) -> bool {
    ||| m is ContainerPadding
    ||| m is WorkspacePadding
    ||| m is WorkspaceName
    ||| m is WorkspaceTiling
    ||| m is WorkspaceLayout
    ||| m is WorkspaceLayoutCustom
    ||| m is EnsureWorkspaces
}

/// Every command that may touch the monitor tree or the monitor focus.
pub open spec fn is_tree_command(m: SocketMessage) -> bool {
    ||| is_focused_ws_command(m)
    ||| is_targeted_ws_command(m)
    ||| m is MoveContainerToWorkspaceNumber
    ||| m is SendContainerToWorkspaceNumber
    ||| m is MoveContainerToMonitorNumber
    ||| m is SendContainerToMonitorNumber
    ||| m is CycleFocusMonitor
    ||| m is FocusMonitorNumber
    ||| m is CycleFocusWorkspace
    ||| m is FocusWorkspaceNumber
    ||| m is NewWorkspace
    ||| m is ManageFocusedWindow
    ||| m is QuickLoad
    ||| m is Load
}

/// The singleton window-manager state.
pub struct WindowManager {
    pub monitors: Vec<Monitor>,
    pub focused_monitor_idx: usize,
    pub is_paused: bool,
    pub mouse_follows_focus: bool,
    pub focus_follows_mouse: Option<FocusFollowsMouseImplementation>,
    pub has_pending_raise_op: bool,
    pub invisible_borders: Rect,
    pub work_area_offset: Option<Rect>,
    /// Capability flag granted at startup: whether the engine's own
    /// focus-follows-mouse implementation may be enabled.
    pub custom_ffm: bool,
    /// Process-wide rule tables, owned by the single writer.
    pub rules: RuleTables,
    /// Process-wide subscriber registry, owned by the single writer.
    pub subscribers: SubscriberRegistry,
}

impl WindowManager {
    /// The invariant every command preserves: at least one monitor, every
    /// focus index in range, every monitor well-formed, geometry bounded,
    /// rule tables duplicate-free, subscriber names unique.
    pub open spec fn wf(self) -> bool {
        &&& self.monitors@.len() >= 1
        &&& self.focused_monitor_idx < self.monitors@.len()
        &&& forall|i: int| 0 <= i < self.monitors@.len() ==> self.monitors@[i].wf()
        &&& self.invisible_borders.bounded()
        &&& match self.work_area_offset {
            Some(r) => r.bounded(),
            None => true,
        }
        &&& self.rules.wf()
        &&& self.subscribers.wf()
    }

    /// The focused monitor's focused workspace, as spec-level navigation.
    pub open spec fn spec_focused_workspace(self) -> Workspace {
        let m = self.monitors@[self.focused_monitor_idx as int];
        m.workspaces@[m.focused_workspace_idx as int]
    }

    /// A manager over the given monitors, unpaused, with empty tables.
    pub fn new(monitors: Vec<Monitor>, custom_ffm: bool) -> (r: WindowManager)
        requires
            monitors@.len() >= 1,
            forall|i: int| 0 <= i < monitors@.len() ==> monitors@[i].wf(),
        ensures
            r.wf(),
            r.monitors == monitors,
            r.focused_monitor_idx == 0,
            !r.is_paused,
            !r.mouse_follows_focus,
            r.focus_follows_mouse is None,
            !r.has_pending_raise_op,
            r.custom_ffm == custom_ffm,
            r.invisible_borders == (Rect { left: 0, top: 0, right: 0, bottom: 0 }),
            r.work_area_offset is None,
            r.rules.workspace_rules@.len() == 0,
            r.rules.manage_identifiers@.len() == 0,
            r.rules.float_identifiers@.len() == 0,
            r.rules.border_overflow_identifiers@.len() == 0,
            r.rules.tray_and_multi_window_identifiers@.len() == 0,
            r.subscribers.pipes@.len() == 0,
    {
        WindowManager {
            monitors,
            focused_monitor_idx: 0,
            is_paused: false,
            mouse_follows_focus: false,
            focus_follows_mouse: None,
            has_pending_raise_op: false,
            invisible_borders: Rect { left: 0, top: 0, right: 0, bottom: 0 },
            work_area_offset: None,
            custom_ffm,
            rules: RuleTables::new(),
            subscribers: SubscriberRegistry::new(),
        }
    }

    /// The first monitor whose rectangle contains the point, if any.
    pub fn monitor_idx_from_point(&self, p: Point) -> (r: Option<usize>)
        ensures
            r matches Some(i) ==> i < self.monitors@.len() && self.monitors@[
                i as int
            ].size.spec_contains(p) && spec_monitor_from_point(self.monitors@, p) == Some(i as int),
            r is None ==> spec_monitor_from_point(self.monitors@, p) is None,
    {
        let mut i: usize = 0;
        while i < self.monitors.len()
            invariant
                i <= self.monitors@.len(),
                forall|j: int| 0 <= j < i ==> !self.monitors@[j].size.spec_contains(p),
            decreases self.monitors@.len() - i,
        {
            if self.monitors[i].size.contains(p) {
                proof {
                    lemma_monitor_from_point_first(self.monitors@, p, i as int);
                }
                return Some(i);
            }
            i += 1;
        }
        proof {
            lemma_monitor_from_point_none(self.monitors@, p);
        }
        None
    }

    /// Focuses the monitor at `idx`.
    pub fn focus_monitor(&mut self, idx: usize) -> (r: Result<(), WmError>)
        requires
            old(self).wf(),
        ensures
            final(self).wf(),
            idx < old(self).monitors@.len() ==> r == Ok::<(), WmError>(()) && *final(self) == (
            WindowManager { focused_monitor_idx: idx, ..*old(self) }),
            idx >= old(self).monitors@.len() ==> r == Err::<(), WmError>(WmError::NoMonitor)
                && *final(self) == *old(self),
    {
        if idx < self.monitors.len() {
            self.focused_monitor_idx = idx;
            Ok(())
        } else {
            Err(WmError::NoMonitor)
        }
    }

    /// Focuses workspace `idx` on the focused monitor, creating workspaces
    /// lazily up to `idx`.
    pub fn focus_workspace(&mut self, idx: usize) -> (r: Result<(), WmError>)
        requires
            old(self).wf(),
        ensures
            final(self).wf(),
            idx == usize::MAX ==> r == Err::<(), WmError>(WmError::NoWorkspace) && *final(self)
                == *old(self),
            idx < usize::MAX ==> {
                let fmi = old(self).focused_monitor_idx as int;
                let m0 = old(self).monitors@[fmi];
                let fin = *final(self);
                &&& r == Ok::<(), WmError>(())
                &&& fin.monitors@.len() == old(self).monitors@.len()
                &&& forall|j: int|
                    0 <= j < fin.monitors@.len() && j != fmi ==> fin.monitors@[j] == old(
                        self,
                    ).monitors@[j]
                &&& fin.monitors@[fmi].focused_workspace_idx == idx
                &&& fin.monitors@[fmi].workspaces@.len() == if m0.workspaces@.len() >= idx + 1 {
                    m0.workspaces@.len() as int
                } else {
                    idx + 1
                }
                &&& forall|j: int|
                    0 <= j < m0.workspaces@.len() ==> fin.monitors@[fmi].workspaces@[j]
                        == m0.workspaces@[j]
                &&& fin.focused_monitor_idx == old(self).focused_monitor_idx
                &&& fin.is_paused == old(self).is_paused
                &&& fin.mouse_follows_focus == old(self).mouse_follows_focus
                &&& fin.focus_follows_mouse == old(self).focus_follows_mouse
                &&& fin.has_pending_raise_op == old(self).has_pending_raise_op
                &&& fin.invisible_borders == old(self).invisible_borders
                &&& fin.work_area_offset == old(self).work_area_offset
                &&& fin.custom_ffm == old(self).custom_ffm
                &&& fin.rules == old(self).rules
                &&& fin.subscribers == old(self).subscribers
            },
    {
        if idx == usize::MAX {
            return Err(WmError::NoWorkspace);
        }
        let fmi = self.focused_monitor_idx;
        self.monitors[fmi].focus_workspace(idx);
        Ok(())
    }

    /// Relocates the focused container to workspace `target` on the focused
    /// monitor (creating it lazily). With `follow` the workspace focus moves
    /// with the container ("move"); without, it stays ("send"). Moving to
    /// the currently focused workspace is a no-op.
    pub fn move_container_to_workspace(&mut self, target: usize, follow: bool) -> (r: Result<
        (),
        WmError,
    >)
        requires
            old(self).wf(),
        ensures
            final(self).wf(),
            WindowManager::frame_globals(*old(self), *final(self)),
            final(self).focused_monitor_idx == old(self).focused_monitor_idx,
            r is Err ==> *final(self) == *old(self),
            spec_moved_to_workspace(*old(self), *final(self), r, target, follow),
    {
        if target == usize::MAX {
            return Err(WmError::NoWorkspace);
        }
        let fmi = self.focused_monitor_idx;
        let fwi0 = self.monitors[fmi].focused_workspace_idx;
        if target == fwi0 {
            return Ok(());
        }
        if self.monitors[fmi].workspaces[fwi0].containers.len() == 0 {
            return Err(WmError::NoContainer);
        }
        let res = self.monitors[fmi].workspaces[fwi0].remove_focused_container();
        let (c, d) = match res {
            Ok(x) => x,
            Err(_) => {
                proof {
                    assert(false);
                }
                return Err(WmError::NoContainer);
            },
        };
        self.monitors[fmi].ensure_workspaces(target + 1);
        self.monitors[fmi].workspaces[target].add_container_with_delta(c, d);
        if follow {
            self.monitors[fmi].focused_workspace_idx = target;
        }
        proof {
            let pre = *old(self);
            let fmi_g = pre.focused_monitor_idx as int;
            let m0 = pre.monitors@[fmi_g];
            let src = m0.workspaces@[m0.focused_workspace_idx as int];
            let fci = src.focused_container_idx as int;
            let tgt0 = if target < m0.workspaces@.len() {
                m0.workspaces@[target as int].containers@
            } else {
                Seq::<Container>::empty()
            };
            assert(self.monitors@[fmi_g].workspaces@[target as int].containers@ =~= tgt0.push(
                src.containers@[fci],
            ));
            assert(spec_moved_to_workspace(*old(self), *self, Ok::<(), WmError>(()), target, follow));
        }
        Ok(())
    }

    /// Relocates the focused container to the focused workspace of monitor
    /// `target`. With `follow` the monitor focus moves with it. Moving to
    /// the focused monitor is a no-op.
    pub fn move_container_to_monitor(&mut self, target: usize, follow: bool) -> (r: Result<
        (),
        WmError,
    >)
        requires
            old(self).wf(),
        ensures
            final(self).wf(),
            WindowManager::frame_globals(*old(self), *final(self)),
            r is Err ==> *final(self) == *old(self),
            target >= old(self).monitors@.len() ==> r == Err::<(), WmError>(WmError::NoMonitor),
            spec_moved_to_monitor(*old(self), *final(self), r, target, follow),
    {
        if target >= self.monitors.len() {
            return Err(WmError::NoMonitor);
        }
        let fmi = self.focused_monitor_idx;
        if target == fmi {
            return Ok(());
        }
        let fwi0 = self.monitors[fmi].focused_workspace_idx;
        if self.monitors[fmi].workspaces[fwi0].containers.len() == 0 {
            return Err(WmError::NoContainer);
        }
        let res = self.monitors[fmi].workspaces[fwi0].remove_focused_container();
        let (c, d) = match res {
            Ok(x) => x,
            Err(_) => {
                proof {
                    assert(false);
                }
                return Err(WmError::NoContainer);
            },
        };
        let tfwi = self.monitors[target].focused_workspace_idx;
        self.monitors[target].workspaces[tfwi].add_container_with_delta(c, d);
        if follow {
            self.focused_monitor_idx = target;
        }
        proof {
            assert(spec_moved_to_monitor(*old(self), *self, Ok::<(), WmError>(()), target, follow));
        }
        Ok(())
    }

    /// The enforcement pass run after a workspace rule changes: every
    /// managed window matching a rule is relocated to the rule's target
    /// workspace (created lazily), as a fresh container there. Rules naming
    /// a monitor that does not exist are skipped.
    pub fn enforce_workspace_rules(&mut self)
        requires
            old(self).wf(),
        ensures
            final(self).wf(),
            WindowManager::frame_globals(*old(self), *final(self)),
            final(self).focused_monitor_idx == old(self).focused_monitor_idx,
    {
        let mut moved: Vec<(Window, (usize, usize))> = Vec::new();
        let mut m: usize = 0;
        while m < self.monitors.len()
            invariant
                self.wf(),
                WindowManager::frame_globals(*old(self), *self),
                self.focused_monitor_idx == old(self).focused_monitor_idx,
                m <= self.monitors@.len(),
                self.monitors@.len() == old(self).monitors@.len(),
            decreases self.monitors@.len() - m,
        {
            let ghost wslen0 = self.monitors@[m as int].workspaces@.len();
            let mut w: usize = 0;
            while w < self.monitors[m].workspaces.len()
                invariant
                    self.wf(),
                    WindowManager::frame_globals(*old(self), *self),
                    self.focused_monitor_idx == old(self).focused_monitor_idx,
                    m < self.monitors@.len(),
                    w <= self.monitors@[m as int].workspaces@.len(),
                    self.monitors@.len() == old(self).monitors@.len(),
                decreases self.monitors@[m as int].workspaces@.len() - w,
            {
                self.monitors[m].workspaces[w].extract_rule_matches(
                    &self.rules.workspace_rules,
                    m,
                    w,
                    &mut moved,
                );
                w += 1;
            }
            m += 1;
        }
        loop
            invariant
                self.wf(),
                WindowManager::frame_globals(*old(self), *self),
                self.focused_monitor_idx == old(self).focused_monitor_idx,
            decreases moved@.len(),
        {
            match moved.pop() {
                None => {
                    break ;
                },
                Some((win, (tm, tw))) => {
                    if tm < self.monitors.len() && tw < usize::MAX {
                        self.monitors[tm].ensure_workspaces(tw + 1);
                        let container = Container::new_with_window(win, false);
                        self.monitors[tm].workspaces[tw].add_container_with_delta(container, None);
                    }
                },
            }
        }
    }

    /// Appends a `Show` action for every window of the model: used by
    /// `Stop`, which restores all hidden windows before terminating.
    pub fn push_show_all(&self, out: &mut Vec<Action>)
        ensures
            final(out)@.len() >= old(out)@.len(),
            forall|k: int| 0 <= k < old(out)@.len() ==> final(out)@[k] == old(out)@[k],
            forall|k: int|
                old(out)@.len() <= k && final(out)@.len() > k ==> final(out)@[k] is Show,
            forall|m: int, w: int, c: int, x: int|
                #![auto]
                0 <= m < self.monitors@.len() && 0 <= w < self.monitors@[m].workspaces@.len() && 0
                    <= c < self.monitors@[m].workspaces@[w].containers@.len() && 0 <= x
                    < self.monitors@[m].workspaces@[w].containers@[c].windows@.len() ==> final(out)@.contains(
                    Action::Show(
                        self.monitors@[m].workspaces@[w].containers@[c].windows@[x].hwnd,
                    ),
                ),
    {
        let mut m: usize = 0;
        while m < self.monitors.len()
            invariant
                out@.len() >= old(out)@.len(),
                forall|k: int| 0 <= k < old(out)@.len() ==> out@[k] == old(out)@[k],
                forall|k: int| old(out)@.len() <= k && out@.len() > k ==> out@[k] is Show,
                m <= self.monitors@.len(),
                forall|m2: int, w: int, c: int, x: int|
                    #![auto]
                    0 <= m2 < m && 0 <= w < self.monitors@[m2].workspaces@.len() && 0 <= c
                        < self.monitors@[m2].workspaces@[w].containers@.len() && 0 <= x
                        < self.monitors@[m2].workspaces@[w].containers@[c].windows@.len()
                        ==> out@.contains(
                        Action::Show(
                            self.monitors@[m2].workspaces@[w].containers@[c].windows@[x].hwnd,
                        ),
                    ),
            decreases self.monitors@.len() - m,
        {
            let mut w: usize = 0;
            while w < self.monitors[m].workspaces.len()
                invariant
                    out@.len() >= old(out)@.len(),
                    forall|k: int| 0 <= k < old(out)@.len() ==> out@[k] == old(out)@[k],
                    forall|k: int| old(out)@.len() <= k && out@.len() > k ==> out@[k] is Show,
                    m < self.monitors@.len(),
                    w <= self.monitors@[m as int].workspaces@.len(),
                    forall|m2: int, w2: int, c: int, x: int|
                        #![auto]
                        0 <= m2 < m && 0 <= w2 < self.monitors@[m2].workspaces@.len() && 0 <= c
                            < self.monitors@[m2].workspaces@[w2].containers@.len() && 0 <= x
                            < self.monitors@[m2].workspaces@[w2].containers@[c].windows@.len()
                            ==> out@.contains(
                            Action::Show(
                                self.monitors@[m2].workspaces@[w2].containers@[c].windows@[x].hwnd,
                            ),
                        ),
                    forall|w2: int, c: int, x: int|
                        #![auto]
                        0 <= w2 < w && 0 <= c
                            < self.monitors@[m as int].workspaces@[w2].containers@.len() && 0 <= x
                            < self.monitors@[m as int].workspaces@[w2].containers@[c].windows@.len()
                            ==> out@.contains(
                            Action::Show(
                                self.monitors@[m as int].workspaces@[w2].containers@[c].windows@[x].hwnd,
                            ),
                        ),
                decreases self.monitors@[m as int].workspaces@.len() - w,
            {
                let mut c: usize = 0;
                while c < self.monitors[m].workspaces[w].containers.len()
                    invariant
                        out@.len() >= old(out)@.len(),
                        forall|k: int| 0 <= k < old(out)@.len() ==> out@[k] == old(out)@[k],
                        forall|k: int| old(out)@.len() <= k && out@.len() > k ==> out@[k] is Show,
                        m < self.monitors@.len(),
                        w < self.monitors@[m as int].workspaces@.len(),
                        c <= self.monitors@[m as int].workspaces@[w as int].containers@.len(),
                        forall|m2: int, w2: int, c2: int, x: int|
                            #![auto]
                            0 <= m2 < m && 0 <= w2 < self.monitors@[m2].workspaces@.len() && 0 <= c2
                                < self.monitors@[m2].workspaces@[w2].containers@.len() && 0 <= x
                                < self.monitors@[m2].workspaces@[w2].containers@[c2].windows@.len()
                                ==> out@.contains(
                                Action::Show(
                                    self.monitors@[m2].workspaces@[w2].containers@[c2].windows@[x].hwnd,
                                ),
                            ),
                        forall|w2: int, c2: int, x: int|
                            #![auto]
                            0 <= w2 < w && 0 <= c2
                                < self.monitors@[m as int].workspaces@[w2].containers@.len() && 0
                                <= x
                                < self.monitors@[m as int].workspaces@[w2].containers@[c2].windows@.len()
                                ==> out@.contains(
                                Action::Show(
                                    self.monitors@[m as int].workspaces@[w2].containers@[c2].windows@[x].hwnd,
                                ),
                            ),
                        forall|c2: int, x: int|
                            #![auto]
                            0 <= c2 < c && 0 <= x
                                < self.monitors@[m as int].workspaces@[w as int].containers@[c2].windows@.len()
                                ==> out@.contains(
                                Action::Show(
                                    self.monitors@[m as int].workspaces@[w as int].containers@[c2].windows@[x].hwnd,
                                ),
                            ),
                    decreases self.monitors@[m as int].workspaces@[w as int].containers@.len() - c,
                {
                    let mut x: usize = 0;
                    while x < self.monitors[m].workspaces[w].containers[c].windows.len()
                        invariant
                            out@.len() >= old(out)@.len(),
                            forall|k: int| 0 <= k < old(out)@.len() ==> out@[k] == old(out)@[k],
                            forall|k: int|
                                old(out)@.len() <= k && out@.len() > k ==> out@[k] is Show,
                            m < self.monitors@.len(),
                            w < self.monitors@[m as int].workspaces@.len(),
                            c < self.monitors@[m as int].workspaces@[w as int].containers@.len(),
                            x <= self.monitors@[m as int].workspaces@[w as int].containers@[c as int].windows@.len(),
                            forall|m2: int, w2: int, c2: int, x2: int|
                                #![auto]
                                0 <= m2 < m && 0 <= w2 < self.monitors@[m2].workspaces@.len() && 0
                                    <= c2 < self.monitors@[m2].workspaces@[w2].containers@.len()
                                    && 0 <= x2
                                    < self.monitors@[m2].workspaces@[w2].containers@[c2].windows@.len()
                                    ==> out@.contains(
                                    Action::Show(
                                        self.monitors@[m2].workspaces@[w2].containers@[c2].windows@[x2].hwnd,
                                    ),
                                ),
                            forall|w2: int, c2: int, x2: int|
                                #![auto]
                                0 <= w2 < w && 0 <= c2
                                    < self.monitors@[m as int].workspaces@[w2].containers@.len()
                                    && 0 <= x2
                                    < self.monitors@[m as int].workspaces@[w2].containers@[c2].windows@.len()
                                    ==> out@.contains(
                                    Action::Show(
                                        self.monitors@[m as int].workspaces@[w2].containers@[c2].windows@[x2].hwnd,
                                    ),
                                ),
                            forall|c2: int, x2: int|
                                #![auto]
                                0 <= c2 < c && 0 <= x2
                                    < self.monitors@[m as int].workspaces@[w as int].containers@[c2].windows@.len()
                                    ==> out@.contains(
                                    Action::Show(
                                        self.monitors@[m as int].workspaces@[w as int].containers@[c2].windows@[x2].hwnd,
                                    ),
                                ),
                            forall|x2: int|
                                #![auto]
                                0 <= x2 < x ==> out@.contains(
                                    Action::Show(
                                        self.monitors@[m as int].workspaces@[w as int].containers@[c as int].windows@[x2].hwnd,
                                    ),
                                ),
                        decreases self.monitors@[m as int].workspaces@[w as int].containers@[c as int].windows@.len()
                            - x,
                    {
                        let hwnd = self.monitors[m].workspaces[w].containers[c].windows[x].hwnd;
                        let ghost before = out@;
                        out.push(Action::Show(hwnd));
                        proof {
                            assert(out@[before.len() as int] == Action::Show(hwnd));
                            assert forall|a: Action| before.contains(a) implies out@.contains(
                                a,
                            ) by {
                                let k = choose|k: int| 0 <= k < before.len() && before[k] == a;
                                assert(out@[k] == a);
                            }
                        }
                        x += 1;
                    }
                    c += 1;
                }
                w += 1;
            }
            m += 1;
        }
    }

    /// Fields untouched by commands that only edit the monitor tree or
    /// move focus between monitors.
    pub open spec fn frame_globals(a: WindowManager, b: WindowManager) -> bool {
        &&& a.is_paused == b.is_paused
        &&& a.mouse_follows_focus == b.mouse_follows_focus
        &&& a.focus_follows_mouse == b.focus_follows_mouse
        &&& a.has_pending_raise_op == b.has_pending_raise_op
        &&& a.invisible_borders == b.invisible_borders
        &&& a.work_area_offset == b.work_area_offset
        &&& a.custom_ffm == b.custom_ffm
        &&& a.rules == b.rules
        &&& a.subscribers == b.subscribers
    }

    /// Fields untouched by commands that only edit the monitor tree.
    pub open spec fn frame_non_tree(a: WindowManager, b: WindowManager) -> bool {
        &&& a.focused_monitor_idx == b.focused_monitor_idx
        &&& WindowManager::frame_globals(a, b)
    }

    /// Applies a command that operates on the focused workspace. Any other
    /// command is ignored (the dispatcher never sends one). Appended
    /// actions never touch the OS focus-follows-mouse setting.
    #[verifier::rlimit(100)]
    #[verifier::spinoff_prover]
    fn focused_workspace_command(&mut self, message: SocketMessage, actions: &mut Vec<Action>) -> (
    r: Result<(), WmError>)
        requires
            old(self).wf(),
        ensures
            final(self).wf(),
            WindowManager::frame_non_tree(*old(self), *final(self)),
            r is Err ==> *final(self) == *old(self) && final(actions)@ == old(actions)@,
            final(actions)@.len() >= old(actions)@.len(),
            forall|k: int| 0 <= k < old(actions)@.len() ==> final(actions)@[k] == old(actions)@[k],
            forall|k: int|
                old(actions)@.len() <= k && final(actions)@.len() > k ==> benign_ffm_action(
                    final(actions)@[k],
                ),
            !is_focused_ws_container_command(message) ==> *final(self) == *old(self) && final(actions)@ == old(actions)@,
            is_focused_ws_container_command(message) ==> only_focused_ws_changed(*old(self), *final(self)),
            is_focused_ws_container_command(message) ==> focused_ws_transition(
                message,
                old(self).spec_focused_workspace(),
                final(self).spec_focused_workspace(),
                r,
            ),
            message is ToggleMaximize && r is Ok ==> ({
                let ws0 = old(self).spec_focused_workspace();
                match ws0.maximized_window {
                    Some(h) => final(actions)@ == old(actions)@.push(Action::Restore(h)),
                    None => {
                        let c = ws0.containers@[ws0.focused_container_idx as int];
                        final(actions)@ == old(actions)@.push(
                            Action::Maximize(c.windows@[c.focused_window_idx as int].hwnd),
                        )
                    },
                }
            }),
            message is UnmanageFocusedWindow && r is Ok ==> ({
                let ws0 = old(self).spec_focused_workspace();
                let c = ws0.containers@[ws0.focused_container_idx as int];
                final(actions)@ == old(actions)@.push(
                    Action::Show(c.windows@[c.focused_window_idx as int].hwnd),
                )
            }),
    {
        let ghost msg = message;
        let ghost ws0 = self.spec_focused_workspace();
        let fmi = self.focused_monitor_idx;
        let fwi = self.monitors[fmi].focused_workspace_idx;
        match message {
            SocketMessage::FocusWindow(direction) => {
                if self.monitors[fmi].workspaces[fwi].containers.len() == 0 {
                    return Err(WmError::NoContainer);
                }
                let res = self.monitors[fmi].workspaces[fwi].focus_container_in_cycle_direction(
                    direction.cycle_direction(),
                );
                if let Err(e) = res {
                    proof {
                        assert(false);
                    }
                    return Err(e);
                }
            },
            SocketMessage::CycleFocusWindow(direction) => {
                if self.monitors[fmi].workspaces[fwi].containers.len() == 0 {
                    return Err(WmError::NoContainer);
                }
                let res = self.monitors[fmi].workspaces[fwi].focus_container_in_cycle_direction(
                    direction,
                );
                if let Err(e) = res {
                    proof {
                        assert(false);
                    }
                    return Err(e);
                }
            },
            SocketMessage::MoveWindow(direction) => {
                if self.monitors[fmi].workspaces[fwi].containers.len() == 0 {
                    return Err(WmError::NoContainer);
                }
                let res = self.monitors[fmi].workspaces[fwi].move_container_in_cycle_direction(
                    direction.cycle_direction(),
                );
                if let Err(e) = res {
                    proof {
                        assert(false);
                    }
                    return Err(e);
                }
            },
            SocketMessage::CycleMoveWindow(direction) => {
                if self.monitors[fmi].workspaces[fwi].containers.len() == 0 {
                    return Err(WmError::NoContainer);
                }
                let res = self.monitors[fmi].workspaces[fwi].move_container_in_cycle_direction(
                    direction,
                );
                if let Err(e) = res {
                    proof {
                        assert(false);
                    }
                    return Err(e);
                }
            },
            SocketMessage::CycleStack(direction) => {
                if self.monitors[fmi].workspaces[fwi].containers.len() == 0 {
                    return Err(WmError::NoContainer);
                }
                let fci = self.monitors[fmi].workspaces[fwi].focused_container_idx;
                if self.monitors[fmi].workspaces[fwi].containers[fci].windows.len() == 0 {
                    return Err(WmError::NoWindow);
                }
                let res = self.monitors[fmi].workspaces[fwi].cycle_focused_container_window(
                    direction,
                );
                if let Err(e) = res {
                    proof {
                        assert(false);
                    }
                    return Err(e);
                }
            },
            SocketMessage::StackWindow(direction) => {
                if self.monitors[fmi].workspaces[fwi].containers.len() < 2 {
                    return Err(WmError::NoContainer);
                }
                let fci = self.monitors[fmi].workspaces[fwi].focused_container_idx;
                if self.monitors[fmi].workspaces[fwi].containers[fci].windows.len() == 0 {
                    return Err(WmError::NoWindow);
                }
                let res = self.monitors[fmi].workspaces[fwi].stack_focused_window(
                    direction.cycle_direction(),
                );
                if let Err(e) = res {
                    proof {
                        assert(false);
                    }
                    return Err(e);
                }
            },
            SocketMessage::UnstackWindow => {
                if self.monitors[fmi].workspaces[fwi].containers.len() == 0 {
                    return Err(WmError::NoContainer);
                }
                let fci = self.monitors[fmi].workspaces[fwi].focused_container_idx;
                let wlen = self.monitors[fmi].workspaces[fwi].containers[fci].windows.len();
                if wlen == 0 {
                    return Err(WmError::NoWindow);
                }
                if wlen == 1 {
                    return Err(WmError::SingleWindow);
                }
                let res = self.monitors[fmi].workspaces[fwi].unstack_focused_window();
                if let Err(e) = res {
                    proof {
                        assert(false);
                    }
                    return Err(e);
                }
            },
            SocketMessage::Promote => {
                if self.monitors[fmi].workspaces[fwi].containers.len() == 0 {
                    return Err(WmError::NoContainer);
                }
                let res = self.monitors[fmi].workspaces[fwi].promote_focused_container();
                if let Err(e) = res {
                    proof {
                        assert(false);
                    }
                    return Err(e);
                }
            },
            SocketMessage::ToggleFloat => {
                if self.monitors[fmi].workspaces[fwi].containers.len() == 0 {
                    return Err(WmError::NoContainer);
                }
                let res = self.monitors[fmi].workspaces[fwi].toggle_float_focused();
                if let Err(e) = res {
                    proof {
                        assert(false);
                    }
                    return Err(e);
                }
            },
            SocketMessage::ToggleMonocle => {
                if matches!(self.monitors[fmi].workspaces[fwi].monocle_container_idx, Option::None)
                    && self.monitors[fmi].workspaces[fwi].containers.len() == 0 {
                    return Err(WmError::NoContainer);
                }
                let res = self.monitors[fmi].workspaces[fwi].toggle_monocle();
                if let Err(e) = res {
                    proof {
                        assert(false);
                    }
                    return Err(e);
                }
            },
            SocketMessage::ToggleMaximize => {
                if matches!(self.monitors[fmi].workspaces[fwi].maximized_window, Option::None) {
                    if self.monitors[fmi].workspaces[fwi].containers.len() == 0 {
                        return Err(WmError::NoContainer);
                    }
                    let fci = self.monitors[fmi].workspaces[fwi].focused_container_idx;
                    if self.monitors[fmi].workspaces[fwi].containers[fci].windows.len() == 0 {
                        return Err(WmError::NoWindow);
                    }
                }
                let res = self.monitors[fmi].workspaces[fwi].toggle_maximize();
                match res {
                    Ok((hwnd, now_maximized)) => {
                        if now_maximized {
                            actions.push(Action::Maximize(hwnd));
                        } else {
                            actions.push(Action::Restore(hwnd));
                        }
                    },
                    Err(e) => {
                        proof {
                            assert(false);
                        }
                        return Err(e);
                    },
                }
            },
            SocketMessage::UnmanageFocusedWindow => {
                if self.monitors[fmi].workspaces[fwi].containers.len() == 0 {
                    return Err(WmError::NoContainer);
                }
                let fci = self.monitors[fmi].workspaces[fwi].focused_container_idx;
                if self.monitors[fmi].workspaces[fwi].containers[fci].windows.len() == 0 {
                    return Err(WmError::NoWindow);
                }
                let res = self.monitors[fmi].workspaces[fwi].remove_focused_window();
                match res {
                    Ok(hwnd) => {
                        actions.push(Action::Show(hwnd));
                    },
                    Err(e) => {
                        proof {
                            assert(false);
                        }
                        return Err(e);
                    },
                }
            },
            SocketMessage::ResizeWindow(direction, sizing) => {
                if self.monitors[fmi].workspaces[fwi].containers.len() == 0 {
                    return Err(WmError::NoContainer);
                }
                let res = self.monitors[fmi].workspaces[fwi].resize_focused_delta(
                    direction,
                    sizing,
                    50,
                );
                if let Err(e) = res {
                    proof {
                        assert(false);
                    }
                    return Err(e);
                }
            },
            _ => {},
        }
        proof {
            if is_focused_ws_container_command(msg) {
                assert(focused_ws_transition(
                    msg,
                    ws0,
                    self.spec_focused_workspace(),
                    Ok::<(), WmError>(()),
                ));
            }
        }
        Ok(())
    }

    /// Applies a configuration command on the focused workspace (tiling
    /// flag, paddings, layout, flip). Any other command is ignored (the
    /// dispatcher never sends one).
    #[verifier::rlimit(100)]
    #[verifier::spinoff_prover]
    fn focused_workspace_config_command(&mut self, message: SocketMessage) -> (r: Result<
        (),
        WmError,
    >)
        requires
            old(self).wf(),
        ensures
            final(self).wf(),
            WindowManager::frame_non_tree(*old(self), *final(self)),
            r is Err ==> *final(self) == *old(self),
            is_focused_ws_config_command(message) ==> only_focused_ws_changed(*old(self), *final(self)),
            is_focused_ws_config_command(message) ==> focused_ws_transition(
                message,
                old(self).spec_focused_workspace(),
                final(self).spec_focused_workspace(),
                r,
            ),
    {
        let ghost msg = message;
        let ghost ws0 = self.spec_focused_workspace();
        let fmi = self.focused_monitor_idx;
        let fwi = self.monitors[fmi].focused_workspace_idx;
        match message {
            SocketMessage::ToggleTiling => {
                let cur = self.monitors[fmi].workspaces[fwi].tile;
                self.monitors[fmi].workspaces[fwi].tile = !cur;
            },
            SocketMessage::AdjustContainerPadding(sizing, adjustment) => {
                let cur = self.monitors[fmi].workspaces[fwi].container_padding;
                self.monitors[fmi].workspaces[fwi].container_padding = adjust_padding(
                    cur,
                    sizing,
                    adjustment,
                );
            },
            SocketMessage::AdjustWorkspacePadding(sizing, adjustment) => {
                let cur = self.monitors[fmi].workspaces[fwi].workspace_padding;
                self.monitors[fmi].workspaces[fwi].workspace_padding = adjust_padding(
                    cur,
                    sizing,
                    adjustment,
                );
            },
            SocketMessage::FlipLayout(axis) => {
                let cur = self.monitors[fmi].workspaces[fwi].layout_flip;
                self.monitors[fmi].workspaces[fwi].layout_flip = combine_flip(cur, axis);
            },
            SocketMessage::ChangeLayout(layout) => {
                self.monitors[fmi].workspaces[fwi].layout = layout;
                self.monitors[fmi].workspaces[fwi].custom_layout = None;
            },
            SocketMessage::ChangeLayoutCustom(path) => {
                self.monitors[fmi].workspaces[fwi].custom_layout = Some(path);
            },
            _ => {},
        }
        proof {
            if is_focused_ws_config_command(msg) {
                assert(focused_ws_transition(
                    msg,
                    ws0,
                    self.spec_focused_workspace(),
                    Ok::<(), WmError>(()),
                ));
            }
        }
        Ok(())
    }

    /// Applies a command addressed to workspace `w` of monitor `m`. Any
    /// other command is ignored (the dispatcher never sends one).
    #[verifier::rlimit(100)]
    #[verifier::spinoff_prover]
    fn targeted_workspace_command(&mut self, message: SocketMessage) -> (r: Result<(), WmError>)
        requires
            old(self).wf(),
        ensures
            final(self).wf(),
            WindowManager::frame_non_tree(*old(self), *final(self)),
            r is Err ==> *final(self) == *old(self),
            targeted_ws_transition(message, *old(self), *final(self), r),
    {
        match message {
            SocketMessage::ContainerPadding(m, w, size) => {
                if m >= self.monitors.len() {
                    return Err(WmError::NoMonitor);
                }
                if w >= self.monitors[m].workspaces.len() {
                    return Err(WmError::NoWorkspace);
                }
                if size < -PADDING_LIMIT || size > PADDING_LIMIT {
                    return Err(WmError::GeometryOutOfRange);
                }
                self.monitors[m].workspaces[w].container_padding = size;
            },
            SocketMessage::WorkspacePadding(m, w, size) => {
                if m >= self.monitors.len() {
                    return Err(WmError::NoMonitor);
                }
                if w >= self.monitors[m].workspaces.len() {
                    return Err(WmError::NoWorkspace);
                }
                if size < -PADDING_LIMIT || size > PADDING_LIMIT {
                    return Err(WmError::GeometryOutOfRange);
                }
                self.monitors[m].workspaces[w].workspace_padding = size;
            },
            SocketMessage::WorkspaceName(m, w, name) => {
                if m >= self.monitors.len() {
                    return Err(WmError::NoMonitor);
                }
                if w >= self.monitors[m].workspaces.len() {
                    return Err(WmError::NoWorkspace);
                }
                self.monitors[m].workspaces[w].name = Some(name);
            },
            SocketMessage::WorkspaceTiling(m, w, tile) => {
                if m >= self.monitors.len() {
                    return Err(WmError::NoMonitor);
                }
                if w >= self.monitors[m].workspaces.len() {
                    return Err(WmError::NoWorkspace);
                }
                self.monitors[m].workspaces[w].tile = tile;
            },
            SocketMessage::WorkspaceLayout(m, w, layout) => {
                if m >= self.monitors.len() {
                    return Err(WmError::NoMonitor);
                }
                if w >= self.monitors[m].workspaces.len() {
                    return Err(WmError::NoWorkspace);
                }
                self.monitors[m].workspaces[w].layout = layout;
                self.monitors[m].workspaces[w].custom_layout = None;
            },
            SocketMessage::WorkspaceLayoutCustom(m, w, path) => {
                if m >= self.monitors.len() {
                    return Err(WmError::NoMonitor);
                }
                if w >= self.monitors[m].workspaces.len() {
                    return Err(WmError::NoWorkspace);
                }
                self.monitors[m].workspaces[w].custom_layout = Some(path);
            },
            SocketMessage::EnsureWorkspaces(m, count) => {
                if m >= self.monitors.len() {
                    return Err(WmError::NoMonitor);
                }
                self.monitors[m].ensure_workspaces(count);
            },
            _ => {},
        }
        Ok(())
    }

    /// Sets or clears a focus-follows-mouse implementation. Without the
    /// capability flag the request is coerced to the OS-native
    /// implementation. The two implementations are mutually exclusive:
    /// enabling one while the other is active changes nothing.
    pub fn ffm_set_command(
        &mut self,
        implementation: FocusFollowsMouseImplementation,
        enable: bool,
        os_enabled: bool,
        actions: &mut Vec<Action>,
    )
        requires
            old(self).wf(),
            old(actions)@.len() == 0,
        ensures
            final(self).wf(),
            final(self).monitors == old(self).monitors,
            final(self).focused_monitor_idx == old(self).focused_monitor_idx,
            final(self).is_paused == old(self).is_paused,
            final(self).mouse_follows_focus == old(self).mouse_follows_focus,
            final(self).custom_ffm == old(self).custom_ffm,
            final(self).rules == old(self).rules,
            final(self).subscribers == old(self).subscribers,
            final(self).invisible_borders == old(self).invisible_borders,
            final(self).work_area_offset == old(self).work_area_offset,
            spec_ffm_consistent(old(self).focus_follows_mouse, os_enabled)
                ==> spec_ffm_consistent(
                final(self).focus_follows_mouse,
                os_ffm_after(os_enabled, final(actions)@),
            ),
            implementation is Komorebi && old(self).custom_ffm && os_enabled ==> *final(self)
                == *old(self) && final(actions)@.len() == 0,
            ({
                let imp = if old(self).custom_ffm {
                    implementation
                } else {
                    FocusFollowsMouseImplementation::Windows
                };
                let internal_active = old(self).focus_follows_mouse == Some(
                    FocusFollowsMouseImplementation::Komorebi,
                );
                &&& (imp is Komorebi && os_enabled ==> *final(self) == *old(self) && final(actions)@.len() == 0)
                &&& (imp is Komorebi && !os_enabled && enable ==> *final(self) == (WindowManager {
                    focus_follows_mouse: Some(FocusFollowsMouseImplementation::Komorebi),
                    ..*old(self)
                }) && final(actions)@.len() == 0)
                &&& (imp is Komorebi && !os_enabled && !enable ==> *final(self) == (WindowManager {
                    focus_follows_mouse: None,
                    has_pending_raise_op: false,
                    ..*old(self)
                }) && final(actions)@.len() == 0)
                &&& (imp is Windows && internal_active ==> *final(self) == *old(self) && final(actions)@.len() == 0)
                &&& (imp is Windows && !internal_active && enable ==> *final(self) == (
                WindowManager {
                    focus_follows_mouse: Some(FocusFollowsMouseImplementation::Windows),
                    ..*old(self)
                }) && final(actions)@ == seq![Action::EnableOsFocusFollowsMouse])
                &&& (imp is Windows && !internal_active && !enable ==> *final(self) == (
                WindowManager { focus_follows_mouse: None, ..*old(self) }) && final(actions)@
                    == seq![Action::DisableOsFocusFollowsMouse])
            }),
    {
        let imp = if self.custom_ffm {
            implementation
        } else {
            FocusFollowsMouseImplementation::Windows
        };
        match imp {
            FocusFollowsMouseImplementation::Komorebi => {
                if os_enabled {
                    // refused: the OS-native implementation is active
                } else if enable {
                    self.focus_follows_mouse = Some(FocusFollowsMouseImplementation::Komorebi);
                } else {
                    self.focus_follows_mouse = None;
                    self.has_pending_raise_op = false;
                }
            },
            FocusFollowsMouseImplementation::Windows => {
                if matches!(
                    self.focus_follows_mouse,
                    Option::Some(FocusFollowsMouseImplementation::Komorebi)
                ) {
                    // refused: the engine's implementation is active
                } else if enable {
                    actions.push(Action::EnableOsFocusFollowsMouse);
                    self.focus_follows_mouse = Some(FocusFollowsMouseImplementation::Windows);
                } else {
                    actions.push(Action::DisableOsFocusFollowsMouse);
                    self.focus_follows_mouse = None;
                }
            },
        }
    }

    /// Toggles a focus-follows-mouse implementation, with the same coercion
    /// and mutual-exclusion rules as `ffm_set_command`.
    pub fn ffm_toggle_command(
        &mut self,
        implementation: FocusFollowsMouseImplementation,
        os_enabled: bool,
        actions: &mut Vec<Action>,
    )
        requires
            old(self).wf(),
            old(actions)@.len() == 0,
        ensures
            final(self).wf(),
            final(self).monitors == old(self).monitors,
            final(self).focused_monitor_idx == old(self).focused_monitor_idx,
            final(self).is_paused == old(self).is_paused,
            final(self).mouse_follows_focus == old(self).mouse_follows_focus,
            final(self).custom_ffm == old(self).custom_ffm,
            final(self).rules == old(self).rules,
            final(self).subscribers == old(self).subscribers,
            final(self).invisible_borders == old(self).invisible_borders,
            final(self).work_area_offset == old(self).work_area_offset,
            spec_ffm_consistent(old(self).focus_follows_mouse, os_enabled)
                ==> spec_ffm_consistent(
                final(self).focus_follows_mouse,
                os_ffm_after(os_enabled, final(actions)@),
            ),
            ({
                let imp = if old(self).custom_ffm {
                    implementation
                } else {
                    FocusFollowsMouseImplementation::Windows
                };
                let ffm0 = old(self).focus_follows_mouse;
                &&& (imp is Komorebi && os_enabled ==> *final(self) == *old(self) && final(actions)@.len() == 0)
                &&& (imp is Komorebi && !os_enabled && ffm0 is None ==> *final(self) == (
                WindowManager {
                    focus_follows_mouse: Some(FocusFollowsMouseImplementation::Komorebi),
                    has_pending_raise_op: false,
                    ..*old(self)
                }) && final(actions)@.len() == 0)
                &&& (imp is Komorebi && !os_enabled && ffm0 == Some(
                    FocusFollowsMouseImplementation::Komorebi,
                ) ==> *final(self) == (WindowManager {
                    focus_follows_mouse: None,
                    ..*old(self)
                }) && final(actions)@.len() == 0)
                &&& (imp is Komorebi && !os_enabled && ffm0 == Some(
                    FocusFollowsMouseImplementation::Windows,
                ) ==> *final(self) == *old(self) && final(actions)@.len() == 0)
                &&& (imp is Windows && ffm0 == Some(FocusFollowsMouseImplementation::Komorebi)
                    ==> *final(self) == *old(self) && final(actions)@.len() == 0)
                &&& (imp is Windows && ffm0 is None ==> *final(self) == (WindowManager {
                    focus_follows_mouse: Some(FocusFollowsMouseImplementation::Windows),
                    ..*old(self)
                }) && final(actions)@ == seq![Action::EnableOsFocusFollowsMouse])
                &&& (imp is Windows && ffm0 == Some(FocusFollowsMouseImplementation::Windows)
                    ==> *final(self) == (WindowManager { focus_follows_mouse: None, ..*old(self) })
                    && final(actions)@ == seq![Action::DisableOsFocusFollowsMouse])
            }),
    {
        let imp = if self.custom_ffm {
            implementation
        } else {
            FocusFollowsMouseImplementation::Windows
        };
        match imp {
            FocusFollowsMouseImplementation::Komorebi => {
                if os_enabled {
                    // refused: the OS-native implementation is active
                } else {
                    match self.focus_follows_mouse {
                        None => {
                            self.focus_follows_mouse = Some(
                                FocusFollowsMouseImplementation::Komorebi,
                            );
                            self.has_pending_raise_op = false;
                        },
                        Some(FocusFollowsMouseImplementation::Komorebi) => {
                            self.focus_follows_mouse = None;
                        },
                        Some(FocusFollowsMouseImplementation::Windows) => {
                            // refused: would mix implementations
                        },
                    }
                }
            },
            FocusFollowsMouseImplementation::Windows => {
                match self.focus_follows_mouse {
                    Some(FocusFollowsMouseImplementation::Komorebi) => {
                        // refused: would mix implementations
                    },
                    None => {
                        actions.push(Action::EnableOsFocusFollowsMouse);
                        self.focus_follows_mouse = Some(FocusFollowsMouseImplementation::Windows);
                    },
                    Some(FocusFollowsMouseImplementation::Windows) => {
                        actions.push(Action::DisableOsFocusFollowsMouse);
                        self.focus_follows_mouse = None;
                    },
                }
            },
        }
    }

    /// Inserts the window the OS reports as focused as a fresh container on
    /// the focused workspace; a float rule makes the container floating.
    fn manage_window_command(&mut self, w: &Window)
        requires
            old(self).wf(),
        ensures
            final(self).wf(),
            only_focused_ws_changed(*old(self), *final(self)),
            spec_managed_window(
                old(self).spec_focused_workspace(),
                final(self).spec_focused_workspace(),
                *w,
                old(self).rules.float_identifiers@,
            ),
    {
        let window = Window {
            hwnd: w.hwnd,
            exe: w.exe.clone(),
            class: w.class.clone(),
            title: w.title.clone(),
        };
        let floating = window_matches_any(&window, &self.rules.float_identifiers);
        let container = crate::model::Container::new_with_window(window, floating);
        let fmi = self.focused_monitor_idx;
        let fwi = self.monitors[fmi].focused_workspace_idx;
        self.monitors[fmi].workspaces[fwi].add_container_with_delta(container, None);
    }

    /// Replaces the focused workspace's resize deltas with a sequence read
    /// from disk; `missing` is the error when nothing was read.
    pub fn load_resize_command(
        &mut self,
        loaded: &Option<Vec<Option<Rect>>>,
        missing: WmError,
    ) -> (r: Result<(), WmError>)
        requires
            old(self).wf(),
        ensures
            final(self).wf(),
            WindowManager::frame_non_tree(*old(self), *final(self)),
            r is Err ==> *final(self) == *old(self),
            spec_loaded_resize(*old(self), *final(self), r, *loaded, missing),
    {
        let v = match loaded {
            None => {
                return Err(missing);
            },
            Some(v) => copy_deltas(v),
        };
        if !deltas_bounded(&v) {
            return Err(WmError::GeometryOutOfRange);
        }
        let fmi = self.focused_monitor_idx;
        let fwi = self.monitors[fmi].focused_workspace_idx;
        self.monitors[fmi].workspaces[fwi].set_resize_dimensions(v);
        Ok(())
    }

    /// A copy of the focused workspace's resize deltas.
    fn copy_focused_deltas(&self) -> (r: Vec<Option<Rect>>)
        requires
            self.wf(),
        ensures
            r@ == self.spec_focused_workspace().resize_dimensions@,
    {
        let fmi = self.focused_monitor_idx;
        let fwi = self.monitors[fmi].focused_workspace_idx;
        copy_deltas(&self.monitors[fmi].workspaces[fwi].resize_dimensions)
    }

    /// The decimal answer to a query, or the error when the queried entity
    /// does not exist.
    fn query_response(&self, query: StateQuery) -> (r: Result<usize, WmError>)
        requires
            self.wf(),
        ensures
            r == spec_query_response(*self, query),
    {
        match query {
            StateQuery::FocusedMonitorIndex => Ok(self.focused_monitor_idx),
            StateQuery::FocusedWorkspaceIndex => {
                let fmi = self.focused_monitor_idx;
                Ok(self.monitors[fmi].focused_workspace_idx)
            },
            StateQuery::FocusedContainerIndex => {
                let fmi = self.focused_monitor_idx;
                let fwi = self.monitors[fmi].focused_workspace_idx;
                Ok(self.monitors[fmi].workspaces[fwi].focused_container_idx)
            },
            StateQuery::FocusedWindowIndex => {
                let fmi = self.focused_monitor_idx;
                let fwi = self.monitors[fmi].focused_workspace_idx;
                if self.monitors[fmi].workspaces[fwi].containers.len() == 0 {
                    return Err(WmError::NoContainer);
                }
                let fci = self.monitors[fmi].workspaces[fwi].focused_container_idx;
                Ok(self.monitors[fmi].workspaces[fwi].containers[fci].focused_window_idx)
            },
        }
    }

    /// Applies a command that does not touch the monitor tree: pause and
    /// mouse-follows-focus toggles, rule and subscriber updates,
    /// focus-follows-mouse changes, geometry settings, persistence and
    /// introspection emissions, and `Stop`. Other commands are ignored
    /// (the dispatcher never sends one).
    #[verifier::rlimit(100)]
    #[verifier::spinoff_prover]
    fn dispatch_global(
        &mut self,
        message: SocketMessage,
        ctx: &ExternalContext,
        actions: &mut Vec<Action>,
    ) -> (r: Result<(), WmError>)
        requires
            old(self).wf(),
            old(actions)@.len() == 0,
        ensures
            final(self).wf(),
            !(message is WorkspaceRule) ==> final(self).monitors == old(self).monitors,
            final(self).focused_monitor_idx == old(self).focused_monitor_idx,
            final(self).custom_ffm == old(self).custom_ffm,
            r is Err ==> *final(self) == *old(self) && final(actions)@ == old(actions)@,
            !(message is TogglePause) ==> final(self).is_paused == old(self).is_paused,
            message is TogglePause ==> (r is Ok && *final(self) == (WindowManager {
                is_paused: !old(self).is_paused,
                ..*old(self)
            }) && final(actions)@.len() == 0),
            message is ToggleMouseFollowsFocus ==> (r is Ok && *final(self) == (WindowManager {
                mouse_follows_focus: !old(self).mouse_follows_focus,
                ..*old(self)
            })),
            message is State ==> (r is Ok && *final(self) == *old(self) && final(actions)@.len()
                == 1 && final(actions)@[0] is RespondState),
            message is Query ==> *final(self) == *old(self),
            message is QuickSave ==> (r is Ok && *final(self) == *old(self) && final(actions)@.len() == 1 && (final(actions)@[0] matches Action::PersistQuicksave(v) && v@ == old(
                self,
            ).spec_focused_workspace().resize_dimensions@)),
            message matches SocketMessage::ManageRule(k, id) ==> (r is Ok && final(self).rules.manage_identifiers@ == insert_unique_spec(
                old(self).rules.manage_identifiers@,
                id,
            )),
            message matches SocketMessage::FloatRule(k, id) ==> (r is Ok && final(self).rules.float_identifiers@ == insert_unique_spec(
                old(self).rules.float_identifiers@,
                id,
            )),
            message matches SocketMessage::IdentifyBorderOverflow(k, id) ==> (r is Ok && final(self).rules.border_overflow_identifiers@ == insert_unique_spec(
                old(self).rules.border_overflow_identifiers@,
                id,
            )),
            message matches SocketMessage::IdentifyTrayApplication(k, id) ==> (r is Ok && final(self).rules.tray_and_multi_window_identifiers@ == insert_unique_spec(
                old(self).rules.tray_and_multi_window_identifiers@,
                id,
            )),
            message matches SocketMessage::WorkspaceRule(k, id, m, w) ==> (r is Ok
                && crate::rules::has_rule(final(self).rules.workspace_rules@, id@)
                && crate::rules::rule_target(final(self).rules.workspace_rules@, id@) == (m, w)),
            message matches SocketMessage::Query(q) ==> ((spec_query_response(*old(self), q)
                matches Ok(v) ==> r is Ok && final(actions)@ == old(actions)@.push(
                Action::RespondQuery(v),
            )) && (spec_query_response(*old(self), q) matches Err(e) ==> r == Err::<(), WmError>(
                e,
            ))),
            message matches SocketMessage::Save(p) ==> (r is Ok && *final(self) == *old(self)
                && final(actions)@.len() == 1 && (final(actions)@[0] matches Action::PersistSave(
                p2,
                v,
            ) && p2@ == p@ && v@ == old(self).spec_focused_workspace().resize_dimensions@)),
            message is ReloadConfiguration ==> (r is Ok && *final(self) == *old(self) && final(actions)@ == old(actions)@.push(Action::ReloadConfiguration)),
            message matches SocketMessage::WatchConfiguration(en) ==> (r is Ok && *final(self)
                == *old(self) && final(actions)@ == old(actions)@.push(
                Action::WatchConfiguration(en),
            )),
            !(message is ToggleMouseFollowsFocus) ==> final(self).mouse_follows_focus == old(
                self,
            ).mouse_follows_focus,
            message matches SocketMessage::AddSubscriber(name) ==> ((ctx.pipe_handle is None ==> r
                == Err::<(), WmError>(WmError::PipeNotCreated)) && (ctx.pipe_handle matches Some(h)
                ==> r is Ok && (!crate::subscribers::has_subscriber(
                old(self).subscribers.pipes@,
                name@,
            ) ==> final(self).subscribers.pipes@ == old(self).subscribers.pipes@.push((name, h))))),
            message matches SocketMessage::RemoveSubscriber(name) ==> (r is Ok && final(self).subscribers.pipes@ == spec_remove_subscriber(old(self).subscribers.pipes@, name@)),
            !(message is AddSubscriber) && !(message is RemoveSubscriber) ==> final(self).subscribers == old(self).subscribers,
            !(message is WorkspaceRule) && !(message is ManageRule) && !(message is FloatRule) && !(
            message is IdentifyBorderOverflow) && !(message is IdentifyTrayApplication) ==> final(self).rules == old(self).rules,
            message is FocusFollowsMouse ==> r is Ok,
            message is ToggleFocusFollowsMouse ==> r is Ok,
            message matches SocketMessage::FocusFollowsMouse(imp, en) ==> ((imp is Komorebi && old(
                self,
            ).custom_ffm && ctx.os_focus_follows_mouse_enabled ==> *final(self) == *old(self)
                && final(actions)@.len() == 0) && (spec_ffm_consistent(
                old(self).focus_follows_mouse,
                ctx.os_focus_follows_mouse_enabled,
            ) ==> spec_ffm_consistent(
                final(self).focus_follows_mouse,
                os_ffm_after(ctx.os_focus_follows_mouse_enabled, final(actions)@),
            ))),
            message matches SocketMessage::FocusFollowsMouse(imp, en) ==> (imp is Komorebi
                && old(self).custom_ffm && !ctx.os_focus_follows_mouse_enabled && !en ==> (r is Ok
                && *final(self) == (WindowManager {
                focus_follows_mouse: None,
                has_pending_raise_op: false,
                ..*old(self)
            }) && final(actions)@.len() == 0)),
            message is ToggleFocusFollowsMouse ==> (spec_ffm_consistent(
                old(self).focus_follows_mouse,
                ctx.os_focus_follows_mouse_enabled,
            ) ==> spec_ffm_consistent(
                final(self).focus_follows_mouse,
                os_ffm_after(ctx.os_focus_follows_mouse_enabled, final(actions)@),
            )),
            !(message is FocusFollowsMouse) && !(message is ToggleFocusFollowsMouse) ==> (final(self).focus_follows_mouse == old(self).focus_follows_mouse && final(self).has_pending_raise_op == old(self).has_pending_raise_op && forall|k: int|
                0 <= k < final(actions)@.len() ==> benign_ffm_action(final(actions)@[k])),
            message is Stop ==> (r is Ok && *final(self) == *old(self) && final(actions)@.len()
                >= 1 && final(actions)@.last() == Action::Exit && forall|m: int, w: int, c: int, x: int|
                #![auto]
                0 <= m < old(self).monitors@.len() && 0 <= w < old(
                    self,
                ).monitors@[m].workspaces@.len() && 0 <= c < old(
                    self,
                ).monitors@[m].workspaces@[w].containers@.len() && 0 <= x < old(
                    self,
                ).monitors@[m].workspaces@[w].containers@[c].windows@.len()
                    ==> final(actions)@.contains(
                    Action::Show(
                        old(self).monitors@[m].workspaces@[w].containers@[c].windows@[x].hwnd,
                    ),
                )),
    {
        match message {
            SocketMessage::TogglePause => {
                self.is_paused = !self.is_paused;
            },
            SocketMessage::ToggleMouseFollowsFocus => {
                self.mouse_follows_focus = !self.mouse_follows_focus;
            },
            SocketMessage::WorkspaceRule(_kind, id, m, w) => {
                self.rules.set_workspace_rule(id, m, w);
                self.enforce_workspace_rules();
            },
            SocketMessage::ManageRule(_kind, id) => {
                insert_identifier(&mut self.rules.manage_identifiers, id);
            },
            SocketMessage::FloatRule(_kind, id) => {
                insert_identifier(&mut self.rules.float_identifiers, id);
            },
            SocketMessage::IdentifyBorderOverflow(_kind, id) => {
                insert_identifier(&mut self.rules.border_overflow_identifiers, id);
            },
            SocketMessage::IdentifyTrayApplication(_kind, id) => {
                insert_identifier(&mut self.rules.tray_and_multi_window_identifiers, id);
            },
            SocketMessage::AddSubscriber(name) => {
                let handle = match ctx.pipe_handle {
                    None => {
                        return Err(WmError::PipeNotCreated);
                    },
                    Some(h) => h,
                };
                self.subscribers.add(name, handle);
            },
            SocketMessage::RemoveSubscriber(name) => {
                self.subscribers.remove(&name);
            },
            SocketMessage::InvisibleBorders(rect) => {
                if !rect.check_bounded() {
                    return Err(WmError::GeometryOutOfRange);
                }
                self.invisible_borders = rect;
            },
            SocketMessage::WorkAreaOffset(rect) => {
                if !rect.check_bounded() {
                    return Err(WmError::GeometryOutOfRange);
                }
                self.work_area_offset = Some(rect);
            },
            SocketMessage::FocusFollowsMouse(implementation, enable) => {
                self.ffm_set_command(
                    implementation,
                    enable,
                    ctx.os_focus_follows_mouse_enabled,
                    actions,
                );
            },
            SocketMessage::ToggleFocusFollowsMouse(implementation) => {
                self.ffm_toggle_command(
                    implementation,
                    ctx.os_focus_follows_mouse_enabled,
                    actions,
                );
            },
            SocketMessage::QuickSave => {
                let copy = self.copy_focused_deltas();
                actions.push(Action::PersistQuicksave(copy));
            },
            SocketMessage::Save(path) => {
                let copy = self.copy_focused_deltas();
                actions.push(Action::PersistSave(path, copy));
            },
            SocketMessage::State => {
                actions.push(Action::RespondState);
            },
            SocketMessage::Query(query) => {
                let response = match self.query_response(query) {
                    Ok(v) => v,
                    Err(e) => {
                        return Err(e);
                    },
                };
                actions.push(Action::RespondQuery(response));
            },
            SocketMessage::ReloadConfiguration => {
                actions.push(Action::ReloadConfiguration);
            },
            SocketMessage::WatchConfiguration(enable) => {
                actions.push(Action::WatchConfiguration(enable));
            },
            SocketMessage::Stop => {
                self.push_show_all(actions);
                let ghost mid = actions@;
                actions.push(Action::Exit);
                proof {
                    assert forall|a: Action| mid.contains(a) implies actions@.contains(a) by {
                        let k = choose|k: int| 0 <= k < mid.len() && mid[k] == a;
                        assert(actions@[k] == a);
                    }
                }
            },
            _ => {},
        }
        Ok(())
    }

    /// Applies a command that navigates or edits the monitor tree. Other
    /// commands are ignored (the dispatcher never sends one). Appended
    /// actions never touch the OS focus-follows-mouse setting.
    #[verifier::rlimit(100)]
    #[verifier::spinoff_prover]
    fn dispatch_tree(
        &mut self,
        message: SocketMessage,
        ctx: &ExternalContext,
        actions: &mut Vec<Action>,
    ) -> (r: Result<(), WmError>)
        requires
            old(self).wf(),
            old(actions)@.len() == 0,
        ensures
            final(self).wf(),
            WindowManager::frame_globals(*old(self), *final(self)),
            r is Err ==> *final(self) == *old(self) && final(actions)@ == old(actions)@,
            forall|k: int| 0 <= k < final(actions)@.len() ==> benign_ffm_action(final(actions)@[k]),
            message matches SocketMessage::FocusMonitorNumber(i) ==> ((i < old(
                self,
            ).monitors@.len() ==> r is Ok && final(self).focused_monitor_idx == i) && (i >= old(
                self,
            ).monitors@.len() ==> r == Err::<(), WmError>(WmError::NoMonitor))),
            message is QuickLoad ==> spec_loaded_resize(
                *old(self),
                *final(self),
                r,
                ctx.loaded_resize,
                WmError::NoQuicksave,
            ),
            message is Load ==> spec_loaded_resize(
                *old(self),
                *final(self),
                r,
                ctx.loaded_resize,
                WmError::NoFile,
            ),
            is_focused_ws_command(message) ==> only_focused_ws_changed(*old(self), *final(self))
                && focused_ws_transition(
                message,
                old(self).spec_focused_workspace(),
                final(self).spec_focused_workspace(),
                r,
            ),
            targeted_ws_transition(message, *old(self), *final(self), r),
            message matches SocketMessage::MoveContainerToWorkspaceNumber(w)
                ==> spec_moved_to_workspace(*old(self), *final(self), r, w, true),
            message matches SocketMessage::SendContainerToWorkspaceNumber(w)
                ==> spec_moved_to_workspace(*old(self), *final(self), r, w, false),
            message matches SocketMessage::MoveContainerToMonitorNumber(m)
                ==> spec_moved_to_monitor(*old(self), *final(self), r, m, true),
            message matches SocketMessage::SendContainerToMonitorNumber(m)
                ==> spec_moved_to_monitor(*old(self), *final(self), r, m, false),
            message matches SocketMessage::CycleFocusWorkspace(d) ==> spec_cursor_workspace_cycle(
                *old(self),
                *final(self),
                r,
                d,
                ctx.cursor_pos,
            ),
            message matches SocketMessage::FocusWorkspaceNumber(idx)
                ==> spec_cursor_workspace_focus(*old(self), *final(self), r, idx, ctx.cursor_pos),
            message matches SocketMessage::CycleFocusMonitor(d) ==> (r is Ok && final(self).focused_monitor_idx == spec_next_idx(
                d,
                old(self).focused_monitor_idx as nat,
                old(self).monitors@.len(),
            ) && final(self).monitors == old(self).monitors),
            message is Retile ==> (r is Ok && *final(self) == *old(self) && final(actions)@
                == old(actions)@),
            message is NewWorkspace ==> ({
                let fmi = old(self).focused_monitor_idx as int;
                let m0 = old(self).monitors@[fmi];
                &&& (m0.workspaces@.len() == usize::MAX ==> r == Err::<(), WmError>(
                    WmError::NoWorkspace,
                ) && *final(self) == *old(self))
                &&& (m0.workspaces@.len() < usize::MAX ==> {
                    let m1 = final(self).monitors@[fmi];
                    &&& r == Ok::<(), WmError>(())
                    &&& m1.workspaces@.len() == m0.workspaces@.len() + 1
                    &&& m1.focused_workspace_idx == m0.workspaces@.len()
                    &&& (forall|k: int|
                        0 <= k < m0.workspaces@.len() ==> m1.workspaces@[k] == m0.workspaces@[k])
                    &&& final(self).focused_monitor_idx == old(self).focused_monitor_idx
                })
            }),
            message is ManageFocusedWindow ==> ((ctx.focused_os_window is None ==> r == Err::<
                (),
                WmError,
            >(WmError::NoWindow) && *final(self) == *old(self)) && (
            ctx.focused_os_window matches Some(w) ==> r is Ok && only_focused_ws_changed(
                *old(self),
                *final(self),
            ) && spec_managed_window(
                old(self).spec_focused_workspace(),
                final(self).spec_focused_workspace(),
                w,
                old(self).rules.float_identifiers@,
            ))),
    {
        match message {
            SocketMessage::MoveContainerToWorkspaceNumber(w) => {
                let res = self.move_container_to_workspace(w, true);
                if let Err(e) = res {
                    return Err(e);
                }
            },
            SocketMessage::SendContainerToWorkspaceNumber(w) => {
                let res = self.move_container_to_workspace(w, false);
                if let Err(e) = res {
                    return Err(e);
                }
            },
            SocketMessage::MoveContainerToMonitorNumber(m) => {
                let res = self.move_container_to_monitor(m, true);
                if let Err(e) = res {
                    return Err(e);
                }
            },
            SocketMessage::SendContainerToMonitorNumber(m) => {
                let res = self.move_container_to_monitor(m, false);
                if let Err(e) = res {
                    return Err(e);
                }
            },
            SocketMessage::CycleFocusMonitor(direction) => {
                let len = self.monitors.len();
                let next = next_idx(direction, self.focused_monitor_idx, len);
                let res = self.focus_monitor(next);
                if let Err(e) = res {
                    proof {
                        assert(false);
                    }
                    return Err(e);
                }
            },
            SocketMessage::FocusMonitorNumber(idx) => {
                let res = self.focus_monitor(idx);
                if let Err(e) = res {
                    return Err(e);
                }
            },
            SocketMessage::CycleFocusWorkspace(direction) => {
                let p = match ctx.cursor_pos {
                    Some(p) => p,
                    None => {
                        return Err(WmError::NoMonitorAtCursor);
                    },
                };
                let midx = match self.monitor_idx_from_point(p) {
                    Some(i) => i,
                    None => {
                        return Err(WmError::NoMonitorAtCursor);
                    },
                };
                let res = self.focus_monitor(midx);
                if let Err(e) = res {
                    proof {
                        assert(false);
                    }
                    return Err(e);
                }
                let fmi = self.focused_monitor_idx;
                let fwi = self.monitors[fmi].focused_workspace_idx;
                let wslen = self.monitors[fmi].workspaces.len();
                let next = next_idx(direction, fwi, wslen);
                let res2 = self.focus_workspace(next);
                if let Err(e) = res2 {
                    proof {
                        assert(false);
                    }
                    return Err(e);
                }
            },
            SocketMessage::FocusWorkspaceNumber(idx) => {
                if idx == usize::MAX {
                    return Err(WmError::NoWorkspace);
                }
                let p = match ctx.cursor_pos {
                    Some(p) => p,
                    None => {
                        return Err(WmError::NoMonitorAtCursor);
                    },
                };
                let midx = match self.monitor_idx_from_point(p) {
                    Some(i) => i,
                    None => {
                        return Err(WmError::NoMonitorAtCursor);
                    },
                };
                let res = self.focus_monitor(midx);
                if let Err(e) = res {
                    proof {
                        assert(false);
                    }
                    return Err(e);
                }
                let res2 = self.focus_workspace(idx);
                if let Err(e) = res2 {
                    proof {
                        assert(false);
                    }
                    return Err(e);
                }
            },
            SocketMessage::NewWorkspace => {
                let fmi = self.focused_monitor_idx;
                let len = self.monitors[fmi].workspaces.len();
                if len == usize::MAX {
                    return Err(WmError::NoWorkspace);
                }
                self.monitors[fmi].focus_workspace(len);
            },
            SocketMessage::Retile => {
                // The shell recomputes geometry from the updated model; the
                // engine's model is unchanged by a retile request.
            },
            SocketMessage::ManageFocusedWindow => {
                match &ctx.focused_os_window {
                    None => {
                        return Err(WmError::NoWindow);
                    },
                    Some(w) => {
                        let win = Window {
                            hwnd: w.hwnd,
                            exe: w.exe.clone(),
                            class: w.class.clone(),
                            title: w.title.clone(),
                        };
                        self.manage_window_command(&win);
                    },
                }
            },
            SocketMessage::QuickLoad => {
                let res = self.load_resize_command(&ctx.loaded_resize, WmError::NoQuicksave);
                if let Err(e) = res {
                    return Err(e);
                }
            },
            SocketMessage::Load(_path) => {
                let res = self.load_resize_command(&ctx.loaded_resize, WmError::NoFile);
                if let Err(e) = res {
                    return Err(e);
                }
            },
            _ => {
                let is_targeted = matches!(message, SocketMessage::ContainerPadding(_, _, _))
                    || matches!(message, SocketMessage::WorkspacePadding(_, _, _)) || matches!(
                    message,
                    SocketMessage::WorkspaceName(_, _, _),
                ) || matches!(message, SocketMessage::WorkspaceTiling(_, _, _)) || matches!(
                    message,
                    SocketMessage::WorkspaceLayout(_, _, _),
                ) || matches!(message, SocketMessage::WorkspaceLayoutCustom(_, _, _)) || matches!(
                    message,
                    SocketMessage::EnsureWorkspaces(_, _),
                );
                let is_config = matches!(message, SocketMessage::ToggleTiling) || matches!(
                    message,
                    SocketMessage::AdjustContainerPadding(_, _),
                ) || matches!(message, SocketMessage::AdjustWorkspacePadding(_, _)) || matches!(
                    message,
                    SocketMessage::FlipLayout(_),
                ) || matches!(message, SocketMessage::ChangeLayout(_)) || matches!(
                    message,
                    SocketMessage::ChangeLayoutCustom(_),
                );
                if is_targeted {
                    let res = self.targeted_workspace_command(message);
                    if let Err(e) = res {
                        return Err(e);
                    }
                } else if is_config {
                    let res = self.focused_workspace_config_command(message);
                    if let Err(e) = res {
                        return Err(e);
                    }
                } else {
                    let res = self.focused_workspace_command(message, actions);
                    if let Err(e) = res {
                        return Err(e);
                    }
                }
            },
        }
        Ok(())
    }

    /// Processes one command with exclusive access to the state. Returns
    /// the side effects to perform, or the error that aborted the command
    /// (in which case the state is untouched). While paused, every command
    /// but `TogglePause`, `State` and `Stop` is dropped without effect.
    #[verifier::rlimit(100)]
    #[verifier::spinoff_prover]
    pub fn process_command(&mut self, message: SocketMessage, ctx: &ExternalContext) -> (r: Result<
        ProcessOutcome,
        WmError,
    >)
        requires
            old(self).wf(),
        ensures
            final(self).wf(),
            final(self).custom_ffm == old(self).custom_ffm,
            r is Err ==> *final(self) == *old(self),
            !(message is TogglePause) ==> final(self).is_paused == old(self).is_paused,
            !(message is ToggleMouseFollowsFocus) ==> final(self).mouse_follows_focus == old(
                self,
            ).mouse_follows_focus,
            !(message is FocusFollowsMouse) && !(message is ToggleFocusFollowsMouse) ==> final(self).focus_follows_mouse == old(self).focus_follows_mouse && final(self).has_pending_raise_op == old(self).has_pending_raise_op,
            !is_tree_command(message) && !(message is WorkspaceRule) ==> final(self).monitors
                == old(self).monitors,
            old(self).is_paused && !message.honored_while_paused() ==> (r matches Ok(o)
                && *final(self) == *old(self) && o.actions@.len() == 0 && !o.notify),
            message is TogglePause ==> (r matches Ok(o) && *final(self) == (WindowManager {
                is_paused: !old(self).is_paused,
                ..*old(self)
            }) && o.actions@.len() == 0),
            message is State ==> (r matches Ok(o) && *final(self) == *old(self)
                && o.actions@.len() == 1 && o.actions@[0] is RespondState),
            message is Query ==> *final(self) == *old(self),
            r matches Ok(o) ==> o.notify == (!message.is_introspection() && !(message is Stop)
                && !old(self).is_paused),
            r matches Ok(o) ==> (spec_ffm_consistent(
                old(self).focus_follows_mouse,
                ctx.os_focus_follows_mouse_enabled,
            ) ==> spec_ffm_consistent(
                final(self).focus_follows_mouse,
                os_ffm_after(ctx.os_focus_follows_mouse_enabled, o.actions@),
            )),
            !(message is AddSubscriber) && !(message is RemoveSubscriber) ==> final(self).subscribers == old(self).subscribers,
            !(message is WorkspaceRule) && !(message is ManageRule) && !(message is FloatRule) && !(
            message is IdentifyBorderOverflow) && !(message is IdentifyTrayApplication) ==> final(self).rules == old(self).rules,
            !old(self).is_paused ==> {
                let fmi = old(self).focused_monitor_idx as int;
                let ws0 = old(self).spec_focused_workspace();
                &&& (message is ToggleMouseFollowsFocus ==> (r matches Ok(o) && *final(self) == (
                WindowManager { mouse_follows_focus: !old(self).mouse_follows_focus, ..*old(self) })))
                &&& (message is QuickSave ==> (r matches Ok(o) && *final(self) == *old(self)
                    && o.actions@.len() == 1 && (o.actions@[0] matches Action::PersistQuicksave(v)
                    && v@ == ws0.resize_dimensions@)))
                &&& (message matches SocketMessage::ManageRule(k, id) ==> r is Ok && final(self).rules.manage_identifiers@ == insert_unique_spec(
                    old(self).rules.manage_identifiers@,
                    id,
                ) && final(self).monitors == old(self).monitors)
                &&& (message matches SocketMessage::AddSubscriber(name) ==> (ctx.pipe_handle
                    is None ==> r == Err::<ProcessOutcome, WmError>(WmError::PipeNotCreated)) && (
                ctx.pipe_handle matches Some(h) ==> r is Ok && (!crate::subscribers::has_subscriber(
                    old(self).subscribers.pipes@,
                    name@,
                ) ==> final(self).subscribers.pipes@ == old(self).subscribers.pipes@.push(
                    (name, h),
                ))))
                &&& (message matches SocketMessage::RemoveSubscriber(name) ==> r is Ok && final(self).subscribers.pipes@ == spec_remove_subscriber(
                    old(self).subscribers.pipes@,
                    name@,
                ))
                &&& (message matches SocketMessage::FocusMonitorNumber(i) ==> (i < old(
                    self,
                ).monitors@.len() ==> r is Ok && final(self).focused_monitor_idx == i) && (i >= old(
                    self,
                ).monitors@.len() ==> r == Err::<ProcessOutcome, WmError>(WmError::NoMonitor)))
                &&& (message matches SocketMessage::FocusFollowsMouse(imp, en) && (
                imp is Komorebi) && old(self).custom_ffm && ctx.os_focus_follows_mouse_enabled ==> (
                r matches Ok(o) && *final(self) == *old(self) && o.actions@.len() == 0))
                &&& (message matches SocketMessage::FocusFollowsMouse(imp, en) && (
                imp is Komorebi) && old(self).custom_ffm
                    && !ctx.os_focus_follows_mouse_enabled && !en ==> (r matches Ok(o) && *final(self)
                    == (WindowManager {
                    focus_follows_mouse: None,
                    has_pending_raise_op: false,
                    ..*old(self)
                }) && o.actions@.len() == 0))
                &&& (is_focused_ws_command(message) ==> only_focused_ws_changed(
                    *old(self),
                    *final(self),
                ) && focused_ws_transition(
                    message,
                    ws0,
                    final(self).spec_focused_workspace(),
                    strip_outcome(r),
                ))
                &&& targeted_ws_transition(message, *old(self), *final(self), strip_outcome(r))
                &&& (message matches SocketMessage::MoveContainerToWorkspaceNumber(w)
                    ==> spec_moved_to_workspace(*old(self), *final(self), strip_outcome(r), w, true))
                &&& (message matches SocketMessage::SendContainerToWorkspaceNumber(w)
                    ==> spec_moved_to_workspace(
                    *old(self),
                    *final(self),
                    strip_outcome(r),
                    w,
                    false,
                ))
                &&& (message matches SocketMessage::MoveContainerToMonitorNumber(m)
                    ==> spec_moved_to_monitor(*old(self), *final(self), strip_outcome(r), m, true))
                &&& (message matches SocketMessage::SendContainerToMonitorNumber(m)
                    ==> spec_moved_to_monitor(*old(self), *final(self), strip_outcome(r), m, false))
                &&& (message matches SocketMessage::CycleFocusWorkspace(d)
                    ==> spec_cursor_workspace_cycle(
                    *old(self),
                    *final(self),
                    strip_outcome(r),
                    d,
                    ctx.cursor_pos,
                ))
                &&& (message matches SocketMessage::FocusWorkspaceNumber(idx)
                    ==> spec_cursor_workspace_focus(
                    *old(self),
                    *final(self),
                    strip_outcome(r),
                    idx,
                    ctx.cursor_pos,
                ))
                &&& (message matches SocketMessage::CycleFocusMonitor(d) ==> (r is Ok && final(self).focused_monitor_idx == spec_next_idx(
                    d,
                    old(self).focused_monitor_idx as nat,
                    old(self).monitors@.len(),
                ) && final(self).monitors == old(self).monitors))
                &&& (message is QuickLoad ==> spec_loaded_resize(
                    *old(self),
                    *final(self),
                    strip_outcome(r),
                    ctx.loaded_resize,
                    WmError::NoQuicksave,
                ))
                &&& (message is Load ==> spec_loaded_resize(
                    *old(self),
                    *final(self),
                    strip_outcome(r),
                    ctx.loaded_resize,
                    WmError::NoFile,
                ))
                &&& (message is ManageFocusedWindow ==> ((ctx.focused_os_window is None ==> r
                    == Err::<ProcessOutcome, WmError>(WmError::NoWindow)) && (
                ctx.focused_os_window matches Some(w) ==> r is Ok && only_focused_ws_changed(
                    *old(self),
                    *final(self),
                ) && spec_managed_window(
                    ws0,
                    final(self).spec_focused_workspace(),
                    w,
                    old(self).rules.float_identifiers@,
                ))))
                &&& (message matches SocketMessage::FloatRule(k2, id) ==> (r is Ok && final(self).rules.float_identifiers@ == insert_unique_spec(
                    old(self).rules.float_identifiers@,
                    id,
                )))
                &&& (message matches SocketMessage::IdentifyBorderOverflow(k2, id) ==> (r is Ok
                    && final(self).rules.border_overflow_identifiers@ == insert_unique_spec(
                    old(self).rules.border_overflow_identifiers@,
                    id,
                )))
                &&& (message matches SocketMessage::IdentifyTrayApplication(k2, id) ==> (r is Ok
                    && final(self).rules.tray_and_multi_window_identifiers@ == insert_unique_spec(
                    old(self).rules.tray_and_multi_window_identifiers@,
                    id,
                )))
                &&& (message matches SocketMessage::WorkspaceRule(k2, id, m, w) ==> (r is Ok
                    && crate::rules::has_rule(final(self).rules.workspace_rules@, id@)
                    && crate::rules::rule_target(final(self).rules.workspace_rules@, id@) == (
                    m,
                    w,
                )))
                &&& (message matches SocketMessage::Query(q) ==> ((spec_query_response(
                    *old(self),
                    q,
                ) matches Ok(v) ==> (r matches Ok(o) && o.actions@.len() == 1 && o.actions@[0]
                    == Action::RespondQuery(v))) && (spec_query_response(*old(self), q) matches Err(
                    e,
                ) ==> r == Err::<ProcessOutcome, WmError>(e))))
                &&& (message matches SocketMessage::Save(p) ==> (r matches Ok(o) && *final(self)
                    == *old(self) && o.actions@.len() == 1 && (o.actions@[0]
                    matches Action::PersistSave(p2, v) && p2@ == p@ && v@
                    == ws0.resize_dimensions@)))
                &&& (message is ReloadConfiguration ==> (r matches Ok(o) && *final(self) == *old(
                    self,
                ) && o.actions@.len() == 1 && o.actions@[0] is ReloadConfiguration))
                &&& (message matches SocketMessage::WatchConfiguration(en) ==> (r matches Ok(o)
                    && *final(self) == *old(self) && o.actions@.len() == 1 && o.actions@[0]
                    == Action::WatchConfiguration(en)))
                &&& (message is Retile ==> (r matches Ok(o) && *final(self) == *old(self)
                    && o.actions@.len() == 0))
                &&& (message is Stop ==> (r matches Ok(o) && *final(self) == *old(self)
                    && o.actions@.len() >= 1 && o.actions@.last() == Action::Exit && forall|
                    m: int,
                    w2: int,
                    c: int,
                    x: int,
                |
                    #![auto]
                    0 <= m < old(self).monitors@.len() && 0 <= w2 < old(
                        self,
                    ).monitors@[m].workspaces@.len() && 0 <= c < old(
                        self,
                    ).monitors@[m].workspaces@[w2].containers@.len() && 0 <= x < old(
                        self,
                    ).monitors@[m].workspaces@[w2].containers@[c].windows@.len()
                        ==> o.actions@.contains(
                        Action::Show(
                            old(
                                self,
                            ).monitors@[m].workspaces@[w2].containers@[c].windows@[x].hwnd,
                        ),
                    )))
            },
    {
        if self.is_paused && !(matches!(message, SocketMessage::TogglePause)
            || matches!(message, SocketMessage::State) || matches!(message, SocketMessage::Stop)) {
            return Ok(ProcessOutcome { actions: Vec::new(), notify: false });
        }
        let introspection = matches!(message, SocketMessage::State) || matches!(
            message,
            SocketMessage::Query(_),
        );
        let stopping = matches!(message, SocketMessage::Stop);
        let was_paused = self.is_paused;
        let is_global = matches!(message, SocketMessage::TogglePause) || matches!(
            message,
            SocketMessage::ToggleMouseFollowsFocus,
        ) || matches!(message, SocketMessage::WorkspaceRule(_, _, _, _)) || matches!(
            message,
            SocketMessage::ManageRule(_, _),
        ) || matches!(message, SocketMessage::FloatRule(_, _)) || matches!(
            message,
            SocketMessage::IdentifyBorderOverflow(_, _),
        ) || matches!(message, SocketMessage::IdentifyTrayApplication(_, _)) || matches!(
            message,
            SocketMessage::AddSubscriber(_),
        ) || matches!(message, SocketMessage::RemoveSubscriber(_)) || matches!(
            message,
            SocketMessage::FocusFollowsMouse(_, _),
        ) || matches!(message, SocketMessage::ToggleFocusFollowsMouse(_)) || matches!(
            message,
            SocketMessage::QuickSave,
        ) || matches!(message, SocketMessage::Save(_)) || matches!(message, SocketMessage::State)
            || matches!(message, SocketMessage::Query(_)) || matches!(
            message,
            SocketMessage::ReloadConfiguration,
        ) || matches!(message, SocketMessage::WatchConfiguration(_)) || matches!(
            message,
            SocketMessage::Stop,
        ) || matches!(message, SocketMessage::InvisibleBorders(_)) || matches!(
            message,
            SocketMessage::WorkAreaOffset(_),
        );
        let mut actions: Vec<Action> = Vec::new();
        let res = if is_global {
            self.dispatch_global(message, ctx, &mut actions)
        } else {
            self.dispatch_tree(message, ctx, &mut actions)
        };
        if let Err(e) = res {
            return Err(e);
        }
        let notify = !was_paused && !introspection && !stopping;
        proof {
            if !(message is FocusFollowsMouse) && !(message is ToggleFocusFollowsMouse) {
                lemma_os_ffm_after_benign(ctx.os_focus_follows_mouse_enabled, actions@);
            }
        }
        Ok(ProcessOutcome { actions, notify })
    }
}


/// The padding value after one adjustment step, clamped to the padding
/// bound.
pub open spec fn spec_adjust_padding(cur: int, sizing: Sizing, adjustment: int) -> i32 {
    let v = match sizing {
        Sizing::Increase => cur + adjustment,
        Sizing::Decrease => cur - adjustment,
    };
    if v < -PADDING_LIMIT {
        (-PADDING_LIMIT) as i32
    } else if v > PADDING_LIMIT {
        PADDING_LIMIT
    } else {
        v as i32
    }
}

/// Adjusts a padding by a signed step, clamped to the padding bound.
fn adjust_padding(cur: i32, sizing: Sizing, adjustment: i32) -> (r: i32)
    ensures
        r == spec_adjust_padding(cur as int, sizing, adjustment as int),
        -PADDING_LIMIT <= r <= PADDING_LIMIT,
{
    let wide: i64 = match sizing {
        Sizing::Increase => cur as i64 + adjustment as i64,
        Sizing::Decrease => cur as i64 - adjustment as i64,
    };
    if wide < -(PADDING_LIMIT as i64) {
        -PADDING_LIMIT
    } else if wide > PADDING_LIMIT as i64 {
        PADDING_LIMIT
    } else {
        wide as i32
    }
}

/// The combined flip after applying `axis` on top of `cur`: each named
/// axis toggles independently.
pub open spec fn spec_combine_flip(cur: Option<LayoutFlip>, axis: LayoutFlip) -> Option<
    LayoutFlip,
> {
    let h0 = cur == Some(LayoutFlip::Horizontal) || cur == Some(LayoutFlip::HorizontalAndVertical);
    let v0 = cur == Some(LayoutFlip::Vertical) || cur == Some(LayoutFlip::HorizontalAndVertical);
    let dh = axis == LayoutFlip::Horizontal || axis == LayoutFlip::HorizontalAndVertical;
    let dv = axis == LayoutFlip::Vertical || axis == LayoutFlip::HorizontalAndVertical;
    let h = h0 != dh;
    let v = v0 != dv;
    if h && v {
        Some(LayoutFlip::HorizontalAndVertical)
    } else if h {
        Some(LayoutFlip::Horizontal)
    } else if v {
        Some(LayoutFlip::Vertical)
    } else {
        None
    }
}

/// Applies one flip command on top of the current flip state.
fn combine_flip(cur: Option<LayoutFlip>, axis: LayoutFlip) -> (r: Option<LayoutFlip>)
    ensures
        r == spec_combine_flip(cur, axis),
{
    let h0 = matches!(cur, Option::Some(LayoutFlip::Horizontal)) || matches!(
        cur,
        Option::Some(LayoutFlip::HorizontalAndVertical),
    );
    let v0 = matches!(cur, Option::Some(LayoutFlip::Vertical)) || matches!(
        cur,
        Option::Some(LayoutFlip::HorizontalAndVertical),
    );
    let dh = matches!(axis, LayoutFlip::Horizontal) || matches!(
        axis,
        LayoutFlip::HorizontalAndVertical,
    );
    let dv = matches!(axis, LayoutFlip::Vertical) || matches!(
        axis,
        LayoutFlip::HorizontalAndVertical,
    );
    let h = h0 != dh;
    let v = v0 != dv;
    if h && v {
        Some(LayoutFlip::HorizontalAndVertical)
    } else if h {
        Some(LayoutFlip::Horizontal)
    } else if v {
        Some(LayoutFlip::Vertical)
    } else {
        None
    }
}

/// Copies a resize-delta sequence element by element.
fn copy_deltas(v: &Vec<Option<Rect>>) -> (r: Vec<Option<Rect>>)
    ensures
        r@ == v@,
{
    let mut out: Vec<Option<Rect>> = Vec::new();
    let mut i: usize = 0;
    while i < v.len()
        invariant
            i <= v@.len(),
            out@ == v@.subrange(0, i as int),
        decreases v@.len() - i,
    {
        out.push(v[i]);
        proof {
            assert(out@ =~= v@.subrange(0, i + 1 as int));
        }
        i += 1;
    }
    proof {
        assert(out@ =~= v@);
    }
    out
}

/// Whether every delta is within the coordinate bound.
fn deltas_bounded(v: &Vec<Option<Rect>>) -> (r: bool)
    ensures
        r == (forall|i: int| 0 <= i < v@.len() ==> delta_bounded(v@[i])),
{
    let mut i: usize = 0;
    while i < v.len()
        invariant
            i <= v@.len(),
            forall|j: int| 0 <= j < i ==> delta_bounded(v@[j]),
        decreases v@.len() - i,
    {
        let ok = match v[i] {
            Some(rect) => rect.check_bounded(),
            None => true,
        };
        if !ok {
            return false;
        }
        i += 1;
    }
    true
}

/// Whether any identifier of the list classifies the window.
fn window_matches_any(w: &crate::model::Window, ids: &Vec<String>) -> (r: bool)
    ensures
        r == exists|i: int| 0 <= i < ids@.len() && w.spec_matches_id(ids@[i]@),
{
    let mut i: usize = 0;
    while i < ids.len()
        invariant
            i <= ids@.len(),
            forall|j: int| 0 <= j < i ==> !w.spec_matches_id(ids@[j]@),
        decreases ids@.len() - i,
    {
        if w.matches_identifier(&ids[i]) {
            return true;
        }
        i += 1;
    }
    false
}

} // verus!
