//! The hierarchical domain model: monitors own workspaces, workspaces own
//! containers, containers stack windows. The tree is a pure ownership
//! hierarchy; navigation is by index, and every focus index is kept in
//! range by the well-formedness invariant.

use vstd::prelude::*;
use crate::commands::Layout;
use crate::commands::LayoutFlip;
use crate::commands::Sizing;
use crate::commands::OperationDirection;
use crate::errors::WmError;
use crate::rect::delta_bounded;
use crate::rect::Rect;
use crate::rect::COORD_LIMIT;
use crate::rect::PADDING_LIMIT;
use crate::ring::next_idx;
use crate::ring::spec_next_idx;
use crate::ring::CycleDirection;

verus! {

/// A managed top-level window: its opaque OS handle and the classifying
/// identifiers used to match rule tables.
#[derive(Clone, Debug)]
pub struct Window {
    pub hwnd: u64,
    pub exe: String,
    pub class: String,
    pub title: String,
}

impl Window {
    /// Whether a rule identifier classifies this window.
    pub open spec fn spec_matches_id(self, id: Seq<char>) -> bool {
        ||| self.exe@ == id
        ||| self.class@ == id
        ||| self.title@ == id
    }

    pub fn matches_identifier(&self, id: &String) -> (r: bool)
        ensures
            r == self.spec_matches_id(id@),
    {
        self.exe == *id || self.class == *id || self.title == *id
    }
}

/// A stack of windows occupying a single tile.
#[derive(Clone, Debug)]
pub struct Container {
    pub windows: Vec<Window>,
    pub focused_window_idx: usize,
    pub floating: bool,
}

impl Container {
    pub open spec fn wf(self) -> bool {
        if self.windows@.len() == 0 {
            self.focused_window_idx == 0
        } else {
            self.focused_window_idx < self.windows@.len()
        }
    }

    pub fn new_with_window(w: Window, floating: bool) -> (r: Container)
        ensures
            r.wf(),
            r.windows@ == Seq::<Window>::empty().push(w),
            r.focused_window_idx == 0,
            r.floating == floating,
    {
        let mut windows: Vec<Window> = Vec::new();
        windows.push(w);
        Container { windows, focused_window_idx: 0, floating }
    }
}

/// Swaps two distinct elements of a vector in place.
pub fn swap_vec_elements<T>(v: &mut Vec<T>, a: usize, b: usize)
    requires
        a < old(v)@.len(),
        b < old(v)@.len(),
        a != b,
    ensures
        final(v)@ == old(v)@.update(a as int, old(v)@[b as int]).update(b as int, old(v)@[a as int]),
{
    let ghost pre = v@;
    let (lo, hi) = if a < b {
        (a, b)
    } else {
        (b, a)
    };
    let x_hi = v.remove(hi);
    let x_lo = v.remove(lo);
    v.insert(lo, x_hi);
    v.insert(hi, x_lo);
    proof {
        assert(v@ =~= pre.update(a as int, pre[b as int]).update(b as int, pre[a as int]));
    }
}

/// Fields of a workspace that no container operation changes.
pub open spec fn same_workspace_config(a: Workspace, b: Workspace) -> bool {
    &&& a.name == b.name
    &&& a.layout == b.layout
    &&& a.custom_layout == b.custom_layout
    &&& a.layout_flip == b.layout_flip
    &&& a.tile == b.tile
    &&& a.container_padding == b.container_padding
    &&& a.workspace_padding == b.workspace_padding
}

/// A named virtual desktop on a single monitor hosting an ordered list of
/// containers under a layout. `resize_dimensions` is a parallel sequence of
/// optional per-container deltas modifying the default layout tiles.
#[derive(Clone, Debug)]
pub struct Workspace {
    pub name: Option<String>,
    pub layout: Layout,
    /// A reference (path) to a custom layout, overriding `layout` when set.
    pub custom_layout: Option<String>,
    pub layout_flip: Option<LayoutFlip>,
    pub tile: bool,
    pub container_padding: i32,
    pub workspace_padding: i32,
    pub containers: Vec<Container>,
    pub focused_container_idx: usize,
    pub resize_dimensions: Vec<Option<Rect>>,
    /// A container shown alone on top of the layout, by index.
    pub monocle_container_idx: Option<usize>,
    /// The OS handle of a window the user maximized, if any.
    pub maximized_window: Option<u64>,
}

impl Workspace {
    pub open spec fn wf(self) -> bool {
        &&& if self.containers@.len() == 0 {
            self.focused_container_idx == 0
        } else {
            self.focused_container_idx < self.containers@.len()
        }
        &&& forall|i: int| 0 <= i < self.containers@.len() ==> self.containers@[i].wf()
        &&& self.resize_dimensions@.len() == self.containers@.len()
        &&& forall|i: int|
            0 <= i < self.resize_dimensions@.len() ==> delta_bounded(self.resize_dimensions@[i])
        &&& -PADDING_LIMIT <= self.container_padding <= PADDING_LIMIT
        &&& -PADDING_LIMIT <= self.workspace_padding <= PADDING_LIMIT
        &&& match self.monocle_container_idx {
            Some(i) => i < self.containers@.len(),
            None => true,
        }
    }

    /// A fresh workspace: tiling enabled, default layout, default paddings.
    pub fn default_workspace() -> (r: Workspace)
        ensures
            r.wf(),
            r.containers@.len() == 0,
            r.focused_container_idx == 0,
            r.tile,
            r.layout == Layout::Bsp,
            r.name is None,
            r.monocle_container_idx is None,
            r.maximized_window is None,
            r.resize_dimensions@.len() == 0,
    {
        Workspace {
            name: None,
            layout: Layout::Bsp,
            custom_layout: None,
            layout_flip: None,
            tile: true,
            container_padding: 10,
            workspace_padding: 10,
            containers: Vec::new(),
            focused_container_idx: 0,
            resize_dimensions: Vec::new(),
            monocle_container_idx: None,
            maximized_window: None,
        }
    }

    /// Focus the next/previous container around the ring.
    pub fn focus_container_in_cycle_direction(&mut self, dir: CycleDirection) -> (r: Result<
        (),
        WmError,
    >)
        requires
            old(self).wf(),
        ensures
            final(self).wf(),
            old(self).containers@.len() == 0 ==> r == Err::<(), WmError>(WmError::NoContainer)
                && *final(self) == *old(self),
            old(self).containers@.len() > 0 ==> r == Ok::<(), WmError>(()) && *final(self) == (
            Workspace {
                focused_container_idx: spec_next_idx(
                    dir,
                    old(self).focused_container_idx as nat,
                    old(self).containers@.len(),
                ) as usize,
                ..*old(self)
            }),
    {
        let len = self.containers.len();
        if len == 0 {
            return Err(WmError::NoContainer);
        }
        self.focused_container_idx = next_idx(dir, self.focused_container_idx, len);
        Ok(())
    }

    /// Swap the focused container (and its resize delta) with the ring
    /// neighbour in `dir`, and follow it with workspace-local focus.
    #[verifier::rlimit(100)]
    pub fn move_container_in_cycle_direction(&mut self, dir: CycleDirection) -> (r: Result<
        (),
        WmError,
    >)
        requires
            old(self).wf(),
        ensures
            final(self).wf(),
            old(self).containers@.len() == 0 ==> r == Err::<(), WmError>(WmError::NoContainer)
                && *final(self) == *old(self),
            old(self).containers@.len() > 0 ==> {
                let src = old(self).focused_container_idx as int;
                let dst = spec_next_idx(
                    dir,
                    old(self).focused_container_idx as nat,
                    old(self).containers@.len(),
                ) as int;
                &&& r == Ok::<(), WmError>(())
                &&& final(self).focused_container_idx == dst
                &&& final(self).containers@ == old(self).containers@.update(
                    src,
                    old(self).containers@[dst],
                ).update(dst, old(self).containers@[src])
                &&& final(self).resize_dimensions@ == old(self).resize_dimensions@.update(
                    src,
                    old(self).resize_dimensions@[dst],
                ).update(dst, old(self).resize_dimensions@[src])
                &&& same_workspace_config(*old(self), *final(self))
                &&& final(self).monocle_container_idx == old(self).monocle_container_idx
                &&& final(self).maximized_window == old(self).maximized_window
            },
    {
        let len = self.containers.len();
        if len == 0 {
            return Err(WmError::NoContainer);
        }
        let src = self.focused_container_idx;
        let dst = next_idx(dir, src, len);
        let ghost pre = self.containers@;
        let ghost pred = self.resize_dimensions@;
        if src != dst {
            swap_vec_elements(&mut self.containers, src, dst);
            swap_vec_elements(&mut self.resize_dimensions, src, dst);
        } else {
            proof {
                assert(self.containers@ =~= pre.update(src as int, pre[src as int]));
                assert(self.resize_dimensions@ =~= pred.update(src as int, pred[src as int]));
            }
        }
        self.focused_container_idx = dst;
        Ok(())
    }

    /// Cycle window focus within the focused container.
    pub fn cycle_focused_container_window(&mut self, dir: CycleDirection) -> (r: Result<
        (),
        WmError,
    >)
        requires
            old(self).wf(),
        ensures
            final(self).wf(),
            old(self).containers@.len() == 0 ==> r == Err::<(), WmError>(WmError::NoContainer)
                && *final(self) == *old(self),
            old(self).containers@.len() > 0 && old(self).containers@[old(
                self,
            ).focused_container_idx as int].windows@.len() == 0 ==> r == Err::<(), WmError>(
                WmError::NoWindow,
            ) && *final(self) == *old(self),
            old(self).containers@.len() > 0 && old(self).containers@[old(
                self,
            ).focused_container_idx as int].windows@.len() > 0 ==> {
                let fci = old(self).focused_container_idx as int;
                let c = old(self).containers@[fci];
                &&& r == Ok::<(), WmError>(())
                &&& final(self).containers@ == old(self).containers@.update(
                    fci,
                    Container {
                        focused_window_idx: spec_next_idx(
                            dir,
                            c.focused_window_idx as nat,
                            c.windows@.len(),
                        ) as usize,
                        ..c
                    },
                )
                &&& final(self).focused_container_idx == old(self).focused_container_idx
                &&& final(self).resize_dimensions@ == old(self).resize_dimensions@
                &&& same_workspace_config(*old(self), *final(self))
                &&& final(self).monocle_container_idx == old(self).monocle_container_idx
                &&& final(self).maximized_window == old(self).maximized_window
            },
    {
        if self.containers.len() == 0 {
            return Err(WmError::NoContainer);
        }
        let fci = self.focused_container_idx;
        let wlen = self.containers[fci].windows.len();
        if wlen == 0 {
            return Err(WmError::NoWindow);
        }
        let cur = self.containers[fci].focused_window_idx;
        self.containers[fci].focused_window_idx = next_idx(dir, cur, wlen);
        Ok(())
    }

    /// Move the focused container (and its delta) to the front and focus it.
    pub fn promote_focused_container(&mut self) -> (r: Result<(), WmError>)
        requires
            old(self).wf(),
        ensures
            final(self).wf(),
            old(self).containers@.len() == 0 ==> r == Err::<(), WmError>(WmError::NoContainer)
                && *final(self) == *old(self),
            old(self).containers@.len() > 0 ==> {
                let fci = old(self).focused_container_idx as int;
                &&& r == Ok::<(), WmError>(())
                &&& final(self).containers@ == seq![old(self).containers@[fci]] + old(
                    self,
                ).containers@.remove(fci)
                &&& final(self).resize_dimensions@ == seq![old(self).resize_dimensions@[fci]] + old(
                    self,
                ).resize_dimensions@.remove(fci)
                &&& final(self).focused_container_idx == 0
                &&& same_workspace_config(*old(self), *final(self))
                &&& final(self).maximized_window == old(self).maximized_window
            },
    {
        if self.containers.len() == 0 {
            return Err(WmError::NoContainer);
        }
        let fci = self.focused_container_idx;
        let c = self.containers.remove(fci);
        self.containers.insert(0, c);
        let d = self.resize_dimensions.remove(fci);
        self.resize_dimensions.insert(0, d);
        self.focused_container_idx = 0;
        self.monocle_container_idx = None;
        proof {
            assert(self.containers@ =~= seq![old(self).containers@[fci as int]] + old(
                self,
            ).containers@.remove(fci as int));
            assert(self.resize_dimensions@ =~= seq![old(self).resize_dimensions@[fci as int]] + old(
                self,
            ).resize_dimensions@.remove(fci as int));
        }
        Ok(())
    }

    /// Toggle the floating flag of the focused container.
    pub fn toggle_float_focused(&mut self) -> (r: Result<(), WmError>)
        requires
            old(self).wf(),
        ensures
            final(self).wf(),
            old(self).containers@.len() == 0 ==> r == Err::<(), WmError>(WmError::NoContainer)
                && *final(self) == *old(self),
            old(self).containers@.len() > 0 ==> {
                let fci = old(self).focused_container_idx as int;
                let c = old(self).containers@[fci];
                &&& r == Ok::<(), WmError>(())
                &&& final(self).containers@ == old(self).containers@.update(
                    fci,
                    Container { floating: !c.floating, ..c },
                )
                &&& final(self).focused_container_idx == old(self).focused_container_idx
                &&& final(self).resize_dimensions@ == old(self).resize_dimensions@
                &&& same_workspace_config(*old(self), *final(self))
                &&& final(self).monocle_container_idx == old(self).monocle_container_idx
                &&& final(self).maximized_window == old(self).maximized_window
            },
    {
        if self.containers.len() == 0 {
            return Err(WmError::NoContainer);
        }
        let fci = self.focused_container_idx;
        let cur = self.containers[fci].floating;
        self.containers[fci].floating = !cur;
        Ok(())
    }

    /// Toggle monocle on the focused container.
    pub fn toggle_monocle(&mut self) -> (r: Result<(), WmError>)
        requires
            old(self).wf(),
        ensures
            final(self).wf(),
            old(self).monocle_container_idx is None && old(self).containers@.len() == 0 ==> r
                == Err::<(), WmError>(WmError::NoContainer) && *final(self) == *old(self),
            old(self).monocle_container_idx is None && old(self).containers@.len() > 0 ==> r
                == Ok::<(), WmError>(()) && *final(self) == (Workspace {
                monocle_container_idx: Some(old(self).focused_container_idx),
                ..*old(self)
            }),
            old(self).monocle_container_idx is Some ==> r == Ok::<(), WmError>(()) && *final(self)
                == (Workspace { monocle_container_idx: None, ..*old(self) }),
    {
        match self.monocle_container_idx {
            None => {
                if self.containers.len() == 0 {
                    return Err(WmError::NoContainer);
                }
                self.monocle_container_idx = Some(self.focused_container_idx);
            },
            Some(_) => {
                self.monocle_container_idx = None;
            },
        }
        Ok(())
    }

    /// Toggle maximize on the focused window; returns the window handle and
    /// whether it is now maximized.
    pub fn toggle_maximize(&mut self) -> (r: Result<(u64, bool), WmError>)
        requires
            old(self).wf(),
        ensures
            final(self).wf(),
            r is Err ==> *final(self) == *old(self),
            old(self).maximized_window matches Some(h) ==> r == Ok::<(u64, bool), WmError>(
                (h, false),
            ) && *final(self) == (Workspace { maximized_window: None, ..*old(self) }),
            old(self).maximized_window is None && old(self).containers@.len() == 0 ==> r
                == Err::<(u64, bool), WmError>(WmError::NoContainer),
            old(self).maximized_window is None && old(self).containers@.len() > 0 && old(
                self,
            ).containers@[old(self).focused_container_idx as int].windows@.len() == 0 ==> r
                == Err::<(u64, bool), WmError>(WmError::NoWindow),
            old(self).maximized_window is None && old(self).containers@.len() > 0 && old(
                self,
            ).containers@[old(self).focused_container_idx as int].windows@.len() > 0 ==> {
                let c = old(self).containers@[old(self).focused_container_idx as int];
                let h = c.windows@[c.focused_window_idx as int].hwnd;
                &&& r == Ok::<(u64, bool), WmError>((h, true))
                &&& *final(self) == (Workspace { maximized_window: Some(h), ..*old(self) })
            },
    {
        match self.maximized_window {
            Some(h) => {
                self.maximized_window = None;
                Ok((h, false))
            },
            None => {
                if self.containers.len() == 0 {
                    return Err(WmError::NoContainer);
                }
                let fci = self.focused_container_idx;
                if self.containers[fci].windows.len() == 0 {
                    return Err(WmError::NoWindow);
                }
                let fwi = self.containers[fci].focused_window_idx;
                let h = self.containers[fci].windows[fwi].hwnd;
                self.maximized_window = Some(h);
                Ok((h, true))
            },
        }
    }

    /// Adjust the focused container's resize delta by `step` pixels on the
    /// edge named by `dir`; `Increase` grows the tile outward, `Decrease`
    /// shrinks it. The delta is clamped to the coordinate bound.
    pub fn resize_focused_delta(&mut self, dir: OperationDirection, sizing: Sizing, step: i32) -> (
    r: Result<(), WmError>)
        requires
            old(self).wf(),
            0 < step <= 1000,
        ensures
            final(self).wf(),
            old(self).containers@.len() == 0 ==> r == Err::<(), WmError>(WmError::NoContainer)
                && *final(self) == *old(self),
            old(self).containers@.len() > 0 ==> {
                let fci = old(self).focused_container_idx as int;
                &&& r == Ok::<(), WmError>(())
                &&& final(self).resize_dimensions@ == old(self).resize_dimensions@.update(
                    fci,
                    Some(
                        spec_adjust_delta(
                            old(self).resize_dimensions@[fci],
                            dir,
                            sizing,
                            step as int,
                        ),
                    ),
                )
                &&& final(self).containers@ == old(self).containers@
                &&& final(self).focused_container_idx == old(self).focused_container_idx
                &&& same_workspace_config(*old(self), *final(self))
                &&& final(self).monocle_container_idx == old(self).monocle_container_idx
                &&& final(self).maximized_window == old(self).maximized_window
            },
    {
        if self.containers.len() == 0 {
            return Err(WmError::NoContainer);
        }
        let fci = self.focused_container_idx;
        let cur: Rect = match self.resize_dimensions[fci] {
            Some(r) => r,
            None => Rect { left: 0, top: 0, right: 0, bottom: 0 },
        };
        let signed_step: i32 = match sizing {
            Sizing::Increase => step,
            Sizing::Decrease => 0 - step,
        };
        let adjusted: Rect = match dir {
            OperationDirection::Left => Rect { left: clamp_coord(cur.left - signed_step), ..cur },
            OperationDirection::Up => Rect { top: clamp_coord(cur.top - signed_step), ..cur },
            OperationDirection::Right => Rect {
                right: clamp_coord(cur.right + signed_step),
                ..cur
            },
            OperationDirection::Down => Rect {
                bottom: clamp_coord(cur.bottom + signed_step),
                ..cur
            },
        };
        self.resize_dimensions[fci] = Some(adjusted);
        Ok(())
    }
}

impl Workspace {
    /// Detach the focused container together with its resize delta.
    /// Workspace-local focus falls back to the nearest remaining container;
    /// monocle is dropped because indices shift.
    pub fn remove_focused_container(&mut self) -> (r: Result<(Container, Option<Rect>), WmError>)
        requires
            old(self).wf(),
        ensures
            final(self).wf(),
            old(self).containers@.len() == 0 ==> r == Err::<(Container, Option<Rect>), WmError>(
                WmError::NoContainer,
            ) && *final(self) == *old(self),
            old(self).containers@.len() > 0 ==> {
                let fci = old(self).focused_container_idx as int;
                &&& r == Ok::<(Container, Option<Rect>), WmError>(
                    (old(self).containers@[fci], old(self).resize_dimensions@[fci]),
                )
                &&& final(self).containers@ == old(self).containers@.remove(fci)
                &&& final(self).resize_dimensions@ == old(self).resize_dimensions@.remove(fci)
                &&& final(self).focused_container_idx == if old(self).containers@.len() == 1 {
                    0int
                } else if fci < old(self).containers@.len() - 1 {
                    fci
                } else {
                    old(self).containers@.len() - 2
                }
                &&& same_workspace_config(*old(self), *final(self))
                &&& final(self).monocle_container_idx is None
                &&& final(self).maximized_window == old(self).maximized_window
            },
    {
        if self.containers.len() == 0 {
            return Err(WmError::NoContainer);
        }
        let fci = self.focused_container_idx;
        let c = self.containers.remove(fci);
        let d = self.resize_dimensions.remove(fci);
        if self.containers.len() == 0 {
            self.focused_container_idx = 0;
        } else if fci >= self.containers.len() {
            self.focused_container_idx = self.containers.len() - 1;
        }
        self.monocle_container_idx = None;
        Ok((c, d))
    }

    /// Append a container (with its resize delta) and focus it.
    pub fn add_container_with_delta(&mut self, c: Container, d: Option<Rect>)
        requires
            old(self).wf(),
            c.wf(),
            delta_bounded(d),
        ensures
            final(self).wf(),
            final(self).containers@ == old(self).containers@.push(c),
            final(self).resize_dimensions@ == old(self).resize_dimensions@.push(d),
            final(self).focused_container_idx == old(self).containers@.len(),
            same_workspace_config(*old(self), *final(self)),
            final(self).monocle_container_idx == old(self).monocle_container_idx,
            final(self).maximized_window == old(self).maximized_window,
    {
        self.containers.push(c);
        self.resize_dimensions.push(d);
        self.focused_container_idx = self.containers.len() - 1;
    }

    /// Remove the focused window from the focused container; an emptied
    /// container is destroyed together with its resize delta. Returns the
    /// handle of the removed window.
    pub fn remove_focused_window(&mut self) -> (r: Result<u64, WmError>)
        requires
            old(self).wf(),
        ensures
            final(self).wf(),
            r is Err ==> *final(self) == *old(self),
            old(self).containers@.len() == 0 ==> r == Err::<u64, WmError>(WmError::NoContainer),
            old(self).containers@.len() > 0 && old(self).containers@[old(
                self,
            ).focused_container_idx as int].windows@.len() == 0 ==> r == Err::<u64, WmError>(
                WmError::NoWindow,
            ),
            old(self).containers@.len() > 0 && old(self).containers@[old(
                self,
            ).focused_container_idx as int].windows@.len() > 0 ==> {
                let fci = old(self).focused_container_idx as int;
                let c = old(self).containers@[fci];
                let fwi = c.focused_window_idx as int;
                &&& r == Ok::<u64, WmError>(c.windows@[fwi].hwnd)
                &&& (c.windows@.len() == 1 ==> final(self).containers@ == old(
                    self,
                ).containers@.remove(fci) && final(self).resize_dimensions@ == old(
                    self,
                ).resize_dimensions@.remove(fci))
                &&& (c.windows@.len() > 1 ==> {
                    let fin = *final(self);
                    &&& fin.containers@ == old(self).containers@.update(
                        fci,
                        fin.containers@[fci],
                    )
                    &&& fin.containers@[fci].windows@ == c.windows@.remove(fwi)
                    &&& fin.containers@[fci].floating == c.floating
                    &&& fin.resize_dimensions@ == old(self).resize_dimensions@
                    &&& fin.focused_container_idx == old(self).focused_container_idx
                })
                &&& same_workspace_config(*old(self), *final(self))
                &&& final(self).maximized_window == old(self).maximized_window
            },
    {
        if self.containers.len() == 0 {
            return Err(WmError::NoContainer);
        }
        let fci = self.focused_container_idx;
        let wlen = self.containers[fci].windows.len();
        if wlen == 0 {
            return Err(WmError::NoWindow);
        }
        let fwi = self.containers[fci].focused_window_idx;
        let hwnd = self.containers[fci].windows[fwi].hwnd;
        if wlen == 1 {
            let _ = self.containers.remove(fci);
            let _ = self.resize_dimensions.remove(fci);
            if self.containers.len() == 0 {
                self.focused_container_idx = 0;
            } else if fci >= self.containers.len() {
                self.focused_container_idx = self.containers.len() - 1;
            }
            self.monocle_container_idx = None;
        } else {
            let _ = self.containers[fci].windows.remove(fwi);
            if fwi >= self.containers[fci].windows.len() {
                self.containers[fci].focused_window_idx = self.containers[fci].windows.len() - 1;
            }
        }
        Ok(hwnd)
    }

    /// Move the focused window onto the stack of the ring-adjacent
    /// container in `dir`, and focus that container. An emptied source
    /// container is destroyed.
    pub fn stack_focused_window(&mut self, dir: CycleDirection) -> (r: Result<(), WmError>)
        requires
            old(self).wf(),
        ensures
            final(self).wf(),
            r is Err ==> *final(self) == *old(self),
            old(self).containers@.len() < 2 ==> r == Err::<(), WmError>(WmError::NoContainer),
            old(self).containers@.len() >= 2 && old(self).containers@[old(
                self,
            ).focused_container_idx as int].windows@.len() == 0 ==> r == Err::<(), WmError>(
                WmError::NoWindow,
            ),
            old(self).containers@.len() >= 2 && old(self).containers@[old(
                self,
            ).focused_container_idx as int].windows@.len() > 0 ==> {
                let fci = old(self).focused_container_idx as int;
                let src = old(self).containers@[fci];
                let w = src.windows@[src.focused_window_idx as int];
                let tgt = spec_next_idx(
                    dir,
                    old(self).focused_container_idx as nat,
                    old(self).containers@.len(),
                ) as int;
                &&& r == Ok::<(), WmError>(())
                &&& final(self).containers@[final(self).focused_container_idx as int].windows@
                    == old(self).containers@[tgt].windows@.push(w)
                &&& (src.windows@.len() == 1 ==> final(self).containers@.len() == old(
                    self,
                ).containers@.len() - 1)
                &&& (src.windows@.len() > 1 ==> final(self).containers@.len() == old(
                    self,
                ).containers@.len() && final(self).containers@[fci].windows@
                    == src.windows@.remove(src.focused_window_idx as int))
                &&& same_workspace_config(*old(self), *final(self))
            },
    {
        let len = self.containers.len();
        if len < 2 {
            return Err(WmError::NoContainer);
        }
        let fci = self.focused_container_idx;
        let wlen = self.containers[fci].windows.len();
        if wlen == 0 {
            return Err(WmError::NoWindow);
        }
        let tgt = next_idx(dir, fci, len);
        let fwi = self.containers[fci].focused_window_idx;
        let w = self.containers[fci].windows.remove(fwi);
        if wlen == 1 {
            // source container emptied: destroy it, target index shifts
            let _ = self.containers.remove(fci);
            let _ = self.resize_dimensions.remove(fci);
            let tgt2: usize = if tgt > fci {
                tgt - 1
            } else {
                tgt
            };
            let new_len = self.containers[tgt2].windows.len();
            self.containers[tgt2].windows.push(w);
            self.containers[tgt2].focused_window_idx = new_len;
            self.focused_container_idx = tgt2;
            self.monocle_container_idx = None;
        } else {
            if fwi >= self.containers[fci].windows.len() {
                self.containers[fci].focused_window_idx = self.containers[fci].windows.len() - 1;
            }
            let new_len = self.containers[tgt].windows.len();
            self.containers[tgt].windows.push(w);
            self.containers[tgt].focused_window_idx = new_len;
            self.focused_container_idx = tgt;
        }
        Ok(())
    }

    /// Pop the focused window out of its stack into a fresh container
    /// placed right after the focused one, and focus the new container.
    pub fn unstack_focused_window(&mut self) -> (r: Result<(), WmError>)
        requires
            old(self).wf(),
        ensures
            final(self).wf(),
            r is Err ==> *final(self) == *old(self),
            old(self).containers@.len() == 0 ==> r == Err::<(), WmError>(WmError::NoContainer),
            old(self).containers@.len() > 0 && old(self).containers@[old(
                self,
            ).focused_container_idx as int].windows@.len() == 0 ==> r == Err::<(), WmError>(
                WmError::NoWindow,
            ),
            old(self).containers@.len() > 0 && old(self).containers@[old(
                self,
            ).focused_container_idx as int].windows@.len() == 1 ==> r == Err::<(), WmError>(
                WmError::SingleWindow,
            ),
            old(self).containers@.len() > 0 && old(self).containers@[old(
                self,
            ).focused_container_idx as int].windows@.len() > 1 ==> {
                let fci = old(self).focused_container_idx as int;
                let src = old(self).containers@[fci];
                let w = src.windows@[src.focused_window_idx as int];
                &&& r == Ok::<(), WmError>(())
                &&& final(self).containers@.len() == old(self).containers@.len() + 1
                &&& final(self).containers@[fci].windows@ == src.windows@.remove(
                    src.focused_window_idx as int,
                )
                &&& final(self).containers@[fci + 1].windows@ == Seq::<Window>::empty().push(w)
                &&& final(self).focused_container_idx == fci + 1
                &&& same_workspace_config(*old(self), *final(self))
            },
    {
        if self.containers.len() == 0 {
            return Err(WmError::NoContainer);
        }
        let fci = self.focused_container_idx;
        let wlen = self.containers[fci].windows.len();
        if wlen == 0 {
            return Err(WmError::NoWindow);
        }
        if wlen == 1 {
            return Err(WmError::SingleWindow);
        }
        let fwi = self.containers[fci].focused_window_idx;
        let w = self.containers[fci].windows.remove(fwi);
        if fwi >= self.containers[fci].windows.len() {
            self.containers[fci].focused_window_idx = self.containers[fci].windows.len() - 1;
        }
        let c = Container::new_with_window(w, false);
        self.containers.insert(fci + 1, c);
        self.resize_dimensions.insert(fci + 1, None);
        self.focused_container_idx = fci + 1;
        self.monocle_container_idx = None;
        Ok(())
    }

    /// Replace the resize-delta sequence, normalizing it to stay parallel
    /// to the containers: surplus entries are dropped, missing ones become
    /// `None`.
    pub fn set_resize_dimensions(&mut self, v: Vec<Option<Rect>>)
        requires
            old(self).wf(),
            forall|i: int| 0 <= i < v@.len() ==> delta_bounded(v@[i]),
        ensures
            final(self).wf(),
            final(self).resize_dimensions@ == spec_normalize_deltas(
                v@,
                old(self).containers@.len(),
            ),
            final(self).containers@ == old(self).containers@,
            final(self).focused_container_idx == old(self).focused_container_idx,
            same_workspace_config(*old(self), *final(self)),
            final(self).monocle_container_idx == old(self).monocle_container_idx,
            final(self).maximized_window == old(self).maximized_window,
    {
        let n = self.containers.len();
        let ghost orig = v@;
        let mut out: Vec<Option<Rect>> = Vec::new();
        let mut i: usize = 0;
        while i < n
            invariant
                out@.len() == i,
                i <= n,
                orig == v@,
                forall|i2: int| 0 <= i2 < orig.len() ==> delta_bounded(orig[i2]),
                forall|j: int|
                    0 <= j < i ==> out@[j] == (if j < orig.len() {
                        orig[j]
                    } else {
                        None::<Rect>
                    }),
            decreases n - i,
        {
            if i < v.len() {
                out.push(v[i]);
            } else {
                out.push(None);
            }
            i += 1;
        }
        self.resize_dimensions = out;
        proof {
            assert(self.resize_dimensions@ =~= spec_normalize_deltas(
                orig,
                old(self).containers@.len(),
            ));
        }
    }
}


impl Workspace {
    /// Detaches every window that a workspace rule routes elsewhere:
    /// each window matching a rule whose target differs from `(here_m,
    /// here_w)` is removed and collected with its target. Emptied
    /// containers are destroyed; focus indices are clamped back into range.
    pub fn extract_rule_matches(
        &mut self,
        rules: &Vec<(String, (usize, usize))>,
        here_m: usize,
        here_w: usize,
        out: &mut Vec<(Window, (usize, usize))>,
    )
        requires
            old(self).wf(),
        ensures
            final(self).wf(),
            same_workspace_config(*old(self), *final(self)),
            final(out)@.len() >= old(out)@.len(),
            forall|k: int| 0 <= k < old(out)@.len() ==> final(out)@[k] == old(out)@[k],
    {
        let mut c: usize = 0;
        while c < self.containers.len()
            invariant
                self.wf(),
                same_workspace_config(*old(self), *self),
                c <= self.containers@.len(),
                out@.len() >= old(out)@.len(),
                forall|k: int| 0 <= k < old(out)@.len() ==> out@[k] == old(out)@[k],
            decreases self.containers@.len() - c,
        {
            let ghost clen = self.containers@.len();
            let mut x: usize = 0;
            while x < self.containers[c].windows.len()
                invariant
                    self.wf(),
                    same_workspace_config(*old(self), *self),
                    c < self.containers@.len(),
                    self.containers@.len() == clen,
                    x <= self.containers@[c as int].windows@.len(),
                    out@.len() >= old(out)@.len(),
                    forall|k: int| 0 <= k < old(out)@.len() ==> out@[k] == old(out)@[k],
                decreases self.containers@[c as int].windows@.len() - x,
            {
                let target = find_rule_target(rules, &self.containers[c].windows[x]);
                let relocate: Option<(usize, usize)> = match target {
                    Some((tm, tw)) => if tm == here_m && tw == here_w {
                        None
                    } else {
                        Some((tm, tw))
                    },
                    None => None,
                };
                match relocate {
                    Some(t) => {
                        let win = self.containers[c].windows.remove(x);
                        let wlen = self.containers[c].windows.len();
                        if wlen > 0 && self.containers[c].focused_window_idx >= wlen {
                            self.containers[c].focused_window_idx = wlen - 1;
                        }
                        if wlen == 0 {
                            self.containers[c].focused_window_idx = 0;
                        }
                        out.push((win, t));
                    },
                    None => {
                        x += 1;
                    },
                }
            }
            if self.containers[c].windows.len() == 0 {
                let _ = self.containers.remove(c);
                let _ = self.resize_dimensions.remove(c);
                if self.containers.len() == 0 {
                    self.focused_container_idx = 0;
                } else if self.focused_container_idx >= self.containers.len() {
                    self.focused_container_idx = self.containers.len() - 1;
                }
                self.monocle_container_idx = None;
            } else {
                c += 1;
            }
        }
    }
}

/// The target of the first workspace rule classifying the window, if any.
pub fn find_rule_target(rules: &Vec<(String, (usize, usize))>, w: &Window) -> (r: Option<
    (usize, usize),
>)
    ensures
        r matches Some(t) ==> exists|i: int|
            0 <= i < rules@.len() && w.spec_matches_id(rules@[i].0@) && rules@[i].1 == t,
        r is None ==> forall|i: int| 0 <= i < rules@.len() ==> !w.spec_matches_id(rules@[i].0@),
{
    let mut i: usize = 0;
    while i < rules.len()
        invariant
            i <= rules@.len(),
            forall|j: int| 0 <= j < i ==> !w.spec_matches_id(rules@[j].0@),
        decreases rules@.len() - i,
    {
        if w.matches_identifier(&rules[i].0) {
            return Some(rules[i].1);
        }
        i += 1;
    }
    None
}

/// A delta sequence cut or padded (with `None`) to length `n`.
pub open spec fn spec_normalize_deltas(s: Seq<Option<Rect>>, n: nat) -> Seq<Option<Rect>> {
    if s.len() >= n {
        s.subrange(0, n as int)
    } else {
        s + Seq::<Option<Rect>>::new((n - s.len()) as nat, |i: int| None)
    }
}

/// The value of a resize delta after one adjustment step.
pub open spec fn spec_adjust_delta(
    cur: Option<Rect>,
    dir: OperationDirection,
    sizing: Sizing,
    step: int,
) -> Rect {
    let base = match cur {
        Some(r) => r,
        None => Rect { left: 0, top: 0, right: 0, bottom: 0 },
    };
    let s = match sizing {
        Sizing::Increase => step,
        Sizing::Decrease => -step,
    };
    match dir {
        OperationDirection::Left => Rect { left: spec_clamp_coord(base.left - s), ..base },
        OperationDirection::Up => Rect { top: spec_clamp_coord(base.top - s), ..base },
        OperationDirection::Right => Rect { right: spec_clamp_coord(base.right + s), ..base },
        OperationDirection::Down => Rect { bottom: spec_clamp_coord(base.bottom + s), ..base },
    }
}

pub open spec fn spec_clamp_coord(v: int) -> i32 {
    if v < -COORD_LIMIT {
        (-COORD_LIMIT) as i32
    } else if v > COORD_LIMIT {
        COORD_LIMIT
    } else {
        v as i32
    }
}

/// Clamps a coordinate into the bound layout arithmetic relies on.
pub fn clamp_coord(v: i32) -> (r: i32)
    ensures
        r == spec_clamp_coord(v as int),
        -COORD_LIMIT <= r <= COORD_LIMIT,
{
    if v < -COORD_LIMIT {
        -COORD_LIMIT
    } else if v > COORD_LIMIT {
        COORD_LIMIT
    } else {
        v
    }
}

/// A physical display: its native id, geometry, and at least one workspace.
#[derive(Clone, Debug)]
pub struct Monitor {
    pub id: u64,
    pub size: Rect,
    pub workspaces: Vec<Workspace>,
    pub focused_workspace_idx: usize,
}

/// Fields of a monitor that workspace operations never change.
pub open spec fn same_monitor_shell(a: Monitor, b: Monitor) -> bool {
    &&& a.id == b.id
    &&& a.size == b.size
}

impl Monitor {
    pub open spec fn wf(self) -> bool {
        &&& self.workspaces@.len() >= 1
        &&& self.focused_workspace_idx < self.workspaces@.len()
        &&& forall|i: int| 0 <= i < self.workspaces@.len() ==> self.workspaces@[i].wf()
        &&& self.size.bounded()
    }

    /// A monitor with one empty default workspace.
    pub fn new(id: u64, size: Rect) -> (r: Monitor)
        requires
            size.bounded(),
        ensures
            r.wf(),
            r.id == id,
            r.size == size,
            r.workspaces@.len() == 1,
            r.focused_workspace_idx == 0,
            r.workspaces@[0].containers@.len() == 0,
    {
        let mut workspaces: Vec<Workspace> = Vec::new();
        workspaces.push(Workspace::default_workspace());
        Monitor { id, size, workspaces, focused_workspace_idx: 0 }
    }

    /// Grows the workspace list with default workspaces until it has at
    /// least `count` entries. Workspaces are created lazily on demand.
    pub fn ensure_workspaces(&mut self, count: usize)
        requires
            old(self).wf(),
        ensures
            final(self).wf(),
            final(self).workspaces@.len() == if old(self).workspaces@.len() >= count {
                old(self).workspaces@.len() as int
            } else {
                count as int
            },
            forall|i: int|
                0 <= i < old(self).workspaces@.len() ==> final(self).workspaces@[i] == old(
                    self,
                ).workspaces@[i],
            forall|i: int|
                old(self).workspaces@.len() <= i && final(self).workspaces@.len() > i ==> final(self).workspaces@[i].containers@.len() == 0 && final(self).workspaces@[i].wf(),
            final(self).focused_workspace_idx == old(self).focused_workspace_idx,
            same_monitor_shell(*old(self), *final(self)),
    {
        while self.workspaces.len() < count
            invariant
                old(self).wf(),
                self.workspaces@.len() >= old(self).workspaces@.len(),
                self.workspaces@.len() <= if old(self).workspaces@.len() >= count {
                    old(self).workspaces@.len() as int
                } else {
                    count as int
                },
                forall|i: int|
                    0 <= i < old(self).workspaces@.len() ==> self.workspaces@[i] == old(
                        self,
                    ).workspaces@[i],
                forall|i: int|
                    old(self).workspaces@.len() <= i < self.workspaces@.len()
                        ==> self.workspaces@[i].containers@.len() == 0 && self.workspaces@[i].wf(),
                self.focused_workspace_idx == old(self).focused_workspace_idx,
                self.id == old(self).id,
                self.size == old(self).size,
            decreases count - self.workspaces@.len(),
        {
            self.workspaces.push(Workspace::default_workspace());
        }
    }

    /// Focuses workspace `idx`, creating intermediate workspaces lazily.
    pub fn focus_workspace(&mut self, idx: usize)
        requires
            old(self).wf(),
            idx < usize::MAX,
        ensures
            final(self).wf(),
            final(self).focused_workspace_idx == idx,
            final(self).workspaces@.len() == if old(self).workspaces@.len() >= idx + 1 {
                old(self).workspaces@.len() as int
            } else {
                idx + 1
            },
            forall|i: int|
                0 <= i < old(self).workspaces@.len() ==> final(self).workspaces@[i] == old(
                    self,
                ).workspaces@[i],
            forall|i: int|
                old(self).workspaces@.len() <= i && final(self).workspaces@.len() > i ==> final(self).workspaces@[i].containers@.len() == 0,
            same_monitor_shell(*old(self), *final(self)),
    {
        self.ensure_workspaces(idx + 1);
        self.focused_workspace_idx = idx;
    }
}

} // verus!
