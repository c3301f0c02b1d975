//! Per-tick propagation of scene-graph changes to already-constructed
//! surfaces.
//!
//! Each tick the host filters its scene nodes down to those whose relevant
//! attribute changed and asks this module what command, if any, to forward to
//! the matching native surface.  All four reactions are pure propagation:
//! they read scene state and produce idempotent commands; none of them ever
//! changes the registry's membership.
//!
//! Geometry convention: a scene node is described by the centre of its
//! rectangle and its pixel extent; a native surface is addressed by the
//! top-left corner, window-relative.  The corner is derived as centre minus
//! half extent.

use vstd::prelude::*;

use crate::WebViewHandle;
use crate::WebViewLocation;

verus! {

/// One idempotent command for an already-registered native surface.
#[derive(Clone, Debug)]
pub enum SurfaceCommand {
    /// Forward new pixel dimensions.
    Resize { width: u32, height: u32 },
    /// Forward a new window-relative top-left position.
    Reposition { x: i32, y: i32 },
    /// Forward navigation to a new URL.
    Navigate { url: String },
}

/// Geometry of a surface-bearing scene node: centre of the rectangle in
/// window coordinates and its pixel extent.
#[derive(Clone, Copy, Debug)]
pub struct NodeGeometry {
    pub center_x: i32,
    pub center_y: i32,
    pub width: u32,
    pub height: u32,
}

/// Top-left coordinate derived from a centre coordinate and an extent.
pub open spec fn top_left(center: int, extent: int) -> int {
    center - extent / 2
}

/// Both derived coordinates of a node stay representable as window-relative
/// positions.
pub open spec fn position_in_range(g: NodeGeometry) -> bool {
    i32::MIN <= top_left(g.center_x as int, g.width as int)
        && i32::MIN <= top_left(g.center_y as int, g.height as int)
}

impl NodeGeometry {
    /// Window-relative top-left corner of the node, centre minus half
    /// extent.
    pub fn top_left_position(&self) -> (r: (i32, i32))
        requires
            position_in_range(*self),
        ensures
            r.0 == top_left(self.center_x as int, self.width as int),
            r.1 == top_left(self.center_y as int, self.height as int),
    {
        let x = self.center_x as i64 - (self.width / 2) as i64;
        let y = self.center_y as i64 - (self.height / 2) as i64;
        (x as i32, y as i32)
    }
}

/// The reactivity half of the system: four independent per-tick reactions,
/// each deciding the command for one node whose relevant attribute changed.
/// The host applies a returned `(index, command)` pair to the surface at
/// that registry index.
pub struct WebViewReactivityPlugin;

impl WebViewReactivityPlugin {
    /// Reaction to a node size change: forward the new pixel dimensions to
    /// the matching surface.  A node whose surface is not yet constructed
    /// (unassigned handle) gets no command.
    pub fn on_webview_resize(handle: WebViewHandle, width: u32, height: u32) -> (r: Option<
        (usize, SurfaceCommand),
    >)
        ensures
            match handle.0 {
                Some(i) => r == Some((i, SurfaceCommand::Resize { width, height })),
                None => r is None,
            },
    {
        match handle.0 {
            Some(i) => Some((i, SurfaceCommand::Resize { width, height })),
            None => None,
        }
    }

    /// Reaction to a change of a node's resolved transform: recompute the
    /// window-relative top-left corner from centre and extent and forward
    /// it.
    pub fn on_webview_reposition(handle: WebViewHandle, geometry: NodeGeometry) -> (r: Option<
        (usize, SurfaceCommand),
    >)
        requires
            handle.0 is Some ==> position_in_range(geometry),
        ensures
            match handle.0 {
                Some(i) => r == Some(
                    (
                        i,
                        SurfaceCommand::Reposition {
                            x: top_left(geometry.center_x as int, geometry.width as int) as i32,
                            y: top_left(geometry.center_y as int, geometry.height as int) as i32,
                        },
                    ),
                ),
                None => r is None,
            },
    {
        match handle.0 {
            Some(i) => {
                let (x, y) = geometry.top_left_position();
                Some((i, SurfaceCommand::Reposition { x, y }))
            },
            None => None,
        }
    }

    /// Reaction to a content-location change.  Only the URL variant supports
    /// redirection after construction: switching to inline markup is a
    /// known-unsupported operation and deliberately produces no command
    /// rather than mutating internal state.
    pub fn on_webview_redirect(handle: WebViewHandle, location: WebViewLocation) -> (r: Option<
        (usize, SurfaceCommand),
    >)
        ensures
            match handle.0 {
                Some(i) => match location {
                    WebViewLocation::Url(url) => r == Some(
                        (i, SurfaceCommand::Navigate { url }),
                    ),
                    WebViewLocation::Html(_) => r is None,
                },
                None => r is None,
            },
    {
        match handle.0 {
            Some(i) => match location {
                WebViewLocation::Url(url) => Some((i, SurfaceCommand::Navigate { url })),
                WebViewLocation::Html(_) => None,
            },
            None => None,
        }
    }

    /// Reaction to a host window resize: because native surface coordinates
    /// are window-relative and do not follow a resized parent, every
    /// surface-bearing node has its position re-derived and forwarded.  With
    /// an empty event batch nothing is issued.
    pub fn on_window_resize(resized: bool, nodes: &Vec<(WebViewHandle, NodeGeometry)>) -> (r: Vec<
        (usize, SurfaceCommand),
    >)
        requires
            forall|i: int|
                0 <= i < nodes@.len() ==> ((#[trigger] nodes@[i]).0.0 is Some
                    ==> position_in_range(nodes@[i].1)),
        ensures
            !resized ==> r@ == Seq::<(usize, SurfaceCommand)>::empty(),
            resized ==> r@ == spec_window_resize_commands(nodes@),
    {
        let mut out: Vec<(usize, SurfaceCommand)> = Vec::new();
        if !resized {
            return out;
        }
        let mut k: usize = 0;
        while k < nodes.len()
            invariant
                k <= nodes@.len(),
                forall|i: int|
                    0 <= i < nodes@.len() ==> ((#[trigger] nodes@[i]).0.0 is Some
                        ==> position_in_range(nodes@[i].1)),
                out@ == spec_window_resize_commands(nodes@.take(k as int)),
            decreases nodes@.len() - k,
        {
            let ghost prefix = nodes@.take(k as int);
            let (handle, geometry) = nodes[k];
            if let Some(pair) = Self::on_webview_reposition(handle, geometry) {
                out.push(pair);
            }
            proof {
                assert(nodes@.take(k as int + 1).drop_last() =~= prefix);
                assert(nodes@.take(k as int + 1).last() == nodes@[k as int]);
            }
            k = k + 1;
        }
        proof {
            assert(nodes@.take(nodes@.len() as int) =~= nodes@);
        }
        out
    }
}

/// The commands a window resize issues: one reposition per node with an
/// assigned handle, in node order, each re-derived from centre and extent.
pub open spec fn spec_window_resize_commands(nodes: Seq<(WebViewHandle, NodeGeometry)>) -> Seq<
    (usize, SurfaceCommand),
>
    decreases nodes.len(),
{
    if nodes.len() == 0 {
        Seq::empty()
    } else {
        let rest = spec_window_resize_commands(nodes.drop_last());
        let (handle, g) = nodes.last();
        match handle.0 {
            Some(i) => rest.push(
                (
                    i,
                    SurfaceCommand::Reposition {
                        x: top_left(g.center_x as int, g.width as int) as i32,
                        y: top_left(g.center_y as int, g.height as int) as i32,
                    },
                ),
            ),
            None => rest,
        }
    }
}

} // verus!
