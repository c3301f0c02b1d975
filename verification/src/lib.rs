//! Embedding of native, OS-rendered browser surfaces inside a host
//! application's scene graph, together with the message bridge between the
//! host and the embedded content.
//!
//! The crate owns the verified core of that system: the surface registry
//! (stable integer handles for native surface objects), the spawn and
//! reactivity decisions that keep surface geometry in step with the scene
//! graph, the per-surface message channel pair, and the fetch/send protocol
//! served on a surface's own execution thread.  The host shell (windowing,
//! scene iteration, the native webview itself) sits outside and hands the
//! library plain values.

use vstd::prelude::*;

pub mod codec;
pub mod correlated;
pub mod ipc;
pub mod reactivity;

use crate::ipc::FetchEvent;
use crate::ipc::chan_linked;
use crate::ipc::IpcQueue;
use crate::ipc::IpcSender;
use crate::ipc::TemporaryIpcStore;
use crate::ipc::new_ipc_channel;
use crate::reactivity::NodeGeometry;
use crate::reactivity::position_in_range;
use crate::reactivity::top_left;

verus! {

/// Stable identifier of a slot in the [`WebViewRegistry`].
///
/// A freshly spawned scene node carries `WebViewHandle(None)`; the spawn
/// coordinator assigns `Some(index)` exactly once, and an assigned handle is
/// never reused or reassigned for the lifetime of the process.
#[derive(Clone, Copy, Debug, PartialEq, Eq, Hash)]
pub struct WebViewHandle(pub Option<usize>);

impl WebViewHandle {
    /// True while the spawn coordinator has not yet processed the owning node.
    pub fn is_unassigned(&self) -> (r: bool)
        ensures
            r == (self.0 is None),
    {
        self.0.is_none()
    }

    /// The registry index, if one has been assigned.
    pub fn index(&self) -> (r: Option<usize>)
        ensures
            r == self.0,
    {
        self.0
    }
}

/// Content shown by a surface: a URL to navigate to, or inline markup.
/// The two are mutually exclusive and fixed at construction; switching an
/// existing surface to the inline variant is unsupported (see
/// [`reactivity::WebViewReactivityPlugin::on_webview_redirect`]).
#[derive(Clone, Debug)]
pub enum WebViewLocation {
    Url(String),
    Html(String),
}

impl WebViewLocation {
    /// True for the URL variant, the only one that supports redirection after
    /// construction.
    pub fn is_url(&self) -> (r: bool)
        ensures
            r == (self matches WebViewLocation::Url(_)),
    {
        match self {
            WebViewLocation::Url(_) => true,
            WebViewLocation::Html(_) => false,
        }
    }
}

/// Marker distinguishing a scene node as surface-bearing.
#[derive(Clone, Copy, Debug)]
pub struct WebViewMarker;

/// Append-only table of live native surface objects, indexed by handle value.
///
/// The registry is confined to the single thread that owns the native
/// objects; it never shrinks, so an assigned handle stays valid for the
/// lifetime of the process.  There is deliberately no removal operation:
/// despawning a surface only removes scene-side bookkeeping and leaks the
/// native object, a documented limitation of the underlying native layer.
///
/// `W` is the embedder's native surface type; the registry never looks
/// inside a value of it.
pub struct WebViewRegistry<W> {
    webviews: Vec<W>,
}

impl<W> WebViewRegistry<W> {
    /// The registered surfaces, oldest first, as a mathematical sequence.
    pub closed spec fn entries(&self) -> Seq<W> {
        self.webviews@
    }

    /// An empty registry; installed once by the owning plugin before any
    /// surface spawns.
    pub fn new() -> (r: Self)
        ensures
            r.entries() == Seq::<W>::empty(),
    {
        WebViewRegistry { webviews: Vec::new() }
    }

    /// Number of surfaces registered so far; also the handle value the next
    /// registration will receive.
    pub fn len(&self) -> (r: usize)
        ensures
            r == self.entries().len(),
    {
        self.webviews.len()
    }

    /// Appends a freshly built native surface and returns its handle.
    ///
    /// The handle value is the registry's length at the moment of the call,
    /// so allocation is strictly monotonic: the nth registration returns
    /// handle n-1, and no two registrations share a handle.
    pub fn push(&mut self, webview: W) -> (h: WebViewHandle)
        ensures
            final(self).entries() == old(self).entries().push(webview),
            h.0 == Some(old(self).entries().len() as usize),
    {
        let index = self.webviews.len();
        self.webviews.push(webview);
        WebViewHandle(Some(index))
    }

    /// Side-effect-free lookup by raw index.
    pub fn get(&self, index: usize) -> (r: Option<&W>)
        ensures
            index < self.entries().len() ==> r == Some(&self.entries()[index as int]),
            index >= self.entries().len() ==> r is None,
    {
        if index < self.webviews.len() {
            Some(&self.webviews[index])
        } else {
            None
        }
    }

    /// Side-effect-free lookup through a handle: `None` both for an
    /// unassigned handle and for an index outside the registry.
    pub fn resolve(&self, handle: WebViewHandle) -> (r: Option<&W>)
        ensures
            match handle.0 {
                Some(i) => (i < self.entries().len() ==> r == Some(&self.entries()[i as int]))
                    && (i >= self.entries().len() ==> r is None),
                None => r is None,
            },
    {
        match handle.0 {
            Some(i) => self.get(i),
            None => None,
        }
    }

    /// Registers a batch of freshly built surfaces, oldest first, as one
    /// spawn tick does, and returns their handles in the same order.
    ///
    /// Law: handle allocation is strictly monotonic.  The ith surface of the
    /// batch receives handle value `len + i` where `len` is the registry's
    /// size before the batch, consecutive registrations receive consecutive
    /// values, and no two surfaces ever share a handle.
    pub fn push_all(&mut self, webviews: Vec<W>) -> (hs: Vec<WebViewHandle>)
        ensures
            final(self).entries() == old(self).entries() + webviews@,
            hs@.len() == webviews@.len(),
            forall|i: int|
                0 <= i < hs@.len() ==> hs@[i].0 == Some(
                    (old(self).entries().len() + i) as usize,
                ),
            forall|i: int, j: int| 0 <= i < j < hs@.len() ==> hs@[i] != hs@[j],
    {
        let ghost base = self.entries();
        proof {
            vstd::std_specs::vec::axiom_spec_len(&self.webviews);
        }
        let mut handles: Vec<WebViewHandle> = Vec::new();
        let mut rest = webviews;
        let ghost all = rest@;
        while rest.len() > 0
            invariant
                handles@.len() <= all.len(),
                rest@ == all.skip(handles@.len() as int),
                self.entries() == base + all.take(handles@.len() as int),
                base.len() + handles@.len() <= usize::MAX,
                forall|i: int|
                    0 <= i < handles@.len() ==> handles@[i].0 == Some((base.len() + i) as usize),
            decreases rest.len(),
        {
            let ghost k = handles@.len() as int;
            let w = rest.remove(0);
            proof {
                assert(w == all[k]);
                assert(rest@ == all.skip(k + 1)) by {
                    assert(all.skip(k).remove(0) =~= all.skip(k + 1));
                }
            }
            let h = self.push(w);
            proof {
                vstd::std_specs::vec::axiom_spec_len(&self.webviews);
                assert(self.entries() == base + all.take(k + 1)) by {
                    assert(all.take(k + 1) =~= all.take(k).push(all[k]));
                    assert((base + all.take(k)).push(all[k]) =~= base + all.take(k).push(all[k]));
                }
            }
            handles.push(h);
        }
        proof {
            assert(all.take(handles@.len() as int) =~= all);
            assert(base + all =~= self.entries());
        }
        handles
    }
}

/// Everything the native layer needs to construct one surface: the
/// window-relative top-left position derived from the node's geometry, the
/// pixel size, transparency, and the initial content location.
pub struct SpawnPlan {
    pub position: (i32, i32),
    pub size: (u32, u32),
    pub transparent: bool,
    pub location: WebViewLocation,
}

/// The lifecycle half of the system: the spawn coordinator's per-node
/// decision and the host-side fetch trigger.  The host shell drives both
/// once per tick.
pub struct WebViewPlugin;

impl WebViewPlugin {
    /// The spawn coordinator's decision for one surface-bearing scene node.
    ///
    /// A node already processed (assigned handle) gets nothing.  For a new
    /// node the plan fixes every construction parameter: position is
    /// top-left, derived as centre minus half extent; size is the node's
    /// extent; the surface is transparent; content is the node's location
    /// verbatim.  The host builds the native surface from the plan and, only
    /// on success, registers it with [`WebViewRegistry::push`] and assigns
    /// the returned handle — construction failure is fatal and must not
    /// leave a dangling handle or an empty registry slot.
    pub fn on_webview_spawn(
        handle: WebViewHandle,
        geometry: NodeGeometry,
        location: WebViewLocation,
    ) -> (r: Option<SpawnPlan>)
        requires
            handle.0 is None ==> position_in_range(geometry),
        ensures
            handle.0 is Some ==> r is None,
            handle.0 is None ==> (r matches Some(p) && p.position.0 == top_left(
                geometry.center_x as int,
                geometry.width as int,
            ) && p.position.1 == top_left(geometry.center_y as int, geometry.height as int)
                && p.size == (geometry.width, geometry.height) && p.transparent == true
                && p.location == location),
    {
        match handle.0 {
            Some(_) => None,
            None => {
                let position = geometry.top_left_position();
                Some(
                    SpawnPlan {
                        position,
                        size: (geometry.width, geometry.height),
                        transparent: true,
                        location,
                    },
                )
            },
        }
    }

    /// The host-side fetch trigger: from this tick's batch of fetch-needed
    /// events, the registry indices whose surfaces must be nudged to pull a
    /// message, in event order.  Events whose handle is unassigned or out of
    /// the registry's range nudge nothing.
    pub fn handle_fetch(events: &Vec<FetchEvent>, registry_len: usize) -> (r: Vec<usize>)
        ensures
            r@ == spec_fetch_targets(events@, registry_len as int),
    {
        let mut out: Vec<usize> = Vec::new();
        let mut k: usize = 0;
        while k < events.len()
            invariant
                k <= events@.len(),
                out@ == spec_fetch_targets(events@.take(k as int), registry_len as int),
            decreases events@.len() - k,
        {
            let ghost prefix = events@.take(k as int);
            match events[k].0.0 {
                Some(i) => {
                    if i < registry_len {
                        out.push(i);
                    }
                },
                None => {},
            }
            proof {
                assert(events@.take(k as int + 1).drop_last() =~= prefix);
                assert(events@.take(k as int + 1).last() == events@[k as int]);
            }
            k = k + 1;
        }
        proof {
            assert(events@.take(events@.len() as int) =~= events@);
        }
        out
    }
}

/// The registry indices a batch of fetch-needed events nudges: one per
/// event whose handle is assigned and within the registry, in event order.
pub open spec fn spec_fetch_targets(events: Seq<FetchEvent>, registry_len: int) -> Seq<usize>
    decreases events.len(),
{
    if events.len() == 0 {
        Seq::empty()
    } else {
        let rest = spec_fetch_targets(events.drop_last(), registry_len);
        match events.last().0.0 {
            Some(i) => if i < registry_len {
                rest.push(i)
            } else {
                rest
            },
            None => rest,
        }
    }
}

/// Everything one surface-bearing scene node carries: geometry, content
/// location, the (initially unassigned) handle, the marker, the host-side
/// channel ends, and the temporary store for the surface-side ends.  The
/// store is present from creation until the spawn coordinator consumes it
/// while wiring the native surface.
pub struct UiWebViewBundle {
    pub node: NodeGeometry,
    pub location: WebViewLocation,
    pub handle: WebViewHandle,
    pub marker: WebViewMarker,
    pub ipc_sender: IpcSender,
    pub ipc_queue: IpcQueue,
    pub temporary_ipc_store: Option<TemporaryIpcStore>,
}

impl UiWebViewBundle {
    /// A fresh node: empty inline markup, unassigned handle, zero geometry,
    /// and a newly created message channel pair whose temporary store is
    /// still in place.
    pub fn new() -> (r: Self)
        ensures
            r.handle.0 is None,
            r.location matches WebViewLocation::Html(h) && h@ == Seq::<char>::empty(),
            r.node.center_x == 0 && r.node.center_y == 0 && r.node.width == 0 && r.node.height
                == 0,
            (r.temporary_ipc_store matches Some(t) && chan_linked(
                t.spec_sender(),
                r.ipc_queue.spec_receiver(),
            ) && chan_linked(r.ipc_sender.spec_sender(), t.spec_receiver())),
    {
        proof {
            reveal_strlit("");
            assert(""@ =~= Seq::<char>::empty());
        }
        let (ipc_sender, ipc_queue, temporary_ipc_store) = new_ipc_channel();
        UiWebViewBundle {
            node: NodeGeometry { center_x: 0, center_y: 0, width: 0, height: 0 },
            location: WebViewLocation::Html("".to_owned()),
            handle: WebViewHandle(None),
            marker: WebViewMarker,
            ipc_sender,
            ipc_queue,
            temporary_ipc_store: Some(temporary_ipc_store),
        }
    }

    /// Removes the temporary store from the node once the native surface is
    /// fully constructed: it has served its purpose, and retaining it would
    /// let unrelated code bypass the protocol handler.
    pub fn take_temporary_store(&mut self) -> (r: Option<TemporaryIpcStore>)
        ensures
            final(self).temporary_ipc_store is None,
            r == old(self).temporary_ipc_store,
            final(self).node == old(self).node,
            final(self).location == old(self).location,
            final(self).handle == old(self).handle,
    {
        self.temporary_ipc_store.take()
    }
}

/// Custom despawn command for surface-bearing scene nodes, for the host's
/// command buffer to implement.
///
/// Despawning removes the scene-side bookkeeping only.  The native surface
/// object stays in the registry — there is no way to release it or to stop
/// its protocol thread until the native layer supports it, a documented
/// leak, accepted rather than silently worked around.  An implementation
/// must fail fast when the registry was never installed: that is a
/// configuration error, not a runtime condition to recover from.
pub trait WebViewDespawning {
    /// Removes the scene node with this entity id and abandons its
    /// registered surface.
    fn despawn_webview(&mut self, entity: u64);
}

impl Default for UiWebViewBundle {
    /// Same as [`UiWebViewBundle::new`].
    fn default() -> (r: Self)
        ensures
            r.handle.0 is None,
            r.location matches WebViewLocation::Html(h) && h@ == Seq::<char>::empty(),
            (r.temporary_ipc_store matches Some(t) && chan_linked(
                t.spec_sender(),
                r.ipc_queue.spec_receiver(),
            ) && chan_linked(r.ipc_sender.spec_sender(), t.spec_receiver())),
    {
        UiWebViewBundle::new()
    }
}

} // verus!
