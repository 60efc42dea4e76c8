//! The manager core: the one mutable state pool (client table and drag
//! state) and a handler per event kind.
//!
//! The blocking receive loop lives outside the library; it classifies each
//! event, calls exactly one handler here, and performs the primitive calls
//! the handler returns as [`Directive`] values.  Window identifiers are weak
//! references into server-side state, so every handler checks table
//! membership and ignores identifiers it does not know: an event for a
//! since-destroyed window is an expected race, never a fault.

use vstd::prelude::*;

use crate::clients::child_for_frame;
use crate::clients::frame_used;
use crate::clients::injective;
use crate::clients::ClientTable;
use crate::drag::spec_drag_target;
use crate::drag::drag_target;
use crate::drag::DragKind;
use crate::drag::DragPolicy;
use crate::drag::DragState;
use crate::geom::coord_in_range;
use crate::geom::Geometry;

verus! {

/// A primitive call or boundary notification the loop must perform for the
/// core, in order.
#[derive(Clone, Copy, PartialEq, Eq, Structural, Debug)]
pub enum Directive {
    /// Issue a configure call moving or resizing `window` to `geometry`.
    Configure { window: u64, geometry: Geometry },
    /// Reparent `child` into `parent`.
    Reparent { child: u64, parent: u64 },
    /// Map (make visible) `window`.
    MapWindow { window: u64 },
    /// Hand a key event to the external keybinding resolver.
    ForwardKey { keycode: u32, modifiers: u32 },
    /// Tell the layout boundary that `window` was destroyed.
    NotifyDestroyed { window: u64 },
    /// Tell the layout boundary that `window` was unmapped.
    NotifyUnmapped { window: u64 },
}

/// One pointer-motion sample, in root coordinates.
#[derive(Clone, Copy, PartialEq, Eq, Structural, Debug)]
pub struct MotionSample {
    pub x_root: i32,
    pub y_root: i32,
}

/// What the loop obtained for a map request on an unmanaged window: a fresh
/// frame created on the server and the target geometry the layout boundary
/// chose for the window.
#[derive(Clone, Copy, PartialEq, Eq, Structural, Debug)]
pub struct FrameAlloc {
    pub frame: u64,
    pub target: Geometry,
}

/// The core state machine of the manager.
pub struct WmCore {
    clients: ClientTable,
    drag: Option<DragState>,
    min_width: u32,
    min_height: u32,
    policy: DragPolicy,
}

/// The drag the core holds after a button press, given what the press found:
/// a drag starts only when no drag is live, the pressed window is managed,
/// the button and modifiers match the policy, and the frame's geometry could
/// be read and is one the protocol can carry.
pub open spec fn spec_begin_drag(
    core: WmCore,
    window: u64,
    button: u32,
    modifiers: u32,
    x_root: int,
    y_root: int,
    frame_geometry: Option<Geometry>,
) -> Option<DragState> {
    if core.drag() is Some {
        core.drag()
    } else {
        match (core.spec_press_target(window), core.drag_policy().spec_classify(button, modifiers),
        frame_geometry) {
            (Some(frame), Some(kind), Some(g)) => {
                if g.wf() && coord_in_range(x_root) && coord_in_range(y_root) {
                    Some(DragState {
                        frame,
                        kind,
                        start_cursor_x: x_root as i32,
                        start_cursor_y: y_root as i32,
                        start_geometry: g,
                    })
                } else {
                    None
                }
            },
            _ => None,
        }
    }
}

/// The table after a map request: untouched when the window is already
/// managed, when the loop could not supply a frame, or when the supplied
/// frame identifier is already in use; grown by one entry otherwise.
pub open spec fn spec_map_request_table(
    m: Map<u64, u64>,
    window: u64,
    alloc: Option<FrameAlloc>,
) -> Map<u64, u64> {
    if m.dom().contains(window) {
        m
    } else {
        match alloc {
            None => m,
            Some(a) => if frame_used(m, a.frame) {
                m
            } else {
                m.insert(window, a.frame)
            },
        }
    }
}

/// The calls a map request obliges the loop to make.
pub open spec fn spec_map_request_directives(
    m: Map<u64, u64>,
    window: u64,
    alloc: Option<FrameAlloc>,
) -> Seq<Directive> {
    if m.dom().contains(window) {
        seq![Directive::MapWindow { window }]
    } else {
        match alloc {
            None => Seq::empty(),
            Some(a) => if frame_used(m, a.frame) {
                Seq::empty()
            } else {
                seq![
                    Directive::Reparent { child: window, parent: a.frame },
                    Directive::Configure { window: a.frame, geometry: a.target },
                    Directive::MapWindow { window: a.frame },
                    Directive::MapWindow { window },
                ]
            },
        }
    }
}

/// The table after a destroy notification: the entry whose child is the
/// destroyed window goes, and so does the entry whose frame it is.
pub open spec fn spec_destroy_table(m: Map<u64, u64>, window: u64) -> Map<u64, u64> {
    let m1 = m.remove(window);
    if frame_used(m1, window) {
        m1.remove(child_for_frame(m1, window))
    } else {
        m1
    }
}

/// Does a live drag refer to `window`, either as the dragged frame or as the
/// child living inside the dragged frame?
pub open spec fn spec_drag_references(core: WmCore, d: DragState, window: u64) -> bool {
    d.frame == window || (core.table().dom().contains(window) && core.table()[window] == d.frame)
}

impl WmCore {
    /// The bijective child-to-frame mapping the core currently manages.
    pub closed spec fn table(self) -> Map<u64, u64> {
        self.clients@
    }

    /// The live drag, if a button press started one.
    pub closed spec fn drag(self) -> Option<DragState> {
        self.drag
    }

    /// The configured minimum width a resize may reach.
    pub closed spec fn min_w(self) -> u32 {
        self.min_width
    }

    /// The configured minimum height a resize may reach.
    pub closed spec fn min_h(self) -> u32 {
        self.min_height
    }

    /// The configured button and modifier combinations that start drags.
    pub closed spec fn drag_policy(self) -> DragPolicy {
        self.policy
    }

    /// The core's invariant: the table backs a bijection, the configured
    /// minima are positive, and a live drag only ever references a frame the
    /// table still knows.
    pub closed spec fn wf(self) -> bool {
        &&& self.clients.wf()
        &&& self.min_width >= 1
        &&& self.min_height >= 1
        &&& match self.drag {
            Some(d) => frame_used(self.clients@, d.frame),
            None => true,
        }
    }

    /// Configuration is read once at startup: handlers never change it.
    pub open spec fn same_config(self, other: WmCore) -> bool {
        &&& self.min_w() == other.min_w()
        &&& self.min_h() == other.min_h()
        &&& self.drag_policy() == other.drag_policy()
    }

    /// A fresh core: nothing managed, no drag, configuration snapshot taken.
    pub fn new(policy: DragPolicy, min_width: u32, min_height: u32) -> (r: Self)
        requires
            min_width >= 1,
            min_height >= 1,
        ensures
            r.wf(),
            r.table() == Map::<u64, u64>::empty(),
            r.drag() is None,
            r.min_w() == min_width,
            r.min_h() == min_height,
            r.drag_policy() == policy,
    {
        WmCore { clients: ClientTable::new(), drag: None, min_width, min_height, policy }
    }

    /// The frame a managed window is decorated by: the window's own frame
    /// when it is a managed child, the window itself when it is a frame.
    pub open spec fn spec_press_target(self, window: u64) -> Option<u64> {
        if self.table().dom().contains(window) {
            Some(self.table()[window])
        } else if frame_used(self.table(), window) {
            Some(window)
        } else {
            None
        }
    }

    /// The mandatory membership check before acting on a button event: the
    /// or nothing when the window is not one we manage.
    pub fn press_target(&self, window: u64) -> (r: Option<u64>)
        requires
            self.wf(),
        ensures
            r == self.spec_press_target(window),
    {
        match self.clients.lookup_by_child(window) {
            Some(frame) => Some(frame),
            None => {
                match self.clients.lookup_by_frame(window) {
                    Some(_child) => Some(window),
                    None => None,
                }
            },
        }
    }

    /// Key press: forwarded to the external keybinding resolver with the raw
    /// key code and modifier mask; the core interprets nothing.
    pub fn on_key_press(&self, keycode: u32, modifiers: u32) -> (r: Vec<Directive>)
        ensures
            r@ == seq![Directive::ForwardKey { keycode, modifiers }],
    {
        let mut r: Vec<Directive> = Vec::new();
        r.push(Directive::ForwardKey { keycode, modifiers });
        proof {
            assert(r@ =~= seq![Directive::ForwardKey { keycode, modifiers }]);
        }
        r
    }

    /// Key release: forwarded exactly like a press.
    pub fn on_key_release(&self, keycode: u32, modifiers: u32) -> (r: Vec<Directive>)
        ensures
            r@ == seq![Directive::ForwardKey { keycode, modifiers }],
    {
        self.on_key_press(keycode, modifiers)
    }

    /// Button press at root position `(x_root, y_root)`.  `frame_geometry`
    /// is what a geometry query on the target frame returned, or nothing if
    /// the query failed (the window died between event and query) or no query
    /// was wanted.  Starts a drag exactly when the policy and the table say
    /// so; issues no call.
    pub fn on_button_press(
        &mut self,
        window: u64,
        button: u32,
        modifiers: u32,
        x_root: i32,
        y_root: i32,
        frame_geometry: Option<Geometry>,
    )
        requires
            old(self).wf(),
        ensures
            final(self).wf(),
            final(self).table() == old(self).table(),
            final(self).same_config(*old(self)),
            final(self).drag() == spec_begin_drag(
                *old(self),
                window,
                button,
                modifiers,
                x_root as int,
                y_root as int,
                frame_geometry,
            ),
    {
        if self.drag.is_some() {
            return ;
        }
        let target = self.press_target(window);
        let kind = self.policy.classify(button, modifiers);
        match (target, kind, frame_geometry) {
            (Some(frame), Some(k), Some(g)) => {
                if g.is_wf() && -32768 <= x_root && x_root <= 32767 && -32768 <= y_root && y_root
                    <= 32767 {
                    self.drag = Some(
                        DragState {
                            frame,
                            kind: k,
                            start_cursor_x: x_root,
                            start_cursor_y: y_root,
                            start_geometry: g,
                        },
                    );
                    proof {
                        if self.table().dom().contains(window) {
                            assert(frame_used(self.table(), frame));
                        }
                    }
                }
            },
            _ => {},
        }
    }

    /// Button release: the drag ends, unconditionally and idempotently.
    pub fn on_button_release(&mut self)
        requires
            old(self).wf(),
        ensures
            final(self).wf(),
            final(self).table() == old(self).table(),
            final(self).same_config(*old(self)),
            final(self).drag() is None,
    {
        self.drag = None;
    }

    /// Mid-drag, the drag itself never changes; only a geometry update for
    /// the dragged frame is derived from the last motion sample.
    pub open spec fn spec_motion_directives(
        self,
        window: u64,
        samples: Seq<MotionSample>,
    ) -> Seq<Directive> {
        match self.drag() {
            Some(d) => if self.spec_press_target(window) == Some(d.frame) && samples.len() > 0 {
                seq![
                    Directive::Configure {
                        window: d.frame,
                        geometry: spec_drag_target(
                            d,
                            samples.last().x_root as int,
                            samples.last().y_root as int,
                            self.min_w() as int,
                            self.min_h() as int,
                        ),
                    },
                ]
            } else {
                Seq::empty()
            },
            None => Seq::empty(),
        }
    }

    /// A drained burst of motion events for one window.  However many samples
    /// the burst holds, at most one configure call comes out, and it is
    /// derived from the last sample alone; without a live drag on that
    /// window the burst is ignored.
    pub fn on_motion_burst(&mut self, window: u64, samples: &Vec<MotionSample>) -> (r: Vec<
        Directive,
    >)
        requires
            old(self).wf(),
        ensures
            *final(self) == *old(self),
            r@ == old(self).spec_motion_directives(window, samples@),
            r@.len() <= 1,
    {
        let mut r: Vec<Directive> = Vec::new();
        let d_opt = self.drag;
        match d_opt {
            Some(d) => {
                let target = self.press_target(window);
                let matches_drag = match target {
                    Some(f) => f == d.frame,
                    None => false,
                };
                if matches_drag && samples.len() > 0 {
                    let last = samples[samples.len() - 1];
                    let g = drag_target(&d, last.x_root, last.y_root, self.min_width,
                        self.min_height);
                    r.push(Directive::Configure { window: d.frame, geometry: g });
                    proof {
                        assert(samples@.last() == last);
                        assert(r@ =~= self.spec_motion_directives(window, samples@));
                    }
                }
            },
            None => {},
        }
        proof {
            assert(r@ =~= self.spec_motion_directives(window, samples@));
        }
        r
    }

    /// Is this map request for a window we do not yet manage, so that the
    /// loop must create a frame and ask the layout boundary for a geometry?
    pub fn map_request_needs_frame(&self, window: u64) -> (r: bool)
        requires
            self.wf(),
        ensures
            r == !self.table().dom().contains(window),
    {
        self.clients.lookup_by_child(window).is_none()
    }

    /// Map request.  An already managed window is just mapped again.  For an
    /// unmanaged one, `alloc` carries the freshly created frame and the
    /// layout boundary's target geometry: the window is reparented into the
    /// frame, recorded in the table, configured, and both frame and window
    /// are mapped.  Without `alloc`, or with a frame identifier already in
    /// use, the request is dropped and nothing changes.
    pub fn on_map_request(&mut self, window: u64, alloc: Option<FrameAlloc>) -> (r: Vec<Directive>)
        requires
            old(self).wf(),
        ensures
            final(self).wf(),
            final(self).same_config(*old(self)),
            final(self).drag() == old(self).drag(),
            final(self).table() == spec_map_request_table(old(self).table(), window, alloc),
            r@ == spec_map_request_directives(old(self).table(), window, alloc),
    {
        let mut r: Vec<Directive> = Vec::new();
        if self.clients.lookup_by_child(window).is_some() {
            r.push(Directive::MapWindow { window });
            proof {
                assert(r@ =~= spec_map_request_directives(self.table(), window, alloc));
            }
            return r;
        }
        match alloc {
            None => {
                proof {
                    assert(r@ =~= spec_map_request_directives(self.table(), window, alloc));
                }
                r
            },
            Some(a) => {
                let ghost before = *self;
                match self.clients.insert(window, a.frame) {
                    Ok(()) => {
                        r.push(Directive::Reparent { child: window, parent: a.frame });
                        r.push(Directive::Configure { window: a.frame, geometry: a.target });
                        r.push(Directive::MapWindow { window: a.frame });
                        r.push(Directive::MapWindow { window });
                        proof {
                            assert(r@ =~= spec_map_request_directives(before.table(), window,
                            alloc));
                            if before.drag is Some {
                                let d = before.drag->Some_0;
                                let c = choose|c: u64|
                                    #[trigger] before.table().dom().contains(c)
                                        && before.table()[c] == d.frame;
                                assert(self.table().dom().contains(c)
                                    && self.table()[c] == d.frame);
                                assert(frame_used(self.table(), d.frame));
                            }
                        }
                        r
                    },
                    Err(_e) => {
                        proof {
                            assert(frame_used(before.table(), a.frame));
                            assert(r@ =~= spec_map_request_directives(before.table(), window,
                            alloc));
                        }
                        r
                    },
                }
            },
        }
    }

    /// Configure request from a window asking to change its own geometry:
    /// honored as-is with the equivalent configure call; layout override only
    /// applies after mapping, through the layout boundary.
    pub fn on_configure_request(&self, window: u64, geometry: Geometry) -> (r: Vec<Directive>)
        ensures
            r@ == seq![Directive::Configure { window, geometry }],
    {
        let mut r: Vec<Directive> = Vec::new();
        r.push(Directive::Configure { window, geometry });
        proof {
            assert(r@ =~= seq![Directive::Configure { window, geometry }]);
        }
        r
    }

    /// Destroy notification: the table forgets the window, whether it was a
    /// child or a frame, a drag referencing it ends as an implicit release,
    /// and the layout boundary is told.
    pub fn on_destroy_notify(&mut self, window: u64) -> (r: Vec<Directive>)
        requires
            old(self).wf(),
        ensures
            final(self).wf(),
            final(self).same_config(*old(self)),
            final(self).table() == spec_destroy_table(old(self).table(), window),
            final(self).drag() == match old(self).drag() {
                Some(d) => if spec_drag_references(*old(self), d, window) {
                    None::<DragState>
                } else {
                    Some(d)
                },
                None => None::<DragState>,
            },
            r@ == seq![Directive::NotifyDestroyed { window }],
    {
        let ghost before = *self;
        match self.drag {
            Some(d) => {
                let references = if d.frame == window {
                    true
                } else {
                    match self.clients.lookup_by_child(window) {
                        Some(f) => f == d.frame,
                        None => false,
                    }
                };
                if references {
                    self.drag = None;
                }
            },
            None => {},
        }
        self.clients.remove_by_child(window);
        self.clients.remove_by_frame(window);
        proof {
            if self.drag is Some {
                let d = self.drag->Some_0;
                let m = before.table();
                let m1 = m.remove(window);
                let c = choose|c: u64| #[trigger] m.dom().contains(c) && m[c] == d.frame;
                assert(c != window);
                assert(m1.dom().contains(c) && m1[c] == d.frame);
                if frame_used(m1, window) {
                    let cw = child_for_frame(m1, window);
                    assert(m1.dom().contains(cw) && m1[cw] == window);
                    assert(cw != c);
                    let m2 = m1.remove(cw);
                    assert(m2.dom().contains(c) && m2[c] == d.frame);
                    assert(frame_used(m2, d.frame));
                } else {
                    assert(frame_used(m1, d.frame));
                }
            }
        }
        let mut r: Vec<Directive> = Vec::new();
        r.push(Directive::NotifyDestroyed { window });
        proof {
            assert(r@ =~= seq![Directive::NotifyDestroyed { window }]);
        }
        r
    }

    /// Unmap notification: informational; forwarded to the layout boundary.
    pub fn on_unmap_notify(&self, window: u64) -> (r: Vec<Directive>)
        ensures
            r@ == seq![Directive::NotifyUnmapped { window }],
    {
        let mut r: Vec<Directive> = Vec::new();
        r.push(Directive::NotifyUnmapped { window });
        proof {
            assert(r@ =~= seq![Directive::NotifyUnmapped { window }]);
        }
        r
    }

    /// Create notification: informational; nothing to maintain.
    pub fn on_create_notify(&self, _window: u64) -> (r: Vec<Directive>)
        ensures
            r@ == Seq::<Directive>::empty(),
    {
        let r: Vec<Directive> = Vec::new();
        proof {
            assert(r@ =~= Seq::<Directive>::empty());
        }
        r
    }

    /// Reparent notification: informational; nothing to maintain.
    pub fn on_reparent_notify(&self, _window: u64) -> (r: Vec<Directive>)
        ensures
            r@ == Seq::<Directive>::empty(),
    {
        self.on_create_notify(_window)
    }

    /// Map notification: informational; nothing to maintain.
    pub fn on_map_notify(&self, _window: u64) -> (r: Vec<Directive>)
        ensures
            r@ == Seq::<Directive>::empty(),
    {
        self.on_create_notify(_window)
    }

    /// Configure notification: informational; nothing to maintain.
    pub fn on_configure_notify(&self, _window: u64) -> (r: Vec<Directive>)
        ensures
            r@ == Seq::<Directive>::empty(),
    {
        self.on_create_notify(_window)
    }

    /// The frame decorating `window`, when `window` is a managed child.
    pub fn lookup_by_child(&self, window: u64) -> (r: Option<u64>)
        requires
            self.wf(),
        ensures
            r == if self.table().dom().contains(window) {
                Some(self.table()[window])
            } else {
                None::<u64>
            },
    {
        self.clients.lookup_by_child(window)
    }

    /// The child living inside the frame `window`, if any.
    pub fn lookup_by_frame(&self, window: u64) -> (r: Option<u64>)
        requires
            self.wf(),
        ensures
            r == if frame_used(self.table(), window) {
                Some(child_for_frame(self.table(), window))
            } else {
                None::<u64>
            },
    {
        self.clients.lookup_by_frame(window)
    }

    /// How many windows are managed.
    pub fn client_count(&self) -> (r: usize)
        requires
            self.wf(),
        ensures
            r == self.table().dom().len(),
    {
        self.clients.len()
    }

    /// The live drag, for inspection.
    pub fn current_drag(&self) -> (r: Option<DragState>)
        ensures
            r == self.drag(),
    {
        self.drag
    }
}

/// The table after a whole sequence of map requests, each a window and what
/// the loop supplied for it.
pub open spec fn spec_after_map_requests(
    m: Map<u64, u64>,
    reqs: Seq<(u64, Option<FrameAlloc>)>,
) -> Map<u64, u64>
    decreases reqs.len(),
{
    if reqs.len() == 0 {
        m
    } else {
        spec_map_request_table(
            spec_after_map_requests(m, reqs.drop_last()),
            reqs.last().0,
            reqs.last().1,
        )
    }
}

/// Recording a fresh child under an unused frame keeps the mapping injective.
proof fn lemma_insert_preserves_injective(m: Map<u64, u64>, child: u64, frame: u64)
    requires
        injective(m),
        !m.dom().contains(child),
        !frame_used(m, frame),
    ensures
        injective(m.insert(child, frame)),
{
    let m2 = m.insert(child, frame);
    assert forall|c1: u64, c2: u64|
        m2.dom().contains(c1) && m2.dom().contains(c2) && c1 != c2 implies m2[c1] != m2[c2] by {
        if c1 != child && c2 != child {
            assert(m.dom().contains(c1) && m.dom().contains(c2));
        } else if c1 == child {
            if m2[c2] == frame {
                assert(m.dom().contains(c2) && m[c2] == frame);
                assert(frame_used(m, frame));
            }
        } else {
            if m2[c1] == frame {
                assert(m.dom().contains(c1) && m[c1] == frame);
                assert(frame_used(m, frame));
            }
        }
    }
}

/// However map requests arrive — managed or unmanaged windows, frames
/// supplied or not, colliding or fresh — the child-to-frame mapping stays
/// bijective: no two children ever share a frame, and no child maps to more
/// than one frame.
pub proof fn lemma_map_requests_keep_bijective(
    m: Map<u64, u64>,
    reqs: Seq<(u64, Option<FrameAlloc>)>,
)
    requires
        injective(m),
    ensures
        injective(spec_after_map_requests(m, reqs)),
    decreases reqs.len(),
{
    if reqs.len() > 0 {
        lemma_map_requests_keep_bijective(m, reqs.drop_last());
        let before = spec_after_map_requests(m, reqs.drop_last());
        let window = reqs.last().0;
        if !before.dom().contains(window) {
            match reqs.last().1 {
                Some(a) => {
                    if !frame_used(before, a.frame) {
                        lemma_insert_preserves_injective(before, window, a.frame);
                    }
                },
                None => {},
            }
        }
    }
}

} // verus!
