use vstd::prelude::*;

use crate::geometry::counted_resolve;
use crate::geometry::preserves_resolved;
use crate::geometry::slot_geometry;
use crate::geometry::Bounds;
use crate::geometry::Error;
use crate::geometry::Layout;
use crate::geometry::LayoutId;
use crate::geometry::Point;
use crate::geometry::ViewContext;

verus! {

/// A capability implemented by any concrete UI node type: how to request
/// layout, and how to paint once geometry is known.
///
/// `State` is the shared mutable context passed by exclusive reference to
/// every call on this node and its descendants. `FrameState` is data produced
/// at layout time, private to this node, needed again at paint time.
///
/// Both operations promise that geometry already resolved by the provider
/// stays resolved and unchanged: resolved geometry is immutable for the rest
/// of its pass.
pub trait Element: Sized + 'static {
    type State;

    type FrameState;

    /// Request a layout slot from the geometry provider for this node and
    /// return it together with whatever transient data paint will need.
    /// Safe to call repeatedly; each call allocates a new slot.
    fn layout(&mut self, state: &mut Self::State, cx: &mut ViewContext) -> (r: Result<
        (LayoutId, Self::FrameState),
        Error,
    >)
        ensures
            preserves_resolved(*old(cx), *final(cx)),
            (match r {
                Ok((id, _)) => id.0 < final(cx).slots().len(),
                Err(_) => true,
            }),
    ;

    /// Draw the node at the geometry resolved for the slot returned by the
    /// most recent `layout` call, using (and possibly mutating in place) the
    /// frame state that call produced. A failure propagates to the caller
    /// unchanged.
    fn paint(
        &mut self,
        layout: Layout,
        state: &mut Self::State,
        frame_state: &mut Self::FrameState,
        cx: &mut ViewContext,
    ) -> (r: Result<(), Error>)
        ensures
            preserves_resolved(*old(cx), *final(cx)),
    ;
}

/// The render phase of one node, as visible through the type-erased handle:
/// the per-node frame state itself is private to the node's own element type.
pub enum RenderPhase {
    /// Initial state: no layout performed yet (and the state a failed paint
    /// leaves behind, since a failing call discards the phase it consumed).
    Rendered,
    /// The most recent layout call produced this slot; geometry not yet
    /// resolved by this node.
    LayoutRequested { layout_id: LayoutId },
    /// Geometry was resolved (and any paint offset applied) and is cached,
    /// together with the frame state, for reuse by subsequent paints.
    Painted { layout: Layout },
}

/// Whether translating `origin` by `offset` stays within the coordinate
/// range.
pub open spec fn translate_fits(origin: Point, offset: Point) -> bool {
    &&& i64::MIN <= origin.x + offset.x <= i64::MAX
    &&& i64::MIN <= origin.y + offset.y <= i64::MAX
}

/// `layout` with its origin translated by `offset`.
pub open spec fn offset_layout(layout: Layout, offset: Point) -> Layout {
    Layout {
        bounds: Bounds {
            origin: Point {
                x: (layout.bounds.origin.x + offset.x) as i64,
                y: (layout.bounds.origin.y + offset.y) as i64,
            },
            size: layout.bounds.size,
        },
    }
}

/// `layout` translated by the offset, when one is supplied.
pub open spec fn apply_offset(layout: Layout, offset: Option<Point>) -> Layout {
    match offset {
        Some(delta) => offset_layout(layout, delta),
        None => layout,
    }
}

/// The machine limit on painting with an offset: when the node is about to
/// resolve geometry and translate it, the translated origin must fit in the
/// coordinate range. In every other phase the offset is ignored, so nothing
/// is asked.
pub open spec fn paint_offset_fits(phase: RenderPhase, cx: ViewContext, offset: Option<
    Point,
>) -> bool {
    match phase {
        RenderPhase::LayoutRequested { layout_id } => match (
            slot_geometry(cx, layout_id),
            offset,
        ) {
            (Some(layout), Some(delta)) => translate_fits(layout.bounds.origin, delta),
            _ => true,
        },
        _ => true,
    }
}

/// Everything one `paint` call does to the node's phase, the provider, and
/// the shared state, by the phase the node was in when the call began.
///
/// - `Rendered`: the protocol violation. The call fails with
///   `Error::PaintBeforeLayout` — never a silent success — and changes
///   nothing.
/// - `LayoutRequested`: geometry is resolved for the stored slot, advancing
///   the provider's resolve count. If the provider has none, the call fails
///   with `Error::Unresolved` without touching the shared state. Otherwise
///   the node draws at the resolved geometry, translated by the offset when
///   one is supplied; on success the translated geometry is cached in the
///   `Painted` phase.
/// - `Painted`: the node draws again at exactly the cached geometry — no
///   second resolution, no offset re-application — and on success keeps it.
///
/// A failing call leaves the node in the `Rendered` phase: the phase it
/// consumed is discarded, not rolled back.
pub open spec fn paint_post<S>(
    pre_phase: RenderPhase,
    post_phase: RenderPhase,
    pre_cx: ViewContext,
    post_cx: ViewContext,
    pre_state: S,
    post_state: S,
    offset: Option<Point>,
    r: Result<(), Error>,
) -> bool {
    match pre_phase {
        RenderPhase::Rendered => {
            &&& r == Err::<(), Error>(Error::PaintBeforeLayout)
            &&& post_phase is Rendered
            &&& post_cx == pre_cx
            &&& post_state == pre_state
        },
        RenderPhase::LayoutRequested { layout_id } => match slot_geometry(pre_cx, layout_id) {
            None => {
                &&& r == Err::<(), Error>(Error::Unresolved(layout_id))
                &&& post_phase is Rendered
                &&& post_cx.slots() == pre_cx.slots()
                &&& post_cx.resolve_calls() == counted_resolve(pre_cx.resolve_calls())
                &&& post_state == pre_state
            },
            Some(layout) => {
                &&& post_cx.resolve_calls() >= counted_resolve(pre_cx.resolve_calls())
                &&& (r is Ok ==> post_phase == (RenderPhase::Painted {
                    layout: apply_offset(layout, offset),
                }))
                &&& (r is Err ==> post_phase is Rendered)
            },
        },
        RenderPhase::Painted { layout } => {
            &&& (r is Ok ==> post_phase == (RenderPhase::Painted { layout }))
            &&& (r is Err ==> post_phase is Rendered)
        },
    }
}

/// The uniform, type-free contract any rendered node satisfies: the two
/// render operations, parameterized only by the shared state type. Heterogeneous
/// nodes live in one collection behind `Box<dyn ElementObject<S>>`.
trait ElementObject<S> {
    /// The node's current render phase, with its typed frame state erased.
    spec fn phase(&self) -> RenderPhase;

    fn layout(&mut self, state: &mut S, cx: &mut ViewContext) -> (r: Result<LayoutId, Error>)
        ensures
            preserves_resolved(*old(cx), *final(cx)),
            (match r {
                Ok(id) => final(self).phase() == (RenderPhase::LayoutRequested { layout_id: id })
                    && id.0 < final(cx).slots().len(),
                Err(_) => final(self).phase() == old(self).phase(),
            }),
    ;

    fn paint(&mut self, state: &mut S, offset: Option<Point>, cx: &mut ViewContext) -> (r: Result<
        (),
        Error,
    >)
        requires
            paint_offset_fits(old(self).phase(), *old(cx), offset),
        ensures
            preserves_resolved(*old(cx), *final(cx)),
            paint_post(
                old(self).phase(),
                final(self).phase(),
                *old(cx),
                *final(cx),
                *old(state),
                *final(state),
                offset,
                r,
            ),
    ;
}

/// The render phase together with the data valid in that phase, for one
/// concrete element type.
enum ElementRenderPhase<FS> {
    Rendered,
    LayoutRequested { layout_id: LayoutId, frame_state: FS },
    Painted { layout: Layout, frame_state: FS },
}

/// The phase with the frame state erased.
spec fn phase_of<FS>(phase: ElementRenderPhase<FS>) -> RenderPhase {
    match phase {
        ElementRenderPhase::Rendered => RenderPhase::Rendered,
        ElementRenderPhase::LayoutRequested { layout_id, .. } => RenderPhase::LayoutRequested {
            layout_id,
        },
        ElementRenderPhase::Painted { layout, .. } => RenderPhase::Painted { layout },
    }
}

/// Binds one concrete element to its current render phase. Allocated behind
/// a trait object to erase the element type, then wrapped in `AnyElement`.
struct RenderedElement<E: Element> {
    element: E,
    phase: ElementRenderPhase<E::FrameState>,
}

impl<E: Element> RenderedElement<E> {
    fn new(element: E) -> (r: Self)
        ensures
            phase_of(r.phase) is Rendered,
    {
        RenderedElement { element, phase: ElementRenderPhase::Rendered }
    }
}

/// `layout` with its origin translated by `offset`.
fn translated(layout: Layout, offset: Point) -> (r: Layout)
    requires
        translate_fits(layout.bounds.origin, offset),
    ensures
        r == offset_layout(layout, offset),
{
    Layout {
        bounds: Bounds {
            origin: Point {
                x: layout.bounds.origin.x + offset.x,
                y: layout.bounds.origin.y + offset.y,
            },
            size: layout.bounds.size,
        },
    }
}

impl<E: Element> ElementObject<E::State> for RenderedElement<E> {
    closed spec fn phase(&self) -> RenderPhase {
        phase_of(self.phase)
    }

    fn layout(&mut self, state: &mut E::State, cx: &mut ViewContext) -> (r: Result<
        LayoutId,
        Error,
    >) {
        match self.element.layout(state, cx) {
            Ok((layout_id, frame_state)) => {
                self.phase = ElementRenderPhase::LayoutRequested { layout_id, frame_state };
                Ok(layout_id)
            },
            Err(e) => Err(e),
        }
    }

    fn paint(&mut self, state: &mut E::State, offset: Option<Point>, cx: &mut ViewContext) -> (r:
        Result<(), Error>) {
        let mut taken = ElementRenderPhase::Rendered;
        core::mem::swap(&mut self.phase, &mut taken);
        match taken {
            ElementRenderPhase::Rendered => Err(Error::PaintBeforeLayout),
            ElementRenderPhase::LayoutRequested { layout_id, frame_state } => {
                let mut frame_state = frame_state;
                let resolved = match cx.resolve(layout_id) {
                    Ok(layout) => layout,
                    Err(e) => {
                        return Err(e);
                    },
                };
                let layout = match offset {
                    Some(delta) => translated(resolved, delta),
                    None => resolved,
                };
                let ghost mid = *cx;
                match self.element.paint(layout, state, &mut frame_state, cx) {
                    Ok(()) => {
                        proof {
                            crate::geometry::lemma_preserves_resolved_trans(*old(cx), mid, *cx);
                        }
                        self.phase = ElementRenderPhase::Painted { layout, frame_state };
                        Ok(())
                    },
                    Err(e) => {
                        proof {
                            crate::geometry::lemma_preserves_resolved_trans(*old(cx), mid, *cx);
                        }
                        Err(e)
                    },
                }
            },
            ElementRenderPhase::Painted { layout, frame_state } => {
                let mut frame_state = frame_state;
                match self.element.paint(layout, state, &mut frame_state, cx) {
                    Ok(()) => {
                        self.phase = ElementRenderPhase::Painted { layout, frame_state };
                        Ok(())
                    },
                    Err(e) => Err(e),
                }
            },
        }
    }
}

/// The public, storage-friendly handle: owns one boxed rendered node, erases
/// the concrete element type and its frame state type, and retains only the
/// shared state type parameter.
#[verifier::reject_recursive_types(S)]
pub struct AnyElement<S> {
    obj: Box<dyn ElementObject<S>>,
}

impl<S> AnyElement<S> {
    /// The handle's current render phase.
    pub closed spec fn phase(&self) -> RenderPhase {
        self.obj.phase()
    }

    /// Run the node's layout, discarding any previous phase: on success the
    /// node holds exactly the slot returned here, whatever phase it was in
    /// before.
    pub fn layout(&mut self, state: &mut S, cx: &mut ViewContext) -> (r: Result<LayoutId, Error>)
        ensures
            preserves_resolved(*old(cx), *final(cx)),
            (match r {
                Ok(id) => final(self).phase() == (RenderPhase::LayoutRequested { layout_id: id })
                    && id.0 < final(cx).slots().len(),
                Err(_) => final(self).phase() == old(self).phase(),
            }),
    {
        self.obj.layout(state, cx)
    }

    /// Paint the node, dispatching on its phase as `paint_post` states:
    /// a protocol violation before any layout, geometry resolution (plus
    /// offset translation) straight after a layout, and cheap reuse of the
    /// cached geometry on every later paint.
    pub fn paint(&mut self, state: &mut S, offset: Option<Point>, cx: &mut ViewContext) -> (r:
        Result<(), Error>)
        requires
            paint_offset_fits(old(self).phase(), *old(cx), offset),
        ensures
            preserves_resolved(*old(cx), *final(cx)),
            paint_post(
                old(self).phase(),
                final(self).phase(),
                *old(cx),
                *final(cx),
                *old(state),
                *final(state),
                offset,
                r,
            ),
    {
        self.obj.paint(state, offset, cx)
    }
}

/// Turns a value into an opaque element handle: any concrete element converts
/// by being wrapped in a fresh rendered node, and a handle converts to itself.
pub trait IntoAnyElement<S> {
    /// The phase the produced handle is in: the initial one for a concrete
    /// element, the current one for a handle converting to itself.
    spec fn any_phase(&self) -> RenderPhase;

    fn into_any(self) -> (r: AnyElement<S>)
        ensures
            r.phase() == self.any_phase(),
    ;
}

impl<E: Element> IntoAnyElement<E::State> for E {
    open spec fn any_phase(&self) -> RenderPhase {
        RenderPhase::Rendered
    }

    fn into_any(self) -> (r: AnyElement<E::State>) {
        AnyElement { obj: Box::new(RenderedElement::new(self)) }
    }
}

impl<S> IntoAnyElement<S> for AnyElement<S> {
    open spec fn any_phase(&self) -> RenderPhase {
        self.phase()
    }

    fn into_any(self) -> (r: AnyElement<S>)
        ensures
            r == self,
    {
        self
    }
}

/// Ordered child storage plus fluent append operations for any element type
/// that wants children. Implementors supply `children_mut`; insertion order
/// is traversal order for both layout and paint.
pub trait ParentElement<S>: Sized {
    /// The ordered child collection. The default says nothing: an implementor
    /// overrides it with its own child storage, or no contract speaking of it
    /// can be discharged.
    open spec fn children_view(&self) -> Seq<AnyElement<S>> {
        vstd::pervasive::arbitrary()
    }

    fn children_mut(&mut self) -> (r: &mut Vec<AnyElement<S>>)
        ensures
            (*r)@ == old(self).children_view(),
            final(self).children_view() == (*final(r))@,
    ;

    /// Append one child, keeping every existing child in place; returns the
    /// owner for fluent chaining.
    fn child<C: IntoAnyElement<S>>(self, child: C) -> (r: Self)
        ensures
            r.children_view().len() == self.children_view().len() + 1,
            forall|i: int|
                0 <= i < self.children_view().len() ==> r.children_view()[i]
                    == self.children_view()[i],
            r.children_view().last().phase() == child.any_phase(),
    {
        let mut owner = self;
        let list = owner.children_mut();
        list.push(child.into_any());
        owner
    }

    /// Append a sequence of children in order, after every existing child;
    /// returns the owner for fluent chaining.
    fn children<C: IntoAnyElement<S>>(self, items: Vec<C>) -> (r: Self)
        ensures
            r.children_view().len() == self.children_view().len() + items@.len(),
            forall|i: int|
                0 <= i < self.children_view().len() ==> r.children_view()[i]
                    == self.children_view()[i],
            forall|i: int|
                0 <= i < items@.len() ==> r.children_view()[self.children_view().len() + i].phase()
                    == items@[i].any_phase(),
    {
        let ghost orig = self.children_view();
        let ghost added = items@;
        let mut owner = self;
        let mut items = items;
        let ghost mut k: int = 0;
        while items.len() > 0
            invariant
                0 <= k <= added.len(),
                items@ == added.skip(k),
                owner.children_view().len() == orig.len() + k,
                forall|i: int| 0 <= i < orig.len() ==> owner.children_view()[i] == orig[i],
                forall|i: int|
                    0 <= i < k ==> owner.children_view()[orig.len() + i].phase()
                        == added[i].any_phase(),
            decreases items@.len(),
        {
            let item = items.remove(0);
            proof {
                assert(added[k] == item);
                assert(items@ =~= added.skip(k + 1));
            }
            owner = owner.child(item);
            proof {
                k = k + 1;
            }
        }
        owner
    }
}

} // verus!
