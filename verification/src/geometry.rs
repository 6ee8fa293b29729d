use vstd::prelude::*;

verus! {

/// Resolution-independent length unit used for all coordinates and sizes.
pub type Pixels = i64;

/// A position in resolution-independent units.
#[derive(Clone, Copy, PartialEq, Eq, Structural, Debug)]
pub struct Point {
    pub x: Pixels,
    pub y: Pixels,
}

/// An extent in resolution-independent units.
#[derive(Clone, Copy, PartialEq, Eq, Structural, Debug)]
pub struct Size {
    pub width: Pixels,
    pub height: Pixels,
}

/// An origin plus a size: the concrete box a node occupies.
#[derive(Clone, Copy, PartialEq, Eq, Structural, Debug)]
pub struct Bounds {
    pub origin: Point,
    pub size: Size,
}

/// Resolved geometry for one node, valid for one layout pass.
#[derive(Clone, Copy, PartialEq, Eq, Structural, Debug)]
pub struct Layout {
    pub bounds: Bounds,
}

/// An opaque token correlating a layout request with its later-resolved
/// geometry. Meaningful only to the geometry provider that issued it.
#[derive(Clone, Copy, PartialEq, Eq, Structural, Debug)]
pub struct LayoutId(pub usize);

/// The errors surfaced by this library.
#[derive(Clone, Copy, PartialEq, Eq, Structural, Debug)]
pub enum Error {
    /// Protocol violation: `paint` was invoked on a node whose most recent
    /// phase held no layout. This is a caller contract violation, kept
    /// distinct from every data-dependent failure below.
    PaintBeforeLayout,
    /// The geometry provider was asked about a slot that was never requested
    /// or whose geometry has not been provided for the current pass.
    Unresolved(LayoutId),
    /// The geometry provider was asked to overwrite geometry that is already
    /// resolved; resolved geometry is immutable for the rest of its pass.
    AlreadyResolved(LayoutId),
    /// A node's own draw logic failed; the code identifies the failure and
    /// propagates unchanged to the traversal driver.
    Draw(u64),
}

/// The geometry provider context threaded through every `layout` and `paint`
/// call: a table of layout slots, each either still unresolved or resolved to
/// concrete bounds, plus a count of how many times geometry was resolved
/// (an instrument for drivers that want to observe re-resolution).
pub struct ViewContext {
    table: Vec<Option<Layout>>,
    resolves: u64,
}

/// The geometry recorded for `id`, or `None` when the slot was never
/// requested or is not yet resolved.
pub open spec fn slot_geometry(cx: ViewContext, id: LayoutId) -> Option<Layout> {
    if id.0 < cx.slots().len() {
        cx.slots()[id.0 as int]
    } else {
        None
    }
}

/// The resolve counter after one more resolve call; it sticks at the top of
/// its range rather than wrapping.
pub open spec fn counted_resolve(n: u64) -> u64 {
    if n < u64::MAX {
        (n + 1) as u64
    } else {
        n
    }
}

/// Geometry already resolved in `pre` is still resolved, unchanged, in
/// `post`; slots are only ever appended; the resolve count never shrinks.
/// This is the provider-side invariant "resolved geometry is immutable once
/// produced for its pass", stated between two provider states.
pub open spec fn preserves_resolved(pre: ViewContext, post: ViewContext) -> bool {
    &&& pre.slots().len() <= post.slots().len()
    &&& forall|i: int|
        0 <= i < pre.slots().len() && pre.slots()[i] is Some ==> post.slots()[i] == pre.slots()[i]
    &&& pre.resolve_calls() <= post.resolve_calls()
}

pub proof fn lemma_preserves_resolved_trans(a: ViewContext, b: ViewContext, c: ViewContext)
    requires
        preserves_resolved(a, b),
        preserves_resolved(b, c),
    ensures
        preserves_resolved(a, c),
{
}

impl ViewContext {
    /// The slot table: one entry per requested slot, in request order.
    pub closed spec fn slots(&self) -> Seq<Option<Layout>> {
        self.table@
    }

    /// How many times `resolve` has been called on this provider.
    pub closed spec fn resolve_calls(&self) -> u64 {
        self.resolves
    }

    pub fn new() -> (cx: ViewContext)
        ensures
            cx.slots() == Seq::<Option<Layout>>::empty(),
            cx.resolve_calls() == 0,
    {
        ViewContext { table: Vec::new(), resolves: 0 }
    }

    /// Issue a fresh, unresolved layout slot. The children passed along are a
    /// hint for a constraint solver; this minimal provider records only the
    /// slot itself.
    pub fn request_layout(&mut self, _children: &Vec<LayoutId>) -> (id: LayoutId)
        ensures
            final(self).slots() == old(self).slots().push(None::<Layout>),
            final(self).resolve_calls() == old(self).resolve_calls(),
            id.0 == old(self).slots().len(),
    {
        let id = LayoutId(self.table.len());
        self.table.push(None);
        id
    }

    /// Record the geometry solved for `id`. Refused when the slot was never
    /// requested, and when it is already resolved: resolved geometry is
    /// immutable for the rest of its pass.
    pub fn provide(&mut self, id: LayoutId, layout: Layout) -> (r: Result<(), Error>)
        ensures
            final(self).resolve_calls() == old(self).resolve_calls(),
            id.0 >= old(self).slots().len() ==> (r == Err::<(), Error>(Error::Unresolved(id))
                && final(self).slots() == old(self).slots()),
            id.0 < old(self).slots().len() && old(self).slots()[id.0 as int] is Some ==> (r
                == Err::<(), Error>(Error::AlreadyResolved(id)) && final(self).slots() == old(
                self,
            ).slots()),
            id.0 < old(self).slots().len() && old(self).slots()[id.0 as int] is None ==> (r
                == Ok::<(), Error>(()) && final(self).slots() == old(self).slots().update(
                id.0 as int,
                Some(layout),
            )),
    {
        if id.0 >= self.table.len() {
            return Err(Error::Unresolved(id));
        }
        if self.table[id.0].is_some() {
            return Err(Error::AlreadyResolved(id));
        }
        let entry = vstd::std_specs::vec::vec_index_mut(&mut self.table, id.0);
        *entry = Some(layout);
        Ok(())
    }

    /// Look up the geometry resolved for `id`, counting the call. Fails for a
    /// slot that was never requested or whose geometry was never provided.
    pub fn resolve(&mut self, id: LayoutId) -> (r: Result<Layout, Error>)
        ensures
            final(self).slots() == old(self).slots(),
            final(self).resolve_calls() == counted_resolve(old(self).resolve_calls()),
            r == (match slot_geometry(*old(self), id) {
                Some(layout) => Ok::<Layout, Error>(layout),
                None => Err::<Layout, Error>(Error::Unresolved(id)),
            }),
    {
        if self.resolves < u64::MAX {
            self.resolves = self.resolves + 1;
        }
        if id.0 < self.table.len() {
            match self.table[id.0] {
                Some(layout) => Ok(layout),
                None => Err(Error::Unresolved(id)),
            }
        } else {
            Err(Error::Unresolved(id))
        }
    }

    /// The number of `resolve` calls made so far: the instrument a driver or
    /// a test reads to observe whether geometry was re-resolved.
    pub fn resolve_count(&self) -> (n: u64)
        ensures
            n == self.resolve_calls(),
    {
        self.resolves
    }

    /// How many slots have been requested so far.
    pub fn slot_count(&self) -> (n: usize)
        ensures
            n == self.slots().len(),
    {
        self.table.len()
    }
}

} // verus!
