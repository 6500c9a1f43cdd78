//! The compositor's own bookkeeping: identifiers of views and textures, the
//! textures of each view, and the vsync baton.
use vstd::prelude::*;
use std::collections::HashMap;
use crate::flutter_engine::Baton;
use crate::wayland_messages::Size;

verus! {

broadcast use vstd::std_specs::hash::group_hash_axioms;

/// The textures registered for a view, oldest first.
pub open spec fn textures_of(m: Map<u64, Vec<i64>>, view_id: u64) -> Seq<i64> {
    if m.contains_key(view_id) { m[view_id]@ } else { Seq::empty() }
}

/// What is kept of a view's textures before a new one is added: at most the
/// newest one.
pub open spec fn kept_textures(l: Seq<i64>) -> Seq<i64> {
    if l.len() >= 2 { l.skip(l.len() - 1) } else { l }
}

/// Whether a buffer of size `size` differs from the one the view showed
/// before (any size differs from none).
pub open spec fn size_changed(old_texture_size: Option<Size>, size: Size) -> bool {
    match old_texture_size {
        Some(old) => old != size,
        None => true,
    }
}

/// Whether a commit of `view_id` can keep showing the texture it showed last.
pub open spec fn reuses_texture(
    m: Map<u64, Vec<i64>>,
    view_id: u64,
    old_texture_size: Option<Size>,
    size: Size,
) -> bool {
    !size_changed(old_texture_size, size) && textures_of(m, view_id).len() > 0
}

/// Every view has at most two textures, each below the next texture
/// identifier (so never given out again).
pub open spec fn texture_lists_wf(m: Map<u64, Vec<i64>>, next_texture_id: i64) -> bool {
    &&& forall|v: u64| #[trigger] textures_of(m, v).len() <= 2
    &&& forall|v: u64, i: int|
        0 <= i < textures_of(m, v).len() ==> #[trigger] textures_of(m, v)[i] < next_texture_id
}

/// State of the compositor that its logic reads and writes, as plain values.
pub struct Common {
    pub should_stop: bool,
    pub baton: Option<Baton>,
    pub next_view_id: u64,
    pub next_texture_id: i64,
    pub view_id_under_cursor: Option<u64>,
    pub is_next_vblank_scheduled: bool,
    pub texture_ids_per_view_id: HashMap<u64, Vec<i64>>,
    pub view_id_per_texture_id: HashMap<i64, u64>,
}

impl Common {
    pub fn new() -> (r: Self)
        ensures
            !r.should_stop,
            r.baton is None,
            r.next_view_id == 1,
            r.next_texture_id == 1,
            r.view_id_under_cursor is None,
            !r.is_next_vblank_scheduled,
            r.texture_ids_per_view_id@ == Map::<u64, Vec<i64>>::empty(),
            r.view_id_per_texture_id@ == Map::<i64, u64>::empty(),
            texture_lists_wf(r.texture_ids_per_view_id@, r.next_texture_id),
    {
        Common {
            should_stop: false,
            baton: None,
            next_view_id: 1,
            next_texture_id: 1,
            view_id_under_cursor: None,
            is_next_vblank_scheduled: false,
            texture_ids_per_view_id: HashMap::new(),
            view_id_per_texture_id: HashMap::new(),
        }
    }

    /// A view identifier that was never given out before.
    pub fn get_new_view_id(&mut self) -> (view_id: u64)
        requires
            old(self).next_view_id < u64::MAX,
        ensures
            view_id == old(self).next_view_id,
            final(self).next_view_id == old(self).next_view_id + 1,
            final(self).next_texture_id == old(self).next_texture_id,
            final(self).should_stop == old(self).should_stop,
            final(self).baton == old(self).baton,
            final(self).view_id_under_cursor == old(self).view_id_under_cursor,
            final(self).is_next_vblank_scheduled == old(self).is_next_vblank_scheduled,
            final(self).texture_ids_per_view_id@ == old(self).texture_ids_per_view_id@,
            final(self).view_id_per_texture_id@ == old(self).view_id_per_texture_id@,
    {
        let view_id = self.next_view_id;
        self.next_view_id = self.next_view_id + 1;
        view_id
    }

    /// A texture identifier that was never given out before.
    pub fn get_new_texture_id(&mut self) -> (texture_id: i64)
        requires
            old(self).next_texture_id < i64::MAX,
        ensures
            texture_id == old(self).next_texture_id,
            final(self).next_texture_id == old(self).next_texture_id + 1,
            final(self).next_view_id == old(self).next_view_id,
            final(self).should_stop == old(self).should_stop,
            final(self).baton == old(self).baton,
            final(self).view_id_under_cursor == old(self).view_id_under_cursor,
            final(self).is_next_vblank_scheduled == old(self).is_next_vblank_scheduled,
            final(self).texture_ids_per_view_id@ == old(self).texture_ids_per_view_id@,
            final(self).view_id_per_texture_id@ == old(self).view_id_per_texture_id@,
    {
        let texture_id = self.next_texture_id;
        self.next_texture_id = self.next_texture_id + 1;
        texture_id
    }

    /// Whether a commit of `view_id` with a buffer of size `size` needs a
    /// new texture (and so a fresh identifier).
    pub fn needs_new_texture(&self, view_id: u64, old_texture_size: Option<Size>, size: Size) -> (r: bool)
        ensures
            r == !reuses_texture(self.texture_ids_per_view_id@, view_id, old_texture_size, size),
    {
        let size_changed = match old_texture_size {
            Some(old) => old.w != size.w || old.h != size.h,
            None => true,
        };
        if size_changed {
            return true;
        }
        match self.texture_ids_per_view_id.get(&view_id) {
            Some(textures) => textures.len() == 0,
            None => true,
        }
    }

    /// The texture that a commit of `view_id` with a new buffer of size
    /// `size` draws into, and whether it is new (and so must be registered
    /// with the engine). The last texture of the view is kept unless the
    /// buffer size differs from `old_texture_size` or the view has none; a new texture replaces all but the newest of
    /// the view's textures, so that a view never has more than two.
    pub fn texture_id_for_commit(
        &mut self,
        view_id: u64,
        old_texture_size: Option<Size>,
        size: Size,
    ) -> (r: (i64, bool))
        requires
            !reuses_texture(old(self).texture_ids_per_view_id@, view_id, old_texture_size, size)
                ==> old(self).next_texture_id < i64::MAX,
        ensures
            final(self).next_view_id == old(self).next_view_id,
            final(self).should_stop == old(self).should_stop,
            final(self).baton == old(self).baton,
            final(self).view_id_under_cursor == old(self).view_id_under_cursor,
            final(self).is_next_vblank_scheduled == old(self).is_next_vblank_scheduled,
            texture_lists_wf(old(self).texture_ids_per_view_id@, old(self).next_texture_id) ==> texture_lists_wf(
                final(self).texture_ids_per_view_id@,
                final(self).next_texture_id,
            ),
            texture_lists_wf(old(self).texture_ids_per_view_id@, old(self).next_texture_id) && r.1 ==> forall|
                v: u64,
                i: int,
            | 0 <= i < textures_of(old(self).texture_ids_per_view_id@, v).len() ==> #[trigger] textures_of(
                old(self).texture_ids_per_view_id@,
                v,
            )[i] != r.0,
            reuses_texture(old(self).texture_ids_per_view_id@, view_id, old_texture_size, size) ==> {
                &&& r == (textures_of(old(self).texture_ids_per_view_id@, view_id).last(), false)
                &&& final(self).next_texture_id == old(self).next_texture_id
                &&& final(self).texture_ids_per_view_id@ == old(self).texture_ids_per_view_id@
                &&& final(self).view_id_per_texture_id@ == old(self).view_id_per_texture_id@
            },
            !reuses_texture(old(self).texture_ids_per_view_id@, view_id, old_texture_size, size) ==> {
                &&& r == (old(self).next_texture_id, true)
                &&& final(self).next_texture_id == old(self).next_texture_id + 1
                &&& final(self).texture_ids_per_view_id@.dom()
                    == old(self).texture_ids_per_view_id@.dom().insert(view_id)
                &&& forall|v: u64| v != view_id ==> #[trigger] textures_of(
                    final(self).texture_ids_per_view_id@,
                    v,
                ) == textures_of(old(self).texture_ids_per_view_id@, v)
                &&& textures_of(final(self).texture_ids_per_view_id@, view_id) == kept_textures(
                    textures_of(old(self).texture_ids_per_view_id@, view_id),
                ).push(r.0)
                &&& final(self).view_id_per_texture_id@ == old(
                    self,
                ).view_id_per_texture_id@.insert(r.0, view_id)
            },
    {
        let size_changed = match old_texture_size {
            Some(old) => old.w != size.w || old.h != size.h,
            None => true,
        };
        if !size_changed {
            if let Some(textures) = self.texture_ids_per_view_id.get(&view_id) {
                if textures.len() > 0 {
                    return (textures[textures.len() - 1], false);
                }
            }
        }
        let texture_id = self.get_new_texture_id();
        let mut textures = match self.texture_ids_per_view_id.remove(&view_id) {
            Some(textures) => textures,
            None => Vec::new(),
        };
        let ghost before = textures@;
        assert(before == textures_of(old(self).texture_ids_per_view_id@, view_id));
        while textures.len() >= 2
            invariant
                before.len() >= textures@.len(),
                textures@ == before.skip(before.len() - textures@.len()),
                before.len() >= 2 ==> textures@.len() >= 1,
                before.len() < 2 ==> textures@ == before,
            decreases textures@.len(),
        {
            textures.remove(0);
        }
        assert(textures@ == kept_textures(before));
        textures.push(texture_id);
        self.texture_ids_per_view_id.insert(view_id, textures);
        self.view_id_per_texture_id.insert(texture_id, view_id);
        proof {
            if texture_lists_wf(old(self).texture_ids_per_view_id@, old(self).next_texture_id) {
                lemma_new_texture_keeps_lists_wf(
                    old(self).texture_ids_per_view_id@,
                    self.texture_ids_per_view_id@,
                    view_id,
                    texture_id,
                );
            }
        }
        (texture_id, true)
    }

    /// A vblank happened: no vblank is scheduled any more, and the baton
    /// that was waiting for it, if any, is handed back to the engine.
    pub fn vsync(&mut self) -> (baton: Option<Baton>)
        ensures
            vsync_step(old(self).baton, final(self).baton, baton),
            baton == old(self).baton,
            final(self).baton is None,
            !final(self).is_next_vblank_scheduled,
            final(self).should_stop == old(self).should_stop,
            final(self).next_view_id == old(self).next_view_id,
            final(self).next_texture_id == old(self).next_texture_id,
            final(self).view_id_under_cursor == old(self).view_id_under_cursor,
            final(self).texture_ids_per_view_id@ == old(self).texture_ids_per_view_id@,
            final(self).view_id_per_texture_id@ == old(self).view_id_per_texture_id@,
    {
        self.is_next_vblank_scheduled = false;
        self.baton.take()
    }

    /// The engine sent a baton (or its channel closed, `None`). The newest
    /// baton is kept while a vblank is scheduled, and handed back at once
    /// otherwise.
    pub fn receive_baton(&mut self, baton: Option<Baton>) -> (ready: Option<Baton>)
        ensures
            receive_baton_step(old(self).baton, old(self).is_next_vblank_scheduled, baton, final(self).baton, ready),
            old(self).is_next_vblank_scheduled ==> ready is None && final(self).baton == (
                if baton is Some { baton } else { old(self).baton }),
            !old(self).is_next_vblank_scheduled ==> final(self).baton is None && ready == (
                if baton is Some { baton } else { old(self).baton }),
            final(self).is_next_vblank_scheduled == old(self).is_next_vblank_scheduled,
            final(self).should_stop == old(self).should_stop,
            final(self).next_view_id == old(self).next_view_id,
            final(self).next_texture_id == old(self).next_texture_id,
            final(self).view_id_under_cursor == old(self).view_id_under_cursor,
            final(self).texture_ids_per_view_id@ == old(self).texture_ids_per_view_id@,
            final(self).view_id_per_texture_id@ == old(self).view_id_per_texture_id@,
    {
        if let Some(baton) = baton {
            self.baton = Some(baton);
        }
        if self.is_next_vblank_scheduled {
            return None;
        }
        self.baton.take()
    }
}

/// A view never has more than two textures: whatever the view had before,
/// what it keeps plus the new texture is at most two textures, the one it
/// showed last followed by the new one.
pub proof fn lemma_at_most_two_textures_per_view(textures: Seq<i64>, new_texture: i64)
    ensures
        kept_textures(textures).push(new_texture).len() <= 2,
        kept_textures(textures).push(new_texture).last() == new_texture,
        textures.len() > 0 ==> kept_textures(textures).push(new_texture)[0] == textures.last(),
{
}

/// A view keeps drawing into its last texture only for a buffer of the very
/// same size: a buffer that differs from the previous one in width or in
/// height gets a new texture, and so does a view's first buffer; a buffer of
/// the same size reuses the view's last texture when it has one.
pub proof fn lemma_texture_reused_only_for_same_size(
    m: Map<u64, Vec<i64>>,
    view_id: u64,
    old_size: Size,
    size: Size,
)
    ensures
        old_size.w != size.w ==> !reuses_texture(m, view_id, Some(old_size), size),
        old_size.h != size.h ==> !reuses_texture(m, view_id, Some(old_size), size),
        !reuses_texture(m, view_id, None, size),
        old_size.w == size.w && old_size.h == size.h && textures_of(m, view_id).len() > 0 ==> reuses_texture(
            m,
            view_id,
            Some(old_size),
            size,
        ),
{
}

/// Every identifier in `ids` is below `next`.
pub open spec fn ids_below(ids: Set<u64>, next: u64) -> bool {
    forall|id: u64| #[trigger] ids.contains(id) ==> id < next
}

/// A new view identifier is fresh: when every identifier given out so far
/// is below the next one, the identifier `get_new_view_id` hands out is
/// none of them, and with it they all stay below the advanced counter.
pub proof fn lemma_new_view_id_is_fresh(given: Set<u64>, next_before: u64, view_id: u64, next_after: u64)
    requires
        ids_below(given, next_before),
        view_id == next_before,
        next_after == next_before + 1,
    ensures
        !given.contains(view_id),
        ids_below(given.insert(view_id), next_after),
{
}

/// Committing a new texture keeps every view at two textures or fewer, all
/// below the next identifier: the new texture is fresh (in no view's list
/// before) and is the last of its view's list, other views keep theirs.
pub proof fn lemma_new_texture_keeps_lists_wf(
    before: Map<u64, Vec<i64>>,
    after: Map<u64, Vec<i64>>,
    view_id: u64,
    texture_id: i64,
)
    requires
        texture_lists_wf(before, texture_id),
        texture_id < i64::MAX,
        forall|v: u64| v != view_id ==> #[trigger] textures_of(after, v) == textures_of(before, v),
        textures_of(after, view_id) == kept_textures(textures_of(before, view_id)).push(texture_id),
    ensures
        texture_lists_wf(after, (texture_id + 1) as i64),
        textures_of(after, view_id).last() == texture_id,
        forall|v: u64, i: int|
            0 <= i < textures_of(before, v).len() ==> #[trigger] textures_of(before, v)[i] != texture_id,
{
    let l = textures_of(before, view_id);
    lemma_at_most_two_textures_per_view(l, texture_id);
    assert forall|v: u64| #[trigger] textures_of(after, v).len() <= 2 by {
        if v != view_id {
            assert(textures_of(after, v) == textures_of(before, v));
        }
    }
    assert forall|v: u64, i: int|
        0 <= i < textures_of(after, v).len() implies #[trigger] textures_of(after, v)[i] < texture_id + 1 by {
        if v != view_id {
            assert(textures_of(after, v) == textures_of(before, v));
            assert(textures_of(before, v)[i] < texture_id);
        } else if i < kept_textures(l).len() {
            if l.len() >= 2 {
                assert(kept_textures(l)[i] == l[l.len() - 1 + i]);
                assert(l[l.len() - 1 + i] < texture_id);
            } else {
                assert(l[i] < texture_id);
            }
        }
    }
    assert forall|v: u64, i: int|
        0 <= i < textures_of(before, v).len() implies #[trigger] textures_of(before, v)[i] != texture_id by {
        assert(textures_of(before, v)[i] < texture_id);
    }
}

/// What `receive_baton` does to the stored baton: a new baton replaces the
/// stored one; while a vblank is scheduled it stays stored, otherwise it is
/// handed back (`ready`) and nothing stays stored.
pub open spec fn receive_baton_step(
    stored: Option<Baton>,
    scheduled: bool,
    baton: Option<Baton>,
    stored_after: Option<Baton>,
    ready: Option<Baton>,
) -> bool {
    let current = if baton is Some { baton } else { stored };
    if scheduled {
        ready is None && stored_after == current
    } else {
        ready == current && stored_after is None
    }
}

/// What `vsync` does to the stored baton: hands it back and stores nothing.
pub open spec fn vsync_step(stored: Option<Baton>, stored_after: Option<Baton>, handed: Option<Baton>) -> bool {
    handed == stored && stored_after is None
}

/// A baton that the engine sends is handed back exactly once: at once when
/// no vblank is scheduled, else at the next vblank.
pub proof fn lemma_baton_handed_back_exactly_once(
    stored: Option<Baton>,
    scheduled: bool,
    baton: Baton,
    stored_mid: Option<Baton>,
    ready: Option<Baton>,
    stored_after: Option<Baton>,
    handed: Option<Baton>,
)
    requires
        receive_baton_step(stored, scheduled, Some(baton), stored_mid, ready),
        vsync_step(stored_mid, stored_after, handed),
    ensures
        (ready == Some(baton) && handed is None) || (ready is None && handed == Some(baton)),
        stored_after is None,
{
}

} // verus!
