//! The texture registry: a mapping from opaque image handles to texture ids.
//!
//! Registration is idempotent per handle — registering a handle that already
//! has a texture id returns that id and changes nothing. Deregistration frees
//! the handle's slot but never reuses its id, so resolving a stale id after
//! removal degrades gracefully to an empty result instead of failing.

use vstd::prelude::*;

verus! {

/// An opaque reference to pixel data owned by the host's asset system. This
/// library never looks inside it; it only compares handles for identity.
#[derive(Clone, Copy, PartialEq, Eq, Structural, Debug)]
pub struct ImageHandle {
    pub id: u64,
}

/// A registry-scoped identifier under which a registered image is drawn.
#[derive(Clone, Copy, PartialEq, Eq, Structural, Debug)]
pub struct TextureId {
    pub id: u64,
}

/// The registry's model: slot `i` holds the handle that texture id `i` was
/// issued for, or nothing once that handle was deregistered. Ids are never
/// reused, so a slot, once cleared, stays cleared.
pub struct TextureRegistry {
    slots: Vec<Option<ImageHandle>>,
}

/// The slot a handle is registered under: the first (with well-formedness,
/// the only) index holding it.
pub open spec fn handle_slot(s: Seq<Option<ImageHandle>>, h: ImageHandle) -> Option<int>
    decreases s.len(),
{
    if s.len() == 0 {
        None
    } else if s.first() == Some(h) {
        Some(0int)
    } else {
        match handle_slot(s.drop_first(), h) {
            Some(i) => Some(i + 1),
            None => None,
        }
    }
}

/// Registration: a handle that already has a slot keeps it and the registry
/// is unchanged; otherwise a fresh slot is appended and its index issued.
pub open spec fn spec_register(s: Seq<Option<ImageHandle>>, h: ImageHandle) -> (Seq<
    Option<ImageHandle>,
>, TextureId) {
    match handle_slot(s, h) {
        Some(i) => (s, TextureId { id: i as u64 }),
        None => (s.push(Some(h)), TextureId { id: s.len() as u64 }),
    }
}

/// Deregistration: the handle's slot is cleared; a handle with no slot leaves
/// the registry unchanged.
pub open spec fn spec_deregister(s: Seq<Option<ImageHandle>>, h: ImageHandle) -> Seq<
    Option<ImageHandle>,
> {
    match handle_slot(s, h) {
        Some(i) => s.update(i, None),
        None => s,
    }
}

/// Resolution: the handle a texture id stands for, or nothing — for an id
/// that was never issued as much as for one whose handle was deregistered.
pub open spec fn spec_resolve(s: Seq<Option<ImageHandle>>, t: TextureId) -> Option<ImageHandle> {
    if t.id < s.len() {
        s[t.id as int]
    } else {
        None
    }
}

/// Well-formedness: no handle occupies two slots, so the id issued for a
/// handle is unique to it.
pub open spec fn registry_wf(s: Seq<Option<ImageHandle>>) -> bool {
    forall|i: int, j: int|
        0 <= i < j < s.len() && s[i] is Some && s[j] is Some ==> s[i] != s[j]
}

/// Where `handle_slot` finds a slot, that slot holds the handle and no
/// earlier slot does.
pub proof fn lemma_handle_slot_some(s: Seq<Option<ImageHandle>>, h: ImageHandle, i: int)
    requires
        handle_slot(s, h) == Some(i),
    ensures
        0 <= i < s.len(),
        s[i] == Some(h),
        forall|j: int| 0 <= j < i ==> s[j] != Some(h),
    decreases s.len(),
{
    if s.len() > 0 && s.first() != Some(h) {
        lemma_handle_slot_some(s.drop_first(), h, i - 1);
        assert(forall|j: int| 0 <= j < i - 1 ==> s.drop_first()[j] == s[j + 1]);
        assert(s[0] == s.first());
        assert forall|j: int| 0 <= j < i implies s[j] != Some(h) by {
            if j > 0 {
                assert(s.drop_first()[j - 1] == s[j]);
            }
        }
    }
}

/// `handle_slot` comes back empty exactly when no slot holds the handle.
pub proof fn lemma_handle_slot_none(s: Seq<Option<ImageHandle>>, h: ImageHandle)
    ensures
        handle_slot(s, h) is None <==> (forall|j: int| 0 <= j < s.len() ==> s[j] != Some(h)),
    decreases s.len(),
{
    if s.len() > 0 {
        lemma_handle_slot_none(s.drop_first(), h);
        assert(forall|j: int| 0 <= j < s.drop_first().len() ==> s.drop_first()[j] == s[j + 1]);
        if s.first() != Some(h) && handle_slot(s.drop_first(), h) is None {
            assert(forall|j: int| 1 <= j < s.len() ==> s[j] == s.drop_first()[j - 1]);
        }
    }
}

/// A slot that holds the handle, with none holding it earlier, is the one
/// `handle_slot` finds.
pub proof fn lemma_handle_slot_at(s: Seq<Option<ImageHandle>>, h: ImageHandle, i: int)
    requires
        0 <= i < s.len(),
        s[i] == Some(h),
        forall|j: int| 0 <= j < i ==> s[j] != Some(h),
    ensures
        handle_slot(s, h) == Some(i),
    decreases s.len(),
{
    if i > 0 {
        assert(forall|j: int| 0 <= j < i - 1 ==> s.drop_first()[j] == s[j + 1]);
        assert(s.drop_first()[i - 1] == s[i]);
        lemma_handle_slot_at(s.drop_first(), h, i - 1);
    }
}

/// Appending a fresh slot for an unregistered handle makes that slot the one
/// the handle is found under.
pub proof fn lemma_handle_slot_push(s: Seq<Option<ImageHandle>>, h: ImageHandle)
    requires
        handle_slot(s, h) is None,
    ensures
        handle_slot(s.push(Some(h)), h) == Some(s.len() as int),
{
    lemma_handle_slot_none(s, h);
    let s2 = s.push(Some(h));
    assert(forall|j: int| 0 <= j < s.len() ==> s2[j] == s[j]);
    lemma_handle_slot_at(s2, h, s.len() as int);
}

/// Registering the same handle twice yields the same texture id both times,
/// and the second registration leaves the registry exactly as the first did.
pub proof fn lemma_register_idempotent(s: Seq<Option<ImageHandle>>, h: ImageHandle)
    ensures
        spec_register(spec_register(s, h).0, h).1 == spec_register(s, h).1,
        spec_register(spec_register(s, h).0, h).0 == spec_register(s, h).0,
{
    match handle_slot(s, h) {
        Some(i) => {},
        None => {
            lemma_handle_slot_push(s, h);
        },
    }
}

/// Deregistering a handle and then resolving the texture id its registration
/// issued yields the graceful empty result, never a fault. The registry must
/// be small enough that every slot index fits a texture id; any registry a
/// program builds is.
pub proof fn lemma_resolve_after_deregister(s: Seq<Option<ImageHandle>>, h: ImageHandle)
    requires
        s.len() < u64::MAX,
    ensures
        spec_resolve(
            spec_deregister(spec_register(s, h).0, h),
            spec_register(s, h).1,
        ) is None,
{
    match handle_slot(s, h) {
        Some(i) => {
            lemma_handle_slot_some(s, h, i);
        },
        None => {
            lemma_handle_slot_push(s, h);
            let s2 = spec_register(s, h).0;
            lemma_handle_slot_some(s2, h, s.len() as int);
        },
    }
}

impl View for TextureRegistry {
    type V = Seq<Option<ImageHandle>>;

    closed spec fn view(&self) -> Seq<Option<ImageHandle>> {
        self.slots@
    }
}

impl TextureRegistry {
    /// The registry's well-formedness: see [`registry_wf`].
    pub open spec fn wf(&self) -> bool {
        registry_wf(self@)
    }

    /// An empty registry: no slots, no ids issued yet.
    pub fn new() -> (r: TextureRegistry)
        ensures
            r@ == Seq::<Option<ImageHandle>>::empty(),
            r.wf(),
    {
        TextureRegistry { slots: Vec::new() }
    }

    /// The slot a handle is registered under, as an executable search.
    fn find_slot(&self, h: ImageHandle) -> (r: Option<usize>)
        ensures
            match r {
                Some(i) => handle_slot(self@, h) == Some(i as int),
                None => handle_slot(self@, h) is None,
            },
    {
        let mut i: usize = 0;
        while i < self.slots.len()
            invariant
                0 <= i <= self.slots.len(),
                forall|j: int| 0 <= j < i ==> self@[j] != Some(h),
            decreases self.slots.len() - i,
        {
            let hit = match &self.slots[i] {
                Some(e) => e.id == h.id,
                None => false,
            };
            if hit {
                proof {
                    lemma_handle_slot_at(self@, h, i as int);
                }
                return Some(i);
            }
            i += 1;
        }
        proof {
            lemma_handle_slot_none(self@, h);
        }
        None
    }

    /// Registers a handle: idempotent per handle. A handle that already has a
    /// texture id gets that id again and nothing changes; otherwise a fresh
    /// id — never issued before — is allocated for it.
    pub fn register(&mut self, h: ImageHandle) -> (t: TextureId)
        requires
            old(self).wf(),
        ensures
            final(self)@ == spec_register(old(self)@, h).0,
            t == spec_register(old(self)@, h).1,
            final(self).wf(),
    {
        match self.find_slot(h) {
            Some(i) => TextureId { id: i as u64 },
            None => {
                let id = self.slots.len() as u64;
                proof {
                    lemma_handle_slot_none(self@, h);
                }
                self.slots.push(Some(h));
                TextureId { id }
            },
        }
    }

    /// Deregisters a handle: its slot is cleared, its id stays unissued for
    /// ever after. Deregistering an unknown handle changes nothing.
    pub fn deregister(&mut self, h: ImageHandle)
        requires
            old(self).wf(),
        ensures
            final(self)@ == spec_deregister(old(self)@, h),
            final(self).wf(),
    {
        match self.find_slot(h) {
            Some(i) => {
                proof {
                    lemma_handle_slot_some(self@, h, i as int);
                }
                self.slots.set(i, None);
            },
            None => {},
        }
    }

    /// Resolves a texture id to the handle it was issued for. An id that was
    /// never issued, or whose handle was deregistered, resolves to nothing:
    /// the graceful-empty result a drawing layer shows as a blank.
    pub fn resolve(&self, t: TextureId) -> (r: Option<ImageHandle>)
        ensures
            r == spec_resolve(self@, t),
    {
        if t.id < self.slots.len() as u64 {
            self.slots[t.id as usize]
        } else {
            None
        }
    }
}

} // verus!
