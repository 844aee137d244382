//! The pool of reusable textures.
//!
//! A texture is leased for one frame. At the end of the frame every lease
//! ends, and a texture that nobody has leased for a configurable number of
//! consecutive frames is evicted.

use vstd::prelude::*;
use crate::texture::{Limits, RenderDevice, TextureDescriptor};

verus! {

/// Identity of one texture allocation.
#[derive(Clone, Copy, Debug, PartialEq, Eq, Hash, Structural)]
pub struct TextureId(pub u64);

/// A texture on lease from the cache.
#[derive(Clone, Copy, Debug, PartialEq, Eq, Hash, Structural)]
pub struct CachedTexture {
    pub texture: TextureId,
    pub descriptor: TextureDescriptor,
}

/// Why the cache could not hand out a texture.
#[derive(Clone, Copy, Debug, PartialEq, Eq, Hash, Structural)]
pub enum AllocationError {
    /// An extent of the descriptor is zero or exceeds the device's limit.
    InvalidSize,
    /// No pooled texture is idle and every texture identity has been used.
    OutOfIdentities,
}

/// A texture in the pool.
#[derive(Clone, Copy, Debug, PartialEq, Eq, Hash, Structural)]
pub struct PooledTexture {
    pub texture: TextureId,
    pub descriptor: TextureDescriptor,
    /// Whether the texture is on lease in the current frame.
    pub taken: bool,
    /// Number of consecutive completed frames in which nobody leased it.
    pub idle_frames: u32,
}

/// Number of consecutive frames without a lease after which a texture is
/// evicted, unless the cache is made with another.
pub const DEFAULT_EVICTION_FRAMES: u32 = 3;

/// The state of the pool as contracts see it.
pub struct Pool {
    /// The pooled textures, oldest allocation first.
    pub textures: Seq<PooledTexture>,
    /// The identity that the next allocation gets.
    pub next_id: u64,
    /// Frames without a lease after which a texture is evicted.
    pub eviction_frames: u32,
}

/// Whether `texture` can serve a request for `descriptor` now.
pub open spec fn is_idle_match(texture: PooledTexture, descriptor: TextureDescriptor) -> bool {
    !texture.taken && texture.descriptor == descriptor
}

/// Index of the first texture that can serve a request for `descriptor`;
/// the length of `textures` if there is none.
pub open spec fn first_idle(textures: Seq<PooledTexture>, descriptor: TextureDescriptor) -> int
    decreases textures.len(),
{
    if textures.len() == 0 {
        0
    } else if is_idle_match(textures[0], descriptor) {
        0
    } else {
        1 + first_idle(textures.drop_first(), descriptor)
    }
}

/// The texture as it leaves a frame: no longer on lease, idle for no frame
/// if it was leased in the frame that ends, for one frame more if not.
pub open spec fn aged(texture: PooledTexture) -> PooledTexture {
    PooledTexture {
        taken: false,
        idle_frames: if texture.taken {
            0
        } else if texture.idle_frames < u32::MAX {
            (texture.idle_frames + 1) as u32
        } else {
            u32::MAX
        },
        ..texture
    }
}

/// The textures that stay pooled when a frame ends, in their order.
pub open spec fn survivors(textures: Seq<PooledTexture>, eviction_frames: u32) -> Seq<
    PooledTexture,
>
    decreases textures.len(),
{
    if textures.len() == 0 {
        Seq::empty()
    } else {
        let rest = survivors(textures.drop_last(), eviction_frames);
        let last = aged(textures.last());
        if last.idle_frames < eviction_frames {
            rest.push(last)
        } else {
            rest
        }
    }
}

/// The identities of the textures evicted when a frame ends, in their order.
pub open spec fn evicted(textures: Seq<PooledTexture>, eviction_frames: u32) -> Seq<TextureId>
    decreases textures.len(),
{
    if textures.len() == 0 {
        Seq::empty()
    } else {
        let rest = evicted(textures.drop_last(), eviction_frames);
        let last = aged(textures.last());
        if last.idle_frames < eviction_frames {
            rest
        } else {
            rest.push(last.texture)
        }
    }
}

impl Pool {
    /// No two pooled textures share an identity, none has an identity that
    /// is still to be given out, a leased texture has been idle for no
    /// frame, an idle one for fewer frames than evict it, and among the
    /// textures of one descriptor the leased ones come first.
    pub open spec fn wf(self) -> bool {
        &&& forall|i: int| 0 <= i < self.textures.len() ==> (#[trigger] self.textures[i]).texture.0 < self.next_id
        &&& forall|i: int, j: int|
            0 <= i < j < self.textures.len() ==> (#[trigger] self.textures[i]).texture != (
            #[trigger] self.textures[j]).texture
        &&& forall|i: int|
            0 <= i < self.textures.len() ==> {
                let t = #[trigger] self.textures[i];
                if t.taken {
                    t.idle_frames == 0
                } else {
                    t.idle_frames < self.eviction_frames
                }
            }
        &&& forall|i: int, j: int|
            0 <= i < j < self.textures.len() && (#[trigger] self.textures[i]).descriptor == (
            #[trigger] self.textures[j]).descriptor && self.textures[j].taken
                ==> self.textures[i].taken
    }

    /// The pool and the answer after a request for `descriptor` on a device
    /// with `limits`.
    ///
    /// A descriptor that the device cannot hold is refused and the pool
    /// stays as it is. Otherwise the first idle texture of that descriptor
    /// is leased; if there is none, a texture with the next identity is
    /// added to the end of the pool and leased, unless no identity is left.
    pub open spec fn acquire(self, limits: Limits, descriptor: TextureDescriptor) -> (
        Pool,
        Result<CachedTexture, AllocationError>,
    ) {
        let i = first_idle(self.textures, descriptor);
        if !descriptor.spec_fits(limits) {
            (self, Err(AllocationError::InvalidSize))
        } else if i < self.textures.len() {
            (
                Pool {
                    textures: self.textures.update(
                        i,
                        PooledTexture { taken: true, idle_frames: 0, ..self.textures[i] },
                    ),
                    ..self
                },
                Ok(CachedTexture { texture: self.textures[i].texture, descriptor }),
            )
        } else if self.next_id == u64::MAX {
            (self, Err(AllocationError::OutOfIdentities))
        } else {
            (
                Pool {
                    textures: self.textures.push(
                        PooledTexture {
                            texture: TextureId(self.next_id),
                            descriptor,
                            taken: true,
                            idle_frames: 0,
                        },
                    ),
                    next_id: (self.next_id + 1) as u64,
                    ..self
                },
                Ok(CachedTexture { texture: TextureId(self.next_id), descriptor }),
            )
        }
    }

    /// The pool after the end of a frame.
    pub open spec fn end_frame(self) -> Pool {
        Pool { textures: survivors(self.textures, self.eviction_frames), ..self }
    }

    /// The pool after the end of `frames` frames in which nothing is leased.
    pub open spec fn end_frames(self, frames: nat) -> Pool
        decreases frames,
    {
        if frames == 0 {
            self
        } else {
            self.end_frame().end_frames((frames - 1) as nat)
        }
    }

    /// Whether a texture with this identity is pooled.
    pub open spec fn holds(self, texture: TextureId) -> bool {
        exists|i: int| 0 <= i < self.textures.len() && (#[trigger] self.textures[i]).texture == texture
    }

    /// Whether the texture with this identity is on lease.
    pub open spec fn is_leased(self, texture: TextureId) -> bool {
        exists|i: int|
            0 <= i < self.textures.len() && (#[trigger] self.textures[i]).texture == texture
                && self.textures[i].taken
    }

    /// Whether a texture of this descriptor is on lease.
    pub open spec fn has_lease_of(self, descriptor: TextureDescriptor) -> bool {
        exists|i: int|
            0 <= i < self.textures.len() && (#[trigger] self.textures[i]).descriptor == descriptor
                && self.textures[i].taken
    }
}

/// The pool of reusable textures.
pub struct TextureCache {
    textures: Vec<PooledTexture>,
    next_id: u64,
    eviction_frames: u32,
}

impl View for TextureCache {
    type V = Pool;

    closed spec fn view(&self) -> Pool {
        Pool {
            textures: self.textures@,
            next_id: self.next_id,
            eviction_frames: self.eviction_frames,
        }
    }
}

impl TextureCache {
    /// An empty pool that evicts a texture after `DEFAULT_EVICTION_FRAMES`
    /// frames without a lease.
    pub fn new() -> (cache: Self)
        ensures
            cache@ == (Pool {
                textures: Seq::empty(),
                next_id: 0,
                eviction_frames: DEFAULT_EVICTION_FRAMES,
            }),
            cache@.wf(),
    {
        TextureCache { textures: Vec::new(), next_id: 0, eviction_frames: DEFAULT_EVICTION_FRAMES }
    }

    /// An empty pool that evicts a texture after `eviction_frames` frames
    /// without a lease.
    pub fn with_eviction_frames(eviction_frames: u32) -> (cache: Self)
        ensures
            cache@ == (Pool { textures: Seq::empty(), next_id: 0, eviction_frames }),
            cache@.wf(),
    {
        TextureCache { textures: Vec::new(), next_id: 0, eviction_frames }
    }

    /// Number of pooled textures, leased or idle.
    pub fn len(&self) -> (n: usize)
        ensures
            n == self@.textures.len(),
    {
        self.textures.len()
    }

    pub fn is_empty(&self) -> (empty: bool)
        ensures
            empty == (self@.textures.len() == 0),
    {
        self.textures.len() == 0
    }

    /// Leases a texture of `descriptor`: an idle pooled one if there is one,
    /// else a new one.
    pub fn acquire(&mut self, device: &RenderDevice, descriptor: TextureDescriptor) -> (result: Result<
        CachedTexture,
        AllocationError,
    >)
        ensures
            (final(self)@, result) == old(self)@.acquire(device.limits, descriptor),
            old(self)@.wf() ==> final(self)@.wf(),
    {
        proof {
            if self@.wf() {
                lemma_acquire_keeps_wf(self@, device.limits, descriptor);
            }
        }
        if !descriptor.fits(&device.limits) {
            return Err(AllocationError::InvalidSize);
        }
        let n: usize = self.textures.len();
        let mut i: usize = 0;
        while i < n
            invariant
                i <= n,
                n == self.textures.len(),
                *self == *old(self),
                descriptor.spec_fits(device.limits),
                forall|j: int| 0 <= j < i ==> !is_idle_match(#[trigger] self.textures@[j], descriptor),
            decreases n - i,
        {
            let candidate: PooledTexture = self.textures[i];
            if !candidate.taken && candidate.descriptor == descriptor {
                proof {
                    lemma_first_idle_at(self.textures@, descriptor, i as int);
                }
                self.textures.set(i, PooledTexture { taken: true, idle_frames: 0, ..candidate });
                assert(self@.textures =~= old(self)@.acquire(device.limits, descriptor).0.textures);
                return Ok(CachedTexture { texture: candidate.texture, descriptor });
            }
            i += 1;
        }
        proof {
            lemma_first_idle_none(self.textures@, descriptor);
        }
        if self.next_id == u64::MAX {
            return Err(AllocationError::OutOfIdentities);
        }
        let texture = TextureId(self.next_id);
        self.next_id = self.next_id + 1;
        self.textures.push(PooledTexture { texture, descriptor, taken: true, idle_frames: 0 });
        assert(self@.textures =~= old(self)@.acquire(device.limits, descriptor).0.textures);
        Ok(CachedTexture { texture, descriptor })
    }

    /// Ends the frame: every lease ends, and each texture that has now gone
    /// without a lease for as many consecutive frames as evict it leaves
    /// the pool. Returns the identities of the evicted textures, so that
    /// their memory can be freed.
    pub fn release_all_unclaimed_since_last_frame(&mut self) -> (gone: Vec<TextureId>)
        ensures
            final(self)@ == old(self)@.end_frame(),
            gone@ == evicted(old(self)@.textures, old(self)@.eviction_frames),
            old(self)@.wf() ==> final(self)@.wf(),
    {
        proof {
            if self@.wf() {
                lemma_end_frame_keeps_wf(self@);
            }
        }
        let mut kept: Vec<PooledTexture> = Vec::new();
        let mut gone: Vec<TextureId> = Vec::new();
        let n: usize = self.textures.len();
        let mut i: usize = 0;
        while i < n
            invariant
                i <= n,
                n == self.textures.len(),
                *self == *old(self),
                kept@ == survivors(self.textures@.subrange(0, i as int), self.eviction_frames),
                gone@ == evicted(self.textures@.subrange(0, i as int), self.eviction_frames),
            decreases n - i,
        {
            let texture: PooledTexture = self.textures[i];
            let idle_frames: u32 = if texture.taken {
                0
            } else if texture.idle_frames < u32::MAX {
                texture.idle_frames + 1
            } else {
                u32::MAX
            };
            proof {
                let next = self.textures@.subrange(0, i + 1);
                assert(next.drop_last() =~= self.textures@.subrange(0, i as int));
                assert(next.last() == texture);
            }
            if idle_frames < self.eviction_frames {
                kept.push(PooledTexture { taken: false, idle_frames, ..texture });
            } else {
                gone.push(texture.texture);
            }
            i += 1;
        }
        assert(self.textures@.subrange(0, n as int) =~= self.textures@);
        self.textures = kept;
        gone
    }
}

/// Every texture that stays pooled at the end of a frame is the aged form
/// of a texture of the pool, and they stay in their order.
pub proof fn lemma_survivors_come_from(textures: Seq<PooledTexture>, eviction_frames: u32)
    ensures
        survivors(textures, eviction_frames).len() <= textures.len(),
        forall|k: int|
            0 <= k < survivors(textures, eviction_frames).len() ==> {
                let survivor = #[trigger] survivors(textures, eviction_frames)[k];
                &&& survivor.idle_frames < eviction_frames
                &&& !survivor.taken
                &&& exists|j: int| k <= j < textures.len() && survivor == aged(#[trigger] textures[j])
            },
    decreases textures.len(),
{
    if textures.len() > 0 {
        let front = textures.drop_last();
        lemma_survivors_come_from(front, eviction_frames);
        let all = survivors(textures, eviction_frames);
        assert forall|k: int| 0 <= k < all.len() implies {
            let survivor = #[trigger] all[k];
            &&& survivor.idle_frames < eviction_frames
            &&& !survivor.taken
            &&& exists|j: int| k <= j < textures.len() && survivor == aged(#[trigger] textures[j])
        } by {
            if k < survivors(front, eviction_frames).len() {
                let j = choose|j: int|
                    k <= j < front.len() && survivors(front, eviction_frames)[k] == aged(
                        #[trigger] front[j],
                    );
                assert(front[j] == textures[j]);
            } else {
                assert(all[k] == aged(textures[textures.len() - 1]));
            }
        }
    }
}

/// What stays of two runs of textures is what stays of the first followed
/// by what stays of the second.
pub proof fn lemma_survivors_concat(
    front: Seq<PooledTexture>,
    back: Seq<PooledTexture>,
    eviction_frames: u32,
)
    ensures
        survivors(front + back, eviction_frames) == survivors(front, eviction_frames) + survivors(
            back,
            eviction_frames,
        ),
    decreases back.len(),
{
    if back.len() == 0 {
        assert(front + back =~= front);
        assert(survivors(front, eviction_frames) + survivors(back, eviction_frames) =~= survivors(
            front,
            eviction_frames,
        ));
    } else {
        lemma_survivors_concat(front, back.drop_last(), eviction_frames);
        assert((front + back).drop_last() =~= front + back.drop_last());
        assert((front + back).last() == back.last());
        assert(survivors(front + back, eviction_frames) =~= survivors(front, eviction_frames)
            + survivors(back, eviction_frames));
    }
}

/// The end of a frame leaves a well-formed pool well-formed.
pub proof fn lemma_end_frame_keeps_wf(pool: Pool)
    requires
        pool.wf(),
    ensures
        pool.end_frame().wf(),
    decreases pool.textures.len(),
{
    let after = pool.end_frame();
    lemma_survivors_come_from(pool.textures, pool.eviction_frames);
    if pool.textures.len() > 0 {
        let front = Pool { textures: pool.textures.drop_last(), ..pool };
        assert(front.wf()) by {
            assert forall|i: int| 0 <= i < front.textures.len() implies front.textures[i]
                == pool.textures[i] by {}
        }
        lemma_end_frame_keeps_wf(front);
        lemma_survivors_come_from(front.textures, pool.eviction_frames);
        let kept_front = survivors(front.textures, pool.eviction_frames);
        assert forall|i: int, j: int| 0 <= i < j < after.textures.len() implies (
        #[trigger] after.textures[i]).texture != (#[trigger] after.textures[j]).texture by {
            if j < kept_front.len() {
                assert(front.end_frame().textures[i].texture != front.end_frame().textures[j].texture);
            } else {
                let origin = choose|o: int|
                    i <= o < front.textures.len() && kept_front[i] == aged(
                        #[trigger] front.textures[o],
                    );
                assert(pool.textures[origin].texture != pool.textures[pool.textures.len()
                    - 1].texture);
            }
        }
    }
}

/// After one frame has ended, every pooled texture is idle; after each
/// further frame without a lease it has been idle for one frame more.
pub proof fn lemma_idle_frames_grow(pool: Pool, frames: nat)
    requires
        frames >= 1,
    ensures
        forall|i: int|
            0 <= i < pool.end_frames(frames).textures.len() ==> {
                let t = #[trigger] pool.end_frames(frames).textures[i];
                !t.taken && t.idle_frames >= frames - 1
            },
        pool.end_frames(frames).next_id == pool.next_id,
        pool.end_frames(frames).eviction_frames == pool.eviction_frames,
    decreases frames,
{
    lemma_end_frames_unfold_last(pool, frames);
    let before = pool.end_frames((frames - 1) as nat);
    lemma_survivors_come_from(before.textures, before.eviction_frames);
    if frames > 1 {
        lemma_idle_frames_grow(pool, (frames - 1) as nat);
        let after = before.end_frame();
        assert forall|i: int| 0 <= i < after.textures.len() implies {
            let t = #[trigger] after.textures[i];
            !t.taken && t.idle_frames >= frames - 1
        } by {
            let origin = choose|o: int|
                i <= o < before.textures.len() && after.textures[i] == aged(
                    #[trigger] before.textures[o],
                );
            assert(!before.textures[origin].taken);
        }
    }
}

/// Ending `frames` frames is ending one frame after ending `frames - 1`.
pub proof fn lemma_end_frames_unfold_last(pool: Pool, frames: nat)
    requires
        frames >= 1,
    ensures
        pool.end_frames(frames) == pool.end_frames((frames - 1) as nat).end_frame(),
    decreases frames,
{
    if frames > 1 {
        lemma_end_frames_unfold_last(pool.end_frame(), (frames - 1) as nat);
        assert(pool.end_frames((frames - 1) as nat) == pool.end_frame().end_frames(
            (frames - 2) as nat,
        ));
    } else {
        assert(pool.end_frames(1) == pool.end_frame().end_frames(0));
    }
}

/// A request leaves a well-formed pool well-formed.
pub proof fn lemma_acquire_keeps_wf(pool: Pool, limits: Limits, descriptor: TextureDescriptor)
    requires
        pool.wf(),
    ensures
        pool.acquire(limits, descriptor).0.wf(),
{
    let i = first_idle(pool.textures, descriptor);
    let after = pool.acquire(limits, descriptor).0;
    lemma_first_idle_is_first(pool.textures, descriptor);
    if descriptor.spec_fits(limits) && i < pool.textures.len() {
        assert forall|a: int, b: int|
            0 <= a < b < after.textures.len() && (#[trigger] after.textures[a]).descriptor == (
            #[trigger] after.textures[b]).descriptor && after.textures[b].taken implies after.textures[a].taken by {
            if a != i && b != i {
                assert(pool.textures[a].taken || !pool.textures[b].taken);
            } else if b == i {
                assert(!is_idle_match(pool.textures[a], descriptor));
            }
        }
    } else if descriptor.spec_fits(limits) && pool.next_id != u64::MAX {
        assert forall|a: int, b: int|
            0 <= a < b < after.textures.len() && (#[trigger] after.textures[a]).descriptor == (
            #[trigger] after.textures[b]).descriptor && after.textures[b].taken implies after.textures[a].taken by {
            if b < pool.textures.len() {
                assert(pool.textures[a].taken || !pool.textures[b].taken);
            } else {
                assert(!is_idle_match(pool.textures[a], descriptor));
            }
        }
    }
}

/// Exclusive lease: the texture that a request gets was not on lease, is
/// on lease afterwards, and every texture that was on lease still is.
pub proof fn lemma_acquire_leases_exclusively(
    pool: Pool,
    limits: Limits,
    descriptor: TextureDescriptor,
)
    requires
        pool.wf(),
        pool.acquire(limits, descriptor).1 is Ok,
    ensures
        ({
            let (after, got) = pool.acquire(limits, descriptor);
            &&& !pool.is_leased(got->Ok_0.texture)
            &&& after.is_leased(got->Ok_0.texture)
            &&& forall|texture: TextureId| #[trigger]
                pool.is_leased(texture) ==> after.is_leased(texture)
        }),
{
    let (after, got) = pool.acquire(limits, descriptor);
    let at = first_idle(pool.textures, descriptor);
    lemma_first_idle_is_first(pool.textures, descriptor);
    assert(after.textures[at].texture == got->Ok_0.texture && after.textures[at].taken);
    assert forall|texture: TextureId| #[trigger] pool.is_leased(texture) implies after.is_leased(
        texture,
    ) by {
        let i = choose|i: int|
            0 <= i < pool.textures.len() && (#[trigger] pool.textures[i]).texture == texture
                && pool.textures[i].taken;
        assert(after.textures[i].texture == texture && after.textures[i].taken);
    }
    if pool.is_leased(got->Ok_0.texture) {
        let i = choose|i: int|
            0 <= i < pool.textures.len() && (#[trigger] pool.textures[i]).texture
                == got->Ok_0.texture && pool.textures[i].taken;
        if at < pool.textures.len() {
            assert(pool.textures[at].texture == pool.textures[i].texture);
        }
    }
}

/// `first_idle` is an index of an idle match with none before it, or the
/// length if there is no idle match.
pub proof fn lemma_first_idle_is_first(textures: Seq<PooledTexture>, descriptor: TextureDescriptor)
    ensures
        0 <= first_idle(textures, descriptor) <= textures.len(),
        first_idle(textures, descriptor) < textures.len() ==> is_idle_match(
            textures[first_idle(textures, descriptor)],
            descriptor,
        ),
        forall|j: int|
            0 <= j < first_idle(textures, descriptor) ==> !is_idle_match(
                #[trigger] textures[j],
                descriptor,
            ),
    decreases textures.len(),
{
    if textures.len() > 0 && !is_idle_match(textures[0], descriptor) {
        let rest = textures.drop_first();
        lemma_first_idle_is_first(rest, descriptor);
        assert forall|j: int| 0 <= j < first_idle(textures, descriptor) implies !is_idle_match(
            #[trigger] textures[j],
            descriptor,
        ) by {
            if j > 0 {
                assert(textures[j] == rest[j - 1]);
            }
        }
    }
}

/// The first idle match is at `i` if there is one at `i` and none before.
pub proof fn lemma_first_idle_at(textures: Seq<PooledTexture>, descriptor: TextureDescriptor, i: int)
    requires
        0 <= i < textures.len(),
        is_idle_match(textures[i], descriptor),
        forall|j: int| 0 <= j < i ==> !is_idle_match(#[trigger] textures[j], descriptor),
    ensures
        first_idle(textures, descriptor) == i,
    decreases textures.len(),
{
    if i > 0 {
        let rest = textures.drop_first();
        assert forall|j: int| 0 <= j < i - 1 implies !is_idle_match(#[trigger] rest[j], descriptor) by {
            assert(rest[j] == textures[j + 1]);
        }
        lemma_first_idle_at(rest, descriptor, i - 1);
    }
}

/// Without an idle match, `first_idle` is the length.
pub proof fn lemma_first_idle_none(textures: Seq<PooledTexture>, descriptor: TextureDescriptor)
    requires
        forall|j: int| 0 <= j < textures.len() ==> !is_idle_match(#[trigger] textures[j], descriptor),
    ensures
        first_idle(textures, descriptor) == textures.len(),
    decreases textures.len(),
{
    if textures.len() > 0 {
        let rest = textures.drop_first();
        assert forall|j: int| 0 <= j < rest.len() implies !is_idle_match(#[trigger] rest[j], descriptor) by {
            assert(rest[j] == textures[j + 1]);
        }
        lemma_first_idle_none(rest, descriptor);
    }
}

/// Whether the texture at `at` is the first of its descriptor in `textures`.
pub open spec fn is_first_of_descriptor(textures: Seq<PooledTexture>, at: int) -> bool {
    &&& 0 <= at < textures.len()
    &&& forall|j: int| 0 <= j < at ==> (#[trigger] textures[j]).descriptor != textures[at].descriptor
}

/// A texture that is the first of its descriptor and stays pooled at the
/// end of a frame is the first of its descriptor afterwards. Returns its
/// new index.
pub proof fn lemma_first_of_descriptor_survives(
    textures: Seq<PooledTexture>,
    eviction_frames: u32,
    at: int,
) -> (to: int)
    requires
        is_first_of_descriptor(textures, at),
        aged(textures[at]).idle_frames < eviction_frames,
    ensures
        is_first_of_descriptor(survivors(textures, eviction_frames), to),
        survivors(textures, eviction_frames)[to] == aged(textures[at]),
{
    let front = textures.subrange(0, at);
    let one = seq![textures[at]];
    let back = textures.subrange(at + 1, textures.len() as int);
    assert(textures =~= front + (one + back));
    lemma_survivors_concat(front, one + back, eviction_frames);
    lemma_survivors_concat(one, back, eviction_frames);
    assert(one.drop_last() =~= Seq::<PooledTexture>::empty());
    assert(survivors(one, eviction_frames) =~= seq![aged(textures[at])]) by {
        assert(survivors(one.drop_last(), eviction_frames) =~= Seq::<PooledTexture>::empty());
    }
    lemma_survivors_come_from(front, eviction_frames);
    let kept_front = survivors(front, eviction_frames);
    let to = kept_front.len() as int;
    let all = survivors(textures, eviction_frames);
    assert(all =~= kept_front + (seq![aged(textures[at])] + survivors(back, eviction_frames)));
    assert forall|j: int| 0 <= j < to implies (#[trigger] all[j]).descriptor != all[to].descriptor by {
        let origin = choose|o: int| j <= o < front.len() && kept_front[j] == aged(#[trigger] front[o]);
        assert(front[origin] == textures[origin]);
    }
    to
}

/// A texture that is the first of its descriptor stays so, and stays
/// pooled, through `frames` frames without a lease, as long as it has then
/// been idle for fewer frames than evict it. Returns its index afterwards.
pub proof fn lemma_first_of_descriptor_stays(pool: Pool, at: int, frames: nat) -> (to: int)
    requires
        is_first_of_descriptor(pool.textures, at),
        frames >= 1,
        aged(pool.textures[at]).idle_frames + frames - 1 < pool.eviction_frames,
    ensures
        is_first_of_descriptor(pool.end_frames(frames).textures, to),
        pool.end_frames(frames).textures[to] == (PooledTexture {
            taken: false,
            idle_frames: (aged(pool.textures[at]).idle_frames + frames - 1) as u32,
            ..pool.textures[at]
        }),
    decreases frames,
{
    let next = lemma_first_of_descriptor_survives(pool.textures, pool.eviction_frames, at);
    if frames == 1 {
        assert(pool.end_frames(1) == pool.end_frame().end_frames(0));
        next
    } else {
        lemma_first_of_descriptor_stays(pool.end_frame(), next, (frames - 1) as nat)
    }
}

/// Round trip within the eviction window: a texture leased where none of
/// its descriptor was on lease, and released at the end of its frame, is
/// the texture that the next request for the same descriptor gets, as long
/// as no more frames have ended than evict it. Nothing is allocated.
pub proof fn lemma_acquire_after_release_returns_same(
    pool: Pool,
    limits: Limits,
    descriptor: TextureDescriptor,
    frames: nat,
)
    requires
        pool.wf(),
        !pool.has_lease_of(descriptor),
        pool.acquire(limits, descriptor).1 is Ok,
        1 <= frames <= pool.eviction_frames,
    ensures
        ({
            let (leased, first) = pool.acquire(limits, descriptor);
            let released = leased.end_frames(frames);
            let (again, second) = released.acquire(limits, descriptor);
            &&& second == first
            &&& released.holds(first->Ok_0.texture)
            &&& again.next_id == leased.next_id
            &&& again.textures.len() == released.textures.len()
        }),
{
    let (leased, first) = pool.acquire(limits, descriptor);
    let at = first_idle(pool.textures, descriptor);
    lemma_first_idle_is_first(pool.textures, descriptor);
    assert forall|j: int| 0 <= j < at implies (#[trigger] leased.textures[j]).descriptor
        != descriptor by {
        assert(!is_idle_match(pool.textures[j], descriptor));
        assert(!pool.textures[j].taken || pool.textures[j].descriptor != descriptor);
    }
    assert(is_first_of_descriptor(leased.textures, at));
    let to = lemma_first_of_descriptor_stays(leased, at, frames);
    lemma_idle_frames_grow(leased, frames);
    let released = leased.end_frames(frames);
    assert forall|j: int| 0 <= j < to implies !is_idle_match(
        #[trigger] released.textures[j],
        descriptor,
    ) by {}
    lemma_first_idle_at(released.textures, descriptor, to);
}

/// Eviction: once more frames have ended without a lease than evict a
/// texture, the pool is empty.
pub proof fn lemma_unused_textures_are_evicted(pool: Pool, frames: nat)
    requires
        frames > pool.eviction_frames,
    ensures
        pool.end_frames(frames).textures.len() == 0,
        pool.end_frames(frames).next_id == pool.next_id,
{
    lemma_idle_frames_grow(pool, frames);
    lemma_end_frames_unfold_last(pool, frames);
    let before = pool.end_frames((frames - 1) as nat);
    if frames > 1 {
        lemma_idle_frames_grow(pool, (frames - 1) as nat);
    }
    lemma_survivors_come_from(before.textures, before.eviction_frames);
    if pool.end_frames(frames).textures.len() > 0 {
        let t = pool.end_frames(frames).textures[0];
        assert(t.idle_frames < pool.eviction_frames);
        assert(t.idle_frames >= frames - 1);
    }
}

/// A request that follows the eviction of a texture allocates afresh: the
/// texture it gets has an identity that no texture of the pool ever had.
pub proof fn lemma_acquire_after_eviction_allocates(
    pool: Pool,
    limits: Limits,
    descriptor: TextureDescriptor,
    frames: nat,
)
    requires
        pool.wf(),
        frames > pool.eviction_frames,
        descriptor.spec_fits(limits),
        pool.next_id < u64::MAX,
    ensures
        ({
            let (after, got) = pool.end_frames(frames).acquire(limits, descriptor);
            &&& got == Ok::<CachedTexture, AllocationError>(
                CachedTexture { texture: TextureId(pool.next_id), descriptor },
            )
            &&& !pool.holds(TextureId(pool.next_id))
            &&& after.textures.len() == 1
        }),
{
    lemma_unused_textures_are_evicted(pool, frames);
}

} // verus!
