//! Why a frame that asks for the textures of the frame before it gets
//! them back.
//!
//! The pool hands out the textures of one descriptor in the order in which
//! it holds them. So the requests of a frame lease, of each descriptor, the
//! first textures that the pool holds of it; these stay pooled, in their
//! order, when the frame ends; and the same requests lease them again.

use vstd::prelude::*;
use crate::texture::{Limits, TextureDescriptor};
use crate::texture_cache::{
    aged, first_idle, is_idle_match, lemma_acquire_keeps_wf, lemma_end_frame_keeps_wf,
    lemma_first_idle_at, lemma_first_idle_is_first, lemma_first_idle_none,
    lemma_survivors_concat, survivors, AllocationError, CachedTexture,
    Pool, PooledTexture, TextureId,
};

verus! {

/// The textures of `descriptor` among `textures`, in their order.
pub open spec fn of_descriptor(textures: Seq<PooledTexture>, descriptor: TextureDescriptor) -> Seq<
    PooledTexture,
>
    decreases textures.len(),
{
    if textures.len() == 0 {
        Seq::empty()
    } else {
        let rest = of_descriptor(textures.drop_last(), descriptor);
        if textures.last().descriptor == descriptor {
            rest.push(textures.last())
        } else {
            rest
        }
    }
}

/// The identities of `textures`, in their order.
pub open spec fn identities(textures: Seq<PooledTexture>) -> Seq<TextureId> {
    Seq::new(textures.len(), |i: int| textures[i].texture)
}

/// Number of textures of `descriptor` that are on lease, in a pool in
/// which the leased textures of a descriptor come before its idle ones.
pub open spec fn leased(textures: Seq<PooledTexture>, descriptor: TextureDescriptor) -> int {
    first_idle(of_descriptor(textures, descriptor), descriptor)
}

/// Every texture of `of_descriptor` has the descriptor and is one of the
/// textures.
pub proof fn lemma_of_descriptor_members(textures: Seq<PooledTexture>, descriptor: TextureDescriptor)
    ensures
        of_descriptor(textures, descriptor).len() <= textures.len(),
        forall|k: int|
            0 <= k < of_descriptor(textures, descriptor).len() ==> {
                let member = #[trigger] of_descriptor(textures, descriptor)[k];
                &&& member.descriptor == descriptor
                &&& exists|j: int| k <= j < textures.len() && member == #[trigger] textures[j]
            },
    decreases textures.len(),
{
    if textures.len() > 0 {
        let front = textures.drop_last();
        lemma_of_descriptor_members(front, descriptor);
        let all = of_descriptor(textures, descriptor);
        assert forall|k: int| 0 <= k < all.len() implies {
            let member = #[trigger] all[k];
            &&& member.descriptor == descriptor
            &&& exists|j: int| k <= j < textures.len() && member == #[trigger] textures[j]
        } by {
            if k < of_descriptor(front, descriptor).len() {
                let j = choose|j: int|
                    k <= j < front.len() && of_descriptor(front, descriptor)[k] == #[trigger] front[j];
                assert(front[j] == textures[j]);
            } else {
                assert(all[k] == textures[textures.len() - 1]);
            }
        }
    }
}

/// The textures of a descriptor among two runs of textures are those
/// among the first followed by those among the second.
pub proof fn lemma_of_descriptor_concat(
    front: Seq<PooledTexture>,
    back: Seq<PooledTexture>,
    descriptor: TextureDescriptor,
)
    ensures
        of_descriptor(front + back, descriptor) == of_descriptor(front, descriptor) + of_descriptor(
            back,
            descriptor,
        ),
    decreases back.len(),
{
    if back.len() == 0 {
        assert(front + back =~= front);
        assert(of_descriptor(front, descriptor) + of_descriptor(back, descriptor) =~= of_descriptor(
            front,
            descriptor,
        ));
    } else {
        lemma_of_descriptor_concat(front, back.drop_last(), descriptor);
        assert((front + back).drop_last() =~= front + back.drop_last());
        assert((front + back).last() == back.last());
        assert(of_descriptor(front + back, descriptor) =~= of_descriptor(front, descriptor)
            + of_descriptor(back, descriptor));
    }
}

/// The textures of a descriptor among one texture: the texture, if it has
/// the descriptor.
pub proof fn lemma_of_descriptor_one(texture: PooledTexture, descriptor: TextureDescriptor)
    ensures
        of_descriptor(seq![texture], descriptor) == if texture.descriptor == descriptor {
            seq![texture]
        } else {
            Seq::<PooledTexture>::empty()
        },
{
    let one = seq![texture];
    assert(one.drop_last() =~= Seq::<PooledTexture>::empty());
    assert(of_descriptor(one.drop_last(), descriptor) =~= Seq::<PooledTexture>::empty());
    if texture.descriptor == descriptor {
        assert(of_descriptor(one, descriptor) =~= seq![texture]);
    }
}

/// Where the first idle texture of a descriptor is among all textures and
/// among those of the descriptor: the same texture, or in both none.
pub proof fn lemma_first_idle_of_descriptor(
    textures: Seq<PooledTexture>,
    descriptor: TextureDescriptor,
)
    ensures
        ({
            let at = first_idle(textures, descriptor);
            let own = of_descriptor(textures, descriptor);
            let rank = leased(textures, descriptor);
            &&& 0 <= rank <= own.len()
            &&& 0 <= at <= textures.len()
            &&& at < textures.len() <==> rank < own.len()
            &&& at < textures.len() ==> own[rank] == textures[at] && rank == of_descriptor(
                textures.subrange(0, at),
                descriptor,
            ).len()
            &&& forall|k: int| 0 <= k < rank ==> (#[trigger] own[k]).taken
        }),
{
    let at = first_idle(textures, descriptor);
    let own = of_descriptor(textures, descriptor);
    lemma_first_idle_is_first(textures, descriptor);
    lemma_first_idle_is_first(own, descriptor);
    lemma_of_descriptor_members(textures, descriptor);
    if at < textures.len() {
        let front = textures.subrange(0, at);
        let one = seq![textures[at]];
        let back = textures.subrange(at + 1, textures.len() as int);
        assert(textures =~= front + (one + back));
        lemma_of_descriptor_concat(front, one + back, descriptor);
        lemma_of_descriptor_concat(one, back, descriptor);
        lemma_of_descriptor_one(textures[at], descriptor);
        lemma_of_descriptor_members(front, descriptor);
        let own_front = of_descriptor(front, descriptor);
        assert(own =~= own_front + (seq![textures[at]] + of_descriptor(back, descriptor)));
        assert forall|k: int| 0 <= k < own_front.len() implies !is_idle_match(
            #[trigger] own[k],
            descriptor,
        ) by {
            let j = choose|j: int| k <= j < front.len() && own_front[k] == #[trigger] front[j];
            assert(front[j] == textures[j]);
        }
        assert(own[own_front.len() as int] == textures[at]);
        lemma_first_idle_at(own, descriptor, own_front.len() as int);
    } else {
        assert forall|k: int| 0 <= k < own.len() implies !is_idle_match(
            #[trigger] own[k],
            descriptor,
        ) by {
            let j = choose|j: int| k <= j < textures.len() && own[k] == #[trigger] textures[j];
        }
        lemma_first_idle_none(own, descriptor);
    }
}

/// What a request does to the textures of a descriptor: to those of
/// another descriptor, nothing; of its own, it leases the first idle one,
/// or adds one to their end and leases it. Either way one more of them is
/// on lease, and the texture it gets is the one at the place of the number
/// that were on lease.
pub proof fn lemma_acquire_effect(
    pool: Pool,
    limits: Limits,
    requested: TextureDescriptor,
    descriptor: TextureDescriptor,
)
    requires
        pool.wf(),
        pool.acquire(limits, requested).1 is Ok,
    ensures
        ({
            let (after, got) = pool.acquire(limits, requested);
            let own = of_descriptor(pool.textures, descriptor);
            let own_after = of_descriptor(after.textures, descriptor);
            let rank = leased(pool.textures, descriptor);
            &&& after.wf()
            &&& after.eviction_frames == pool.eviction_frames
            &&& got->Ok_0.descriptor == requested
            &&& requested.spec_fits(limits)
            &&& descriptor != requested ==> own_after == own
            &&& descriptor == requested ==> {
                &&& 0 <= rank < own_after.len()
                &&& identities(own_after) == if rank < own.len() {
                    identities(own)
                } else {
                    identities(own).push(TextureId(pool.next_id))
                }
                &&& got->Ok_0.texture == own_after[rank].texture
                &&& leased(after.textures, descriptor) == rank + 1
                &&& rank < own.len() ==> after.next_id == pool.next_id
            }
        }),
{
    let (after, got) = pool.acquire(limits, requested);
    let textures = pool.textures;
    let at = first_idle(textures, requested);
    let own = of_descriptor(textures, descriptor);
    let own_after = of_descriptor(after.textures, descriptor);
    let rank = leased(textures, descriptor);
    lemma_acquire_keeps_wf(pool, limits, requested);
    lemma_first_idle_of_descriptor(textures, requested);
    lemma_first_idle_is_first(textures, requested);
    if at < textures.len() {
        let front = textures.subrange(0, at);
        let old_one = seq![textures[at]];
        let new_one = seq![after.textures[at]];
        let back = textures.subrange(at + 1, textures.len() as int);
        assert(textures =~= front + (old_one + back));
        assert(after.textures =~= front + (new_one + back));
        lemma_of_descriptor_concat(front, old_one + back, descriptor);
        lemma_of_descriptor_concat(old_one, back, descriptor);
        lemma_of_descriptor_concat(front, new_one + back, descriptor);
        lemma_of_descriptor_concat(new_one, back, descriptor);
        lemma_of_descriptor_one(textures[at], descriptor);
        lemma_of_descriptor_one(after.textures[at], descriptor);
        if descriptor == requested {
            let own_front = of_descriptor(front, descriptor);
            let own_back = of_descriptor(back, descriptor);
            assert(own =~= own_front + (old_one + own_back));
            assert(own_after =~= own_front + (new_one + own_back));
            assert(rank == own_front.len());
            assert(identities(own_after) =~= identities(own));
            lemma_of_descriptor_members(back, descriptor);
            assert forall|k: int| 0 <= k < own_after.len() && k != rank + 1 implies (k <= rank
                ==> !is_idle_match(#[trigger] own_after[k], descriptor)) by {
                if k < rank {
                    assert(own_after[k] == own[k]);
                }
            }
            if own_back.len() > 0 {
                let j = choose|j: int| 0 <= j < back.len() && own_back[0] == #[trigger] back[j];
                assert(back[j] == textures[at + 1 + j]);
                assert(!textures[at + 1 + j].taken);
                assert(own_after[rank + 1] == own_back[0]);
                lemma_first_idle_at(own_after, descriptor, rank + 1);
            } else {
                lemma_first_idle_none(own_after, descriptor);
            }
        } else {
            assert(own_after =~= own);
        }
    } else {
        let added = after.textures.last();
        assert(after.textures.drop_last() =~= textures);
        if descriptor == requested {
            assert(own_after =~= own.push(added));
            assert(identities(own_after) =~= identities(own).push(TextureId(pool.next_id)));
            assert forall|k: int| 0 <= k < own_after.len() implies !is_idle_match(
                #[trigger] own_after[k],
                descriptor,
            ) by {
                if k < own.len() {
                    assert(own_after[k] == own[k]);
                }
            }
            lemma_first_idle_none(own_after, descriptor);
        } else {
            assert(own_after =~= own);
        }
    }
}

/// Textures that all stay pooled at the end of a frame stay as they are
/// but for their age.
pub proof fn lemma_all_survive(textures: Seq<PooledTexture>, eviction_frames: u32)
    requires
        forall|k: int|
            0 <= k < textures.len() ==> aged(#[trigger] textures[k]).idle_frames < eviction_frames,
    ensures
        survivors(textures, eviction_frames) == Seq::new(textures.len(), |k: int| aged(textures[k])),
    decreases textures.len(),
{
    if textures.len() > 0 {
        let front = textures.drop_last();
        assert forall|k: int| 0 <= k < front.len() implies aged(#[trigger] front[k]).idle_frames
            < eviction_frames by {
            assert(front[k] == textures[k]);
        }
        lemma_all_survive(front, eviction_frames);
        assert(aged(textures[textures.len() - 1]).idle_frames < eviction_frames);
    }
    assert(survivors(textures, eviction_frames) =~= Seq::new(
        textures.len(),
        |k: int| aged(textures[k]),
    ));
}

/// Of the textures that stay pooled, those of a descriptor are those of
/// the textures of the descriptor that stay pooled.
pub proof fn lemma_survivors_of_descriptor(
    textures: Seq<PooledTexture>,
    eviction_frames: u32,
    descriptor: TextureDescriptor,
)
    ensures
        of_descriptor(survivors(textures, eviction_frames), descriptor) == survivors(
            of_descriptor(textures, descriptor),
            eviction_frames,
        ),
    decreases textures.len(),
{
    if textures.len() > 0 {
        let front = textures.drop_last();
        let last = textures.last();
        lemma_survivors_of_descriptor(front, eviction_frames, descriptor);
        let kept_front = survivors(front, eviction_frames);
        let own_front = of_descriptor(front, descriptor);
        if aged(last).idle_frames < eviction_frames {
            assert(kept_front.push(aged(last)).drop_last() =~= kept_front);
        }
        if last.descriptor == descriptor {
            assert(own_front.push(last).drop_last() =~= own_front);
        }
    }
}

/// The first textures of a descriptor, if they all stay pooled at the end
/// of a frame, are its first textures afterwards, each as it was but for
/// its age.
pub proof fn lemma_end_frame_keeps_first(pool: Pool, descriptor: TextureDescriptor, count: int)
    requires
        0 <= count <= of_descriptor(pool.textures, descriptor).len(),
        forall|k: int|
            0 <= k < count ==> aged(
                #[trigger] of_descriptor(pool.textures, descriptor)[k],
            ).idle_frames < pool.eviction_frames,
    ensures
        count <= of_descriptor(pool.end_frame().textures, descriptor).len(),
        forall|k: int|
            0 <= k < count ==> #[trigger] of_descriptor(pool.end_frame().textures, descriptor)[k]
                == aged(of_descriptor(pool.textures, descriptor)[k]),
{
    let own = of_descriptor(pool.textures, descriptor);
    let first = own.subrange(0, count);
    let rest = own.subrange(count, own.len() as int);
    assert(own =~= first + rest);
    lemma_survivors_of_descriptor(pool.textures, pool.eviction_frames, descriptor);
    lemma_survivors_concat(first, rest, pool.eviction_frames);
    lemma_all_survive(first, pool.eviction_frames);
}

/// Ending frames leaves a well-formed pool well-formed.
pub proof fn lemma_end_frames_keep_wf(pool: Pool, frames: nat)
    requires
        pool.wf(),
    ensures
        pool.end_frames(frames).wf(),
        pool.end_frames(frames).next_id == pool.next_id,
        pool.end_frames(frames).eviction_frames == pool.eviction_frames,
    decreases frames,
{
    if frames > 0 {
        lemma_end_frame_keeps_wf(pool);
        lemma_end_frames_keep_wf(pool.end_frame(), (frames - 1) as nat);
    }
}

/// The first textures of a descriptor stay its first textures, under
/// their identities, through the end of as many frames as they all stay
/// pooled for.
pub proof fn lemma_end_frames_keep_first(
    pool: Pool,
    descriptor: TextureDescriptor,
    count: int,
    frames: nat,
)
    requires
        frames >= 1,
        0 <= count <= of_descriptor(pool.textures, descriptor).len(),
        forall|k: int|
            0 <= k < count ==> aged(
                #[trigger] of_descriptor(pool.textures, descriptor)[k],
            ).idle_frames + frames - 1 < pool.eviction_frames,
    ensures
        count <= of_descriptor(pool.end_frames(frames).textures, descriptor).len(),
        forall|k: int|
            0 <= k < count ==> (#[trigger] of_descriptor(
                pool.end_frames(frames).textures,
                descriptor,
            )[k]).texture == of_descriptor(pool.textures, descriptor)[k].texture,
    decreases frames,
{
    lemma_end_frame_keeps_first(pool, descriptor, count);
    let next = pool.end_frame();
    if frames == 1 {
        assert(pool.end_frames(1) == next.end_frames(0));
    } else {
        lemma_end_frames_keep_first(next, descriptor, count, (frames - 1) as nat);
    }
}

/// After the end of a frame no texture is on lease.
pub proof fn lemma_end_frames_release(pool: Pool, descriptor: TextureDescriptor, frames: nat)
    requires
        frames >= 1,
    ensures
        leased(pool.end_frames(frames).textures, descriptor) == 0,
{
    let after = pool.end_frames(frames).textures;
    let own = of_descriptor(after, descriptor);
    crate::texture_cache::lemma_idle_frames_grow(pool, frames);
    lemma_of_descriptor_members(after, descriptor);
    if own.len() > 0 {
        let j = choose|j: int| 0 <= j < after.len() && own[0] == #[trigger] after[j];
        assert(!after[j].taken);
        lemma_first_idle_at(own, descriptor, 0);
    }
}

/// The pool and the answers after the requests `requests`, made one after
/// another.
pub open spec fn acquire_all(pool: Pool, limits: Limits, requests: Seq<TextureDescriptor>) -> (
    Pool,
    Seq<Result<CachedTexture, AllocationError>>,
)
    decreases requests.len(),
{
    if requests.len() == 0 {
        (pool, Seq::empty())
    } else {
        let (before, answers) = acquire_all(pool, limits, requests.drop_last());
        let (after, answer) = before.acquire(limits, requests.last());
        (after, answers.push(answer))
    }
}

/// Whether every request was granted.
pub open spec fn all_granted(answers: Seq<Result<CachedTexture, AllocationError>>) -> bool {
    forall|i: int| 0 <= i < answers.len() ==> (#[trigger] answers[i]) is Ok
}

/// The pool and the answers after the first `count` of the requests.
pub open spec fn acquire_first(
    pool: Pool,
    limits: Limits,
    requests: Seq<TextureDescriptor>,
    count: int,
) -> (Pool, Seq<Result<CachedTexture, AllocationError>>) {
    acquire_all(pool, limits, requests.subrange(0, count))
}

/// The first `count + 1` requests are the first `count` and one more.
pub proof fn lemma_acquire_first_step(
    pool: Pool,
    limits: Limits,
    requests: Seq<TextureDescriptor>,
    count: int,
)
    requires
        0 <= count < requests.len(),
    ensures
        ({
            let (before, answers) = acquire_first(pool, limits, requests, count);
            let (after, answer) = before.acquire(limits, requests[count]);
            acquire_first(pool, limits, requests, count + 1) == (after, answers.push(answer))
        }),
        acquire_first(pool, limits, requests, count).1.len() == count,
        acquire_first(pool, limits, requests, count + 1).1.len() == count + 1,
{
    let longer = requests.subrange(0, count + 1);
    assert(longer.drop_last() =~= requests.subrange(0, count));
    assert(longer.last() == requests[count]);
    lemma_answers_len(pool, limits, requests.subrange(0, count));
    lemma_answers_len(pool, limits, longer);
}

/// There is one answer for each request.
pub proof fn lemma_answers_len(pool: Pool, limits: Limits, requests: Seq<TextureDescriptor>)
    ensures
        acquire_all(pool, limits, requests).1.len() == requests.len(),
    decreases requests.len(),
{
    if requests.len() > 0 {
        lemma_answers_len(pool, limits, requests.drop_last());
    }
}

/// The answers to the first `count` requests are the first `count`
/// answers to all.
pub proof fn lemma_first_answers(
    pool: Pool,
    limits: Limits,
    requests: Seq<TextureDescriptor>,
    count: int,
)
    requires
        0 <= count <= requests.len(),
    ensures
        acquire_first(pool, limits, requests, count).1 == acquire_all(
            pool,
            limits,
            requests,
        ).1.subrange(0, count),
    decreases requests.len() - count,
{
    lemma_answers_len(pool, limits, requests);
    if count == requests.len() {
        assert(requests.subrange(0, count) =~= requests);
        assert(acquire_all(pool, limits, requests).1.subrange(0, count) =~= acquire_all(
            pool,
            limits,
            requests,
        ).1);
    } else {
        lemma_first_answers(pool, limits, requests, count + 1);
        lemma_acquire_first_step(pool, limits, requests, count);
        let longer = acquire_first(pool, limits, requests, count + 1).1;
        let shorter = acquire_first(pool, limits, requests, count).1;
        assert(longer.drop_last() =~= shorter);
        assert(shorter =~= acquire_all(pool, limits, requests).1.subrange(0, count));
    }
}

/// Requests leave a well-formed pool well-formed.
pub proof fn lemma_requests_keep_wf(
    pool: Pool,
    limits: Limits,
    requests: Seq<TextureDescriptor>,
    count: int,
)
    requires
        pool.wf(),
        0 <= count <= requests.len(),
    ensures
        acquire_first(pool, limits, requests, count).0.wf(),
        acquire_first(pool, limits, requests, count).0.eviction_frames == pool.eviction_frames,
    decreases count,
{
    if count == 0 {
        assert(requests.subrange(0, 0) =~= Seq::<TextureDescriptor>::empty());
    } else {
        lemma_requests_keep_wf(pool, limits, requests, count - 1);
        lemma_acquire_first_step(pool, limits, requests, count - 1);
        lemma_acquire_keeps_wf(
            acquire_first(pool, limits, requests, count - 1).0,
            limits,
            requests[count - 1],
        );
    }
}

/// While requests are granted, more and more textures of a descriptor are
/// on lease, and the textures of the descriptor stay where they are among
/// themselves: new ones come behind.
pub proof fn lemma_requests_grow(
    pool: Pool,
    limits: Limits,
    requests: Seq<TextureDescriptor>,
    count: int,
    descriptor: TextureDescriptor,
)
    requires
        pool.wf(),
        all_granted(acquire_all(pool, limits, requests).1),
        0 <= count <= requests.len(),
    ensures
        ({
            let now = acquire_first(pool, limits, requests, count).0;
            let end = acquire_all(pool, limits, requests).0;
            let own_now = of_descriptor(now.textures, descriptor);
            let own_end = of_descriptor(end.textures, descriptor);
            &&& 0 <= leased(now.textures, descriptor) <= leased(end.textures, descriptor)
            &&& leased(end.textures, descriptor) <= own_end.len()
            &&& own_now.len() <= own_end.len()
            &&& forall|k: int|
                0 <= k < own_now.len() ==> (#[trigger] own_end[k]).texture == own_now[k].texture
        }),
{
    lemma_requests_keep_wf(pool, limits, requests, count);
    lemma_requests_reach_end(pool, limits, requests, count, descriptor);
}

/// From the pool after the first `count` requests to the pool after all:
/// more textures of a descriptor are on lease, and those that the pool
/// has of the descriptor stay where they are among themselves.
pub proof fn lemma_requests_reach_end(
    pool: Pool,
    limits: Limits,
    requests: Seq<TextureDescriptor>,
    count: int,
    descriptor: TextureDescriptor,
)
    requires
        acquire_first(pool, limits, requests, count).0.wf(),
        all_granted(acquire_all(pool, limits, requests).1),
        0 <= count <= requests.len(),
    ensures
        ({
            let now = acquire_first(pool, limits, requests, count).0;
            let end = acquire_all(pool, limits, requests).0;
            let own_now = of_descriptor(now.textures, descriptor);
            let own_end = of_descriptor(end.textures, descriptor);
            &&& 0 <= leased(now.textures, descriptor) <= leased(end.textures, descriptor)
            &&& leased(end.textures, descriptor) <= own_end.len()
            &&& own_now.len() <= own_end.len()
            &&& forall|k: int|
                0 <= k < own_now.len() ==> (#[trigger] own_end[k]).texture == own_now[k].texture
        }),
    decreases requests.len() - count,
{
    let now = acquire_first(pool, limits, requests, count).0;
    lemma_first_idle_of_descriptor(now.textures, descriptor);
    if count == requests.len() {
        assert(requests.subrange(0, count) =~= requests);
    } else {
        lemma_acquire_first_step(pool, limits, requests, count);
        lemma_first_answers(pool, limits, requests, count + 1);
        lemma_answers_len(pool, limits, requests);
        assert(acquire_all(pool, limits, requests).1[count] is Ok);
        assert(acquire_first(pool, limits, requests, count + 1).1[count] is Ok);
        lemma_acquire_effect(now, limits, requests[count], descriptor);
        lemma_requests_reach_end(pool, limits, requests, count + 1, descriptor);
        let next = acquire_first(pool, limits, requests, count + 1).0;
        let own_now = of_descriptor(now.textures, descriptor);
        let own_next = of_descriptor(next.textures, descriptor);
        let own_end = of_descriptor(acquire_all(pool, limits, requests).0.textures, descriptor);
        assert(identities(own_next).len() == own_next.len());
        assert(identities(own_now).len() == own_now.len());
        assert(own_now.len() <= own_next.len());
        assert forall|k: int| 0 <= k < own_now.len() implies (#[trigger] own_end[k]).texture
            == own_now[k].texture by {
            assert(identities(own_next)[k] == own_next[k].texture);
            assert(identities(own_now)[k] == own_now[k].texture);
            assert(own_end[k].texture == own_next[k].texture);
        }
    }
}

/// Whether no texture of the pool is on lease, as at the start of a frame.
pub open spec fn all_idle(pool: Pool) -> bool {
    forall|i: int| 0 <= i < pool.textures.len() ==> !(#[trigger] pool.textures[i]).taken
}

/// Whether `now` holds, as its first textures of `descriptor`, the
/// textures of `descriptor` that are on lease in `end`.
pub open spec fn holds_leases_of(end: Pool, now: Pool, descriptor: TextureDescriptor) -> bool {
    let own_end = of_descriptor(end.textures, descriptor);
    let own_now = of_descriptor(now.textures, descriptor);
    &&& leased(end.textures, descriptor) <= own_now.len()
    &&& forall|k: int|
        0 <= k < leased(end.textures, descriptor) ==> (#[trigger] own_now[k]).texture
            == own_end[k].texture
}

/// In a pool without leases, none of a descriptor is on lease.
pub proof fn lemma_idle_pool_leases_nothing(pool: Pool, descriptor: TextureDescriptor)
    requires
        all_idle(pool),
    ensures
        leased(pool.textures, descriptor) == 0,
{
    let own = of_descriptor(pool.textures, descriptor);
    lemma_of_descriptor_members(pool.textures, descriptor);
    if own.len() > 0 {
        let j = choose|j: int| 0 <= j < pool.textures.len() && own[0] == #[trigger] pool.textures[j];
        lemma_first_idle_at(own, descriptor, 0);
    }
}

/// The requests of a frame, made again after the frame has ended, get
/// the same answers up to each point, and lease as many of each
/// descriptor.
proof fn lemma_replay_first(
    start: Pool,
    limits: Limits,
    requests: Seq<TextureDescriptor>,
    frames: nat,
    count: int,
)
    requires
        start.wf(),
        all_idle(start),
        all_granted(acquire_all(start, limits, requests).1),
        1 <= frames <= start.eviction_frames,
        0 <= count <= requests.len(),
    ensures
        ({
            let end = acquire_all(start, limits, requests).0;
            let again = end.end_frames(frames);
            let (first_now, first_answers) = acquire_first(start, limits, requests, count);
            let (second_now, second_answers) = acquire_first(again, limits, requests, count);
            &&& second_answers == first_answers
            &&& second_now.wf()
            &&& second_now.next_id == end.next_id
            &&& second_now.eviction_frames == end.eviction_frames
            &&& forall|d: TextureDescriptor| #[trigger]
                leased(second_now.textures, d) == leased(first_now.textures, d)
            &&& forall|d: TextureDescriptor| #[trigger] holds_leases_of(end, second_now, d)
        }),
    decreases count,
{
    let end = acquire_all(start, limits, requests).0;
    let again = end.end_frames(frames);
    let (first_now, first_answers) = acquire_first(start, limits, requests, count);
    let (second_now, second_answers) = acquire_first(again, limits, requests, count);
    lemma_answers_len(start, limits, requests);
    if count == 0 {
        assert(requests.subrange(0, 0) =~= Seq::<TextureDescriptor>::empty());
        assert(second_answers =~= first_answers);
        assert(requests.subrange(0, requests.len() as int) =~= requests);
        assert forall|d: TextureDescriptor| #[trigger]
            leased(second_now.textures, d) == leased(first_now.textures, d) by {
            lemma_idle_pool_leases_nothing(start, d);
            lemma_end_frames_release(end, d, frames);
        }
        lemma_requests_keep_wf(start, limits, requests, requests.len() as int);
        assert forall|d: TextureDescriptor| #[trigger] holds_leases_of(end, second_now, d) by {
            lemma_requests_grow(start, limits, requests, requests.len() as int, d);
            lemma_first_idle_of_descriptor(end.textures, d);
            lemma_end_frames_keep_first(end, d, leased(end.textures, d), frames);
        }
        lemma_requests_keep_wf(start, limits, requests, requests.len() as int);
        lemma_end_frames_keep_wf(end, frames);
    } else {
        let requested = requests[count - 1];
        lemma_replay_first(start, limits, requests, frames, count - 1);
        lemma_acquire_first_step(start, limits, requests, count - 1);
        lemma_acquire_first_step(again, limits, requests, count - 1);
        lemma_first_answers(start, limits, requests, count);
        let (first_before, first_earlier) = acquire_first(start, limits, requests, count - 1);
        let (second_before, second_earlier) = acquire_first(again, limits, requests, count - 1);
        assert(acquire_all(start, limits, requests).1[count - 1] is Ok);
        assert(first_answers[count - 1] is Ok);
        let first_answer = first_before.acquire(limits, requested).1;
        let second_answer = second_before.acquire(limits, requested).1;
        assert(first_answers[count - 1] == first_answer);
        lemma_requests_keep_wf(start, limits, requests, count - 1);
        lemma_requests_grow(start, limits, requests, count, requested);
        lemma_acquire_effect(first_before, limits, requested, requested);
        let rank = leased(first_before.textures, requested);
        assert(leased(second_before.textures, requested) == rank);
        assert(holds_leases_of(end, second_before, requested));
        lemma_first_idle_of_descriptor(second_before.textures, requested);
        lemma_first_idle_is_first(second_before.textures, requested);
        let own_end = of_descriptor(end.textures, requested);
        let own_first = of_descriptor(first_now.textures, requested);
        let own_second = of_descriptor(second_before.textures, requested);
        assert(rank < leased(end.textures, requested));
        assert(own_second[rank].texture == own_end[rank].texture);
        assert(own_end[rank].texture == own_first[rank].texture);
        assert(second_answer == first_answer);
        assert(second_answers =~= first_answers);
        lemma_acquire_effect(second_before, limits, requested, requested);
        assert forall|d: TextureDescriptor| #[trigger]
            leased(second_now.textures, d) == leased(first_now.textures, d) by {
            lemma_acquire_effect(first_before, limits, requested, d);
            lemma_acquire_effect(second_before, limits, requested, d);
            assert(leased(second_before.textures, d) == leased(first_before.textures, d));
        }
        assert forall|d: TextureDescriptor| #[trigger] holds_leases_of(end, second_now, d) by {
            lemma_acquire_effect(second_before, limits, requested, d);
            assert(holds_leases_of(end, second_before, d));
            let before = of_descriptor(second_before.textures, d);
            let after = of_descriptor(second_now.textures, d);
            if d == requested {
                assert(identities(after) == identities(before));
                assert(identities(after).len() == after.len());
                assert(identities(before).len() == before.len());
                assert forall|k: int| 0 <= k < leased(end.textures, d) implies (
                #[trigger] after[k]).texture == of_descriptor(end.textures, d)[k].texture by {
                    assert(identities(after)[k] == after[k].texture);
                    assert(identities(before)[k] == before[k].texture);
                }
            }
        }
    }
}

/// Round trip of a whole frame: the requests of a frame that began with
/// no texture on lease and was granted all it asked for, made again in the
/// same order after the frame has ended, get the same textures, as long
/// as no more frames have ended than evict a texture. Nothing is
/// allocated the second time.
pub proof fn lemma_frame_replay_returns_same(
    start: Pool,
    limits: Limits,
    requests: Seq<TextureDescriptor>,
    frames: nat,
)
    requires
        start.wf(),
        all_idle(start),
        all_granted(acquire_all(start, limits, requests).1),
        1 <= frames <= start.eviction_frames,
    ensures
        ({
            let (end, first_answers) = acquire_all(start, limits, requests);
            let (again, second_answers) = acquire_all(end.end_frames(frames), limits, requests);
            &&& second_answers == first_answers
            &&& again.next_id == end.next_id
            &&& again.wf()
        }),
{
    lemma_replay_first(start, limits, requests, frames, requests.len() as int);
    assert(requests.subrange(0, requests.len() as int) =~= requests);
}

/// Two requests, spelled out.
pub proof fn lemma_two_requests(
    pool: Pool,
    limits: Limits,
    first: TextureDescriptor,
    second: TextureDescriptor,
)
    ensures
        ({
            let (pool_1, r1) = pool.acquire(limits, first);
            let (pool_2, r2) = pool_1.acquire(limits, second);
            acquire_all(pool, limits, seq![first, second]) == (pool_2, seq![r1, r2])
        }),
{
    let two = seq![first, second];
    let one = seq![first];
    assert(two.drop_last() =~= one);
    assert(one.drop_last() =~= Seq::<TextureDescriptor>::empty());
    assert(acquire_all(pool, limits, one.drop_last()) == (
        pool,
        Seq::<Result<CachedTexture, AllocationError>>::empty(),
    ));
    let (pool_1, r1) = pool.acquire(limits, first);
    let (pool_2, r2) = pool_1.acquire(limits, second);
    assert(acquire_all(pool, limits, one).0 == pool_1);
    assert(acquire_all(pool, limits, one).1 =~= seq![r1]);
    assert(acquire_all(pool, limits, two).0 == pool_2);
    assert(acquire_all(pool, limits, two).1 =~= seq![r1, r2]);
}

/// Four requests, spelled out.
pub proof fn lemma_four_requests(
    pool: Pool,
    limits: Limits,
    first: TextureDescriptor,
    second: TextureDescriptor,
    third: TextureDescriptor,
    fourth: TextureDescriptor,
)
    ensures
        ({
            let (pool_1, r1) = pool.acquire(limits, first);
            let (pool_2, r2) = pool_1.acquire(limits, second);
            let (pool_3, r3) = pool_2.acquire(limits, third);
            let (pool_4, r4) = pool_3.acquire(limits, fourth);
            acquire_all(pool, limits, seq![first, second, third, fourth]) == (
                pool_4,
                seq![r1, r2, r3, r4],
            )
        }),
{
    let four = seq![first, second, third, fourth];
    let three = seq![first, second, third];
    let two = seq![first, second];
    lemma_two_requests(pool, limits, first, second);
    assert(four.drop_last() =~= three);
    assert(three.drop_last() =~= two);
    let (pool_1, r1) = pool.acquire(limits, first);
    let (pool_2, r2) = pool_1.acquire(limits, second);
    let (pool_3, r3) = pool_2.acquire(limits, third);
    let (pool_4, r4) = pool_3.acquire(limits, fourth);
    assert(acquire_all(pool, limits, three).0 == pool_3);
    assert(acquire_all(pool, limits, three).1 =~= seq![r1, r2, r3]);
    assert(acquire_all(pool, limits, four).0 == pool_4);
    assert(acquire_all(pool, limits, four).1 =~= seq![r1, r2, r3, r4]);
}

/// Requests made in two runs: the second run starts from the pool that
/// the first has left, and the answers are those of the first followed by
/// those of the second.
pub proof fn lemma_acquire_all_concat(
    pool: Pool,
    limits: Limits,
    first: Seq<TextureDescriptor>,
    second: Seq<TextureDescriptor>,
)
    ensures
        ({
            let (between, first_answers) = acquire_all(pool, limits, first);
            let (end, second_answers) = acquire_all(between, limits, second);
            acquire_all(pool, limits, first + second) == (end, first_answers + second_answers)
        }),
    decreases second.len(),
{
    let (between, first_answers) = acquire_all(pool, limits, first);
    if second.len() == 0 {
        assert(first + second =~= first);
        assert(first_answers + Seq::<Result<CachedTexture, AllocationError>>::empty()
            =~= first_answers);
    } else {
        lemma_acquire_all_concat(pool, limits, first, second.drop_last());
        assert((first + second).drop_last() =~= first + second.drop_last());
        assert((first + second).last() == second.last());
        let (before, answers) = acquire_all(between, limits, second.drop_last());
        let (after, answer) = before.acquire(limits, second.last());
        assert((first_answers + answers).push(answer) =~= first_answers + answers.push(answer));
    }
}

/// Requests never take an identity back.
pub proof fn lemma_requests_keep_identities(
    pool: Pool,
    limits: Limits,
    requests: Seq<TextureDescriptor>,
)
    ensures
        acquire_all(pool, limits, requests).0.next_id >= pool.next_id,
    decreases requests.len(),
{
    if requests.len() > 0 {
        lemma_requests_keep_identities(pool, limits, requests.drop_last());
    }
}

} // verus!
