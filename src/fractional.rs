//! The shard registry: per post its engagement state, its shard count and the
//! owner of each shard, and the global shard index space that maps every
//! shard back to its post.
//!
//! Global shard indices are handed out from one counter that only grows, so
//! the ranges of two posts never overlap and every shard has one address.
//!
//! The host keeps these records in its own map and vector types, which are
//! handles into host memory and need a live host environment. Here they are
//! plain `Vec`s, which the host layer converts to and from on each call.
use vstd::prelude::*;

use crate::engagement::{after_build, crosses, PostConfig};
use crate::{AccountId, ShardError};

verus! {

/// One post: its identifier, engagement state, shard count, the first of
/// its global shard indices, and the owner of each of its shards.
pub struct Post {
    pub post_id: Vec<u8>,
    pub config: PostConfig,
    pub shard_count: u32,
    pub first_shard: u32,
    pub owners: Vec<AccountId>,
}

/// All posts, in order of creation, and the next free global shard index.
pub struct ShardRegistry {
    pub posts: Vec<Post>,
    pub next_shard: u32,
}

/// Global index `g` lies in the range of `p`.
pub open spec fn in_range(p: Post, g: int) -> bool {
    p.first_shard <= g < p.first_shard + p.shard_count
}

/// The number of entries of `owners` equal to `a`: the shards that `a`
/// holds.
pub open spec fn held(owners: Seq<AccountId>, a: AccountId) -> nat {
    owners.filter(|x: AccountId| x == a).len()
}

impl ShardRegistry {
    /// Post identifiers are unique; each post has one owner per shard; the
    /// global ranges lie below `next_shard`, in order of creation and
    /// without overlap.
    pub open spec fn wf(&self) -> bool {
        &&& forall|i: int, j: int|
            0 <= i < j < self.posts@.len() ==> #[trigger] self.posts@[i].post_id@
                != #[trigger] self.posts@[j].post_id@
        &&& forall|i: int|
            0 <= i < self.posts@.len() ==> (#[trigger] self.posts@[i]).owners@.len()
                == self.posts@[i].shard_count
        &&& forall|i: int|
            0 <= i < self.posts@.len() ==> (#[trigger] self.posts@[i]).first_shard
                + self.posts@[i].shard_count <= self.next_shard
        &&& forall|i: int, j: int|
            0 <= i < j < self.posts@.len() ==> (#[trigger] self.posts@[i]).first_shard
                + self.posts@[i].shard_count <= (#[trigger] self.posts@[j]).first_shard
    }

    /// A post with identifier `id` exists.
    pub open spec fn has_post(&self, id: Seq<u8>) -> bool {
        exists|i: int| 0 <= i < self.posts@.len() && (#[trigger] self.posts@[i]).post_id@ == id
    }

    /// The position of the post `id` (meaningful where it exists).
    pub open spec fn post_pos(&self, id: Seq<u8>) -> int {
        choose|i: int| 0 <= i < self.posts@.len() && (#[trigger] self.posts@[i]).post_id@ == id
    }

    /// The post `id` (meaningful where it exists).
    pub open spec fn post(&self, id: Seq<u8>) -> Post {
        self.posts@[self.post_pos(id)]
    }

    /// The owners of the shards of post `id`, empty where it does not exist.
    pub open spec fn owners_of(&self, id: Seq<u8>) -> Seq<AccountId> {
        if self.has_post(id) {
            self.post(id).owners@
        } else {
            Seq::empty()
        }
    }

    /// The shard count of post `id`, zero where it does not exist.
    pub open spec fn shard_count_of(&self, id: Seq<u8>) -> nat {
        if self.has_post(id) {
            self.post(id).shard_count as nat
        } else {
            0
        }
    }

    /// Global shard index `g` belongs to post `id`.
    pub open spec fn maps_shard(&self, g: int, id: Seq<u8>) -> bool {
        exists|i: int|
            0 <= i < self.posts@.len() && (#[trigger] self.posts@[i]).post_id@ == id && in_range(
                self.posts@[i],
                g,
            )
    }

    /// Some post owns global shard index `g`.
    pub open spec fn is_mapped(&self, g: int) -> bool {
        exists|i: int| 0 <= i < self.posts@.len() && in_range(#[trigger] self.posts@[i], g)
    }

    /// Where the post at position `i` has identifier `id`, it is the post
    /// `id`.
    pub proof fn lemma_pos(&self, i: int, id: Seq<u8>)
        requires
            self.wf(),
            0 <= i < self.posts@.len(),
            self.posts@[i].post_id@ == id,
        ensures
            self.has_post(id),
            self.post_pos(id) == i,
    {
        let j = self.post_pos(id);
        if j < i {
            assert(self.posts@[j].post_id@ != self.posts@[i].post_id@);
        } else if i < j {
            assert(self.posts@[i].post_id@ != self.posts@[j].post_id@);
        }
    }

    /// An empty registry.
    pub fn new() -> (r: ShardRegistry)
        ensures
            r.wf(),
            r.posts@.len() == 0,
            r.next_shard == 0,
    {
        ShardRegistry { posts: Vec::new(), next_shard: 0 }
    }

    /// The position of the post `id`, if it exists.
    pub fn find_post(&self, id: &Vec<u8>) -> (r: Option<usize>)
        requires
            self.wf(),
        ensures
            r is None <==> !self.has_post(id@),
            r matches Some(i) ==> i < self.posts@.len() && i == self.post_pos(id@)
                && self.posts@[i as int].post_id@ == id@,
    {
        let mut i: usize = 0;
        while i < self.posts.len()
            invariant
                self.wf(),
                i <= self.posts@.len(),
                forall|j: int| 0 <= j < i ==> (#[trigger] self.posts@[j]).post_id@ != id@,
            decreases self.posts@.len() - i,
        {
            if bytes_eq(&self.posts[i].post_id, id) {
                proof {
                    self.lemma_pos(i as int, id@);
                }
                return Some(i);
            }
            i = i + 1;
        }
        None
    }
}

/// Whether two byte strings are equal.
pub fn bytes_eq(a: &Vec<u8>, b: &Vec<u8>) -> (r: bool)
    ensures
        r == (a@ == b@),
{
    if a.len() != b.len() {
        return false;
    }
    let mut i: usize = 0;
    while i < a.len()
        invariant
            a@.len() == b@.len(),
            i <= a@.len(),
            forall|j: int| 0 <= j < i ==> a@[j] == b@[j],
        decreases a@.len() - i,
    {
        if a[i] != b[i] {
            return false;
        }
        i = i + 1;
    }
    assert(a@ =~= b@);
    true
}

/// A copy of a byte string.
fn copy_bytes(a: &Vec<u8>) -> (r: Vec<u8>)
    ensures
        r@ == a@,
{
    let r = a.clone();
    assert(r@ =~= a@);
    r
}

/// A copy of a sequence of accounts.
fn copy_accounts(a: &Vec<AccountId>) -> (r: Vec<AccountId>)
    ensures
        r@ == a@,
{
    let r = a.clone();
    assert(r@ =~= a@);
    r
}

/// The shard count of post `post_id`; zero where it does not exist.
pub fn read_shard_count(reg: &ShardRegistry, post_id: &Vec<u8>) -> (r: u32)
    requires
        reg.wf(),
    ensures
        r == reg.shard_count_of(post_id@),
{
    match reg.find_post(post_id) {
        Some(i) => reg.posts[i].shard_count,
        None => 0,
    }
}

/// The owners of the shards of post `post_id`, by shard index.
pub fn read_shard_owners(reg: &ShardRegistry, post_id: &Vec<u8>) -> (r: Result<
    Vec<AccountId>,
    ShardError,
>)
    requires
        reg.wf(),
    ensures
        !reg.has_post(post_id@) ==> r == Err::<Vec<AccountId>, ShardError>(ShardError::MissingRecord),
        reg.has_post(post_id@) ==> (r matches Ok(v) && v@ == reg.owners_of(post_id@)),
{
    match reg.find_post(post_id) {
        Some(i) => Ok(copy_accounts(&reg.posts[i].owners)),
        None => Err(ShardError::MissingRecord),
    }
}


/// Where `r` has post `id`, `idx` is one of its shards and `from` owns it.
pub open spec fn can_transfer_shard(r: ShardRegistry, from: AccountId, id: Seq<u8>, idx: int) -> bool {
    &&& r.has_post(id)
    &&& 0 <= idx < r.post(id).shard_count
    &&& r.post(id).owners@[idx] == from
}

/// `new` is `old` with the engagement state and owners of the post at
/// `pos` replaced by `config` and `owners`, and nothing else changed.
pub open spec fn post_replaced(
    old: ShardRegistry,
    new: ShardRegistry,
    pos: int,
    config: PostConfig,
    owners: Seq<AccountId>,
) -> bool {
    &&& new.next_shard == old.next_shard
    &&& new.posts@.len() == old.posts@.len()
    &&& 0 <= pos < old.posts@.len()
    &&& forall|j: int|
        0 <= j < old.posts@.len() && j != pos ==> #[trigger] new.posts@[j] == old.posts@[j]
    &&& new.posts@[pos].post_id == old.posts@[pos].post_id
    &&& new.posts@[pos].config == config
    &&& new.posts@[pos].shard_count == old.posts@[pos].shard_count
    &&& new.posts@[pos].first_shard == old.posts@[pos].first_shard
    &&& new.posts@[pos].owners@ == owners
}

/// `new` is `old` after shard `idx` of post `id` moved from `from` to `to`.
pub open spec fn shard_moved(
    old: ShardRegistry,
    new: ShardRegistry,
    from: AccountId,
    to: AccountId,
    id: Seq<u8>,
    idx: int,
) -> bool {
    &&& can_transfer_shard(old, from, id, idx)
    &&& post_replaced(
        old,
        new,
        old.post_pos(id),
        old.post(id).config,
        old.post(id).owners@.update(idx, to),
    )
}

/// What replacing one post's state leaves as it was, and what it changes.
pub proof fn lemma_post_replaced(
    old: ShardRegistry,
    new: ShardRegistry,
    pos: int,
    config: PostConfig,
    owners: Seq<AccountId>,
)
    requires
        old.wf(),
        post_replaced(old, new, pos, config, owners),
        owners.len() == old.posts@[pos].shard_count,
    ensures
        new.wf(),
        forall|x: Seq<u8>| #[trigger] new.has_post(x) == old.has_post(x),
        forall|x: Seq<u8>| old.has_post(x) ==> #[trigger] new.post_pos(x) == old.post_pos(x),
        forall|x: Seq<u8>| #[trigger] new.shard_count_of(x) == old.shard_count_of(x),
        forall|x: Seq<u8>|
            old.has_post(x) && old.post_pos(x) != pos ==> #[trigger] new.post(x) == old.post(x),
        forall|x: Seq<u8>|
            old.has_post(x) && old.post_pos(x) != pos ==> #[trigger] new.owners_of(x)
                == old.owners_of(x),
        new.owners_of(old.posts@[pos].post_id@) == owners,
        new.post(old.posts@[pos].post_id@).config == config,
        forall|g: int, x: Seq<u8>| #[trigger] new.maps_shard(g, x) == old.maps_shard(g, x),
{
    assert forall|x: Seq<u8>| #[trigger] new.has_post(x) == old.has_post(x) by {
        if old.has_post(x) {
            let i = old.post_pos(x);
            assert(new.posts@[i].post_id@ == x);
        }
        if new.has_post(x) {
            let i = new.post_pos(x);
            assert(old.posts@[i].post_id@ == x);
        }
    }
    assert(new.wf());
    assert forall|x: Seq<u8>| old.has_post(x) implies #[trigger] new.post_pos(x) == old.post_pos(
        x,
    ) by {
        let i = old.post_pos(x);
        new.lemma_pos(i, x);
    }
    new.lemma_pos(pos, old.posts@[pos].post_id@);
    assert forall|g: int, x: Seq<u8>| #[trigger] new.maps_shard(g, x) == old.maps_shard(g, x) by {
        if old.maps_shard(g, x) {
            let i = choose|i: int|
                0 <= i < old.posts@.len() && (#[trigger] old.posts@[i]).post_id@ == x && in_range(
                    old.posts@[i],
                    g,
                );
            assert(new.posts@[i].post_id@ == x && in_range(new.posts@[i], g));
        }
        if new.maps_shard(g, x) {
            let i = choose|i: int|
                0 <= i < new.posts@.len() && (#[trigger] new.posts@[i]).post_id@ == x && in_range(
                    new.posts@[i],
                    g,
                );
            assert(old.posts@[i].post_id@ == x && in_range(old.posts@[i], g));
        }
    }
}

/// Appending a new post leaves every other post as it was.
pub proof fn lemma_post_added(before: ShardRegistry, after: ShardRegistry, id: Seq<u8>)
    requires
        before.wf(),
        after.wf(),
        !before.has_post(id),
        after.posts@.len() == before.posts@.len() + 1,
        forall|j: int| 0 <= j < before.posts@.len() ==> #[trigger] after.posts@[j] == before.posts@[j],
        after.posts@[before.posts@.len() as int].post_id@ == id,
    ensures
        forall|q: Seq<u8>| q != id ==> (#[trigger] after.has_post(q) == before.has_post(q)),
        forall|q: Seq<u8>| q != id ==> (#[trigger] after.owners_of(q) == before.owners_of(q)),
        forall|q: Seq<u8>| q != id ==> (#[trigger] after.shard_count_of(q) == before.shard_count_of(q)),
        forall|q: Seq<u8>|
            q != id && before.has_post(q) ==> (#[trigger] after.post(q) == before.post(q)),
{
    assert forall|q: Seq<u8>| q != id implies (#[trigger] after.has_post(q) == before.has_post(q))
        && (before.has_post(q) ==> after.post(q) == before.post(q)) by {
        if before.has_post(q) {
            let i = before.post_pos(q);
            assert(after.posts@[i] == before.posts@[i]);
            after.lemma_pos(i, q);
        }
        if after.has_post(q) {
            let i = after.post_pos(q);
            assert(i < before.posts@.len());
            assert(before.posts@[i] == after.posts@[i]);
        }
    }
    assert forall|q: Seq<u8>| q != id implies (#[trigger] after.owners_of(q) == before.owners_of(q))
        && (after.shard_count_of(q) == before.shard_count_of(q)) by {
        assert(after.has_post(q) == before.has_post(q));
    }
    assert forall|q: Seq<u8>| q != id && before.has_post(q) implies (#[trigger] after.post(q)
        == before.post(q)) by {
        assert(after.has_post(q) == before.has_post(q));
    }
}

/// Every post has exactly one owner entry per shard.
pub proof fn lemma_one_owner_per_shard(r: ShardRegistry, id: Seq<u8>)
    requires
        r.wf(),
    ensures
        r.owners_of(id).len() == r.shard_count_of(id),
{
    if r.has_post(id) {
        assert(r.posts@[r.post_pos(id)].owners@.len() == r.posts@[r.post_pos(id)].shard_count);
    }
}

/// In a well-formed registry every global shard index belongs to at most
/// one post: the addresses of two posts' shards never collide.
pub proof fn lemma_shard_address_unique(r: ShardRegistry, g: int, a: Seq<u8>, b: Seq<u8>)
    requires
        r.wf(),
        r.maps_shard(g, a),
        r.maps_shard(g, b),
    ensures
        a == b,
{
    let i = choose|i: int|
        0 <= i < r.posts@.len() && (#[trigger] r.posts@[i]).post_id@ == a && in_range(
            r.posts@[i],
            g,
        );
    let j = choose|j: int|
        0 <= j < r.posts@.len() && (#[trigger] r.posts@[j]).post_id@ == b && in_range(
            r.posts@[j],
            g,
        );
    if i < j {
        assert(r.posts@[i].first_shard + r.posts@[i].shard_count <= r.posts@[j].first_shard);
    } else if j < i {
        assert(r.posts@[j].first_shard + r.posts@[j].shard_count <= r.posts@[i].first_shard);
    }
}

/// Moving a shard and moving it straight back restores every post's owners,
/// and the move back is always allowed.
pub proof fn lemma_transfer_round_trip(
    r0: ShardRegistry,
    r1: ShardRegistry,
    r2: ShardRegistry,
    from: AccountId,
    to: AccountId,
    id: Seq<u8>,
    idx: int,
)
    requires
        r0.wf(),
        shard_moved(r0, r1, from, to, id, idx),
        shard_moved(r1, r2, to, from, id, idx),
    ensures
        can_transfer_shard(r1, to, id, idx),
        r2.owners_of(id)[idx] == from,
        forall|x: Seq<u8>| #[trigger] r2.owners_of(x) == r0.owners_of(x),
{
    let pos = r0.post_pos(id);
    lemma_post_replaced(r0, r1, pos, r0.post(id).config, r0.post(id).owners@.update(idx, to));
    lemma_post_replaced(r1, r2, pos, r1.post(id).config, r1.post(id).owners@.update(idx, from));
    assert(r2.owners_of(id) =~= r0.owners_of(id));
}

/// The number of shards that `a` holds after shard `i` moves to `to`: one
/// less for the old owner, one more for the new, the same for everyone else.
/// Each shard thus has exactly one owner before and after.
pub proof fn lemma_transfer_moves_one_shard(owners: Seq<AccountId>, i: int, to: AccountId, a: AccountId)
    requires
        0 <= i < owners.len(),
    ensures
        held(owners.update(i, to), a) + (if owners[i] == a { 1int } else { 0int }) == held(owners, a)
            + (if to == a { 1int } else { 0int }),
    decreases owners.len(),
{
    let s = owners.update(i, to);
    reveal_with_fuel(Seq::filter, 1);
    if i == owners.len() - 1 {
        assert(s.drop_last() =~= owners.drop_last());
    } else {
        assert(s.drop_last() =~= owners.drop_last().update(i, to));
        lemma_transfer_moves_one_shard(owners.drop_last(), i, to, a);
    }
    assert(s.filter(|x: AccountId| x == a).len() == s.drop_last().filter(|x: AccountId| x == a).len()
        + if s.last() == a { 1int } else { 0int });
    assert(owners.filter(|x: AccountId| x == a).len() == owners.drop_last().filter(
        |x: AccountId| x == a,
    ).len() + if owners.last() == a { 1int } else { 0int });
}

/// At issuance the creator holds every shard and nobody else holds any.
pub proof fn lemma_issuance_held(n: nat, admin: AccountId, a: AccountId)
    ensures
        held(Seq::new(n, |k: int| admin), a) == if a == admin { n } else { 0 },
    decreases n,
{
    let s = Seq::new(n, |k: int| admin);
    reveal_with_fuel(Seq::filter, 1);
    if n > 0 {
        lemma_issuance_held((n - 1) as nat, admin, a);
        assert(s.drop_last() =~= Seq::new((n - 1) as nat, |k: int| admin));
    } else {
        assert(s =~= Seq::<AccountId>::empty());
    }
}


/// Replaces the owners of post `post_id`. Refused where the post does not
/// exist, or where `owners` does not hold one entry per shard.
pub fn write_shard_owners(reg: &mut ShardRegistry, post_id: &Vec<u8>, owners: Vec<AccountId>) -> (r:
    Result<(), ShardError>)
    requires
        old(reg).wf(),
    ensures
        final(reg).wf(),
        !old(reg).has_post(post_id@) ==> r == Err::<(), ShardError>(ShardError::MissingRecord),
        old(reg).has_post(post_id@) && owners@.len() != old(reg).post(post_id@).shard_count ==> r
            == Err::<(), ShardError>(ShardError::IndexOutOfRange),
        r is Ok <==> old(reg).has_post(post_id@) && owners@.len() == old(reg).post(
            post_id@,
        ).shard_count,
        r is Ok ==> post_replaced(
            *old(reg),
            *final(reg),
            old(reg).post_pos(post_id@),
            old(reg).post(post_id@).config,
            owners@,
        ),
        r is Err ==> *final(reg) == *old(reg),
{
    let pos = match reg.find_post(post_id) {
        Some(i) => i,
        None => return Err(ShardError::MissingRecord),
    };
    if owners.len() != reg.posts[pos].shard_count as usize {
        return Err(ShardError::IndexOutOfRange);
    }
    let ghost before = *reg;
    reg.posts[pos].owners = owners;
    proof {
        lemma_post_replaced(before, *reg, pos as int, before.posts@[pos as int].config, owners@);
    }
    Ok(())
}

/// The position of the post that owns global shard index `g`, if any.
pub fn find_shard(reg: &ShardRegistry, g: u32) -> (r: Option<usize>)
    requires
        reg.wf(),
    ensures
        r is None <==> !reg.is_mapped(g as int),
        r matches Some(i) ==> i < reg.posts@.len() && in_range(reg.posts@[i as int], g as int)
            && forall|x: Seq<u8>| #[trigger]
                reg.maps_shard(g as int, x) <==> x == reg.posts@[i as int].post_id@,
{
    let mut i: usize = 0;
    while i < reg.posts.len()
        invariant
            reg.wf(),
            i <= reg.posts@.len(),
            forall|j: int| 0 <= j < i ==> !in_range(#[trigger] reg.posts@[j], g as int),
        decreases reg.posts@.len() - i,
    {
        let p = &reg.posts[i];
        if p.first_shard <= g && (g as u64) < p.first_shard as u64 + p.shard_count as u64 {
            proof {
                let id = reg.posts@[i as int].post_id@;
                assert(reg.maps_shard(g as int, id));
                assert forall|x: Seq<u8>| #[trigger]
                    reg.maps_shard(g as int, x) <==> x == id by {
                    if reg.maps_shard(g as int, x) {
                        lemma_shard_address_unique(*reg, g as int, x, id);
                    }
                }
            }
            return Some(i);
        }
        i = i + 1;
    }
    None
}

/// The post that global shard index `g` belongs to, if some post owns `g`.
pub open spec fn post_of_shard(reg: ShardRegistry, g: int) -> Seq<u8> {
    choose|x: Seq<u8>| reg.maps_shard(g, x)
}

/// The index, within its post, of the shard at global index `g`.
pub open spec fn local_index(reg: ShardRegistry, g: int) -> int {
    g - reg.post(post_of_shard(reg, g)).first_shard
}

/// `new` is `old` after shard `idx` of post `id` passed to `to`, whoever
/// owned it.
pub open spec fn shard_reassigned(
    old: ShardRegistry,
    new: ShardRegistry,
    id: Seq<u8>,
    idx: int,
    to: AccountId,
) -> bool {
    &&& old.has_post(id)
    &&& 0 <= idx < old.post(id).shard_count
    &&& post_replaced(
        old,
        new,
        old.post_pos(id),
        old.post(id).config,
        old.post(id).owners@.update(idx, to),
    )
}

/// The post that owns global shard index `shard_index`.
pub fn get_post_for_shard(reg: &ShardRegistry, shard_index: u32) -> (r: Result<
    Vec<u8>,
    ShardError,
>)
    requires
        reg.wf(),
    ensures
        !reg.is_mapped(shard_index as int) ==> r == Err::<Vec<u8>, ShardError>(
            ShardError::UnmappedShard,
        ),
        reg.is_mapped(shard_index as int) ==> (r matches Ok(id) && id@ == post_of_shard(
            *reg,
            shard_index as int,
        ) && reg.maps_shard(shard_index as int, id@)),
{
    match find_shard(reg, shard_index) {
        Some(i) => {
            let id = copy_bytes(&reg.posts[i].post_id);
            proof {
                assert(reg.maps_shard(shard_index as int, id@));
            }
            Ok(id)
        },
        None => Err(ShardError::UnmappedShard),
    }
}

/// Adds post `post_id`, not yet in the registry, with engagement state
/// `config` and one shard per entry of `owners`, and maps the next
/// `owners.len()` free global shard indices to it. Every index mapped
/// before keeps its post. Returns the first new index. Refused, with nothing
/// changed, where the index space would run past `u32::MAX`.
pub fn map_shards_to_post(
    reg: &mut ShardRegistry,
    post_id: Vec<u8>,
    config: PostConfig,
    owners: Vec<AccountId>,
) -> (r: Result<u32, ShardError>)
    requires
        old(reg).wf(),
        !old(reg).has_post(post_id@),
        owners@.len() <= u32::MAX,
    ensures
        final(reg).wf(),
        r is Ok <==> old(reg).next_shard + owners@.len() <= u32::MAX,
        r is Err ==> r == Err::<u32, ShardError>(ShardError::Overflow) && *final(reg) == *old(reg),
        r matches Ok(first) ==> first == old(reg).next_shard,
        r is Ok ==> final(reg).next_shard == old(reg).next_shard + owners@.len(),
        r is Ok ==> (forall|g: int|
            old(reg).next_shard <= g < old(reg).next_shard + owners@.len() ==> !#[trigger] old(
                reg,
            ).is_mapped(g)),
        r is Ok ==> (forall|g: int, x: Seq<u8>|
            #[trigger] final(reg).maps_shard(g, x) <==> (old(reg).maps_shard(g, x) || (x == post_id@
                && old(reg).next_shard <= g < old(reg).next_shard + owners@.len()))),
        r is Ok ==> (forall|g: int|
            #[trigger] final(reg).maps_shard(g, post_id@) <==> old(reg).next_shard <= g < old(
                reg,
            ).next_shard + owners@.len()),
        r is Ok ==> final(reg).posts@.len() == old(reg).posts@.len() + 1,
        r is Ok ==> (forall|j: int|
            0 <= j < old(reg).posts@.len() ==> #[trigger] final(reg).posts@[j] == old(reg).posts@[j]),
        r is Ok ==> final(reg).has_post(post_id@),
        r is Ok ==> final(reg).post_pos(post_id@) == old(reg).posts@.len(),
        r is Ok ==> final(reg).post(post_id@).config == config,
        r is Ok ==> final(reg).shard_count_of(post_id@) == owners@.len(),
        r is Ok ==> final(reg).owners_of(post_id@) == owners@,
        r is Ok ==> final(reg).post(post_id@).first_shard == old(reg).next_shard,
{
    let total_shards = owners.len() as u32;
    if reg.next_shard > u32::MAX - total_shards {
        return Err(ShardError::Overflow);
    }
    let first = reg.next_shard;
    let ghost id = post_id@;
    let ghost owned = owners@;
    reg.next_shard = first + total_shards;
    reg.posts.push(Post { post_id, config, shard_count: total_shards, first_shard: first, owners });
    proof {
        let n = old(reg).posts@.len() as int;
        let end = first + total_shards;
        assert forall|j: int| 0 <= j < n implies #[trigger] reg.posts@[j] == old(reg).posts@[j] by {}
        assert(forall|j: int| 0 <= j < n ==> #[trigger] old(reg).posts@[j].post_id@ != id);
        assert(reg.wf());
        reg.lemma_pos(n, id);
        assert(reg.owners_of(id) =~= owned);
        assert forall|g: int| first <= g < end implies !#[trigger] old(reg).is_mapped(g) by {
            if old(reg).is_mapped(g) {
                let i = choose|i: int| 0 <= i < n && in_range(#[trigger] old(reg).posts@[i], g);
            }
        }
        assert forall|g: int, x: Seq<u8>| #[trigger]
            reg.maps_shard(g, x) <==> (old(reg).maps_shard(g, x) || (x == id && first <= g < end)) by {
            if reg.maps_shard(g, x) {
                let i = choose|i: int|
                    0 <= i < reg.posts@.len() && (#[trigger] reg.posts@[i]).post_id@ == x
                        && in_range(reg.posts@[i], g);
                if i < n {
                    assert(old(reg).posts@[i] == reg.posts@[i]);
                }
            }
            if old(reg).maps_shard(g, x) {
                let i = choose|i: int|
                    0 <= i < n && (#[trigger] old(reg).posts@[i]).post_id@ == x
                        && in_range(old(reg).posts@[i], g);
                assert(reg.posts@[i] == old(reg).posts@[i]);
            }
            if x == id && first <= g < end {
                assert(in_range(reg.posts@[n], g));
            }
        }
        assert forall|g: int| #[trigger] reg.maps_shard(g, id) <==> first <= g < end by {
            if old(reg).maps_shard(g, id) {
                let i = choose|i: int|
                    0 <= i < n && (#[trigger] old(reg).posts@[i]).post_id@ == id
                        && in_range(old(reg).posts@[i], g);
            }
        }
    }
    Ok(first)
}

impl ShardRegistry {
    /// Creates post `post_id` with engagement state `config` and
    /// `total_shards` shards, all owned by `admin`, mapped to the next free
    /// global indices. Refused where the post exists or the index space runs
    /// out.
    pub fn create_post(
        &mut self,
        admin: AccountId,
        post_id: Vec<u8>,
        config: PostConfig,
        total_shards: u32,
    ) -> (r: Result<(), ShardError>)
        requires
            old(self).wf(),
        ensures
            final(self).wf(),
            old(self).has_post(post_id@) ==> r == Err::<(), ShardError>(
                ShardError::AlreadyInitialized,
            ),
            !old(self).has_post(post_id@) && old(self).next_shard + total_shards > u32::MAX ==> r
                == Err::<(), ShardError>(ShardError::Overflow),
            r is Ok <==> !old(self).has_post(post_id@) && old(self).next_shard + total_shards
                <= u32::MAX,
            r is Err ==> *final(self) == *old(self),
            r is Ok ==> (final(self).posts@.len() == old(self).posts@.len() + 1),
            r is Ok ==> (forall|j: int| 0 <= j < old(self).posts@.len() ==> #[trigger] final(self).posts@[j] == old(self).posts@[j]),
            r is Ok ==> (final(self).next_shard == old(self).next_shard + total_shards),
            r is Ok ==> (final(self).has_post(post_id@)),
            r is Ok ==> (final(self).post_pos(post_id@) == old(self).posts@.len()),
            r is Ok ==> (final(self).post(post_id@).config == config),
            r is Ok ==> (final(self).shard_count_of(post_id@) == total_shards),
            r is Ok ==> (final(self).owners_of(post_id@) == Seq::new(total_shards as nat, |k: int| admin)),
            r is Ok ==> (final(self).post(post_id@).first_shard == old(self).next_shard),
            r is Ok ==> (forall|g: int| #[trigger] final(self).maps_shard(g, post_id@) <==> old(self).next_shard <= g < old(self).next_shard + total_shards),
            r is Ok ==> (forall|g: int, x: Seq<u8>| #[trigger] final(self).maps_shard(g, x) <==> (old(self).maps_shard(g, x) || (x == post_id@ && old(self).next_shard <= g < old(self).next_shard + total_shards))),
    {
        if self.find_post(&post_id).is_some() {
            return Err(ShardError::AlreadyInitialized);
        }
        if self.next_shard > u32::MAX - total_shards {
            return Err(ShardError::Overflow);
        }
        let mut owners: Vec<AccountId> = Vec::new();
        let mut k: u32 = 0;
        while k < total_shards
            invariant
                k <= total_shards,
                owners@ == Seq::new(k as nat, |j: int| admin),
            decreases total_shards - k,
        {
            owners.push(admin);
            k = k + 1;
            assert(owners@ =~= Seq::new(k as nat, |j: int| admin));
        }
        let mapped = map_shards_to_post(self, post_id, config, owners);
        assert(mapped is Ok);
        Ok(())
    }
}

impl ShardRegistry {
    /// Moves shard `shard_index` of post `post_id` from `from` to `to`.
    /// Refused where the post does not exist, the index is not below its
    /// shard count, or `from` does not own the shard.
    pub fn transfer_shard(
        &mut self,
        from: AccountId,
        to: AccountId,
        post_id: &Vec<u8>,
        shard_index: u32,
    ) -> (r: Result<(), ShardError>)
        requires
            old(self).wf(),
        ensures
            final(self).wf(),
            !old(self).has_post(post_id@) ==> r == Err::<(), ShardError>(ShardError::MissingRecord),
            old(self).has_post(post_id@) && shard_index >= old(self).post(post_id@).shard_count ==> r
                == Err::<(), ShardError>(ShardError::IndexOutOfRange),
            old(self).has_post(post_id@) && shard_index < old(self).post(post_id@).shard_count
                && old(self).post(post_id@).owners@[shard_index as int] != from ==> r == Err::<
                (),
                ShardError,
            >(ShardError::NotShardOwner),
            r is Ok <==> can_transfer_shard(*old(self), from, post_id@, shard_index as int),
            r is Ok ==> shard_moved(*old(self), *final(self), from, to, post_id@, shard_index as int),
            r is Ok ==> final(self).owners_of(post_id@) == old(self).owners_of(post_id@).update(
                shard_index as int,
                to,
            ),
            r is Err ==> *final(self) == *old(self),
    {
        let mut owners = match read_shard_owners(self, post_id) {
            Ok(o) => o,
            Err(e) => return Err(e),
        };
        if shard_index as usize >= owners.len() {
            return Err(ShardError::IndexOutOfRange);
        }
        if owners[shard_index as usize] != from {
            return Err(ShardError::NotShardOwner);
        }
        owners.set(shard_index as usize, to);
        let ghost before = *self;
        let res = write_shard_owners(self, post_id, owners);
        proof {
            let pos = before.post_pos(post_id@);
            lemma_post_replaced(before, *self, pos, before.posts@[pos].config, owners@);
        }
        res
    }

    /// Gives the shard at global index `g` to `to`. Refused where no post
    /// owns `g`.
    pub fn transfer_global(&mut self, to: AccountId, g: u32) -> (r: Result<(), ShardError>)
        requires
            old(self).wf(),
        ensures
            final(self).wf(),
            r is Ok <==> old(self).is_mapped(g as int),
            r is Err ==> r == Err::<(), ShardError>(ShardError::UnmappedShard) && *final(self)
                == *old(self),
            old(self).is_mapped(g as int) ==> old(self).maps_shard(
                g as int,
                post_of_shard(*old(self), g as int),
            ),
            r is Ok ==> shard_reassigned(
                *old(self),
                *final(self),
                post_of_shard(*old(self), g as int),
                local_index(*old(self), g as int),
                to,
            ),
    {
        let pos = match find_shard(self, g) {
            Some(i) => i,
            None => return Err(ShardError::UnmappedShard),
        };
        let ghost id = self.posts@[pos as int].post_id@;
        proof {
            self.lemma_pos(pos as int, id);
            assert(self.maps_shard(g as int, id));
            assert(post_of_shard(*self, g as int) == id);
        }
        let local = g - self.posts[pos].first_shard;
        let ghost before = *self;
        self.posts[pos].owners.set(local as usize, to);
        proof {
            lemma_post_replaced(
                before,
                *self,
                pos as int,
                before.posts@[pos as int].config,
                before.posts@[pos as int].owners@.update(local as int, to),
            );
        }
        Ok(())
    }

    /// Counts one build of post `post_id` and returns whether this build
    /// crossed the post's threshold. Refused where the post does not exist
    /// or its counter is at `u32::MAX`.
    pub fn record_build(&mut self, post_id: &Vec<u8>) -> (r: Result<bool, ShardError>)
        requires
            old(self).wf(),
        ensures
            final(self).wf(),
            !old(self).has_post(post_id@) ==> r == Err::<bool, ShardError>(
                ShardError::MissingRecord,
            ),
            old(self).has_post(post_id@) && old(self).post(post_id@).config.build_count == u32::MAX
                ==> r == Err::<bool, ShardError>(ShardError::Overflow),
            old(self).has_post(post_id@) && old(self).post(post_id@).config.build_count < u32::MAX
                ==> r == Ok::<bool, ShardError>(crosses(old(self).post(post_id@).config))
                && post_replaced(
                *old(self),
                *final(self),
                old(self).post_pos(post_id@),
                after_build(old(self).post(post_id@).config),
                old(self).post(post_id@).owners@,
            ),
            r is Err ==> *final(self) == *old(self),
    {
        let pos = match self.find_post(post_id) {
            Some(i) => i,
            None => return Err(ShardError::MissingRecord),
        };
        let ghost before = *self;
        let mut config = self.posts[pos].config;
        let res = config.record_build();
        if res.is_err() {
            return res;
        }
        self.posts[pos].config = config;
        proof {
            lemma_post_replaced(before, *self, pos as int, config, before.posts@[pos as int].owners@);
        }
        res
    }
}

} // verus!
