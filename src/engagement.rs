//! The engagement counter of a post and its one-time threshold signal.
use vstd::prelude::*;

use crate::ShardError;

verus! {

/// A post's engagement state: builds so far, the threshold at which the post
/// is fractionalized, and whether it stands for a real-world asset.
#[derive(Debug, Clone, Copy, PartialEq, Eq, Structural)]
pub struct PostConfig {
    pub threshold: u32,
    pub build_count: u32,
    pub is_rwa: bool,
}

/// The post has reached its threshold.
pub open spec fn threshold_reached(c: PostConfig) -> bool {
    c.build_count >= c.threshold
}

/// The next build moves the post from below its threshold to at or above
/// it: the one build on which the fractionalization signal fires.
pub open spec fn crosses(c: PostConfig) -> bool {
    c.build_count < c.threshold && c.build_count + 1 >= c.threshold
}

/// The state after one build.
pub open spec fn after_build(c: PostConfig) -> PostConfig {
    PostConfig { build_count: (c.build_count + 1) as u32, ..c }
}

/// The state after `n` builds in a row.
pub open spec fn after_builds(c: PostConfig, n: nat) -> PostConfig
    decreases n,
{
    if n == 0 {
        c
    } else {
        after_builds(after_build(c), (n - 1) as nat)
    }
}

/// How many of `n` builds in a row fire the signal.
pub open spec fn signals(c: PostConfig, n: nat) -> nat
    decreases n,
{
    if n == 0 {
        0
    } else {
        (if crosses(c) { 1nat } else { 0nat }) + signals(after_build(c), (n - 1) as nat)
    }
}

impl PostConfig {
    /// A fresh post: no builds yet.
    pub fn new(threshold: u32, is_rwa: bool) -> (r: PostConfig)
        ensures
            r == (PostConfig { threshold, build_count: 0, is_rwa }),
    {
        PostConfig { threshold, build_count: 0, is_rwa }
    }

    /// Whether the post has reached its threshold.
    pub fn is_threshold_reached(&self) -> (r: bool)
        ensures
            r == threshold_reached(*self),
    {
        self.build_count >= self.threshold
    }

    /// Counts one build. Returns whether this build crossed the threshold,
    /// which is so on exactly one build of a post. Refused, with nothing
    /// changed, where the counter is at `u32::MAX`.
    pub fn record_build(&mut self) -> (r: Result<bool, ShardError>)
        ensures
            old(self).build_count == u32::MAX ==> r == Err::<bool, ShardError>(ShardError::Overflow)
                && *final(self) == *old(self),
            old(self).build_count < u32::MAX ==> r == Ok::<bool, ShardError>(crosses(*old(self)))
                && *final(self) == after_build(*old(self)),
    {
        if self.build_count == u32::MAX {
            return Err(ShardError::Overflow);
        }
        let below = self.build_count < self.threshold;
        self.build_count = self.build_count + 1;
        Ok(below && self.build_count >= self.threshold)
    }
}

proof fn lemma_builds_from(c: PostConfig, n: nat)
    requires
        c.build_count + n <= u32::MAX,
    ensures
        after_builds(c, n) == (PostConfig { build_count: (c.build_count + n) as u32, ..c }),
        signals(c, n) == (if c.build_count < c.threshold <= c.build_count + n {
            1nat
        } else {
            0nat
        }),
    decreases n,
{
    if n > 0 {
        lemma_builds_from(after_build(c), (n - 1) as nat);
    }
}

/// Building a fresh post `threshold` times in a row moves it from below its
/// threshold to the threshold exactly once, and the signal fires exactly
/// once over the whole run; any further builds fire it no more.
pub proof fn lemma_threshold_signals_once(c: PostConfig, n: nat)
    requires
        c.build_count == 0,
        1 <= c.threshold,
        c.threshold <= n <= u32::MAX,
    ensures
        signals(c, c.threshold as nat) == 1,
        signals(c, n) == 1,
        threshold_reached(after_builds(c, c.threshold as nat)),
        forall|k: nat| k < c.threshold ==> !threshold_reached(#[trigger] after_builds(c, k)),
        forall|k: nat|
            k <= n ==> (#[trigger] after_builds(c, k)).build_count == k,
{
    lemma_builds_from(c, c.threshold as nat);
    lemma_builds_from(c, n);
    assert forall|k: nat| k < c.threshold implies !threshold_reached(#[trigger] after_builds(c, k)) by {
        lemma_builds_from(c, k);
    }
    assert forall|k: nat| k <= n implies (#[trigger] after_builds(c, k)).build_count == k by {
        lemma_builds_from(c, k);
    }
}


proof fn lemma_run_counts(states: Seq<PostConfig>, n: int, k: int)
    requires
        states.len() == n + 1,
        states[0].build_count == 0,
        states[0].threshold <= u32::MAX,
        n <= states[0].threshold,
        0 <= k <= n,
        forall|j: int| 0 <= j < n ==> #[trigger] states[j + 1] == after_build(states[j]),
    ensures
        states[k].build_count == k,
        states[k].threshold == states[0].threshold,
    decreases k,
{
    if k > 0 {
        lemma_run_counts(states, n, k - 1);
        assert(states[k - 1 + 1] == after_build(states[k - 1]));
    }
}

/// A run of `threshold` builds on a fresh post, as each build reports it:
/// `states[k]` is the engagement state before build `k` and `fired[k]` is
/// what build `k` returned. The post stays below its threshold until the
/// last build, reaches it then, and the signal fires on that build alone.
pub proof fn lemma_build_run_signals_once(states: Seq<PostConfig>, fired: Seq<bool>)
    requires
        states.len() == fired.len() + 1,
        states[0].build_count == 0,
        1 <= states[0].threshold,
        fired.len() == states[0].threshold,
        forall|k: int|
            0 <= k < fired.len() ==> #[trigger] states[k + 1] == after_build(states[k]),
        forall|k: int| 0 <= k < fired.len() ==> #[trigger] fired[k] == crosses(states[k]),
    ensures
        forall|k: int| 0 <= k < fired.len() ==> #[trigger] fired[k] == (k == fired.len() - 1),
        forall|k: int| 0 <= k < fired.len() ==> !threshold_reached(#[trigger] states[k]),
        threshold_reached(states[fired.len() as int]),
        states[fired.len() as int].build_count == states[0].threshold,
{
    let n = fired.len() as int;
    assert forall|k: int| 0 <= k < n implies #[trigger] fired[k] == (k == n - 1) by {
        lemma_run_counts(states, n, k);
    }
    assert forall|k: int| 0 <= k < n implies !threshold_reached(#[trigger] states[k]) by {
        lemma_run_counts(states, n, k);
    }
    lemma_run_counts(states, n, n);
}

} // verus!
