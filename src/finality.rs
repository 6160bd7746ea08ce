use vstd::prelude::*;

verus! {

/// The latest finalized head that a watcher has published: its height and
/// block hash.
pub struct FinalityState {
    height: u64,
    hash: [u8; 32],
}

impl View for FinalityState {
    type V = (u64, Seq<u8>);

    closed spec fn view(&self) -> (u64, Seq<u8>) {
        (self.height, self.hash@)
    }
}

/// The published value after one finalized-header notification: a header
/// that would move the height backwards is not published.
pub open spec fn after_header(s: (u64, Seq<u8>), height: u64, hash: Seq<u8>) -> (u64, Seq<u8>) {
    if height >= s.0 {
        (height, hash)
    } else {
        s
    }
}

/// The published value after a run of notifications, in order.
pub open spec fn after_headers(s: (u64, Seq<u8>), headers: Seq<(u64, Seq<u8>)>) -> (u64, Seq<u8>)
    decreases headers.len(),
{
    if headers.len() == 0 {
        s
    } else {
        let prev = after_headers(s, headers.drop_last());
        after_header(prev, headers.last().0, headers.last().1)
    }
}

impl FinalityState {
    /// The value published before any header is seen: height zero and the
    /// all-zero hash.
    pub fn new() -> (r: FinalityState)
        ensures
            r@ == (0u64, Seq::new(32, |i: int| 0u8)),
    {
        let r = FinalityState { height: 0, hash: [0u8; 32] };
        assert(r.hash@ =~= Seq::new(32, |i: int| 0u8));
        r
    }

    /// Takes in a finalized-header notification and returns whether it was
    /// published, overwriting the previous value. Heights never go back.
    pub fn publish(&mut self, height: u64, hash: [u8; 32]) -> (published: bool)
        ensures
            final(self)@ == after_header(old(self)@, height, hash@),
            published == (height >= old(self)@.0),
            final(self)@.0 >= old(self)@.0,
    {
        if height >= self.height {
            self.height = height;
            self.hash = hash;
            true
        } else {
            false
        }
    }

    /// The published height and hash.
    pub fn latest(&self) -> (r: (u64, [u8; 32]))
        ensures
            r.0 == self@.0,
            r.1@ == self@.1,
    {
        (self.height, self.hash)
    }
}

/// Over one connection's watcher, a value published later never has a lower
/// height than one published earlier: after the first `k` notifications the
/// height is at most what it is after the first `n`, for `k <= n`.
pub proof fn lemma_published_heights_monotone(
    s: (u64, Seq<u8>),
    headers: Seq<(u64, Seq<u8>)>,
    k: int,
    n: int,
)
    requires
        0 <= k <= n <= headers.len(),
    ensures
        after_headers(s, headers.take(k)).0 <= after_headers(s, headers.take(n)).0,
    decreases n - k,
{
    if k < n {
        lemma_published_heights_monotone(s, headers, k, n - 1);
        assert(headers.take(n).drop_last() =~= headers.take(n - 1));
    }
}

/// What a waiter does with the value it observed from the watcher.
#[derive(Clone, Copy, Debug, PartialEq, Eq)]
pub enum WaitStep {
    /// The watcher has terminated: reconnect and wait again.
    Closed,
    /// The finalized height is still below the target: wait for the next value.
    Pending,
    /// The target height itself is finalized, with this hash.
    Reached([u8; 32]),
    /// Finality has moved past the target: its hash must be looked up by height.
    Passed,
}

/// Decides what a wait for `height` to be finalized does with the value
/// observed from the watcher; `None` means the watcher has terminated.
pub fn wait_until_finalized(observed: Option<(u64, [u8; 32])>, height: u64) -> (r: WaitStep)
    ensures
        observed is None ==> r == WaitStep::Closed,
        observed matches Some((h, hash)) ==> {
            &&& h < height ==> r == WaitStep::Pending
            &&& h == height ==> r == WaitStep::Reached(hash)
            &&& h > height ==> r == WaitStep::Passed
        },
{
    match observed {
        None => WaitStep::Closed,
        Some((h, hash)) => {
            if h < height {
                WaitStep::Pending
            } else if h == height {
                WaitStep::Reached(hash)
            } else {
                WaitStep::Passed
            }
        },
    }
}

} // verus!
