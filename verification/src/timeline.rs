//! The time of each principal's latest contribution.

use vstd::prelude::*;
use crate::principal::Principal;

verus! {

/// When `who` last contributed.
#[derive(Clone, Copy, Debug, PartialEq, Eq, Structural)]
pub struct Stamp {
    pub who: Principal,
    pub at: u64,
}

/// Whether `who` has a stamp in `l`.
pub open spec fn stamped(l: Seq<Stamp>, who: Principal) -> bool {
    exists|i: int| 0 <= i < l.len() && #[trigger] l[i].who == who
}

/// The position of a stamp of `who` in `l`, where there is one.
pub open spec fn stamp_slot(l: Seq<Stamp>, who: Principal) -> int {
    choose|i: int| 0 <= i < l.len() && #[trigger] l[i].who == who
}

/// The time of the latest contribution of `who`, if there was one.
pub open spec fn last_seen(l: Seq<Stamp>, who: Principal) -> Option<u64> {
    if stamped(l, who) {
        Some(l[stamp_slot(l, who)].at)
    } else {
        None
    }
}

/// No principal occurs twice.
pub open spec fn one_stamp_each(l: Seq<Stamp>) -> bool {
    forall|i: int, j: int| 0 <= i < j < l.len() ==> (#[trigger] l[i]).who != (#[trigger] l[j]).who
}

/// `l` after `who` contributed at time `at`.
pub open spec fn touch(l: Seq<Stamp>, who: Principal, at: u64) -> Seq<Stamp> {
    if stamped(l, who) {
        l.update(stamp_slot(l, who), Stamp { who, at })
    } else {
        l.push(Stamp { who, at })
    }
}

/// Where no principal occurs twice, a stamp of `who` is *the* stamp of `who`.
pub proof fn lemma_stamp_slot(l: Seq<Stamp>, i: int)
    requires
        one_stamp_each(l),
        0 <= i < l.len(),
    ensures
        stamped(l, l[i].who),
        stamp_slot(l, l[i].who) == i,
        last_seen(l, l[i].who) == Some(l[i].at),
{
}

/// What `touch` does: the stamps stay free of repetition, `who` is seen at
/// `at`, and every other principal is seen when it was.
pub proof fn lemma_touch(l: Seq<Stamp>, who: Principal, at: u64)
    requires
        one_stamp_each(l),
    ensures
        one_stamp_each(touch(l, who, at)),
        last_seen(touch(l, who, at), who) == Some(at),
        forall|other: Principal|
            other != who ==> last_seen(touch(l, who, at), other) == last_seen(l, other),
{
    let c = touch(l, who, at);
    if stamped(l, who) {
        let i = stamp_slot(l, who);
        lemma_stamp_slot(c, i);
    } else {
        let n = l.len() as int;
        lemma_stamp_slot(c, n);
    }
    assert forall|other: Principal| other != who implies last_seen(c, other) == last_seen(
        l,
        other,
    ) by {
        if stamped(l, other) {
            let k = stamp_slot(l, other);
            lemma_stamp_slot(c, k);
            lemma_stamp_slot(l, k);
        }
        if stamped(c, other) {
            let k = stamp_slot(c, other);
            lemma_stamp_slot(l, k);
            lemma_stamp_slot(c, k);
        }
    }
}

/// The latest contribution time of each principal that ever contributed.
pub struct Timeline {
    pub stamps: Vec<Stamp>,
}

impl View for Timeline {
    type V = Seq<Stamp>;

    open spec fn view(&self) -> Seq<Stamp> {
        self.stamps@
    }
}

impl Timeline {
    /// No principal occurs twice.
    pub open spec fn wf(&self) -> bool {
        one_stamp_each(self@)
    }

    /// The timeline on which nobody was seen.
    pub fn new() -> (r: Timeline)
        ensures
            r@ == Seq::<Stamp>::empty(),
            r.wf(),
    {
        Timeline { stamps: Vec::new() }
    }

    /// Where the stamp of `who` stands, if there is one.
    fn find(&self, who: Principal) -> (r: Option<usize>)
        requires
            self.wf(),
        ensures
            r is Some == stamped(self@, who),
            r matches Some(i) ==> i < self@.len() && i == stamp_slot(self@, who),
    {
        let mut i: usize = 0;
        while i < self.stamps.len()
            invariant
                self.wf(),
                i <= self.stamps.len(),
                forall|k: int| 0 <= k < i ==> (#[trigger] self@[k]).who != who,
            decreases self.stamps.len() - i,
        {
            if self.stamps[i].who == who {
                proof {
                    lemma_stamp_slot(self@, i as int);
                }
                return Some(i);
            }
            i += 1;
        }
        None
    }

    /// The time of the latest contribution of `who`, if there was one.
    pub fn last_seen(&self, who: Principal) -> (r: Option<u64>)
        requires
            self.wf(),
        ensures
            r == last_seen(self@, who),
    {
        match self.find(who) {
            Some(i) => Some(self.stamps[i].at),
            None => None,
        }
    }

    /// Records that `who` contributed at time `at`.
    pub fn touch(&mut self, who: Principal, at: u64)
        requires
            old(self).wf(),
        ensures
            final(self)@ == touch(old(self)@, who, at),
            final(self).wf(),
    {
        proof {
            lemma_touch(self@, who, at);
        }
        match self.find(who) {
            Some(i) => {
                self.stamps.set(i, Stamp { who, at });
            },
            None => {
                self.stamps.push(Stamp { who, at });
            },
        }
    }

    /// Whether `stamps` form a timeline: no principal twice.
    pub fn well_formed(stamps: &Vec<Stamp>) -> (r: bool)
        ensures
            r == one_stamp_each(stamps@),
    {
        let n: usize = stamps.len();
        let mut i: usize = 0;
        while i < n
            invariant
                i <= n,
                n == stamps.len(),
                forall|a: int, b: int|
                    0 <= a < b < i ==> (#[trigger] stamps@[a]).who != (#[trigger] stamps@[b]).who,
            decreases n - i,
        {
            let mut j: usize = 0;
            while j < i
                invariant
                    j <= i,
                    i < n,
                    n == stamps.len(),
                    forall|a: int| 0 <= a < j ==> (#[trigger] stamps@[a]).who != stamps@[i as int].who,
                decreases i - j,
            {
                if stamps[j].who == stamps[i].who {
                    return false;
                }
                j += 1;
            }
            i += 1;
        }
        true
    }
}

} // verus!
