//! Per-principal balances.
//!
//! A ledger is an insertion-ordered list of holdings in which no principal
//! occurs twice. It serves both as the balance of each principal and as the
//! append-only, deduplicated list of the principals themselves.

use vstd::prelude::*;
use crate::principal::Principal;

verus! {

/// The balance recorded for one principal, as a mathematical value.
pub struct Holding {
    pub who: Principal,
    pub amount: int,
}

/// Whether `who` has an entry in `l`.
pub open spec fn holds(l: Seq<Holding>, who: Principal) -> bool {
    exists|i: int| 0 <= i < l.len() && #[trigger] l[i].who == who
}

/// The position of an entry of `who` in `l`, where there is one.
pub open spec fn slot(l: Seq<Holding>, who: Principal) -> int {
    choose|i: int| 0 <= i < l.len() && #[trigger] l[i].who == who
}

/// The balance of `who`: the amount of its entry, and zero without one.
pub open spec fn amount_of(l: Seq<Holding>, who: Principal) -> int {
    if holds(l, who) {
        l[slot(l, who)].amount
    } else {
        0
    }
}

/// The sum of all balances.
pub open spec fn total(l: Seq<Holding>) -> int
    decreases l.len(),
{
    if l.len() == 0 {
        0
    } else {
        total(l.drop_last()) + l.last().amount
    }
}

/// The largest balance, and zero for an empty ledger.
pub open spec fn largest(l: Seq<Holding>) -> int
    decreases l.len(),
{
    if l.len() == 0 {
        0
    } else if l.last().amount > largest(l.drop_last()) {
        l.last().amount
    } else {
        largest(l.drop_last())
    }
}

/// No principal occurs twice.
pub open spec fn distinct(l: Seq<Holding>) -> bool {
    forall|i: int, j: int| 0 <= i < j < l.len() ==> (#[trigger] l[i]).who != (#[trigger] l[j]).who
}

/// No balance is negative.
pub open spec fn non_negative(l: Seq<Holding>) -> bool {
    forall|i: int| 0 <= i < l.len() ==> (#[trigger] l[i]).amount >= 0
}

/// What every ledger satisfies.
pub open spec fn ledger_ok(l: Seq<Holding>) -> bool {
    distinct(l) && non_negative(l)
}

/// `l` after `amount` was added to the balance of `who`. A principal seen
/// for the first time is appended; the others keep their places.
pub open spec fn credit(l: Seq<Holding>, who: Principal, amount: int) -> Seq<Holding> {
    if holds(l, who) {
        l.update(slot(l, who), Holding { who, amount: l[slot(l, who)].amount + amount })
    } else {
        l.push(Holding { who, amount })
    }
}

/// `l` after the balance of `who` was set to zero. The entry stays.
pub open spec fn settle(l: Seq<Holding>, who: Principal) -> Seq<Holding> {
    if holds(l, who) {
        l.update(slot(l, who), Holding { who, amount: 0 })
    } else {
        l
    }
}

/// `l` after every balance was set to zero. The entries stay.
pub open spec fn cleared(l: Seq<Holding>) -> Seq<Holding> {
    Seq::new(l.len(), |i: int| Holding { who: l[i].who, amount: 0 })
}

/// In a ledger without repetition an entry of `who` is *the* entry of `who`.
pub proof fn lemma_slot(l: Seq<Holding>, i: int)
    requires
        distinct(l),
        0 <= i < l.len(),
    ensures
        holds(l, l[i].who),
        slot(l, l[i].who) == i,
        amount_of(l, l[i].who) == l[i].amount,
{
}

/// Replacing one balance moves the total by the difference.
pub proof fn lemma_total_update(l: Seq<Holding>, i: int, h: Holding)
    requires
        0 <= i < l.len(),
    ensures
        total(l.update(i, h)) == total(l) - l[i].amount + h.amount,
    decreases l.len(),
{
    let u = l.update(i, h);
    if i == l.len() - 1 {
        assert(u.drop_last() =~= l.drop_last());
    } else {
        assert(u.drop_last() =~= l.drop_last().update(i, h));
        lemma_total_update(l.drop_last(), i, h);
    }
}

/// Appending one balance adds it to the total.
pub proof fn lemma_total_push(l: Seq<Holding>, h: Holding)
    ensures
        total(l.push(h)) == total(l) + h.amount,
{
    assert(l.push(h).drop_last() =~= l);
}

/// Without negative balances, none exceeds the total or the largest, and the
/// largest does not exceed the total.
pub proof fn lemma_bounds(l: Seq<Holding>, i: int)
    requires
        non_negative(l),
        0 <= i < l.len(),
    ensures
        0 <= l[i].amount <= largest(l) <= total(l),
    decreases l.len(),
{
    lemma_total_non_negative(l.drop_last());
    if i < l.len() - 1 {
        lemma_bounds(l.drop_last(), i);
    } else if l.len() > 1 {
        lemma_bounds(l.drop_last(), 0);
    }
}

/// Without negative balances, the total and the largest are not negative,
/// and the largest does not exceed the total.
pub proof fn lemma_total_non_negative(l: Seq<Holding>)
    requires
        non_negative(l),
    ensures
        0 <= largest(l) <= total(l),
    decreases l.len(),
{
    if l.len() > 0 {
        lemma_total_non_negative(l.drop_last());
    }
}

/// Without negative balances, the first balances sum to no more than all.
pub proof fn lemma_prefix_total(l: Seq<Holding>, n: int)
    requires
        non_negative(l),
        0 <= n <= l.len(),
    ensures
        0 <= total(l.take(n)) <= total(l),
    decreases l.len(),
{
    if n == l.len() {
        assert(l.take(n) =~= l);
        lemma_total_non_negative(l);
    } else {
        assert(l.take(n) =~= l.drop_last().take(n));
        lemma_prefix_total(l.drop_last(), n);
    }
}

/// A balance lies between zero and the total.
pub proof fn lemma_amount_bounds(l: Seq<Holding>, who: Principal)
    requires
        non_negative(l),
    ensures
        0 <= amount_of(l, who) <= total(l),
{
    lemma_total_non_negative(l);
    if holds(l, who) {
        lemma_bounds(l, slot(l, who));
    }
}

/// What `credit` does to the ledger: it stays well-formed, the total grows
/// by the amount, the balance of `who` grows by the amount, and every other
/// balance stays.
pub proof fn lemma_credit(l: Seq<Holding>, who: Principal, amount: int)
    requires
        ledger_ok(l),
        amount >= 0,
    ensures
        ledger_ok(credit(l, who, amount)),
        total(credit(l, who, amount)) == total(l) + amount,
        amount_of(credit(l, who, amount), who) == amount_of(l, who) + amount,
        holds(credit(l, who, amount), who),
        forall|other: Principal|
            other != who ==> amount_of(credit(l, who, amount), other) == amount_of(l, other)
                && holds(credit(l, who, amount), other) == holds(l, other),
{
    let c = credit(l, who, amount);
    if holds(l, who) {
        let i = slot(l, who);
        lemma_total_update(l, i, Holding { who, amount: l[i].amount + amount });
        lemma_slot(c, i);
    } else {
        lemma_total_push(l, Holding { who, amount });
        let n = l.len() as int;
        lemma_slot(c, n);
    }
    assert forall|other: Principal| other != who implies amount_of(c, other) == amount_of(
        l,
        other,
    ) && holds(c, other) == holds(l, other) by {
        lemma_same_elsewhere(l, c, who, other);
    }
}

/// What `settle` does to the ledger: it stays well-formed, the total falls
/// by the balance of `who`, that balance becomes zero, and every other
/// balance stays.
pub proof fn lemma_settle(l: Seq<Holding>, who: Principal)
    requires
        ledger_ok(l),
    ensures
        ledger_ok(settle(l, who)),
        total(settle(l, who)) == total(l) - amount_of(l, who),
        amount_of(settle(l, who), who) == 0,
        settle(l, who).len() == l.len(),
        forall|other: Principal|
            other != who ==> amount_of(settle(l, who), other) == amount_of(l, other)
                && holds(settle(l, who), other) == holds(l, other),
{
    let c = settle(l, who);
    if holds(l, who) {
        let i = slot(l, who);
        lemma_total_update(l, i, Holding { who, amount: 0 });
        lemma_slot(c, i);
    }
    assert forall|other: Principal| other != who implies amount_of(c, other) == amount_of(
        l,
        other,
    ) && holds(c, other) == holds(l, other) by {
        lemma_same_elsewhere(l, c, who, other);
    }
}

/// Two ledgers that differ only in the entry of `who` agree on `other`.
proof fn lemma_same_elsewhere(l: Seq<Holding>, c: Seq<Holding>, who: Principal, other: Principal)
    requires
        distinct(l),
        distinct(c),
        other != who,
        l.len() <= c.len(),
        forall|k: int| 0 <= k < l.len() ==> (#[trigger] c[k]).who == l[k].who,
        forall|k: int| 0 <= k < l.len() && l[k].who != who ==> #[trigger] c[k] == l[k],
        forall|k: int| l.len() <= k < c.len() ==> (#[trigger] c[k]).who == who,
    ensures
        holds(c, other) == holds(l, other),
        amount_of(c, other) == amount_of(l, other),
{
    if holds(l, other) {
        let k = slot(l, other);
        lemma_slot(c, k);
        lemma_slot(l, k);
    }
    if holds(c, other) {
        let k = slot(c, other);
        lemma_slot(l, k);
        lemma_slot(c, k);
    }
}

/// A cleared ledger is well-formed, keeps its principals and sums to zero.
pub proof fn lemma_cleared(l: Seq<Holding>)
    requires
        distinct(l),
    ensures
        ledger_ok(cleared(l)),
        total(cleared(l)) == 0,
        largest(cleared(l)) == 0,
        cleared(l).len() == l.len(),
        forall|who: Principal| amount_of(cleared(l), who) == 0,
        forall|who: Principal| holds(cleared(l), who) == holds(l, who),
    decreases l.len(),
{
    let c = cleared(l);
    if l.len() > 0 {
        assert(c.drop_last() =~= cleared(l.drop_last()));
        lemma_cleared(l.drop_last());
    }
    assert forall|who: Principal| holds(c, who) == holds(l, who) by {
        if holds(l, who) {
            assert(c[slot(l, who)].who == who);
        }
    }
}

/// One stored balance.
#[derive(Clone, Copy, Debug, PartialEq, Eq, Structural)]
pub struct Entry {
    pub who: Principal,
    pub amount: i128,
}

impl Entry {
    /// The entry as a mathematical value.
    pub open spec fn holding(self) -> Holding {
        Holding { who: self.who, amount: self.amount as int }
    }
}

/// The entries as mathematical values, in the same order.
pub open spec fn holdings(entries: Seq<Entry>) -> Seq<Holding> {
    Seq::new(entries.len(), |i: int| entries[i].holding())
}

/// An insertion-ordered list of balances without repetition.
pub struct Ledger {
    pub entries: Vec<Entry>,
}

impl View for Ledger {
    type V = Seq<Holding>;

    open spec fn view(&self) -> Seq<Holding> {
        holdings(self.entries@)
    }
}

impl Ledger {
    /// No principal occurs twice and no balance is negative.
    pub open spec fn wf(&self) -> bool {
        ledger_ok(self@)
    }

    /// The empty ledger.
    pub fn new() -> (r: Ledger)
        ensures
            r@ == Seq::<Holding>::empty(),
            r.wf(),
    {
        Ledger { entries: Vec::new() }
    }

    /// The number of principals on record.
    pub fn len(&self) -> (r: usize)
        ensures
            r == self@.len(),
    {
        self.entries.len()
    }

    /// The entry at position `i`.
    pub fn entry(&self, i: usize) -> (r: Entry)
        requires
            i < self@.len(),
        ensures
            r.holding() == self@[i as int],
            r == self.entries@[i as int],
    {
        self.entries[i]
    }

    /// Where the entry of `who` stands, if there is one.
    pub fn find(&self, who: Principal) -> (r: Option<usize>)
        ensures
            r is Some == holds(self@, who),
            r matches Some(i) ==> i < self@.len() && self@[i as int].who == who,
            self.wf() && r is Some ==> r->0 == slot(self@, who),
    {
        let mut i: usize = 0;
        while i < self.entries.len()
            invariant
                i <= self.entries.len(),
                forall|k: int| 0 <= k < i ==> (#[trigger] self@[k]).who != who,
            decreases self.entries.len() - i,
        {
            if self.entries[i].who == who {
                proof {
                    if self.wf() {
                        lemma_slot(self@, i as int);
                    }
                }
                return Some(i);
            }
            i += 1;
        }
        None
    }

    /// The balance of `who`.
    pub fn amount_of(&self, who: Principal) -> (r: i128)
        requires
            self.wf(),
        ensures
            r == amount_of(self@, who),
    {
        match self.find(who) {
            Some(i) => self.entries[i].amount,
            None => 0,
        }
    }

    /// Adds `amount` to the balance of `who`.
    pub fn credit(&mut self, who: Principal, amount: i128)
        requires
            old(self).wf(),
            amount >= 0,
            amount_of(old(self)@, who) + amount <= i128::MAX,
        ensures
            final(self)@ == credit(old(self)@, who, amount as int),
            final(self).wf(),
    {
        proof {
            lemma_credit(self@, who, amount as int);
        }
        match self.find(who) {
            Some(i) => {
                let sum: i128 = self.entries[i].amount + amount;
                self.entries.set(i, Entry { who, amount: sum });
            },
            None => {
                self.entries.push(Entry { who, amount });
            },
        }
    }

    /// Sets the balance of `who` to zero and returns what it was.
    pub fn settle(&mut self, who: Principal) -> (r: i128)
        requires
            old(self).wf(),
        ensures
            r == amount_of(old(self)@, who),
            final(self)@ == settle(old(self)@, who),
            final(self).wf(),
    {
        proof {
            lemma_settle(self@, who);
        }
        match self.find(who) {
            Some(i) => {
                let was: i128 = self.entries[i].amount;
                self.entries.set(i, Entry { who, amount: 0 });
                was
            },
            None => 0,
        }
    }

    /// Sets every balance to zero.
    pub fn clear(&mut self)
        requires
            old(self).wf(),
        ensures
            final(self)@ == cleared(old(self)@),
            final(self).wf(),
    {
        proof {
            lemma_cleared(self@);
        }
        let n: usize = self.entries.len();
        let mut i: usize = 0;
        while i < n
            invariant
                i <= n,
                n == self.entries.len(),
                n == old(self).entries.len(),
                forall|k: int| 0 <= k < i ==> #[trigger] self.entries@[k] == (Entry {
                    who: old(self).entries@[k].who,
                    amount: 0,
                }),
                forall|k: int| i <= k < n ==> #[trigger] self.entries@[k] == old(self).entries@[k],
            decreases n - i,
        {
            let who = self.entries[i].who;
            self.entries.set(i, Entry { who, amount: 0 });
            i += 1;
        }
    }

    /// The largest balance on record, and zero for an empty ledger.
    pub fn largest(&self) -> (r: i128)
        requires
            self.wf(),
        ensures
            r == largest(self@),
    {
        let mut best: i128 = 0;
        let mut i: usize = 0;
        while i < self.entries.len()
            invariant
                i <= self.entries.len(),
                best == largest(self@.take(i as int)),
            decreases self.entries.len() - i,
        {
            assert(self@.take(i + 1).drop_last() =~= self@.take(i as int));
            if self.entries[i].amount > best {
                best = self.entries[i].amount;
            }
            i += 1;
        }
        assert(self@.take(i as int) =~= self@);
        best
    }

    /// The sum of all balances, unless it leaves the 128-bit range.
    pub fn total(&self) -> (r: Option<i128>)
        requires
            self.wf(),
        ensures
            match r {
                Some(sum) => sum == total(self@),
                None => total(self@) > i128::MAX,
            },
    {
        let mut sum: i128 = 0;
        let mut i: usize = 0;
        while i < self.entries.len()
            invariant
                self.wf(),
                i <= self.entries.len(),
                0 <= sum == total(self@.take(i as int)),
            decreases self.entries.len() - i,
        {
            assert(self@.take(i + 1).drop_last() =~= self@.take(i as int));
            proof {
                lemma_prefix_total(self@, i + 1);
            }
            let amount: i128 = self.entries[i].amount;
            if amount > i128::MAX - sum {
                return None;
            }
            sum = sum + amount;
            i += 1;
        }
        assert(self@.take(i as int) =~= self@);
        Some(sum)
    }

    /// Whether `entries` form a ledger: no principal twice, no negative
    /// balance.
    pub fn well_formed(entries: &Vec<Entry>) -> (r: bool)
        ensures
            r == ledger_ok(holdings(entries@)),
    {
        let ghost l = holdings(entries@);
        let n: usize = entries.len();
        let mut i: usize = 0;
        while i < n
            invariant
                i <= n,
                n == entries.len(),
                l == holdings(entries@),
                forall|a: int, b: int| 0 <= a < b < i ==> (#[trigger] l[a]).who != (#[trigger] l[b]).who,
                forall|a: int| 0 <= a < i ==> (#[trigger] l[a]).amount >= 0,
            decreases n - i,
        {
            if entries[i].amount < 0 {
                return false;
            }
            let mut j: usize = 0;
            while j < i
                invariant
                    j <= i,
                    i < n,
                    n == entries.len(),
                    l == holdings(entries@),
                    forall|a: int| 0 <= a < j ==> (#[trigger] l[a]).who != l[i as int].who,
                decreases i - j,
            {
                if entries[j].who == entries[i].who {
                    assert(l[j as int].who == l[i as int].who);
                    return false;
                }
                j += 1;
            }
            i += 1;
        }
        true
    }
}

} // verus!
