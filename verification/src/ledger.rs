//! The donation ledger: who has contributed, and how much in all.
//!
//! Mathematically a ledger is a finite map from account identifiers to
//! positive amounts. An account without a contribution has no entry; none is
//! kept at zero.

use vstd::prelude::*;
use crate::account::AccountId;
use crate::account::lemma_precedes_asymmetric;
use crate::account::lemma_precedes_irreflexive;
use crate::account::precedes;
use crate::host::host_map_entries;
use crate::host::host_map_get;
use crate::host::host_map_keys;
use crate::host::host_map_new;
use crate::host::host_map_remove;
use crate::host::host_map_set;

verus! {

/// The sum of all amounts in a finite map.
pub open spec fn sum_of(m: Map<Seq<u8>, int>) -> int
    decreases m.dom().len(),
    when m.dom().finite()
{
    if m.dom().is_empty() {
        0
    } else {
        let k = m.dom().choose();
        m[k] + sum_of(m.remove(k))
    }
}

/// What the map records for an account: its amount, or zero without an entry.
pub open spec fn recorded(m: Map<Seq<u8>, int>, who: Seq<u8>) -> int {
    if m.contains_key(who) {
        m[who]
    } else {
        0
    }
}

/// Every amount in the map is positive.
pub open spec fn all_positive(m: Map<Seq<u8>, int>) -> bool {
    forall|k: Seq<u8>| m.contains_key(k) ==> 0 < #[trigger] m[k]
}

/// The sum of the empty map is zero.
pub proof fn lemma_sum_empty()
    ensures
        sum_of(Map::<Seq<u8>, int>::empty()) == 0,
{
}

/// Any one entry can be split off the sum.
pub proof fn lemma_sum_remove(m: Map<Seq<u8>, int>, who: Seq<u8>)
    requires
        m.dom().finite(),
        m.contains_key(who),
    ensures
        sum_of(m) == m[who] + sum_of(m.remove(who)),
    decreases m.dom().len(),
{
    let k = m.dom().choose();
    if k != who {
        let rest = m.remove(k);
        lemma_sum_remove(rest, who);
        let other = m.remove(who);
        lemma_sum_remove(other, k);
        assert(rest.remove(who) =~= other.remove(k));
    }
}

/// Filing an amount under an account replaces what the account had.
pub proof fn lemma_sum_insert(m: Map<Seq<u8>, int>, who: Seq<u8>, amount: int)
    requires
        m.dom().finite(),
    ensures
        sum_of(m.insert(who, amount)) == sum_of(m) - recorded(m, who) + amount,
{
    let after = m.insert(who, amount);
    lemma_sum_remove(after, who);
    assert(after.remove(who) =~= m.remove(who));
    if m.contains_key(who) {
        lemma_sum_remove(m, who);
    } else {
        assert(m.remove(who) =~= m);
    }
}

/// Dropping an account takes its amount off the sum.
pub proof fn lemma_sum_drop(m: Map<Seq<u8>, int>, who: Seq<u8>)
    requires
        m.dom().finite(),
    ensures
        sum_of(m.remove(who)) == sum_of(m) - recorded(m, who),
{
    if m.contains_key(who) {
        lemma_sum_remove(m, who);
    } else {
        assert(m.remove(who) =~= m);
    }
}

/// Where no amount is negative, no single amount exceeds the sum.
pub proof fn lemma_sum_bounds(m: Map<Seq<u8>, int>, who: Seq<u8>)
    requires
        m.dom().finite(),
        forall|k: Seq<u8>| m.contains_key(k) ==> 0 <= #[trigger] m[k],
    ensures
        0 <= recorded(m, who) <= sum_of(m),
    decreases m.dom().len(),
{
    if !m.dom().is_empty() {
        let k = m.dom().choose();
        lemma_sum_bounds(m.remove(k), who);
    }
}

/// The map that a list of entries spells out, a later entry replacing an
/// earlier one for the same account.
pub open spec fn entries_map(entries: Seq<(AccountId, i128)>) -> Map<Seq<u8>, int>
    decreases entries.len(),
{
    if entries.len() == 0 {
        Map::empty()
    } else {
        entries_map(entries.drop_last()).insert(entries.last().0@, entries.last().1 as int)
    }
}

/// A list of entries from which a ledger can be made: every amount is
/// positive and no account occurs twice.
pub open spec fn entries_valid(entries: Seq<(AccountId, i128)>) -> bool {
    &&& forall|i: int| 0 <= i < entries.len() ==> (#[trigger] entries[i]).1 > 0
    &&& forall|i: int, j: int|
        0 <= i < j < entries.len() ==> (#[trigger] entries[i]).0@ != (#[trigger] entries[j]).0@
}

/// The list shows the map: each entry of the map once, with its amount, the
/// accounts in ascending dictionary order.
pub open spec fn is_listing(m: Map<Seq<u8>, int>, entries: Seq<(AccountId, i128)>) -> bool {
    &&& forall|i: int|
        0 <= i < entries.len() ==> m.contains_key((#[trigger] entries[i]).0@) && m[entries[i].0@]
            == entries[i].1
    &&& forall|k: Seq<u8>| #[trigger]
        m.contains_key(k) ==> exists|i: int| 0 <= i < entries.len() && (#[trigger] entries[i]).0@ == k
    &&& forall|i: int, j: int|
        0 <= i < j < entries.len() ==> precedes(
            (#[trigger] entries[i]).0@,
            (#[trigger] entries[j]).0@,
        )
}

/// The map that a list spells out is finite, and it has an entry for exactly
/// the accounts that the list names.
pub proof fn lemma_entries_map_dom(entries: Seq<(AccountId, i128)>)
    ensures
        entries_map(entries).dom().finite(),
        forall|k: Seq<u8>| #[trigger]
            entries_map(entries).contains_key(k) <==> exists|i: int|
                0 <= i < entries.len() && (#[trigger] entries[i]).0@ == k,
    decreases entries.len(),
{
    if entries.len() > 0 {
        let front = entries.drop_last();
        lemma_entries_map_dom(front);
        assert forall|k: Seq<u8>| #[trigger]
            entries_map(entries).contains_key(k) implies exists|i: int|
            0 <= i < entries.len() && (#[trigger] entries[i]).0@ == k by {
            if k == entries.last().0@ {
                assert(entries[entries.len() - 1].0@ == k);
            } else {
                assert(entries_map(front).contains_key(k));
                let i = choose|i: int| 0 <= i < front.len() && (#[trigger] front[i]).0@ == k;
                assert(entries[i].0@ == k);
            }
        }
        assert forall|k: Seq<u8>|
            (exists|i: int|
                0 <= i < entries.len() && (#[trigger] entries[i]).0@ == k) implies #[trigger]
            entries_map(entries).contains_key(k) by {
            let i = choose|i: int| 0 <= i < entries.len() && (#[trigger] entries[i]).0@ == k;
            if i < entries.len() - 1 {
                assert(front[i].0@ == k);
            }
        }
    }
}

/// Two lists that show the same map agree up to any position that both have.
proof fn lemma_listings_agree(
    m: Map<Seq<u8>, int>,
    a: Seq<(AccountId, i128)>,
    b: Seq<(AccountId, i128)>,
    n: int,
)
    requires
        is_listing(m, a),
        is_listing(m, b),
        0 <= n <= a.len(),
        n <= b.len(),
    ensures
        forall|i: int| 0 <= i < n ==> (#[trigger] a[i]).0@ == b[i].0@ && a[i].1 == b[i].1,
    decreases n,
{
    if n > 0 {
        lemma_listings_agree(m, a, b, n - 1);
        let i = n - 1;
        // The account at `i` of one list stands at or after `i` in the other.
        let k = choose|k: int| 0 <= k < b.len() && (#[trigger] b[k]).0@ == a[i].0@;
        let l = choose|l: int| 0 <= l < a.len() && (#[trigger] a[l]).0@ == b[i].0@;
        lemma_precedes_irreflexive(a[i].0@);
        lemma_precedes_irreflexive(b[i].0@);
        if k < i {
            assert(a[k].0@ == b[k].0@);
            assert(precedes(a[k].0@, a[i].0@));
        }
        if l < i {
            assert(a[l].0@ == b[l].0@);
            assert(precedes(b[l].0@, b[i].0@));
        }
        if k > i {
            assert(precedes(b[i].0@, b[k].0@));
            if l > i {
                assert(precedes(a[i].0@, a[l].0@));
                lemma_precedes_asymmetric(a[i].0@, a[l].0@);
            }
        }
        assert(a[i].0@ == b[i].0@);
    }
}

/// A map has one listing only: two lists that show the same map are equal,
/// entry by entry.
pub proof fn lemma_listing_unique(
    m: Map<Seq<u8>, int>,
    a: Seq<(AccountId, i128)>,
    b: Seq<(AccountId, i128)>,
)
    requires
        is_listing(m, a),
        is_listing(m, b),
    ensures
        a.len() == b.len(),
        forall|i: int| 0 <= i < a.len() ==> (#[trigger] a[i]).0@ == b[i].0@ && a[i].1 == b[i].1,
{
    if a.len() < b.len() {
        lemma_listings_agree(m, a, b, a.len() as int);
        let extra = b[a.len() as int];
        let l = choose|l: int| 0 <= l < a.len() && (#[trigger] a[l]).0@ == extra.0@;
        assert(a[l].0@ == b[l].0@);
        assert(precedes(b[l].0@, b[a.len() as int].0@));
        lemma_precedes_irreflexive(extra.0@);
    } else if b.len() < a.len() {
        lemma_listings_agree(m, b, a, b.len() as int);
        let extra = a[b.len() as int];
        let l = choose|l: int| 0 <= l < b.len() && (#[trigger] b[l]).0@ == extra.0@;
        assert(b[l].0@ == a[l].0@);
        assert(precedes(a[l].0@, a[b.len() as int].0@));
        lemma_precedes_irreflexive(extra.0@);
    } else {
        lemma_listings_agree(m, a, b, a.len() as int);
    }
}

/// Whether two lists of entries are the same, entry by entry.
pub fn same_entries(a: &Vec<(AccountId, i128)>, b: &Vec<(AccountId, i128)>) -> (same: bool)
    ensures
        same == (a@.len() == b@.len() && forall|i: int|
            0 <= i < a@.len() ==> (#[trigger] a@[i]).0@ == b@[i].0@ && a@[i].1 == b@[i].1),
{
    if a.len() != b.len() {
        return false;
    }
    let mut i: usize = 0;
    while i < a.len()
        invariant
            i <= a.len(),
            a.len() == b.len(),
            forall|j: int| 0 <= j < i ==> (#[trigger] a@[j]).0@ == b@[j].0@ && a@[j].1 == b@[j].1,
        decreases a.len() - i,
    {
        if !a[i].0.same_as(&b[i].0) || a[i].1 != b[i].1 {
            return false;
        }
        i += 1;
    }
    true
}

/// The ledger of one campaign, kept in a map of the host.
pub struct DonationLedger {
    entries: soroban_sdk::Map<soroban_sdk::String, i128>,
}

impl View for DonationLedger {
    type V = Map<Seq<u8>, int>;

    closed spec fn view(&self) -> Map<Seq<u8>, int> {
        host_map_entries(self.entries).map_values(|v: i128| v as int)
    }
}

impl DonationLedger {
    /// The ledger is finite and holds positive amounts only.
    pub open spec fn wf(&self) -> bool {
        &&& self@.dom().finite()
        &&& all_positive(self@)
    }

    /// The sum of all recorded contributions.
    pub open spec fn total(&self) -> int {
        sum_of(self@)
    }

    /// A ledger without entries.
    pub fn new(env: &soroban_sdk::Env) -> (ledger: DonationLedger)
        ensures
            ledger.wf(),
            ledger@ == Map::<Seq<u8>, int>::empty(),
    {
        let ledger = DonationLedger { entries: host_map_new(env) };
        assert(ledger@ =~= Map::<Seq<u8>, int>::empty());
        ledger
    }

    /// What an account has contributed; zero for an account without an entry.
    pub fn get(&self, who: &AccountId) -> (amount: i128)
        ensures
            amount == recorded(self@, who@),
    {
        match host_map_get(&self.entries, who) {
            Some(amount) => amount,
            None => 0,
        }
    }

    /// Adds a positive amount to what the account has contributed.
    pub fn credit(&mut self, who: &AccountId, amount: i128)
        requires
            old(self).wf(),
            amount > 0,
            recorded(old(self)@, who@) + amount <= i128::MAX,
        ensures
            final(self).wf(),
            final(self)@ == old(self)@.insert(who@, recorded(old(self)@, who@) + amount),
    {
        let before = self.get(who);
        host_map_set(&mut self.entries, who, before + amount);
        assert(self@ =~= old(self)@.insert(who@, recorded(old(self)@, who@) + amount));
    }

    /// Takes the account out of the ledger and returns what it had contributed.
    pub fn remove(&mut self, who: &AccountId) -> (amount: i128)
        requires
            old(self).wf(),
        ensures
            final(self).wf(),
            final(self)@ == old(self)@.remove(who@),
            amount == recorded(old(self)@, who@),
    {
        let amount = self.get(who);
        let _ = host_map_remove(&mut self.entries, who);
        assert(self@ =~= old(self)@.remove(who@));
        amount
    }

    /// The sum of all recorded contributions, or `None` where it does not fit
    /// in 128 signed bits.
    pub fn checked_total(&self) -> (sum: Option<i128>)
        requires
            self.wf(),
        ensures
            sum.is_some() == (self.total() <= i128::MAX),
            sum matches Some(total) ==> total == self.total(),
    {
        let list = self.entries();
        let ghost mut rest = self@;
        let mut acc: i128 = 0;
        let mut i: usize = 0;
        proof {
            lemma_sum_bounds(rest, Seq::empty());
        }
        while i < list.len()
            invariant
                i <= list.len(),
                self.wf(),
                is_listing(self@, list@),
                rest.dom().finite(),
                forall|k: Seq<u8>| #[trigger]
                    rest.contains_key(k) ==> self@.contains_key(k) && rest[k] == self@[k],
                forall|j: int| i <= j < list@.len() ==> rest.contains_key((#[trigger] list@[j]).0@),
                forall|j: int| 0 <= j < i ==> !rest.contains_key((#[trigger] list@[j]).0@),
                0 <= acc,
                0 <= sum_of(rest),
                self.total() == acc + sum_of(rest),
            decreases list.len() - i,
        {
            let amount = list[i].1;
            let ghost key = list@[i as int].0@;
            proof {
                lemma_sum_remove(rest, key);
                lemma_sum_bounds(rest.remove(key), key);
                assert forall|j: int| i < j < list@.len() implies rest.remove(key).contains_key(
                    (#[trigger] list@[j]).0@,
                ) by {
                    assert(precedes(list@[i as int].0@, list@[j].0@));
                    lemma_precedes_irreflexive(key);
                }
                rest = rest.remove(key);
            }
            if amount > i128::MAX - acc {
                return None;
            }
            acc = acc + amount;
            i += 1;
        }
        proof {
            assert forall|k: Seq<u8>| !rest.contains_key(k) by {
                if rest.contains_key(k) {
                    let j = choose|j: int| 0 <= j < list@.len() && (#[trigger] list@[j]).0@ == k;
                    assert(!rest.contains_key(list@[j].0@));
                }
            }
            assert(rest =~= Map::<Seq<u8>, int>::empty());
        }
        Some(acc)
    }

    /// The ledger that a list of entries spells out, or `None` where an
    /// amount is not positive or an account occurs twice.
    pub fn from_entries(env: &soroban_sdk::Env, entries: &Vec<(AccountId, i128)>) -> (made: Option<
        DonationLedger,
    >)
        ensures
            made.is_some() == entries_valid(entries@),
            made matches Some(ledger) ==> ledger.wf() && ledger@ == entries_map(entries@),
    {
        let mut ledger = DonationLedger::new(env);
        let mut i: usize = 0;
        while i < entries.len()
            invariant
                i <= entries.len(),
                ledger.wf(),
                ledger@ == entries_map(entries@.take(i as int)),
                entries_valid(entries@.take(i as int)),
            decreases entries.len() - i,
        {
            let ghost front = entries@.take(i as int);
            let ghost next = entries@.take(i + 1);
            proof {
                lemma_entries_map_dom(front);
                assert(next.drop_last() == front);
                assert(next.last() == entries@[i as int]);
            }
            let amount = entries[i].1;
            if amount <= 0 {
                assert(!(entries@[i as int].1 > 0));
                return None;
            }
            if ledger.get(&entries[i].0) != 0 {
                proof {
                    let j = choose|j: int|
                        0 <= j < front.len() && (#[trigger] front[j]).0@ == entries@[i as int].0@;
                    assert(entries@[j].0@ == entries@[i as int].0@);
                }
                return None;
            }
            ledger.credit(&entries[i].0, amount);
            proof {
                assert forall|a: int, b: int| 0 <= a < b < next.len() implies (#[trigger] next[a]).0@
                    != (#[trigger] next[b]).0@ by {
                    if b == i {
                        if next[a].0@ == next[b].0@ {
                            assert(front[a].0@ == entries@[i as int].0@);
                            assert(ledger@.contains_key(entries@[i as int].0@));
                        }
                    } else {
                        assert(front[a].0@ != front[b].0@);
                    }
                }
                assert forall|a: int| 0 <= a < next.len() implies (#[trigger] next[a]).1 > 0 by {
                    if a < i {
                        assert(front[a].1 > 0);
                    }
                }
            }
            i += 1;
        }
        assert(entries@.take(entries@.len() as int) == entries@);
        Some(ledger)
    }

    /// All entries, the accounts in ascending dictionary order.
    pub fn entries(&self) -> (list: Vec<(AccountId, i128)>)
        ensures
            is_listing(self@, list@),
    {
        let keys = host_map_keys(&self.entries);
        let mut list: Vec<(AccountId, i128)> = Vec::new();
        let ghost all_keys = keys@;
        let mut i: usize = 0;
        while i < keys.len()
            invariant
                i <= keys.len(),
                list@.len() == i,
                all_keys == keys@,
                forall|j: int| 0 <= j < i ==> (#[trigger] list@[j]).0@ == keys@[j]@,
                forall|j: int| 0 <= j < i ==> (#[trigger] list@[j]).1 == recorded(self@, keys@[j]@),
            decreases keys.len() - i,
        {
            let key = keys[i].duplicate();
            let amount = self.get(&key);
            list.push((key, amount));
            i += 1;
        }
        proof {
            assert forall|k: Seq<u8>| #[trigger] self@.contains_key(k) implies exists|i: int|
                0 <= i < list@.len() && (#[trigger] list@[i]).0@ == k by {
                assert(host_map_entries(self.entries).contains_key(k));
                let i = choose|i: int| 0 <= i < all_keys.len() && #[trigger] all_keys[i]@ == k;
                assert(list@[i].0@ == k);
            }
            assert forall|i: int| 0 <= i < list@.len() implies self@.contains_key(
                (#[trigger] list@[i]).0@,
            ) && self@[list@[i].0@] == list@[i].1 by {
                assert(host_map_entries(self.entries).contains_key(all_keys[i]@));
            }
            assert forall|i: int, j: int| 0 <= i < j < list@.len() implies precedes(
                (#[trigger] list@[i]).0@,
                (#[trigger] list@[j]).0@,
            ) by {
                assert(precedes(all_keys[i]@, all_keys[j]@));
            }
        }
        list
    }
}

} // verus!
