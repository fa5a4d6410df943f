use vstd::prelude::*;
use crate::account::AccountId;
use vstd::pervasive::VecAdditionalExecFns;

verus! {

/// Number of ownership slots per (ticket, round) pair.
pub const SLOT_COUNT: usize = 8;

/// The all-empty slot sequence: eight empty-sentinel entries.
pub open spec fn empty_slots() -> Seq<AccountId> {
    Seq::new(SLOT_COUNT as nat, |i: int| AccountId::spec_empty())
}

/// Slots are filled left to right, so an occupied slot never stands to the
/// right of an empty one.
pub open spec fn packed(s: Seq<AccountId>) -> bool {
    forall|i: int, j: int|
        #![trigger s[i], s[j]]
        0 <= i < j < s.len() && s[i].spec_is_empty() ==> s[j].spec_is_empty()
}

/// A well-formed slot sequence: exactly eight slots, filled left to right.
pub open spec fn slots_wf(s: Seq<AccountId>) -> bool {
    s.len() == SLOT_COUNT && packed(s)
}

/// How many slots of the sequence are occupied.
pub open spec fn filled_count(s: Seq<AccountId>) -> nat
    decreases s.len(),
{
    if s.len() == 0 {
        0
    } else {
        filled_count(s.drop_last()) + (if s.last().spec_is_empty() {
            0nat
        } else {
            1nat
        })
    }
}

pub proof fn lemma_filled_count_le_len(s: Seq<AccountId>)
    ensures
        filled_count(s) <= s.len(),
    decreases s.len(),
{
    if s.len() > 0 {
        lemma_filled_count_le_len(s.drop_last());
    }
}

/// In a packed sequence the occupied slots are exactly the first
/// `filled_count` ones.
pub proof fn lemma_packed_filled(s: Seq<AccountId>)
    requires
        packed(s),
    ensures
        forall|i: int|
            0 <= i < s.len() ==> (!(#[trigger] s[i]).spec_is_empty() <==> i < filled_count(s)),
    decreases s.len(),
{
    lemma_filled_count_le_len(s);
    if s.len() > 0 {
        let prefix = s.drop_last();
        assert(forall|i: int| 0 <= i < prefix.len() ==> #[trigger] prefix[i] == s[i]);
        assert(packed(prefix));
        lemma_packed_filled(prefix);
        lemma_filled_count_le_len(prefix);
        if !s.last().spec_is_empty() {
            // every earlier slot is occupied too, so the prefix is full
            assert forall|i: int| 0 <= i < prefix.len() implies !(
            #[trigger] prefix[i]).spec_is_empty() by {
                assert(!s[i].spec_is_empty());
            }
            assert(filled_count(prefix) == prefix.len());
            assert forall|i: int| 0 <= i < s.len() implies (!(#[trigger] s[i]).spec_is_empty()
                <==> i < filled_count(s)) by {
                if i < s.len() - 1 {
                    assert(!prefix[i].spec_is_empty());
                }
            }
        } else {
            assert(filled_count(s) == filled_count(prefix));
            assert forall|i: int| 0 <= i < s.len() implies (!(#[trigger] s[i]).spec_is_empty()
                <==> i < filled_count(s)) by {
                if i < s.len() - 1 {
                    assert(s[i] == prefix[i]);
                } else {
                    assert(s[i].spec_is_empty());
                    assert(filled_count(s) <= s.len() - 1);
                }
            }
        }
    }
}

/// A sequence whose occupied slots are exactly the first `k` has `k` as its
/// filled count.
pub proof fn lemma_filled_count_eq(s: Seq<AccountId>, k: int)
    requires
        0 <= k <= s.len(),
        forall|i: int| 0 <= i < s.len() ==> (!(#[trigger] s[i]).spec_is_empty() <==> i < k),
    ensures
        filled_count(s) == k,
    decreases s.len(),
{
    if s.len() > 0 {
        let prefix = s.drop_last();
        if k == s.len() {
            lemma_filled_count_eq(prefix, k - 1);
        } else {
            lemma_filled_count_eq(prefix, k);
        }
    }
}

/// Builds the all-empty slot array.
pub fn new_empty_slots() -> (v: Vec<AccountId>)
    ensures
        v@ == empty_slots(),
        slots_wf(v@),
        filled_count(v@) == 0,
{
    let mut v: Vec<AccountId> = Vec::new();
    let mut i: usize = 0;
    while i < SLOT_COUNT
        invariant
            i <= SLOT_COUNT,
            v@.len() == i,
            forall|j: int| 0 <= j < i ==> (#[trigger] v@[j]).spec_is_empty(),
        decreases SLOT_COUNT - i,
    {
        v.push(AccountId::new(0));
        i = i + 1;
    }
    proof {
        assert(v@ =~= empty_slots());
        lemma_filled_count_eq(v@, 0);
    }
    v
}

/// Copies a slot array.
pub fn copy_slots(src: &Vec<AccountId>) -> (v: Vec<AccountId>)
    ensures
        v@ == src@,
{
    let mut v: Vec<AccountId> = Vec::new();
    let mut i: usize = 0;
    while i < src.len()
        invariant
            i <= src@.len(),
            v@ == src@.take(i as int),
        decreases src@.len() - i,
    {
        v.push(src[i]);
        proof {
            assert(v@ =~= src@.take(i as int + 1));
        }
        i = i + 1;
    }
    proof {
        assert(v@ =~= src@);
    }
    v
}

/// Counts the occupied slots, scanning all eight.
pub fn count_filled(v: &Vec<AccountId>) -> (n: u8)
    requires
        v@.len() == SLOT_COUNT,
    ensures
        n as nat == filled_count(v@),
        n <= 8,
{
    let mut n: u8 = 0;
    let mut i: usize = 0;
    while i < SLOT_COUNT
        invariant
            i <= SLOT_COUNT,
            v@.len() == SLOT_COUNT,
            n as nat == filled_count(v@.take(i as int)),
            n <= i,
        decreases SLOT_COUNT - i,
    {
        proof {
            assert(v@.take(i as int + 1).drop_last() =~= v@.take(i as int));
            assert(v@.take(i as int + 1).last() == v@[i as int]);
        }
        if !v[i].is_empty() {
            n = n + 1;
        }
        i = i + 1;
    }
    proof {
        assert(v@.take(SLOT_COUNT as int) =~= v@);
    }
    n
}

/// Places `who` into the first empty slot of a well-formed, not-full slot
/// array; the occupied prefix grows by exactly one.
pub fn fill_first_empty(v: Vec<AccountId>, who: AccountId) -> (r: Vec<AccountId>)
    requires
        slots_wf(v@),
        filled_count(v@) < 8,
        !who.spec_is_empty(),
    ensures
        r@ == v@.update(filled_count(v@) as int, who),
        slots_wf(r@),
        filled_count(r@) == filled_count(v@) + 1,
{
    proof {
        lemma_packed_filled(v@);
    }
    let n = count_filled(&v);
    let mut r = v;
    r.set(n as usize, who);
    proof {
        let k = filled_count(v@) as int;
        assert(forall|i: int| 0 <= i < r@.len() ==> (!(#[trigger] r@[i]).spec_is_empty() <==> i < k
            + 1));
        lemma_filled_count_eq(r@, k + 1);
    }
    r
}

} // verus!
