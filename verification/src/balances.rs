//! Balance increments that a block hands out after its last transaction.

use crate::primitives::Address;
use vstd::prelude::*;

verus! {

/// The amount that each account is to receive, in wei. No account is listed twice.
#[derive(Debug)]
pub struct BalanceIncrements {
    entries: Vec<(Address, u128)>,
}

/// Whether no address occurs twice in `entries`.
pub open spec fn distinct_addresses(entries: Seq<(Address, u128)>) -> bool {
    forall|i: int, j: int|
        #![trigger entries[i], entries[j]]
        0 <= i < j < entries.len() ==> entries[i].0 != entries[j].0
}

/// The amounts that `entries` list, by address.
pub open spec fn amounts_of(entries: Seq<(Address, u128)>) -> Map<Address, u128>
    decreases entries.len(),
{
    if entries.len() == 0 {
        Map::empty()
    } else {
        amounts_of(entries.drop_last()).insert(entries.last().0, entries.last().1)
    }
}

/// The amount that `amounts` holds for `address`; zero where it holds none.
pub open spec fn amount_in(amounts: Map<Address, u128>, address: Address) -> nat {
    if amounts.contains_key(address) {
        amounts[address] as nat
    } else {
        0
    }
}

/// `amounts` with `amount` more for `address`.
pub open spec fn with_amount(amounts: Map<Address, u128>, address: Address, amount: nat) -> Map<
    Address,
    u128,
> {
    amounts.insert(address, (amount_in(amounts, address) + amount) as u128)
}

/// The sum of `amounts`.
pub open spec fn sum(amounts: Seq<u128>) -> nat
    decreases amounts.len(),
{
    if amounts.len() == 0 {
        0
    } else {
        sum(amounts.drop_last()) + amounts.last() as nat
    }
}

proof fn lemma_sum_prefix(amounts: Seq<u128>, n: int)
    requires
        0 <= n <= amounts.len(),
    ensures
        sum(amounts.take(n)) <= sum(amounts),
    decreases amounts.len() - n,
{
    if n < amounts.len() {
        lemma_sum_prefix(amounts, n + 1);
        assert(amounts.take(n + 1).drop_last() =~= amounts.take(n));
    } else {
        assert(amounts.take(n) =~= amounts);
    }
}

/// Adds up `amounts`; `None` where the sum does not fit.
pub fn total(amounts: &Vec<u128>) -> (result: Option<u128>)
    ensures
        match result {
            Some(result) => result == sum(amounts@),
            None => sum(amounts@) > u128::MAX,
        },
{
    let mut result: u128 = 0;
    let mut i: usize = 0;
    assert(amounts@.take(0) =~= seq![]);
    while i < amounts.len()
        invariant
            i <= amounts.len(),
            result == sum(amounts@.take(i as int)),
        decreases amounts.len() - i,
    {
        proof {
            lemma_sum_prefix(amounts@, i + 1);
            assert(amounts@.take(i + 1).drop_last() =~= amounts@.take(i as int));
        }
        result = match result.checked_add(amounts[i]) {
            Some(more) => more,
            None => {
                return None;
            },
        };
        i = i + 1;
    }
    assert(amounts@.take(i as int) =~= amounts@);
    Some(result)
}

/// An address is a key of the amounts exactly where an entry lists it, and holds what the entry
/// says.
pub proof fn lemma_amounts(entries: Seq<(Address, u128)>)
    requires
        distinct_addresses(entries),
    ensures
        forall|i: int|
            0 <= i < entries.len() ==> amounts_of(entries).contains_key(#[trigger] entries[i].0)
                && amounts_of(entries)[entries[i].0] == entries[i].1,
        forall|a: Address| #[trigger]
            amounts_of(entries).contains_key(a) ==> exists|i: int|
                0 <= i < entries.len() && #[trigger] entries[i].0 == a,
    decreases entries.len(),
{
    if entries.len() > 0 {
        let rest = entries.drop_last();
        lemma_amounts(rest);
        assert forall|i: int| 0 <= i < entries.len() implies amounts_of(entries).contains_key(
            #[trigger] entries[i].0,
        ) && amounts_of(entries)[entries[i].0] == entries[i].1 by {
            if i < rest.len() {
                assert(rest[i] == entries[i]);
                assert(entries[i].0 != entries[entries.len() - 1].0);
            }
        }
        assert forall|a: Address| #[trigger] amounts_of(entries).contains_key(a) implies exists|
            i: int,
        | 0 <= i < entries.len() && #[trigger] entries[i].0 == a by {
            if a == entries.last().0 {
                assert(entries[entries.len() - 1].0 == a);
            } else {
                assert(amounts_of(rest).contains_key(a));
                let i = choose|i: int| 0 <= i < rest.len() && #[trigger] rest[i].0 == a;
                assert(entries[i] == rest[i]);
                assert(entries[i].0 == a);
            }
        }
    }
}

/// Replacing the amount of one entry replaces it in the amounts.
proof fn lemma_amounts_update(entries: Seq<(Address, u128)>, at: int, amount: u128)
    requires
        distinct_addresses(entries),
        0 <= at < entries.len(),
    ensures
        distinct_addresses(entries.update(at, (entries[at].0, amount))),
        amounts_of(entries.update(at, (entries[at].0, amount))) == amounts_of(entries).insert(
            entries[at].0,
            amount,
        ),
    decreases entries.len(),
{
    let updated = entries.update(at, (entries[at].0, amount));
    let rest = entries.drop_last();
    if at == entries.len() - 1 {
        assert(updated.drop_last() =~= rest);
        assert(amounts_of(updated) =~= amounts_of(entries).insert(entries[at].0, amount));
    } else {
        assert(distinct_addresses(rest));
        lemma_amounts_update(rest, at, amount);
        assert(rest[at] == entries[at]);
        assert(updated.drop_last() =~= rest.update(at, (rest[at].0, amount)));
        assert(updated.last() == entries.last());
        assert(entries[at].0 != entries[entries.len() - 1].0);
        assert(amounts_of(updated) =~= amounts_of(entries).insert(entries[at].0, amount));
    }
}

impl View for BalanceIncrements {
    type V = Map<Address, u128>;

    closed spec fn view(&self) -> Map<Address, u128> {
        amounts_of(self.entries@)
    }
}

impl BalanceIncrements {
    #[verifier::type_invariant]
    spec fn no_address_twice(self) -> bool {
        distinct_addresses(self.entries@)
    }

    /// No increments.
    pub fn new() -> (increments: BalanceIncrements)
        ensures
            increments@ == Map::<Address, u128>::empty(),
    {
        BalanceIncrements { entries: Vec::new() }
    }

    /// The entries, in the order in which their addresses were added.
    pub fn entries(&self) -> (entries: &Vec<(Address, u128)>)
        ensures
            distinct_addresses(entries@),
            amounts_of(entries@) == self@,
    {
        proof {
            use_type_invariant(self);
        }
        &self.entries
    }

    /// The amount for `address`; zero where there is none.
    pub fn amount(&self, address: Address) -> (amount: u128)
        ensures
            amount == amount_in(self@, address),
    {
        proof {
            use_type_invariant(self);
            lemma_amounts(self.entries@);
        }
        let mut i: usize = 0;
        while i < self.entries.len()
            invariant
                i <= self.entries.len(),
                forall|j: int| 0 <= j < i ==> (#[trigger] self.entries@[j]).0 != address,
                forall|j: int|
                    0 <= j < self.entries@.len() ==> amounts_of(self.entries@).contains_key(
                        #[trigger] self.entries@[j].0,
                    ) && amounts_of(self.entries@)[self.entries@[j].0] == self.entries@[j].1,
            decreases self.entries.len() - i,
        {
            if self.entries[i].0 == address {
                assert(self.entries@[i as int].0 == address);
                return self.entries[i].1;
            }
            i = i + 1;
        }
        0
    }

    /// The increments with `amount` more for `address`.
    pub fn increased(self, address: Address, amount: u128) -> (increments: BalanceIncrements)
        requires
            amount_in(self@, address) + amount <= u128::MAX,
        ensures
            increments@ == with_amount(self@, address, amount as nat),
    {
        proof {
            use_type_invariant(&self);
            lemma_amounts(self.entries@);
        }
        let ghost before = self.entries@;
        let mut entries = self.entries;
        let mut i: usize = 0;
        while i < entries.len()
            invariant
                i <= entries.len(),
                entries@ == before,
                amounts_of(before) == self@,
                distinct_addresses(before),
                amount_in(amounts_of(before), address) + amount <= u128::MAX,
                forall|j: int| 0 <= j < i ==> (#[trigger] before[j]).0 != address,
                forall|j: int|
                    0 <= j < before.len() ==> amounts_of(before).contains_key(
                        #[trigger] before[j].0,
                    ) && amounts_of(before)[before[j].0] == before[j].1,
            decreases entries.len() - i,
        {
            if entries[i].0 == address {
                assert(before[i as int].0 == address);
                let increased = entries[i].1 + amount;
                entries.set(i, (address, increased));
                proof {
                    lemma_amounts_update(before, i as int, increased);
                }
                return BalanceIncrements { entries };
            }
            i = i + 1;
        }
        entries.push((address, amount));
        assert(entries@.drop_last() =~= before);
        BalanceIncrements { entries }
    }
}

impl Clone for BalanceIncrements {
    fn clone(&self) -> (copy: BalanceIncrements)
        ensures
            copy@ == self@,
    {
        proof {
            use_type_invariant(self);
        }
        let mut entries: Vec<(Address, u128)> = Vec::new();
        let mut i: usize = 0;
        while i < self.entries.len()
            invariant
                i <= self.entries.len(),
                entries@ == self.entries@.take(i as int),
            decreases self.entries.len() - i,
        {
            entries.push(self.entries[i]);
            i = i + 1;
        }
        assert(entries@ =~= self.entries@);
        BalanceIncrements { entries }
    }
}

} // verus!
