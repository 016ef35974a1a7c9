//! The set of addresses that signed a transaction.

use vstd::prelude::*;
use crate::address::Address;

verus! {

/// Whether no address occurs twice in the list.
pub open spec fn no_address_twice(addresses: Seq<Address>) -> bool {
    forall|i: int, j: int|
        0 <= i < j < addresses.len() ==> #[trigger] addresses[i] != #[trigger] addresses[j]
}

/// The addresses of the list in the order of their first occurrence, each
/// once.
pub open spec fn first_occurrences(addresses: Seq<Address>) -> Seq<Address>
    decreases addresses.len(),
{
    if addresses.len() == 0 {
        Seq::empty()
    } else if first_occurrences(addresses.drop_last()).contains(addresses.last()) {
        first_occurrences(addresses.drop_last())
    } else {
        first_occurrences(addresses.drop_last()).push(addresses.last())
    }
}

/// The first occurrences of a list hold every address of the list and no
/// other, and none of them twice; a list without repetitions is its own
/// first occurrences.
pub proof fn lemma_first_occurrences(addresses: Seq<Address>)
    ensures
        no_address_twice(first_occurrences(addresses)),
        forall|a: Address|
            #[trigger] first_occurrences(addresses).contains(a) <==> addresses.contains(a),
        no_address_twice(addresses) ==> first_occurrences(addresses) == addresses,
    decreases addresses.len(),
{
    if addresses.len() > 0 {
        let rest = addresses.drop_last();
        let last = addresses.last();
        let kept = first_occurrences(rest);
        let all = first_occurrences(addresses);
        lemma_first_occurrences(rest);
        assert forall|a: Address| #[trigger] all.contains(a) <==> addresses.contains(a) by {
            if addresses.contains(a) {
                let i = choose|i: int| 0 <= i < addresses.len() && addresses[i] == a;
                if i < rest.len() {
                    assert(rest[i] == a);
                    assert(kept.contains(a));
                    let k = choose|k: int| 0 <= k < kept.len() && kept[k] == a;
                    assert(all[k] == a);
                } else if kept.contains(last) {
                    let k = choose|k: int| 0 <= k < kept.len() && kept[k] == last;
                    assert(all[k] == a);
                } else {
                    assert(all[kept.len() as int] == a);
                }
            }
            if all.contains(a) {
                let k = choose|k: int| 0 <= k < all.len() && all[k] == a;
                if k < kept.len() {
                    assert(kept[k] == a);
                    assert(kept.contains(a));
                    assert(rest.contains(a));
                    let i = choose|i: int| 0 <= i < rest.len() && rest[i] == a;
                    assert(addresses[i] == a);
                } else {
                    assert(addresses[addresses.len() - 1] == a);
                }
            }
        }
        assert(no_address_twice(all)) by {
            assert forall|i: int, j: int| 0 <= i < j < all.len() implies all[i] != all[j] by {
                if j < kept.len() {
                    assert(kept[i] != kept[j]);
                } else {
                    assert(kept[i] == all[i]);
                    assert(kept.contains(all[i]));
                }
            }
        }
        if no_address_twice(addresses) {
            assert forall|i: int, j: int| 0 <= i < j < rest.len() implies rest[i] != rest[j] by {
                assert(addresses[i] != addresses[j]);
            }
            if kept.contains(last) {
                assert(rest.contains(last));
                let k = choose|k: int| 0 <= k < rest.len() && rest[k] == last;
                assert(addresses[k] != addresses[addresses.len() - 1]);
            }
            assert(all =~= addresses);
        }
    }
}

/// Looks for `address` in the list.
fn holds(addresses: &Vec<Address>, address: &Address) -> (r: bool)
    ensures
        r == addresses@.contains(*address),
{
    let mut i: usize = 0;
    while i < addresses.len()
        invariant
            i <= addresses@.len(),
            forall|j: int| 0 <= j < i ==> addresses@[j] != *address,
        decreases addresses@.len() - i,
    {
        if addresses[i].same(address) {
            return true;
        }
        i = i + 1;
    }
    false
}

/// The signers of a transaction: a list of addresses in which none occurs
/// twice.
#[derive(Debug)]
pub struct Signers {
    addresses: Vec<Address>,
}

impl View for Signers {
    type V = Seq<Address>;

    closed spec fn view(&self) -> Seq<Address> {
        self.addresses@
    }
}

impl Clone for Signers {
    fn clone(&self) -> (r: Signers)
        ensures
            r@ == self@,
    {
        self.copy()
    }
}

impl Signers {
    #[verifier::type_invariant]
    spec fn is_a_set(self) -> bool {
        no_address_twice(self.addresses@)
    }

    /// No signers.
    pub fn new() -> (r: Signers)
        ensures
            r@ == Seq::<Address>::empty(),
    {
        Signers { addresses: Vec::new() }
    }

    /// Whether `address` is among the signers.
    pub fn contains(&self, address: &Address) -> (r: bool)
        ensures
            r == self@.contains(*address),
    {
        holds(&self.addresses, address)
    }

    /// The signers among `addresses`: each address once, in the order of its
    /// first occurrence.
    pub fn from_addresses(addresses: &[Address]) -> (r: Signers)
        ensures
            r@ == first_occurrences(addresses@),
    {
        let mut kept: Vec<Address> = Vec::new();
        let mut i: usize = 0;
        while i < addresses.len()
            invariant
                i <= addresses@.len(),
                kept@ == first_occurrences(addresses@.take(i as int)),
            decreases addresses@.len() - i,
        {
            assert(addresses@.take(i + 1).drop_last() =~= addresses@.take(i as int));
            if !holds(&kept, &addresses[i]) {
                kept.push(addresses[i]);
            }
            i = i + 1;
        }
        assert(addresses@.take(i as int) =~= addresses@);
        proof {
            lemma_first_occurrences(addresses@);
        }
        Signers { addresses: kept }
    }

    /// The signers as a list, in which no address occurs twice.
    pub fn addresses(&self) -> (r: &Vec<Address>)
        ensures
            r@ == self@,
            no_address_twice(r@),
    {
        proof {
            use_type_invariant(self);
        }
        &self.addresses
    }

    /// A copy of the signers.
    pub fn copy(&self) -> (r: Signers)
        ensures
            r@ == self@,
    {
        proof {
            use_type_invariant(self);
        }
        let mut addresses: Vec<Address> = Vec::new();
        let mut i: usize = 0;
        while i < self.addresses.len()
            invariant
                i <= self.addresses@.len(),
                addresses@ == self.addresses@.take(i as int),
            decreases self.addresses@.len() - i,
        {
            addresses.push(self.addresses[i]);
            assert(self.addresses@.take(i as int).push(self.addresses@[i as int])
                =~= self.addresses@.take(i + 1));
            i = i + 1;
        }
        assert(self.addresses@.take(i as int) =~= self.addresses@);
        Signers { addresses }
    }
}

} // verus!
