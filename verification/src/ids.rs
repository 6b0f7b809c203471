//! Identities that both contracts share: addresses and byte strings.
use vstd::prelude::*;
use crate::table::KeyEq;

verus! {

/// A Soroban address, held as the bytes of its XDR encoding.
#[derive(Debug)]
pub struct Address {
    pub xdr: Vec<u8>,
}

impl View for Address {
    type V = Seq<u8>;

    open spec fn view(&self) -> Seq<u8> {
        self.xdr@
    }
}

/// A copy of `bytes` with the same contents.
pub fn copy_bytes(bytes: &Vec<u8>) -> (out: Vec<u8>)
    ensures
        out@ == bytes@,
{
    let mut out: Vec<u8> = Vec::new();
    let mut i: usize = 0;
    while i < bytes.len()
        invariant
            i <= bytes@.len(),
            out@ == bytes@.subrange(0, i as int),
        decreases bytes@.len() - i,
    {
        out.push(bytes[i]);
        i = i + 1;
        proof {
            assert(out@ =~= bytes@.subrange(0, i as int));
        }
    }
    proof {
        assert(out@ =~= bytes@);
    }
    out
}

/// Whether two byte strings hold the same bytes.
pub fn bytes_eq(a: &Vec<u8>, b: &Vec<u8>) -> (same: bool)
    ensures
        same == (a@ == b@),
{
    if a.len() != b.len() {
        return false;
    }
    let mut i: usize = 0;
    while i < a.len()
        invariant
            a@.len() == b@.len(),
            i <= a@.len(),
            forall|j: int| 0 <= j < i ==> a@[j] == b@[j],
        decreases a@.len() - i,
    {
        if a[i] != b[i] {
            return false;
        }
        i = i + 1;
    }
    proof {
        assert(a@ =~= b@);
    }
    true
}

/// `a` followed by `b`.
pub fn concat_bytes(a: &Vec<u8>, b: &Vec<u8>) -> (out: Vec<u8>)
    ensures
        out@ == a@ + b@,
{
    let mut out = copy_bytes(a);
    let mut i: usize = 0;
    while i < b.len()
        invariant
            i <= b@.len(),
            out@ == a@ + b@.subrange(0, i as int),
        decreases b@.len() - i,
    {
        out.push(b[i]);
        i = i + 1;
        proof {
            assert(out@ =~= a@ + b@.subrange(0, i as int));
        }
    }
    proof {
        assert(b@.subrange(0, b@.len() as int) =~= b@);
    }
    out
}

impl KeyEq for Vec<u8> {
    fn key_eq(&self, other: &Self) -> (same: bool) {
        bytes_eq(self, other)
    }
}

impl Address {
    /// The address whose XDR encoding is `xdr`.
    pub fn from_xdr(xdr: Vec<u8>) -> (a: Address)
        ensures
            a@ == xdr@,
    {
        Address { xdr }
    }

    /// A copy of this address.
    pub fn duplicate(&self) -> (a: Address)
        ensures
            a@ == self@,
    {
        Address { xdr: copy_bytes(&self.xdr) }
    }

    /// Whether two addresses are the same.
    pub fn same(&self, other: &Address) -> (b: bool)
        ensures
            b == (self@ == other@),
    {
        bytes_eq(&self.xdr, &other.xdr)
    }
}

impl KeyEq for Address {
    fn key_eq(&self, other: &Self) -> (same: bool) {
        self.same(other)
    }
}

/// The views of a list of addresses.
pub open spec fn addresses_view(v: Seq<Address>) -> Seq<Seq<u8>> {
    v.map_values(|a: Address| a@)
}

/// Whether `a` occurs in `list`.
pub fn contains_address(list: &Vec<Address>, a: &Address) -> (found: bool)
    ensures
        found == addresses_view(list@).contains(a@),
{
    let mut i: usize = 0;
    while i < list.len()
        invariant
            i <= list@.len(),
            forall|j: int| 0 <= j < i ==> #[trigger] list@[j]@ != a@,
        decreases list@.len() - i,
    {
        if list[i].same(a) {
            proof {
                assert(addresses_view(list@)[i as int] == a@);
            }
            return true;
        }
        i = i + 1;
    }
    proof {
        if addresses_view(list@).contains(a@) {
            let k = choose|k: int| 0 <= k < list@.len() && addresses_view(list@)[k] == a@;
            assert(list@[k]@ == a@);
        }
    }
    false
}

/// A copy of a list of addresses.
pub fn copy_addresses(list: &Vec<Address>) -> (out: Vec<Address>)
    ensures
        addresses_view(out@) == addresses_view(list@),
{
    let mut out: Vec<Address> = Vec::new();
    let mut i: usize = 0;
    while i < list.len()
        invariant
            i <= list@.len(),
            addresses_view(out@) == addresses_view(list@).subrange(0, i as int),
        decreases list@.len() - i,
    {
        let ghost before = out@;
        out.push(list[i].duplicate());
        proof {
            assert(out@ == before.push(out@.last()));
            assert(addresses_view(out@) =~= addresses_view(before).push(list@[i as int]@));
            assert(addresses_view(list@).subrange(0, i + 1) =~= addresses_view(list@).subrange(
                0,
                i as int,
            ).push(list@[i as int]@));
        }
        i = i + 1;
    }
    proof {
        assert(addresses_view(out@) =~= addresses_view(list@));
    }
    out
}

/// Whether an address differs from `a`.
pub open spec fn other_than(a: Seq<u8>) -> spec_fn(Seq<u8>) -> bool {
    |x: Seq<u8>| x != a
}

/// `list` without any occurrence of `a`.
pub open spec fn without_address(list: Seq<Seq<u8>>, a: Seq<u8>) -> Seq<Seq<u8>> {
    list.filter(other_than(a))
}

/// The addresses of `list` other than `a`, in order.
pub fn remove_address(list: &Vec<Address>, a: &Address) -> (out: Vec<Address>)
    ensures
        addresses_view(out@) == without_address(addresses_view(list@), a@),
{
    let mut out: Vec<Address> = Vec::new();
    let mut i: usize = 0;
    while i < list.len()
        invariant
            i <= list@.len(),
            addresses_view(out@) == without_address(addresses_view(list@).subrange(0, i as int), a@),
        decreases list@.len() - i,
    {
        let ghost pre = addresses_view(list@).subrange(0, i as int);
        let ghost next = addresses_view(list@).subrange(0, i + 1);
        let ghost before = out@;
        proof {
            assert(next =~= pre.push(list@[i as int]@));
            pre.lemma_filter_push(list@[i as int]@, other_than(a@));
        }
        if !list[i].same(a) {
            out.push(list[i].duplicate());
            proof {
                assert(addresses_view(out@) =~= addresses_view(before).push(list@[i as int]@));
            }
        }
        i = i + 1;
    }
    proof {
        assert(addresses_view(list@).subrange(0, list@.len() as int) =~= addresses_view(list@));
    }
    out
}

} // verus!
