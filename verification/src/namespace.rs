//! The host's namespace: the addresses of the symbols that an object
//! leaves undefined.
use vstd::prelude::*;

verus! {

/// The mathematical model of an entry of the host's namespace.
pub struct ExternalView {
    pub name: Seq<u8>,
    pub address: u64,
}

/// What the host's namespace says of a name: the address that the name has
/// in the process, zero where it has none.
#[derive(Debug)]
pub struct External {
    pub name: Vec<u8>,
    pub address: u64,
}

impl View for External {
    type V = ExternalView;

    open spec fn view(&self) -> ExternalView {
        ExternalView { name: self.name@, address: self.address }
    }
}

/// The views of the entries of a namespace, in its order.
pub open spec fn view_namespace(namespace: Seq<External>) -> Seq<ExternalView> {
    Seq::new(namespace.len(), |i: int| namespace[i]@)
}

/// The address that the namespace gives for `name`: that of its first entry
/// of that name.
pub open spec fn address_of(namespace: Seq<ExternalView>, name: Seq<u8>) -> Option<u64>
    decreases namespace.len(),
{
    if namespace.len() == 0 {
        None
    } else if namespace.first().name == name {
        Some(namespace.first().address)
    } else {
        address_of(namespace.drop_first(), name)
    }
}

/// Whether two byte strings are equal.
fn same_bytes(a: &[u8], b: &[u8]) -> (equal: bool)
    ensures
        equal == (a@ == b@),
{
    if a.len() != b.len() {
        return false;
    }
    let mut i: usize = 0;
    while i < a.len()
        invariant
            a@.len() == b@.len(),
            i <= a@.len(),
            forall|k: int| 0 <= k < i ==> a@[k] == b@[k],
        decreases a@.len() - i,
    {
        if a[i] != b[i] {
            return false;
        }
        i = i + 1;
    }
    assert(a@ =~= b@);
    true
}

/// Looks `name` up in the namespace.
pub fn lookup(namespace: &Vec<External>, name: &[u8]) -> (address: Option<u64>)
    ensures
        address == address_of(view_namespace(namespace@), name@),
{
    let ghost all = view_namespace(namespace@);
    assert(all.skip(0) =~= all);
    let mut i: usize = 0;
    while i < namespace.len()
        invariant
            all == view_namespace(namespace@),
            i <= namespace@.len(),
            address_of(all, name@) == address_of(all.skip(i as int), name@),
        decreases namespace@.len() - i,
    {
        proof {
            assert(all.skip(i as int).drop_first() =~= all.skip(i + 1));
        }
        if same_bytes(namespace[i].name.as_slice(), name) {
            return Some(namespace[i].address);
        }
        i = i + 1;
    }
    None
}

} // verus!
