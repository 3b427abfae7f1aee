use vstd::prelude::*;
use core::cmp::Ordering;

verus! {

/// Number of bytes in the raw encoding of an external account's public key.
pub const PUBLIC_KEY_BYTES: usize = 96;

/// Number of bytes in a contract identifier.
pub const CONTRACT_ID_BYTES: usize = 32;

/// An account identity: either an externally controlled account, identified
/// by the raw bytes of its public key, or a contract, identified by the raw
/// bytes of its contract id.
#[derive(Debug)]
pub enum Account {
    /// An externally owned account (a user holding a key).
    External(Vec<u8>),
    /// A contract account.
    Contract(Vec<u8>),
}

/// The mathematical value of an [`Account`]: the variant together with the
/// identifying byte sequence.
pub enum AccountV {
    External(Seq<u8>),
    Contract(Seq<u8>),
}

impl View for Account {
    type V = AccountV;

    open spec fn view(&self) -> AccountV {
        match self {
            Account::External(k) => AccountV::External(k@),
            Account::Contract(k) => AccountV::Contract(k@),
        }
    }
}

/// Copies a byte vector element by element.
pub fn copy_bytes(v: &Vec<u8>) -> (r: Vec<u8>)
    ensures
        r@ == v@,
{
    let mut r: Vec<u8> = Vec::new();
    let mut i: usize = 0;
    while i < v.len()
        invariant
            i <= v@.len(),
            r@.len() == i,
            forall|j: int| 0 <= j < i ==> r@[j] == v@[j],
        decreases v@.len() - i,
    {
        r.push(v[i]);
        i = i + 1;
    }
    proof {
        assert(r@ =~= v@);
    }
    r
}

/// Compares two byte vectors for equality, element by element.
pub fn bytes_equal(a: &Vec<u8>, b: &Vec<u8>) -> (r: bool)
    ensures
        r == (a@ == b@),
{
    if a.len() != b.len() {
        proof {
            assert(a@ != b@);
        }
        return false;
    }
    let mut i: usize = 0;
    while i < a.len()
        invariant
            a@.len() == b@.len(),
            i <= a@.len(),
            forall|j: int| 0 <= j < i ==> a@[j] == b@[j],
        decreases a@.len() - i,
    {
        if a[i] != b[i] {
            proof {
                assert(a@[i as int] != b@[i as int]);
            }
            return false;
        }
        i = i + 1;
    }
    proof {
        assert(a@ =~= b@);
    }
    true
}

/// Byte-lexicographic order on byte sequences: a strict prefix sorts before
/// the longer sequence, and otherwise the first differing byte decides.
pub open spec fn spec_bytes_cmp(a: Seq<u8>, b: Seq<u8>) -> Ordering
    decreases a.len(),
{
    if a.len() == 0 && b.len() == 0 {
        Ordering::Equal
    } else if a.len() == 0 {
        Ordering::Less
    } else if b.len() == 0 {
        Ordering::Greater
    } else if a[0] < b[0] {
        Ordering::Less
    } else if a[0] > b[0] {
        Ordering::Greater
    } else {
        spec_bytes_cmp(a.subrange(1, a.len() as int), b.subrange(1, b.len() as int))
    }
}

/// After dropping an equal prefix, the lexicographic comparison of the
/// remainders agrees with the comparison of the full sequences.
proof fn lemma_bytes_cmp_skip(a: Seq<u8>, b: Seq<u8>, i: int)
    requires
        0 <= i <= a.len(),
        0 <= i <= b.len(),
        forall|j: int| 0 <= j < i ==> a[j] == b[j],
    ensures
        spec_bytes_cmp(a, b) == spec_bytes_cmp(a.subrange(i, a.len() as int), b.subrange(i, b.len() as int)),
    decreases i,
{
    if i == 0 {
        assert(a.subrange(0, a.len() as int) =~= a);
        assert(b.subrange(0, b.len() as int) =~= b);
    } else {
        lemma_bytes_cmp_skip(a, b, i - 1);
        let a1 = a.subrange(i - 1, a.len() as int);
        let b1 = b.subrange(i - 1, b.len() as int);
        assert(a1[0] == b1[0]);
        assert(a1.subrange(1, a1.len() as int) =~= a.subrange(i, a.len() as int));
        assert(b1.subrange(1, b1.len() as int) =~= b.subrange(i, b.len() as int));
    }
}

/// Compares two byte vectors in byte-lexicographic order.
pub fn bytes_cmp(a: &Vec<u8>, b: &Vec<u8>) -> (r: Ordering)
    ensures
        r == spec_bytes_cmp(a@, b@),
{
    let mut i: usize = 0;
    let n = if a.len() < b.len() {
        a.len()
    } else {
        b.len()
    };
    while i < n
        invariant
            n == if a@.len() < b@.len() {
                a@.len()
            } else {
                b@.len()
            },
            i <= n,
            forall|j: int| 0 <= j < i ==> a@[j] == b@[j],
        decreases n - i,
    {
        if a[i] < b[i] {
            proof {
                lemma_bytes_cmp_skip(a@, b@, i as int);
            }
            return Ordering::Less;
        }
        if a[i] > b[i] {
            proof {
                lemma_bytes_cmp_skip(a@, b@, i as int);
            }
            return Ordering::Greater;
        }
        i = i + 1;
    }
    proof {
        lemma_bytes_cmp_skip(a@, b@, n as int);
    }
    if a.len() == b.len() {
        Ordering::Equal
    } else if a.len() < b.len() {
        Ordering::Less
    } else {
        Ordering::Greater
    }
}

/// The total order on accounts: every external account sorts strictly before
/// every contract account, and within a variant the identifying bytes are
/// compared lexicographically.
pub open spec fn spec_account_cmp(a: AccountV, b: AccountV) -> Ordering {
    match (a, b) {
        (AccountV::External(x), AccountV::External(y)) => spec_bytes_cmp(x, y),
        (AccountV::Contract(x), AccountV::Contract(y)) => spec_bytes_cmp(x, y),
        (AccountV::External(_), AccountV::Contract(_)) => Ordering::Less,
        (AccountV::Contract(_), AccountV::External(_)) => Ordering::Greater,
    }
}

impl PartialEq for Account {
    fn eq(&self, other: &Self) -> (r: bool) {
        match (self, other) {
            (Account::External(a), Account::External(b)) => bytes_equal(a, b),
            (Account::Contract(a), Account::Contract(b)) => bytes_equal(a, b),
            _ => false,
        }
    }
}

impl Eq for Account {

}

impl vstd::std_specs::cmp::PartialEqSpecImpl for Account {
    open spec fn obeys_eq_spec() -> bool {
        true
    }

    open spec fn eq_spec(&self, other: &Self) -> bool {
        self@ == other@
    }
}

impl PartialOrd for Account {
    fn partial_cmp(&self, other: &Self) -> (r: Option<Ordering>) {
        match (self, other) {
            (Account::External(a), Account::External(b)) => Some(bytes_cmp(a, b)),
            (Account::Contract(a), Account::Contract(b)) => Some(bytes_cmp(a, b)),
            (Account::External(_), Account::Contract(_)) => Some(Ordering::Less),
            (Account::Contract(_), Account::External(_)) => Some(Ordering::Greater),
        }
    }
}

impl vstd::std_specs::cmp::PartialOrdSpecImpl for Account {
    open spec fn obeys_partial_cmp_spec() -> bool {
        true
    }

    open spec fn partial_cmp_spec(&self, other: &Self) -> Option<Ordering> {
        Some(spec_account_cmp(self@, other@))
    }
}

impl Clone for Account {
    /// Cloning keeps the variant and the identifying bytes.
    fn clone(&self) -> (r: Self)
        ensures
            r@ == self@,
    {
        match self {
            Account::External(k) => Account::External(copy_bytes(k)),
            Account::Contract(k) => Account::Contract(copy_bytes(k)),
        }
    }
}

/// A sequence of `n` zero bytes.
pub open spec fn spec_zeroed_bytes(n: nat) -> Seq<u8> {
    Seq::new(n, |i: int| 0u8)
}

/// Builds a vector of `n` zero bytes.
pub fn zeroed_bytes(n: usize) -> (r: Vec<u8>)
    ensures
        r@ == spec_zeroed_bytes(n as nat),
{
    let mut k: Vec<u8> = Vec::new();
    let mut i: usize = 0;
    while i < n
        invariant
            i <= n,
            k@.len() == i,
            forall|j: int| 0 <= j < i ==> k@[j] == 0u8,
        decreases n - i,
    {
        k.push(0u8);
        i = i + 1;
    }
    proof {
        assert(k@ =~= spec_zeroed_bytes(n as nat));
    }
    k
}

impl Default for Account {
    /// The placeholder account used before initialization: an external
    /// account whose key bytes are all zero.
    fn default() -> (r: Self)
        ensures
            r@ == AccountV::External(spec_zeroed_bytes(PUBLIC_KEY_BYTES as nat)),
    {
        Account::External(zeroed_bytes(PUBLIC_KEY_BYTES))
    }
}

} // verus!
