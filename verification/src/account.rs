//! Account identities.

use vstd::prelude::*;

verus! {

/// An opaque, fixed-width account identifier, compared by equality.
///
/// The identifier whose bytes are all zero stands for "no account": it never
/// owns a token and is never a valid target of a mint, a transfer or an
/// approval.
#[derive(Clone, Copy, Debug, Eq, Hash)]
pub struct AccountId(pub [u8; 32]);

impl View for AccountId {
    type V = Seq<u8>;

    open spec fn view(&self) -> Seq<u8> {
        self.0@
    }
}

impl PartialEq for AccountId {
    fn eq(&self, other: &AccountId) -> (r: bool) {
        let mut i: usize = 0;
        while i < 32
            invariant
                i <= 32,
                forall|j: int| 0 <= j < i ==> self.0[j] == other.0[j],
            decreases 32 - i,
        {
            if self.0[i] != other.0[i] {
                return false;
            }
            i += 1;
        }
        assert(self.0 =~= other.0);
        true
    }
}

impl vstd::std_specs::cmp::PartialEqSpecImpl for AccountId {
    open spec fn obeys_eq_spec() -> bool {
        true
    }

    open spec fn eq_spec(&self, other: &AccountId) -> bool {
        *self == *other
    }
}

impl From<[u8; 32]> for AccountId {
    fn from(bytes: [u8; 32]) -> (r: AccountId) {
        AccountId(bytes)
    }
}

impl vstd::std_specs::convert::FromSpecImpl<[u8; 32]> for AccountId {
    open spec fn obeys_from_spec() -> bool {
        true
    }

    open spec fn from_spec(bytes: [u8; 32]) -> AccountId {
        AccountId(bytes)
    }
}

impl AccountId {
    /// Whether this is the reserved all-zero identifier.
    pub open spec fn spec_is_zero(&self) -> bool {
        forall|i: int| 0 <= i < 32 ==> self@[i] == 0u8
    }

    /// The reserved identifier that stands for "no account".
    pub fn zero() -> (r: AccountId)
        ensures
            r.is_zero(),
    {
        AccountId([0u8; 32])
    }

    /// Whether this is the reserved all-zero identifier.
    #[verifier::when_used_as_spec(spec_is_zero)]
    pub fn is_zero(&self) -> (r: bool)
        ensures
            r == self.is_zero(),
    {
        let mut i: usize = 0;
        while i < 32
            invariant
                i <= 32,
                forall|j: int| 0 <= j < i ==> self@[j] == 0u8,
            decreases 32 - i,
        {
            if self.0[i] != 0 {
                assert(self@[i as int] != 0u8);
                return false;
            }
            i += 1;
        }
        true
    }

    /// Two identifiers are the same identifier exactly when their bytes agree.
    pub proof fn lemma_equal_by_bytes(a: AccountId, b: AccountId)
        ensures
            (a@ == b@) <==> (a == b),
    {
        if a@ == b@ {
            assert(a.0 =~= b.0);
        }
    }

    /// There is one reserved identifier.
    pub proof fn lemma_zero_unique(a: AccountId, b: AccountId)
        requires
            a.is_zero(),
            b.is_zero(),
        ensures
            a == b,
    {
        assert forall|i: int| 0 <= i < 32 implies a.0[i] == b.0[i] by {
            assert(a@[i] == 0u8 && b@[i] == 0u8);
        }
        assert(a.0 =~= b.0);
    }
}

} // verus!
