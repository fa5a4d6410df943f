use vstd::prelude::*;

verus! {

/// An opaque participant identity.
///
/// Identities are comparable, equality-testable tokens. The all-zero value is
/// the reserved "empty" sentinel that marks an unfilled slot; it never names a
/// real participant.
#[derive(Clone, Copy, PartialEq, Eq, Structural, Debug)]
pub struct AccountId {
    pub id: u64,
}

impl AccountId {
    /// The reserved sentinel that marks an unfilled slot.
    pub open spec fn spec_empty() -> AccountId {
        AccountId { id: 0 }
    }

    pub open spec fn spec_is_empty(self) -> bool {
        self == AccountId::spec_empty()
    }

    pub fn new(id: u64) -> (r: AccountId)
        ensures
            r == (AccountId { id }),
    {
        AccountId { id }
    }

    /// Whether this identity is the empty-slot sentinel.
    pub fn is_empty(&self) -> (r: bool)
        ensures
            r == self.spec_is_empty(),
    {
        self.id == 0
    }
}

impl Default for AccountId {
    /// The default identity is the empty-slot sentinel.
    fn default() -> (r: AccountId)
        ensures
            r == AccountId::spec_empty(),
    {
        AccountId { id: 0 }
    }
}

} // verus!
