//! Comparing accounts.

use vstd::prelude::*;
use vstd::std_specs::cmp::PartialEqSpec;

verus! {

/// Whether `==` on `A` in compiled code decides equality of values.
///
/// The ownership rules are stated for account types of which this holds. It
/// holds of the integer types.
pub open spec fn eq_is_exact<A: PartialEq>() -> bool {
    &&& A::obeys_eq_spec()
    &&& forall|a: A, b: A| #[trigger] a.eq_spec(&b) <==> (a == b)
}

/// Whether two accounts are the same account.
pub fn same_account<A: Copy + PartialEq>(a: A, b: A) -> (r: bool)
    requires
        eq_is_exact::<A>(),
    ensures
        r == (a == b),
{
    a == b
}

} // verus!
