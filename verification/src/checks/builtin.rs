//! The checks that every configuration knows.

pub mod names;

use vstd::prelude::*;
use crate::text::str_eq;

verus! {

/// Whether a name is that of a built-in check.
pub open spec fn spec_is_builtin(name: Seq<char>) -> bool {
    name == names::PRE_COMMIT@ || name == names::PRE_COMMIT_ALL@ || name
        == names::NO_MERGE_CONFLICTS@ || name == names::TEST_UNIT@ || name
        == names::TEST_INTEGRATION@ || name == names::SECURITY_SCAN@ || name
        == names::BUILD_VERIFY@
}

/// Whether `name` is the name of a built-in check.
pub fn is_builtin(name: &str) -> (builtin: bool)
    ensures
        builtin == spec_is_builtin(name@),
{
    str_eq(name, names::PRE_COMMIT) || str_eq(name, names::PRE_COMMIT_ALL) || str_eq(
        name,
        names::NO_MERGE_CONFLICTS,
    ) || str_eq(name, names::TEST_UNIT) || str_eq(name, names::TEST_INTEGRATION) || str_eq(
        name,
        names::SECURITY_SCAN,
    ) || str_eq(name, names::BUILD_VERIFY)
}

} // verus!
