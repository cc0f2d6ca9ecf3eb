//! The names of the built-in checks.

use vstd::prelude::*;

verus! {

/// Runs pre-commit on staged files.
pub const PRE_COMMIT: &'static str = "pre-commit";

/// Runs pre-commit on all files.
pub const PRE_COMMIT_ALL: &'static str = "pre-commit-all";

/// Looks for merge conflicts with the main branch.
pub const NO_MERGE_CONFLICTS: &'static str = "no-merge-conflicts";

/// Runs unit tests.
pub const TEST_UNIT: &'static str = "test-unit";

/// Runs integration tests.
pub const TEST_INTEGRATION: &'static str = "test-integration";

/// Scans for secrets.
pub const SECURITY_SCAN: &'static str = "security-scan";

/// Verifies that the build works.
pub const BUILD_VERIFY: &'static str = "build-verify";

} // verus!
