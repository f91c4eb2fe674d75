//! A stand-in for running toolchains: a runner that accepts a fixed set of versions.
use vstd::prelude::*;
use crate::version::{Version, copy_versions};

verus! {

/// A runner that finds a crate compatible with exactly the versions it was given.
pub struct TestRunner {
    accept_versions: Vec<Version>,
}

impl View for TestRunner {
    type V = Seq<Version>;

    closed spec fn view(&self) -> Seq<Version> {
        self.accept_versions@
    }
}

impl TestRunner {
    /// A runner that accepts exactly `versions`.
    pub fn with_ok(versions: &[Version]) -> (r: TestRunner)
        ensures
            r@ == versions@,
    {
        TestRunner { accept_versions: copy_versions(versions) }
    }

    /// Whether the crate is compatible with `version`.
    pub fn check(&self, version: &Version) -> (b: bool)
        ensures
            b == self@.contains(*version),
    {
        let mut i: usize = 0;
        while i < self.accept_versions.len()
            invariant
                0 <= i <= self.accept_versions.len(),
                forall|j: int| 0 <= j < i ==> self.accept_versions@[j] != *version,
            decreases self.accept_versions.len() - i,
        {
            if self.accept_versions[i].same(version) {
                return true;
            }
            i = i + 1;
        }
        false
    }
}

} // verus!
