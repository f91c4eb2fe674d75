//! Toolchain specifications: a Rust version for a target, written `<version>-<target>` as
//! rustup names toolchains.
use vstd::prelude::*;
use crate::version::{Version, version_text};

verus! {

/// The name of the toolchain of `version` for `target`: `<version>-<target>`.
pub open spec fn toolchain_spec_text(version: Version, target: Seq<char>) -> Seq<char> {
    version_text(version) + seq!['-'] + target
}

/// Writes the name of the toolchain of `version` for `target`.
pub fn make_toolchain_spec(version: &Version, target: &str) -> (s: String)
    ensures
        s@ == toolchain_spec_text(*version, target@),
{
    proof {
        reveal_strlit("-");
    }
    let mut s = version.to_text();
    s.append("-");
    s.append(target);
    s
}

/// A toolchain that borrows its version and target.
#[derive(Clone, Copy, Debug)]
pub struct ToolchainSpec<'spec> {
    version: &'spec Version,
    target: &'spec str,
}

/// The version and target of a toolchain.
pub struct ToolchainView {
    pub version: Version,
    pub target: Seq<char>,
}

impl<'spec> View for ToolchainSpec<'spec> {
    type V = ToolchainView;

    closed spec fn view(&self) -> ToolchainView {
        ToolchainView { version: *self.version, target: self.target@ }
    }
}

impl<'spec> ToolchainSpec<'spec> {
    pub fn new(version: &'spec Version, target: &'spec str) -> (t: Self)
        ensures
            t@ == (ToolchainView { version: *version, target: target@ }),
    {
        ToolchainSpec { version, target }
    }

    /// The name of the toolchain, `<version>-<target>`.
    pub fn spec(&self) -> (s: String)
        ensures
            s@ == toolchain_spec_text(self@.version, self@.target),
    {
        make_toolchain_spec(self.version, self.target)
    }

    pub fn version(&self) -> (v: &Version)
        ensures
            *v == self@.version,
    {
        self.version
    }

    pub fn target(&self) -> (t: &str)
        ensures
            t@ == self@.target,
    {
        self.target
    }

    /// An owned copy of this toolchain.
    pub fn to_owned(&self) -> (o: OwnedToolchainSpec)
        ensures
            o@ == self@,
    {
        OwnedToolchainSpec::new(self.version, self.target)
    }
}

/// A toolchain that owns its version and target.
#[derive(Clone, Debug, PartialEq, Eq)]
pub struct OwnedToolchainSpec {
    version: Version,
    target: String,
}

impl View for OwnedToolchainSpec {
    type V = ToolchainView;

    closed spec fn view(&self) -> ToolchainView {
        ToolchainView { version: self.version, target: self.target@ }
    }
}

impl OwnedToolchainSpec {
    pub fn new(version: &Version, target: &str) -> (t: Self)
        ensures
            t@ == (ToolchainView { version: *version, target: target@ }),
    {
        OwnedToolchainSpec { version: *version, target: String::from_str(target) }
    }

    /// The name of the toolchain, `<version>-<target>`.
    pub fn spec(&self) -> (s: String)
        ensures
            s@ == toolchain_spec_text(self@.version, self@.target),
    {
        make_toolchain_spec(&self.version, self.target.as_str())
    }

    /// The toolchain as it is displayed: its name.
    pub fn to_text(&self) -> (s: String)
        ensures
            s@ == toolchain_spec_text(self@.version, self@.target),
    {
        self.spec()
    }

    pub fn version(&self) -> (v: &Version)
        ensures
            *v == self@.version,
    {
        &self.version
    }

    pub fn target(&self) -> (t: &str)
        ensures
            t@ == self@.target,
    {
        self.target.as_str()
    }
}

impl<'r> From<ToolchainSpec<'r>> for OwnedToolchainSpec {
    fn from(spec: ToolchainSpec<'r>) -> (o: Self)
        ensures
            o@ == spec@,
    {
        spec.to_owned()
    }
}

impl<'r> vstd::std_specs::convert::FromSpecImpl<ToolchainSpec<'r>> for OwnedToolchainSpec {
    open spec fn obeys_from_spec() -> bool {
        false
    }

    open spec fn from_spec(v: ToolchainSpec<'r>) -> Self {
        arbitrary()
    }
}

} // verus!
