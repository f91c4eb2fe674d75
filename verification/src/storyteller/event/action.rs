//! Actions the tool performs, such as fetching the release index or checking a toolchain.
//!
//! An action is reported when it begins and when it ends; only the beginning (or an action
//! without a scope) is shown to a human reader.
use vstd::prelude::*;
use crate::version::Version;

verus! {

/// Where the index of Rust releases is obtained from.
#[derive(Clone, Copy, Debug, PartialEq, Eq, Structural)]
pub enum ReleaseSource {
    RustChangelog,
    RustDist,
}

/// What an action is about.
#[derive(Clone, Debug)]
pub enum ActionDetails {
    FetchingIndex { source: ReleaseSource },
    RunToolchainCheck { version: Version },
    RunToolchainCheckPass { version: Version },
    RunToolchainCheckFail { version: Version, error_message: String },
}

/// The status shown next to an action.
#[derive(Clone, Copy, Debug, PartialEq, Eq, Structural)]
pub enum ActionStatus {
    Fetching,
    Downloading,
    Checking,
    Passed,
    Failed,
}

/// Whether a reported action marks the beginning or the end of its scope.
#[derive(Clone, Copy, Debug, PartialEq, Eq, Structural)]
pub enum ScopePosition {
    Start,
    End,
}

/// An action, with its name and status derived from its details.
#[derive(Clone, Debug)]
pub struct Action {
    name: &'static str,
    status: ActionStatus,
    details: ActionDetails,
    scope: Option<ScopePosition>,
}

/// The status that belongs to an action's details.
pub open spec fn status_of(details: ActionDetails) -> ActionStatus {
    match details {
        ActionDetails::FetchingIndex { .. } => ActionStatus::Fetching,
        ActionDetails::RunToolchainCheck { .. } => ActionStatus::Checking,
        ActionDetails::RunToolchainCheckPass { .. } => ActionStatus::Passed,
        ActionDetails::RunToolchainCheckFail { .. } => ActionStatus::Failed,
    }
}

/// The name under which an action with these details is reported.
pub open spec fn name_of(details: ActionDetails) -> Seq<char> {
    match details {
        ActionDetails::FetchingIndex { .. } => "fetching_index"@,
        ActionDetails::RunToolchainCheck { .. } => "check"@,
        ActionDetails::RunToolchainCheckPass { .. } => "check_passed"@,
        ActionDetails::RunToolchainCheckFail { .. } => "check_failed"@,
    }
}

/// The text shown for a status.
pub open spec fn status_text(status: ActionStatus) -> Seq<char> {
    match status {
        ActionStatus::Fetching => "Fetching"@,
        ActionStatus::Downloading => "Downloading"@,
        ActionStatus::Checking => "Checking"@,
        ActionStatus::Passed => "[Pass]"@,
        ActionStatus::Failed => "[Fail]"@,
    }
}

/// The abstract value of an action.
pub struct ActionView {
    pub name: Seq<char>,
    pub status: ActionStatus,
    pub details: ActionDetails,
    pub scope: Option<ScopePosition>,
}

impl View for Action {
    type V = ActionView;

    closed spec fn view(&self) -> ActionView {
        ActionView {
            name: self.name@,
            status: self.status,
            details: self.details,
            scope: self.scope,
        }
    }
}

/// Whether an action with this scope is shown to a human reader: the start of a scope, or an
/// action without one.
pub open spec fn spec_must_report(scope: Option<ScopePosition>) -> bool {
    match scope {
        Some(ScopePosition::Start) => true,
        None => true,
        Some(ScopePosition::End) => false,
    }
}

impl ActionDetails {
    /// A copy of these details.
    pub fn duplicate(&self) -> (r: ActionDetails)
        ensures
            r == *self,
    {
        match self {
            ActionDetails::FetchingIndex { source } => ActionDetails::FetchingIndex {
                source: *source,
            },
            ActionDetails::RunToolchainCheck { version } => ActionDetails::RunToolchainCheck {
                version: *version,
            },
            ActionDetails::RunToolchainCheckPass { version } =>
                ActionDetails::RunToolchainCheckPass { version: *version },
            ActionDetails::RunToolchainCheckFail { version, error_message } =>
                ActionDetails::RunToolchainCheckFail {
                    version: *version,
                    error_message: error_message.clone(),
                },
        }
    }

    /// The status that belongs to these details.
    pub fn status(&self) -> (s: ActionStatus)
        ensures
            s == status_of(*self),
    {
        match self {
            ActionDetails::FetchingIndex { .. } => ActionStatus::Fetching,
            ActionDetails::RunToolchainCheck { .. } => ActionStatus::Checking,
            ActionDetails::RunToolchainCheckPass { .. } => ActionStatus::Passed,
            ActionDetails::RunToolchainCheckFail { .. } => ActionStatus::Failed,
        }
    }

    /// The name under which an action with these details is reported.
    pub fn name(&self) -> (s: &'static str)
        ensures
            s@ == name_of(*self),
    {
        proof {
            reveal_strlit("fetching_index");
            reveal_strlit("check");
            reveal_strlit("check_passed");
            reveal_strlit("check_failed");
        }
        match self {
            ActionDetails::FetchingIndex { .. } => "fetching_index",
            ActionDetails::RunToolchainCheck { .. } => "check",
            ActionDetails::RunToolchainCheckPass { .. } => "check_passed",
            ActionDetails::RunToolchainCheckFail { .. } => "check_failed",
        }
    }
}

impl ActionStatus {
    /// The text shown for this status.
    pub fn as_str(&self) -> (s: &'static str)
        ensures
            s@ == status_text(*self),
    {
        proof {
            reveal_strlit("Fetching");
            reveal_strlit("Downloading");
            reveal_strlit("Checking");
            reveal_strlit("[Pass]");
            reveal_strlit("[Fail]");
        }
        match self {
            ActionStatus::Fetching => "Fetching",
            ActionStatus::Downloading => "Downloading",
            ActionStatus::Checking => "Checking",
            ActionStatus::Passed => "[Pass]",
            ActionStatus::Failed => "[Fail]",
        }
    }
}

impl Action {
    fn new(action: ActionDetails) -> (a: Action)
        ensures
            a@ == (ActionView {
                name: name_of(action),
                status: status_of(action),
                details: action,
                scope: None,
            }),
    {
        Action { name: action.name(), status: action.status(), details: action, scope: None }
    }

    /// The same action, placed at the given end of its scope.
    pub fn clone_with_scope_position(&self, position: ScopePosition) -> (a: Action)
        ensures
            a@ == (ActionView { scope: Some(position), ..self@ }),
    {
        Action {
            name: self.name,
            status: self.status,
            details: self.details.duplicate(),
            scope: Some(position),
        }
    }

    pub fn status(&self) -> (s: ActionStatus)
        ensures
            s == self@.status,
    {
        self.status
    }

    pub fn details(&self) -> (d: &ActionDetails)
        ensures
            *d == self@.details,
    {
        &self.details
    }

    pub fn name(&self) -> (s: &'static str)
        ensures
            s@ == self@.name,
    {
        self.name
    }

    pub fn scope(&self) -> (s: Option<ScopePosition>)
        ensures
            s == self@.scope,
    {
        self.scope
    }

    /// Whether the action is shown to a human reader.
    pub fn must_report(&self) -> (b: bool)
        ensures
            b == spec_must_report(self@.scope),
    {
        match self.scope {
            Some(ScopePosition::Start) => true,
            None => true,
            Some(ScopePosition::End) => false,
        }
    }

    /// Fetching the index of Rust releases from `source`.
    pub fn fetching_index(source: ReleaseSource) -> (a: Action)
        ensures
            a@.details == (ActionDetails::FetchingIndex { source }),
            a@.status == ActionStatus::Fetching,
            a@.name == "fetching_index"@,
            a@.scope == None::<ScopePosition>,
    {
        Self::new(ActionDetails::FetchingIndex { source })
    }

    /// Checking whether the toolchain of `version` can build the crate.
    pub fn run_toolchain_check(version: Version) -> (a: Action)
        ensures
            a@.details == (ActionDetails::RunToolchainCheck { version }),
            a@.status == ActionStatus::Checking,
            a@.name == "check"@,
            a@.scope == None::<ScopePosition>,
    {
        Self::new(ActionDetails::RunToolchainCheck { version })
    }

    /// The toolchain of `version` built the crate.
    pub fn run_toolchain_check_pass(version: Version) -> (a: Action)
        ensures
            a@.details == (ActionDetails::RunToolchainCheckPass { version }),
            a@.status == ActionStatus::Passed,
            a@.name == "check_passed"@,
            a@.scope == None::<ScopePosition>,
    {
        Self::new(ActionDetails::RunToolchainCheckPass { version })
    }

    /// The toolchain of `version` failed to build the crate, with this error message.
    pub fn run_toolchain_check_fail(version: Version, error_msg: String) -> (a: Action)
        ensures
            a@.details == (ActionDetails::RunToolchainCheckFail {
                version,
                error_message: error_msg,
            }),
            a@.status == ActionStatus::Failed,
            a@.name == "check_failed"@,
            a@.scope == None::<ScopePosition>,
    {
        Self::new(ActionDetails::RunToolchainCheckFail { version, error_message: error_msg })
    }
}

} // verus!
