//! The records that the service exchanges, as plain values.
//!
//! Instants are held as [`Timestamp`]s; a member whose content the client
//! never reads is carried as an opaque JSON value.

use vstd::prelude::*;
use crate::paginate::Page;

verus! {

/// The JSON codec's value type, carried through unchanged.
#[verifier::external_type_specification]
#[verifier::external_body]
pub struct ExJsonValue(serde_json::Value);

/// An instant in UTC: whole seconds since the Unix epoch and the nanoseconds
/// past that second.
#[derive(Debug, Clone, Copy, PartialEq, Eq, Structural)]
pub struct Timestamp {
    pub seconds: i64,
    pub nanos: u32,
}

impl Timestamp {
    pub open spec fn wf(&self) -> bool {
        self.nanos < 1_000_000_000
    }

    /// The instant `seconds` after the epoch plus `nanos` nanoseconds;
    /// `None` where `nanos` is not below one second.
    pub fn new(seconds: i64, nanos: u32) -> (r: Option<Timestamp>)
        ensures
            r matches Some(t) ==> t.wf() && t.seconds == seconds && t.nanos == nanos,
            r is None <==> nanos >= 1_000_000_000,
    {
        if nanos < 1_000_000_000 {
            Some(Timestamp { seconds, nanos })
        } else {
            None
        }
    }
}

/// Whether certain actions of a session are performed automatically.
#[derive(Debug, Clone, Copy, PartialEq, Eq, Structural)]
pub enum AutomationMode {
    /// No automation (the default).
    AutomationModeUnspecified,
    /// A pull request is created when the changes are ready.
    AutoCreatePr,
}

/// The current state of a session.
#[derive(Debug, Clone, Copy, PartialEq, Eq, Structural)]
pub enum SessionState {
    StateUnspecified,
    Queued,
    Planning,
    AwaitingPlanApproval,
    AwaitingUserFeedback,
    InProgress,
    Paused,
    Failed,
    Completed,
}

/// A coding session: a prompt, the source it works on, and what the
/// service reports about it. `name`, `id`, `create_time`, `update_time`,
/// `state`, `url` and `outputs` are set by the service only.
#[derive(Debug, Clone)]
pub struct Session {
    pub name: Option<String>,
    pub id: Option<String>,
    pub prompt: String,
    pub source_context: SourceContext,
    pub title: Option<String>,
    pub require_plan_approval: Option<bool>,
    pub automation_mode: Option<AutomationMode>,
    pub create_time: Option<Timestamp>,
    pub update_time: Option<Timestamp>,
    pub state: Option<SessionState>,
    pub url: Option<String>,
    pub outputs: Option<Vec<SessionOutput>>,
}

/// The source a session works on.
#[derive(Debug, Clone)]
pub struct SourceContext {
    pub github_repo_context: Option<GitHubRepoContext>,
    /// The source's resource name (`sources/{source}`).
    pub source: String,
}

/// The GitHub side of a session's source.
#[derive(Debug, Clone)]
pub struct GitHubRepoContext {
    pub starting_branch: String,
}

/// An output of a session.
#[derive(Debug, Clone)]
pub struct SessionOutput {
    pub pull_request: Option<PullRequest>,
}

/// A pull request opened by a session.
#[derive(Debug, Clone)]
pub struct PullRequest {
    pub url: String,
    pub title: String,
    pub description: String,
}

/// An event within a session. At most one of the event members is expected
/// to be set; [`Activity::kind`] tells which.
#[derive(Debug, Clone)]
pub struct Activity {
    pub name: String,
    pub id: String,
    pub description: Option<String>,
    pub create_time: Timestamp,
    pub originator: String,
    pub agent_messaged: Option<AgentMessaged>,
    pub user_messaged: Option<UserMessaged>,
    pub plan_generated: Option<PlanGenerated>,
    pub plan_approved: Option<PlanApproved>,
    pub progress_updated: Option<ProgressUpdated>,
    pub session_completed: Option<serde_json::Value>,
    pub session_failed: Option<SessionFailed>,
    pub artifacts: Option<Vec<Artifact>>,
}

#[derive(Debug, Clone)]
pub struct AgentMessaged {
    pub agent_message: String,
}

#[derive(Debug, Clone)]
pub struct UserMessaged {
    pub user_message: String,
}

#[derive(Debug, Clone)]
pub struct PlanGenerated {
    pub plan: Plan,
}

/// A plan of steps for a session's task.
#[derive(Debug, Clone)]
pub struct Plan {
    pub id: String,
    pub steps: Vec<PlanStep>,
    pub create_time: Timestamp,
}

/// One step of a plan; `index` counts from zero.
#[derive(Debug, Clone)]
pub struct PlanStep {
    pub id: String,
    pub title: String,
    pub description: String,
    pub index: i32,
}

#[derive(Debug, Clone)]
pub struct PlanApproved {
    pub plan_id: String,
}

#[derive(Debug, Clone)]
pub struct ProgressUpdated {
    pub title: String,
    pub description: String,
}

#[derive(Debug, Clone)]
pub struct SessionFailed {
    pub reason: String,
}

/// Something a session produced. At most one member is expected to be set;
/// [`Artifact::kind`] tells which.
#[derive(Debug, Clone)]
pub struct Artifact {
    pub change_set: Option<ChangeSet>,
    pub media: Option<Media>,
    pub bash_output: Option<BashOutput>,
}

#[derive(Debug, Clone)]
pub struct ChangeSet {
    pub git_patch: Option<GitPatch>,
    pub source: String,
}

#[derive(Debug, Clone)]
pub struct GitPatch {
    pub unidiff_patch: String,
    pub base_commit_id: String,
    pub suggested_commit_message: Option<String>,
}

/// A media file; `data` is base64-encoded.
#[derive(Debug, Clone)]
pub struct Media {
    pub data: String,
    pub mime_type: String,
}

#[derive(Debug, Clone)]
pub struct BashOutput {
    pub command: String,
    pub output: String,
    pub exit_code: i32,
}

/// A connected repository.
#[derive(Debug, Clone)]
pub struct Source {
    pub name: String,
    pub id: String,
    pub github_repo: Option<GitHubRepo>,
}

#[derive(Debug, Clone)]
pub struct GitHubRepo {
    pub owner: String,
    pub repo: String,
    pub is_private: bool,
    pub default_branch: GitHubBranch,
    pub branches: Vec<GitHubBranch>,
}

#[derive(Debug, Clone)]
pub struct GitHubBranch {
    pub display_name: String,
}

/// One page of sessions.
#[derive(Debug, Clone)]
pub struct ListSessionsResponse {
    pub sessions: Vec<Session>,
    pub next_page_token: Option<String>,
}

/// One page of activities.
#[derive(Debug, Clone)]
pub struct ListActivitiesResponse {
    pub activities: Vec<Activity>,
    pub next_page_token: Option<String>,
}

/// One page of sources.
#[derive(Debug, Clone)]
pub struct ListSourcesResponse {
    pub sources: Vec<Source>,
    pub next_page_token: Option<String>,
}

impl ListSessionsResponse {
    /// This page as a page of the paginator: the same items in the same
    /// order, and the same token.
    pub fn into_page(self) -> (r: Page<Session>)
        ensures
            r.items@ == self.sessions@,
            r.next_page_token == self.next_page_token,
    {
        Page { items: self.sessions, next_page_token: self.next_page_token }
    }
}

impl ListActivitiesResponse {
    /// This page as a page of the paginator: the same items in the same
    /// order, and the same token.
    pub fn into_page(self) -> (r: Page<Activity>)
        ensures
            r.items@ == self.activities@,
            r.next_page_token == self.next_page_token,
    {
        Page { items: self.activities, next_page_token: self.next_page_token }
    }
}

impl ListSourcesResponse {
    /// This page as a page of the paginator: the same items in the same
    /// order, and the same token.
    pub fn into_page(self) -> (r: Page<Source>)
        ensures
            r.items@ == self.sources@,
            r.next_page_token == self.next_page_token,
    {
        Page { items: self.sources, next_page_token: self.next_page_token }
    }
}

/// Which event an activity records.
#[derive(Debug, Clone, Copy, PartialEq, Eq, Structural)]
pub enum ActivityKind {
    AgentMessaged,
    UserMessaged,
    PlanGenerated,
    PlanApproved,
    ProgressUpdated,
    SessionCompleted,
    SessionFailed,
}

impl Activity {
    /// How many of the event members are set.
    pub open spec fn events_set(&self) -> int {
        (if self.agent_messaged is Some { 1int } else { 0 }) + (if self.user_messaged is Some { 1int } else { 0 })
            + (if self.plan_generated is Some { 1int } else { 0 }) + (if self.plan_approved is Some { 1int } else { 0 })
            + (if self.progress_updated is Some { 1int } else { 0 }) + (if self.session_completed is Some { 1int } else { 0 })
            + (if self.session_failed is Some { 1int } else { 0 })
    }

    /// Whether event member `k` is set.
    pub open spec fn has_event(&self, k: ActivityKind) -> bool {
        match k {
            ActivityKind::AgentMessaged => self.agent_messaged is Some,
            ActivityKind::UserMessaged => self.user_messaged is Some,
            ActivityKind::PlanGenerated => self.plan_generated is Some,
            ActivityKind::PlanApproved => self.plan_approved is Some,
            ActivityKind::ProgressUpdated => self.progress_updated is Some,
            ActivityKind::SessionCompleted => self.session_completed is Some,
            ActivityKind::SessionFailed => self.session_failed is Some,
        }
    }

    /// The event this activity records: `Some(k)` exactly when member `k` is
    /// the one event member set, `None` when none or several are.
    pub fn kind(&self) -> (r: Option<ActivityKind>)
        ensures
            r matches Some(k) ==> self.events_set() == 1 && self.has_event(k),
            r is None <==> self.events_set() != 1,
    {
        let mut count: u8 = 0;
        let mut found: Option<ActivityKind> = None;
        if self.agent_messaged.is_some() {
            count = count + 1;
            found = Some(ActivityKind::AgentMessaged);
        }
        if self.user_messaged.is_some() {
            count = count + 1;
            found = Some(ActivityKind::UserMessaged);
        }
        if self.plan_generated.is_some() {
            count = count + 1;
            found = Some(ActivityKind::PlanGenerated);
        }
        if self.plan_approved.is_some() {
            count = count + 1;
            found = Some(ActivityKind::PlanApproved);
        }
        if self.progress_updated.is_some() {
            count = count + 1;
            found = Some(ActivityKind::ProgressUpdated);
        }
        if self.session_completed.is_some() {
            count = count + 1;
            found = Some(ActivityKind::SessionCompleted);
        }
        if self.session_failed.is_some() {
            count = count + 1;
            found = Some(ActivityKind::SessionFailed);
        }
        if count == 1 {
            found
        } else {
            None
        }
    }
}

/// Which product an artifact holds.
#[derive(Debug, Clone, Copy, PartialEq, Eq, Structural)]
pub enum ArtifactKind {
    ChangeSet,
    Media,
    BashOutput,
}

impl Artifact {
    /// How many of the members are set.
    pub open spec fn members_set(&self) -> int {
        (if self.change_set is Some { 1int } else { 0 }) + (if self.media is Some { 1int } else { 0 }) + (if self.bash_output is Some { 1int } else { 0 })
    }

    /// Whether member `k` is set.
    pub open spec fn has_member(&self, k: ArtifactKind) -> bool {
        match k {
            ArtifactKind::ChangeSet => self.change_set is Some,
            ArtifactKind::Media => self.media is Some,
            ArtifactKind::BashOutput => self.bash_output is Some,
        }
    }

    /// What this artifact holds: `Some(k)` exactly when member `k` is the
    /// one member set, `None` when none or several are.
    pub fn kind(&self) -> (r: Option<ArtifactKind>)
        ensures
            r matches Some(k) ==> self.members_set() == 1 && self.has_member(k),
            r is None <==> self.members_set() != 1,
    {
        match (&self.change_set, &self.media, &self.bash_output) {
            (Some(_), None, None) => Some(ArtifactKind::ChangeSet),
            (None, Some(_), None) => Some(ArtifactKind::Media),
            (None, None, Some(_)) => Some(ArtifactKind::BashOutput),
            _ => None,
        }
    }
}

/// The body of a message sent to a session.
#[derive(Debug, Clone)]
pub struct SendMessageRequest {
    pub prompt: String,
}

/// The body of a plan approval.
#[derive(Debug, Clone)]
pub struct ApprovePlanRequest {}

/// The body of a reply that carries nothing.
#[derive(Debug, Clone)]
pub struct Empty {}

} // verus!
