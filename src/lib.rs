//! A typed client library for the Jules REST API.
//!
//! The library decides everything that a call to the service involves:
//! which URL a request goes to, which headers and query parameters it carries,
//! how a response is classified into a value or an error, and how a
//! cursor-paginated listing is turned into a forward-only sequence of items.
//! The network transport and the JSON codec of the record types are driven
//! by the caller, which hands the library plain values and takes plain
//! values back.

pub mod client;
pub mod endpoint;
pub mod error;
pub mod models;
pub mod paginate;
pub mod request;
pub mod response;
pub mod wire;

pub use client::JulesClient;
pub use error::JulesError;
pub use models::{
    Activity, ActivityKind, AgentMessaged, ApprovePlanRequest, Artifact, ArtifactKind, AutomationMode, BashOutput,
    ChangeSet, Empty, GitHubBranch, GitHubRepo, GitHubRepoContext, GitPatch, ListActivitiesResponse,
    ListSessionsResponse, ListSourcesResponse, Media, Plan, PlanApproved, PlanGenerated, PlanStep, ProgressUpdated,
    PullRequest, SendMessageRequest, Session, SessionFailed, SessionOutput, SessionState, Source, SourceContext,
    Timestamp, UserMessaged,
};
pub use paginate::{Page, Paginator, Step};
pub use request::{HttpRequest, Method, QueryValue};
pub use response::response_body;
