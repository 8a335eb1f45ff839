//! The repository event types that every hook registration subscribes to.
use vstd::prelude::*;

verus! {

/// A repository event type that a hook can subscribe to.
#[derive(PartialEq, Eq, Structural, Clone, Copy, Debug)]
pub enum WebhookEvent {
    BranchProtectionRule,
    CheckRun,
    CheckSuite,
    CodeScanningAlert,
    CommitComment,
    Create,
    Delete,
    DependabotAlert,
    DeployKey,
    Deployment,
    DeploymentStatus,
    Discussion,
    DiscussionComment,
    Fork,
    Gollum,
    IssueComment,
    Issues,
    Label,
    Member,
    MergeGroup,
    Meta,
    Milestone,
    Package,
    PageBuild,
    Ping,
    ProjectCard,
    Project,
    ProjectColumn,
    Public,
    PullRequest,
    PullRequestReviewComment,
    PullRequestReview,
    PullRequestReviewThread,
    Push,
    RegistryPackage,
    Release,
    RepositoryAdvisory,
    Repository,
    RepositoryImport,
    RepositoryVulnerabilityAlert,
    SecretScanningAlert,
    SecretScanningAlertLocation,
    SecurityAndAnalysis,
    Star,
    Status,
    TeamAdd,
    Watch,
}

/// The fixed catalog of subscribed event types, in registration order.
pub open spec fn event_catalog() -> Seq<WebhookEvent> {
    seq![
        WebhookEvent::BranchProtectionRule,
        WebhookEvent::CheckRun,
        WebhookEvent::CheckSuite,
        WebhookEvent::CodeScanningAlert,
        WebhookEvent::CommitComment,
        WebhookEvent::Create,
        WebhookEvent::Delete,
        WebhookEvent::DependabotAlert,
        WebhookEvent::DeployKey,
        WebhookEvent::Deployment,
        WebhookEvent::DeploymentStatus,
        WebhookEvent::Discussion,
        WebhookEvent::DiscussionComment,
        WebhookEvent::Fork,
        WebhookEvent::Gollum,
        WebhookEvent::IssueComment,
        WebhookEvent::Issues,
        WebhookEvent::Label,
        WebhookEvent::Member,
        WebhookEvent::MergeGroup,
        WebhookEvent::Meta,
        WebhookEvent::Milestone,
        WebhookEvent::Package,
        WebhookEvent::PageBuild,
        WebhookEvent::Ping,
        WebhookEvent::ProjectCard,
        WebhookEvent::Project,
        WebhookEvent::ProjectColumn,
        WebhookEvent::Public,
        WebhookEvent::PullRequest,
        WebhookEvent::PullRequestReviewComment,
        WebhookEvent::PullRequestReview,
        WebhookEvent::PullRequestReviewThread,
        WebhookEvent::Push,
        WebhookEvent::RegistryPackage,
        WebhookEvent::Release,
        WebhookEvent::RepositoryAdvisory,
        WebhookEvent::Repository,
        WebhookEvent::RepositoryImport,
        WebhookEvent::RepositoryVulnerabilityAlert,
        WebhookEvent::SecretScanningAlert,
        WebhookEvent::SecretScanningAlertLocation,
        WebhookEvent::SecurityAndAnalysis,
        WebhookEvent::Star,
        WebhookEvent::Status,
        WebhookEvent::TeamAdd,
        WebhookEvent::Watch,
    ]
}

/// Builds the catalog of subscribed event types.
pub fn webhook_events() -> (r: Vec<WebhookEvent>)
    ensures
        r@ == event_catalog(),
{
    let r: Vec<WebhookEvent> = vec![
        WebhookEvent::BranchProtectionRule,
        WebhookEvent::CheckRun,
        WebhookEvent::CheckSuite,
        WebhookEvent::CodeScanningAlert,
        WebhookEvent::CommitComment,
        WebhookEvent::Create,
        WebhookEvent::Delete,
        WebhookEvent::DependabotAlert,
        WebhookEvent::DeployKey,
        WebhookEvent::Deployment,
        WebhookEvent::DeploymentStatus,
        WebhookEvent::Discussion,
        WebhookEvent::DiscussionComment,
        WebhookEvent::Fork,
        WebhookEvent::Gollum,
        WebhookEvent::IssueComment,
        WebhookEvent::Issues,
        WebhookEvent::Label,
        WebhookEvent::Member,
        WebhookEvent::MergeGroup,
        WebhookEvent::Meta,
        WebhookEvent::Milestone,
        WebhookEvent::Package,
        WebhookEvent::PageBuild,
        WebhookEvent::Ping,
        WebhookEvent::ProjectCard,
        WebhookEvent::Project,
        WebhookEvent::ProjectColumn,
        WebhookEvent::Public,
        WebhookEvent::PullRequest,
        WebhookEvent::PullRequestReviewComment,
        WebhookEvent::PullRequestReview,
        WebhookEvent::PullRequestReviewThread,
        WebhookEvent::Push,
        WebhookEvent::RegistryPackage,
        WebhookEvent::Release,
        WebhookEvent::RepositoryAdvisory,
        WebhookEvent::Repository,
        WebhookEvent::RepositoryImport,
        WebhookEvent::RepositoryVulnerabilityAlert,
        WebhookEvent::SecretScanningAlert,
        WebhookEvent::SecretScanningAlertLocation,
        WebhookEvent::SecurityAndAnalysis,
        WebhookEvent::Star,
        WebhookEvent::Status,
        WebhookEvent::TeamAdd,
        WebhookEvent::Watch,
    ];
    assert(r@ =~= event_catalog());
    r
}

} // verus!
