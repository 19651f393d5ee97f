//! The records that the decision-tracking service hands out, and the issue
//! summary that a rendering collaborator supplies.

use vstd::prelude::*;

verus! {

/// One final-comment-period decision.
#[derive(Debug, PartialEq)]
pub struct FCP {
    pub id: u32,
    pub fk_issue: u32,
    pub fk_initiator: u32,
    pub fk_initiating_comment: u32,
    pub disposition: Option<String>,
    pub fk_bot_tracking_comment: u32,
    pub fcp_start: Option<String>,
    pub fcp_closed: bool,
}

/// A team member asked to review a decision.
#[derive(Debug, PartialEq)]
pub struct Reviewer {
    pub id: u32,
    pub login: String,
}

/// One team member and whether they have signed off on the decision.
#[derive(Debug, PartialEq)]
pub struct Review {
    pub reviewer: Reviewer,
    pub approved: bool,
}

/// The issue or pull request that a decision is about.
#[derive(Debug, PartialEq)]
pub struct FCPIssue {
    pub id: u32,
    pub number: u32,
    pub fk_milestone: Option<String>,
    pub fk_user: u32,
    pub fk_assignee: Option<u32>,
    pub open: bool,
    pub is_pull_request: bool,
    pub title: String,
    pub body: String,
    pub locked: bool,
    pub closed_at: Option<String>,
    pub created_at: Option<String>,
    pub updated_at: Option<String>,
    pub labels: Vec<String>,
    pub repository: String,
}

/// The comment that the governance bot keeps on the issue to track status.
#[derive(Debug, PartialEq)]
pub struct StatusComment {
    pub id: u64,
    pub fk_issue: u32,
    pub fk_user: u32,
    pub body: String,
    pub created_at: String,
    pub updated_at: Option<String>,
    pub repository: String,
}

/// A decision with its reviews, its issue and its tracking comment.
#[derive(Debug, PartialEq)]
pub struct FullFCP {
    pub fcp: FCP,
    pub reviews: Vec<Review>,
    pub issue: FCPIssue,
    pub status_comment: StatusComment,
}

/// Rendering-ready fields of an issue, as a separate collaborator formats
/// them.
#[derive(Debug, PartialEq)]
pub struct IssueDecorator {
    pub number: u64,
    pub title: String,
    pub html_url: String,
    pub repo_name: String,
    pub labels: String,
    pub assignees: String,
    pub updated_at: String,
}

} // verus!
