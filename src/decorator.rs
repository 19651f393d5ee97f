//! The display-ready projection of a decision.

use vstd::prelude::*;

use crate::decimal::{decimal, u64_to_decimal};
use crate::records::{FullFCP, IssueDecorator};

verus! {

/// A decision projected for rendering: the issue's display fields and
/// links to the two comments that the decision refers to.
#[derive(Debug, PartialEq)]
pub struct FCPDecorator {
    pub number: u64,
    pub title: String,
    pub html_url: String,
    pub repo_name: String,
    pub labels: String,
    pub assignees: String,
    pub updated_at: String,
    pub bot_tracking_comment: String,
    pub bot_tracking_comment_html_url: String,
    pub bot_tracking_comment_content: String,
    pub initiating_comment: String,
    pub initiating_comment_html_url: String,
    pub initiating_comment_content: String,
}

/// The contents of an `FCPDecorator`, each text field as its characters.
pub struct DecoratorView {
    pub number: u64,
    pub title: Seq<char>,
    pub html_url: Seq<char>,
    pub repo_name: Seq<char>,
    pub labels: Seq<char>,
    pub assignees: Seq<char>,
    pub updated_at: Seq<char>,
    pub bot_tracking_comment: Seq<char>,
    pub bot_tracking_comment_html_url: Seq<char>,
    pub bot_tracking_comment_content: Seq<char>,
    pub initiating_comment: Seq<char>,
    pub initiating_comment_html_url: Seq<char>,
    pub initiating_comment_content: Seq<char>,
}

impl View for FCPDecorator {
    type V = DecoratorView;

    open spec fn view(&self) -> DecoratorView {
        DecoratorView {
            number: self.number,
            title: self.title@,
            html_url: self.html_url@,
            repo_name: self.repo_name@,
            labels: self.labels@,
            assignees: self.assignees@,
            updated_at: self.updated_at@,
            bot_tracking_comment: self.bot_tracking_comment@,
            bot_tracking_comment_html_url: self.bot_tracking_comment_html_url@,
            bot_tracking_comment_content: self.bot_tracking_comment_content@,
            initiating_comment: self.initiating_comment@,
            initiating_comment_html_url: self.initiating_comment_html_url@,
            initiating_comment_content: self.initiating_comment_content@,
        }
    }
}

/// The fragment that joins an issue's URL to one of its comments' ids.
pub open spec fn comment_fragment() -> Seq<char> {
    seq!['#', 'i', 's', 's', 'u', 'e', 'c', 'o', 'm', 'm', 'e', 'n', 't', '-']
}

/// The URL of comment `id` on the issue at `issue_url`:
/// `<issue_url>#issuecomment-<id>`.
pub open spec fn comment_url(issue_url: Seq<char>, id: nat) -> Seq<char> {
    issue_url + comment_fragment() + decimal(id)
}

/// What `FCPDecorator::from_issue_fcp` builds from a decision and an issue
/// summary.
pub open spec fn decorator_of(full_fcp: FullFCP, issue: IssueDecorator) -> DecoratorView {
    DecoratorView {
        number: issue.number,
        title: issue.title@,
        html_url: issue.html_url@,
        repo_name: issue.repo_name@,
        labels: issue.labels@,
        assignees: issue.assignees@,
        updated_at: issue.updated_at@,
        bot_tracking_comment: decimal(full_fcp.fcp.fk_bot_tracking_comment as nat),
        bot_tracking_comment_html_url: comment_url(
            issue.html_url@,
            full_fcp.fcp.fk_bot_tracking_comment as nat,
        ),
        bot_tracking_comment_content: Seq::empty(),
        initiating_comment: decimal(full_fcp.fcp.fk_initiating_comment as nat),
        initiating_comment_html_url: comment_url(
            issue.html_url@,
            full_fcp.fcp.fk_initiating_comment as nat,
        ),
        initiating_comment_content: full_fcp.status_comment.body@,
    }
}

/// Builds `<issue_url>#issuecomment-<id>`.
fn make_comment_url(issue_url: &String, id: u32) -> (r: String)
    ensures
        r@ == comment_url(issue_url@, id as nat),
{
    let mut url = issue_url.clone();
    let fragment = "#issuecomment-";
    proof {
        reveal_strlit("#issuecomment-");
        assert(fragment@ =~= comment_fragment());
    }
    url.append(fragment);
    crate::decimal::push_decimal(&mut url, id as u64);
    url
}

impl FCPDecorator {
    /// Projects `full_fcp` into a decorator: the display fields are copied
    /// from `issue_decorator`, and both comment links are that issue's URL
    /// with an `#issuecomment-<id>` fragment. The tracking comment's text is
    /// left empty; the initiating comment's text is the status comment's body.
    pub fn from_issue_fcp(full_fcp: &FullFCP, issue_decorator: &IssueDecorator) -> (r: Self)
        ensures
            r@ == decorator_of(*full_fcp, *issue_decorator),
            r.bot_tracking_comment_html_url@ == comment_url(
                issue_decorator.html_url@,
                full_fcp.fcp.fk_bot_tracking_comment as nat,
            ),
            r.initiating_comment_html_url@ == comment_url(
                issue_decorator.html_url@,
                full_fcp.fcp.fk_initiating_comment as nat,
            ),
            r.bot_tracking_comment_content@ == Seq::<char>::empty(),
            r.initiating_comment_content@ == full_fcp.status_comment.body@,
    {
        let fcp = &full_fcp.fcp;
        FCPDecorator {
            number: issue_decorator.number,
            title: issue_decorator.title.clone(),
            html_url: issue_decorator.html_url.clone(),
            repo_name: issue_decorator.repo_name.clone(),
            labels: issue_decorator.labels.clone(),
            assignees: issue_decorator.assignees.clone(),
            updated_at: issue_decorator.updated_at.clone(),
            bot_tracking_comment: u64_to_decimal(fcp.fk_bot_tracking_comment as u64),
            bot_tracking_comment_html_url: make_comment_url(
                &issue_decorator.html_url,
                fcp.fk_bot_tracking_comment,
            ),
            bot_tracking_comment_content: String::new(),
            initiating_comment: u64_to_decimal(fcp.fk_initiating_comment as u64),
            initiating_comment_html_url: make_comment_url(
                &issue_decorator.html_url,
                fcp.fk_initiating_comment,
            ),
            initiating_comment_content: full_fcp.status_comment.body.clone(),
        }
    }
}

/// Building a decorator is a function of its two inputs alone: two
/// decorators built from the same decision and issue summary agree field
/// for field.
pub proof fn law_decorator_is_deterministic(
    full_fcp: FullFCP,
    issue: IssueDecorator,
    first: FCPDecorator,
    second: FCPDecorator,
)
    requires
        first@ == decorator_of(full_fcp, issue),
        second@ == decorator_of(full_fcp, issue),
    ensures
        first@ == second@,
{
}

} // verus!
