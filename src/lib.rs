//! Typed records of final-comment-period (FCP) governance data, the
//! projection of such a record into a display-ready decorator, and the
//! last-write-wins index that keys a batch of records by
//! `repository:number:title`.

mod decimal;
mod decorator;
mod index;
mod records;

pub use decimal::{decimal, digit_char, push_decimal, u64_to_decimal};
pub use decorator::{
    comment_fragment, comment_url, decorator_of, law_decorator_is_deterministic, DecoratorView,
    FCPDecorator,
};
pub use records::{FCPIssue, FullFCP, IssueDecorator, Review, Reviewer, StatusComment, FCP};
pub use index::{
    entries_map, fcp_key, index_fcps, index_of, key_of, keys_distinct, keys_of,
    law_index_last_write_wins, FcpIndex,
};
