use rfcbot::{
    fcp_key, index_fcps, u64_to_decimal, FcpIndex, FCPIssue, FullFCP, StatusComment, FCP,
};

fn record(repository: &str, number: u32, title: &str, id: u32) -> FullFCP {
    FullFCP {
        fcp: FCP {
            id,
            fk_issue: number,
            fk_initiator: 1,
            fk_initiating_comment: 2,
            disposition: None,
            fk_bot_tracking_comment: 3,
            fcp_start: None,
            fcp_closed: false,
        },
        reviews: vec![],
        issue: FCPIssue {
            id: number,
            number,
            fk_milestone: None,
            fk_user: 1,
            fk_assignee: None,
            open: true,
            is_pull_request: true,
            title: title.to_string(),
            body: String::new(),
            locked: false,
            closed_at: None,
            created_at: None,
            updated_at: None,
            labels: vec![],
            repository: repository.to_string(),
        },
        status_comment: StatusComment {
            id: 5,
            fk_issue: number,
            fk_user: 1,
            body: String::new(),
            created_at: "2021-05-05".to_string(),
            updated_at: None,
            repository: repository.to_string(),
        },
    }
}

#[test]
fn key_is_repository_number_title() {
    let r = record("rust-lang/rust", 12345, "Stabilize a thing", 1);
    assert_eq!(fcp_key(&r), "rust-lang/rust:12345:Stabilize a thing");
}

#[test]
fn key_with_number_zero_and_empty_title() {
    let r = record("a/b", 0, "", 1);
    assert_eq!(fcp_key(&r), "a/b:0:");
}

#[test]
fn decimal_rendering() {
    assert_eq!(u64_to_decimal(0), "0");
    assert_eq!(u64_to_decimal(7), "7");
    assert_eq!(u64_to_decimal(10), "10");
    assert_eq!(u64_to_decimal(555), "555");
    assert_eq!(u64_to_decimal(u64::MAX), "18446744073709551615");
}

#[test]
fn empty_batch_gives_empty_index() {
    let index = index_fcps(vec![]);
    assert_eq!(index.len(), 0);
    assert!(index.into_entries().is_empty());
}

#[test]
fn distinct_keys_all_kept() {
    let index = index_fcps(vec![
        record("rust-lang/rust", 1, "One", 100),
        record("rust-lang/rust", 2, "Two", 200),
        record("rust-lang/rfcs", 1, "One", 300),
    ]);
    assert_eq!(index.len(), 3);
    let got = index.get(&"rust-lang/rfcs:1:One".to_string()).unwrap();
    assert_eq!(got.fcp.id, 300);
    let got = index.get(&"rust-lang/rust:2:Two".to_string()).unwrap();
    assert_eq!(got.fcp.id, 200);
    assert!(index.get(&"rust-lang/rust:3:Three".to_string()).is_none());
}

#[test]
fn same_number_other_title_is_another_key() {
    let index = index_fcps(vec![
        record("rust-lang/rust", 1, "One", 100),
        record("rust-lang/rust", 1, "Renamed", 200),
    ]);
    assert_eq!(index.len(), 2);
}

#[test]
fn duplicate_key_keeps_last_record() {
    let index = index_fcps(vec![
        record("rust-lang/rust", 1, "One", 100),
        record("rust-lang/rust", 2, "Two", 200),
        record("rust-lang/rust", 1, "One", 300),
        record("rust-lang/rust", 1, "One", 400),
    ]);
    assert_eq!(index.len(), 2);
    let got = index.get(&"rust-lang/rust:1:One".to_string()).unwrap();
    assert_eq!(got.fcp.id, 400);
    let entries = index.into_entries();
    assert_eq!(entries.len(), 2);
    let ids: Vec<u32> = entries.iter().map(|(_, r)| r.fcp.id).collect();
    assert!(ids.contains(&400));
    assert!(ids.contains(&200));
    assert!(!ids.contains(&100));
    assert!(!ids.contains(&300));
}

#[test]
fn insert_replaces_stored_record() {
    let mut index = FcpIndex::new();
    index.insert("k".to_string(), record("a/b", 1, "x", 1));
    index.insert("j".to_string(), record("a/b", 2, "y", 2));
    index.insert("k".to_string(), record("a/b", 3, "z", 3));
    assert_eq!(index.len(), 2);
    assert_eq!(index.get(&"k".to_string()).unwrap().fcp.id, 3);
    assert_eq!(index.get(&"j".to_string()).unwrap().fcp.id, 2);
}
