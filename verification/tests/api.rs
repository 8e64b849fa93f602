use ario::api::{
    delete_completed_downloads, delete_queue, delete_queue_outcome, list_downloads, pause_queue,
    reorder_queue, ApiBody, DeleteQueueOutcome, HttpMethod,
};
use ario::download::DownloadFilter;
use ario::enums::{DownloadStatus, FileCategory};

#[test]
fn queue_requests_put_the_id_in_the_path() {
    let r = pause_queue("http://h", 7);
    assert_eq!(r.method, HttpMethod::Post);
    assert_eq!(r.url, "http://h/queues/7/pause");
    let d = delete_queue("http://h", -3, false);
    assert_eq!(d.url, "http://h/queues/-3");
    assert_eq!(d.query, vec![("delete_downloads".to_string(), "false".to_string())]);
    let o = reorder_queue("http://h", 2, &[5, 4]);
    assert_eq!(o.body, ApiBody::OrderedIds(vec![5, 4]));
}

#[test]
fn filters_become_query_pairs() {
    let filter = DownloadFilter {
        queue_id: Some(2),
        category: Some(FileCategory::Video),
        ..DownloadFilter::default()
    };
    let r = list_downloads("http://h", &filter).unwrap();
    assert_eq!(r.method, HttpMethod::Get);
    assert_eq!(
        r.query,
        vec![
            ("queue_id".to_string(), "2".to_string()),
            ("category".to_string(), "Video".to_string()),
            ("sort_desc".to_string(), "false".to_string()),
        ]
    );
    let bad = DownloadFilter {
        status: Some(DownloadStatus::Error("x".into())),
        ..DownloadFilter::default()
    };
    assert!(list_downloads("http://h", &bad).is_none());
    assert!(delete_completed_downloads("http://h", None).query.is_empty());
}

#[test]
fn conflict_asks_for_confirmation_only_when_downloads_are_kept() {
    assert_eq!(delete_queue_outcome(409, false), Ok(DeleteQueueOutcome::NeedsConfirmation));
    assert_eq!(delete_queue_outcome(409, true), Err(409));
    assert_eq!(delete_queue_outcome(204, false), Ok(DeleteQueueOutcome::Deleted));
    assert_eq!(delete_queue_outcome(500, false), Err(500));
}
