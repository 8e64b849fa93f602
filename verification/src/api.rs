//! The daemon's HTTP API as the terminal client uses it: which request each
//! operation sends, and what the answers mean. The caller performs the
//! request and encodes any JSON body from the value it passed in.
use vstd::prelude::*;
use crate::enums::{DownloadStatus, SortField, status_name, category_name, category_to_str};
use crate::download::DownloadFilter;
use crate::finetune::Aria2GlobalOptions;
use crate::text::{push_str, signed_decimal, signed_decimal_string};

verus! {

#[derive(Clone, Copy, Debug, PartialEq, Eq, Structural)]
pub enum HttpMethod {
    Get,
    Post,
    Put,
    Delete,
}

/// What goes in the request body.
#[derive(Clone, Debug, PartialEq, Eq)]
pub enum ApiBody {
    Empty,
    /// The JSON encoding of the request value handed to the operation.
    Json,
    /// `{"ordered_ids": [...]}`
    OrderedIds(Vec<i64>),
    /// `{"queue_id": ...}`
    QueueId(i64),
}

/// One HTTP request to the daemon.
#[derive(Clone, Debug)]
pub struct ApiRequest {
    pub method: HttpMethod,
    pub url: String,
    /// Query pairs, in order, before URL encoding.
    pub query: Vec<(String, String)>,
    pub body: ApiBody,
}

pub open spec fn pairs_view(v: Seq<(String, String)>) -> Seq<(Seq<char>, Seq<char>)> {
    v.map_values(|p: (String, String)| (p.0@, p.1@))
}

/// The request as plain values: method, URL, query pairs.
pub open spec fn request_view(r: ApiRequest) -> (HttpMethod, Seq<char>, Seq<(Seq<char>, Seq<char>)>) {
    (r.method, r.url@, pairs_view(r.query@))
}

pub open spec fn no_query() -> Seq<(Seq<char>, Seq<char>)> {
    Seq::empty()
}

fn url_of(base: &str, path: &str) -> (r: String)
    ensures
        r@ == base@ + path@,
{
    let mut u = base.to_owned();
    push_str(&mut u, path);
    u
}

fn url_with_id(base: &str, prefix: &str, id: i64, suffix: &str) -> (r: String)
    ensures
        r@ == base@ + prefix@ + signed_decimal(id as int) + suffix@,
{
    let mut u = base.to_owned();
    push_str(&mut u, prefix);
    let n = signed_decimal_string(id);
    push_str(&mut u, n.as_str());
    push_str(&mut u, suffix);
    u
}

fn url_id(base: &str, prefix: &str, id: i64) -> (r: String)
    ensures
        r@ == base@ + prefix@ + signed_decimal(id as int),
{
    let mut u = base.to_owned();
    push_str(&mut u, prefix);
    let n = signed_decimal_string(id);
    push_str(&mut u, n.as_str());
    u
}

fn plain(method: HttpMethod, url: String, body: ApiBody) -> (r: ApiRequest)
    ensures
        request_view(r) == (method, url@, no_query()),
        r.body == body,
{
    let r = ApiRequest { method, url, query: Vec::new(), body };
    assert(pairs_view(r.query@) =~= no_query());
    r
}

pub open spec fn sort_field_name(f: SortField) -> Seq<char> {
    match f {
        SortField::CreatedAt => "CreatedAt"@,
        SortField::Size => "Size"@,
        SortField::Name => "Name"@,
        SortField::QueuePosition => "QueuePosition"@,
    }
}

fn sort_field_str(f: SortField) -> (r: &'static str)
    ensures
        r@ == sort_field_name(f),
{
    match f {
        SortField::CreatedAt => "CreatedAt",
        SortField::Size => "Size",
        SortField::Name => "Name",
        SortField::QueuePosition => "QueuePosition",
    }
}

pub open spec fn bool_text(b: bool) -> Seq<char> {
    if b {
        "true"@
    } else {
        "false"@
    }
}

fn bool_str(b: bool) -> (r: &'static str)
    ensures
        r@ == bool_text(b),
{
    if b {
        "true"
    } else {
        "false"
    }
}

pub open spec fn pair_if(key: Seq<char>, value: Option<Seq<char>>) -> Seq<(Seq<char>, Seq<char>)> {
    match value {
        Some(v) => seq![(key, v)],
        None => Seq::empty(),
    }
}

/// A filter as URL query pairs, field by field; an unset field is left
/// out. An error status carries a message and has no query form.
pub open spec fn filter_query(f: DownloadFilter) -> Option<Seq<(Seq<char>, Seq<char>)>> {
    if f.status matches Some(DownloadStatus::Error(_)) {
        None
    } else {
        Some(
            pair_if(
                "queue_id"@,
                match f.queue_id {
                    Some(q) => Some(signed_decimal(q as int)),
                    None => None,
                },
            ) + pair_if(
                "status"@,
                match f.status {
                    Some(s) => Some(status_name(s)),
                    None => None,
                },
            ) + pair_if(
                "category"@,
                match f.category {
                    Some(c) => Some(category_name(c)),
                    None => None,
                },
            ) + pair_if(
                "sort_by"@,
                match f.sort_by {
                    Some(s) => Some(sort_field_name(s)),
                    None => None,
                },
            ) + seq![("sort_desc"@, bool_text(f.sort_desc))],
        )
    }
}

fn push_pair(v: &mut Vec<(String, String)>, key: &str, value: String)
    ensures
        pairs_view(final(v)@) == pairs_view(old(v)@).push((key@, value@)),
{
    let k = key.to_owned();
    let ghost p = (k, value);
    v.push((k, value));
    assert(pairs_view(old(v)@.push(p)) =~= pairs_view(old(v)@).push((key@, value@)));
}

/// `GET /downloads`, filtered; `None` when the filter cannot be put in a
/// query (an error status).
pub fn list_downloads(base: &str, filter: &DownloadFilter) -> (r: Option<ApiRequest>)
    ensures
        filter_query(*filter) is None ==> r is None,
        filter_query(*filter) matches Some(q) ==> (r matches Some(req) && request_view(req) == (
            HttpMethod::Get,
            base@ + "/downloads"@,
            q,
        ) && req.body == ApiBody::Empty),
{
    let mut query: Vec<(String, String)> = Vec::new();
    assert(pairs_view(query@) =~= no_query());
    match filter.queue_id {
        Some(q) => push_pair(&mut query, "queue_id", signed_decimal_string(q)),
        None => {},
    }
    let ghost a = pairs_view(query@);
    match &filter.status {
        Some(DownloadStatus::Error(_)) => {
            return None;
        },
        Some(s) => {
            let (name, _) = crate::enums::status_to_str(s);
            push_pair(&mut query, "status", name.to_owned());
        },
        None => {},
    }
    let ghost b = pairs_view(query@);
    match filter.category {
        Some(c) => push_pair(&mut query, "category", category_to_str(&c).to_owned()),
        None => {},
    }
    let ghost c = pairs_view(query@);
    match filter.sort_by {
        Some(s) => push_pair(&mut query, "sort_by", sort_field_str(s).to_owned()),
        None => {},
    }
    push_pair(&mut query, "sort_desc", bool_str(filter.sort_desc).to_owned());
    assert(pairs_view(query@) =~= filter_query(*filter)->0);
    Some(ApiRequest { method: HttpMethod::Get, url: url_of(base, "/downloads"), query, body: ApiBody::Empty })
}

/// `POST /downloads` with the request as JSON.
pub fn add_downloads(base: &str) -> (r: ApiRequest)
    ensures
        request_view(r) == (HttpMethod::Post, base@ + "/downloads"@, no_query()),
        r.body == ApiBody::Json,
{
    plain(HttpMethod::Post, url_of(base, "/downloads"), ApiBody::Json)
}

/// `GET /queues`.
pub fn list_queues(base: &str) -> (r: ApiRequest)
    ensures
        request_view(r) == (HttpMethod::Get, base@ + "/queues"@, no_query()),
        r.body == ApiBody::Empty,
{
    plain(HttpMethod::Get, url_of(base, "/queues"), ApiBody::Empty)
}

/// `POST /queues/{id}/pause`.
pub fn pause_queue(base: &str, queue_id: i64) -> (r: ApiRequest)
    ensures
        request_view(r) == (
            HttpMethod::Post,
            base@ + "/queues/"@ + signed_decimal(queue_id as int) + "/pause"@,
            no_query(),
        ),
        r.body == ApiBody::Empty,
{
    plain(HttpMethod::Post, url_with_id(base, "/queues/", queue_id, "/pause"), ApiBody::Empty)
}

/// `POST /queues/{id}/resume`.
pub fn resume_queue(base: &str, queue_id: i64) -> (r: ApiRequest)
    ensures
        request_view(r) == (
            HttpMethod::Post,
            base@ + "/queues/"@ + signed_decimal(queue_id as int) + "/resume"@,
            no_query(),
        ),
        r.body == ApiBody::Empty,
{
    plain(HttpMethod::Post, url_with_id(base, "/queues/", queue_id, "/resume"), ApiBody::Empty)
}

/// How a queue deletion ended.
#[derive(Clone, Copy, Debug, PartialEq, Eq, Structural)]
pub enum DeleteQueueOutcome {
    Deleted,
    /// The queue holds downloads; deleting them too needs a confirmation.
    NeedsConfirmation,
}

/// `DELETE /queues/{id}?delete_downloads=...`.
pub fn delete_queue(base: &str, queue_id: i64, delete_downloads: bool) -> (r: ApiRequest)
    ensures
        request_view(r) == (
            HttpMethod::Delete,
            base@ + "/queues/"@ + signed_decimal(queue_id as int),
            seq![("delete_downloads"@, bool_text(delete_downloads))],
        ),
        r.body == ApiBody::Empty,
{
    let mut query: Vec<(String, String)> = Vec::new();
    assert(pairs_view(query@) =~= no_query());
    push_pair(&mut query, "delete_downloads", bool_str(delete_downloads).to_owned());
    ApiRequest {
        method: HttpMethod::Delete,
        url: url_id(base, "/queues/", queue_id),
        query,
        body: ApiBody::Empty,
    }
}

/// A response status that `error_for_status` turns into an error.
pub open spec fn is_error_status(status: u16) -> bool {
    400 <= status <= 599
}

/// The meaning of the answer to a queue deletion: a conflict to a request
/// that kept the downloads asks for confirmation; any other client or
/// server error is an error (its status is returned).
pub fn delete_queue_outcome(status: u16, delete_downloads: bool) -> (r: Result<DeleteQueueOutcome, u16>)
    ensures
        status == 409 && !delete_downloads ==> r == Ok::<DeleteQueueOutcome, u16>(
            DeleteQueueOutcome::NeedsConfirmation,
        ),
        !(status == 409 && !delete_downloads) && is_error_status(status) ==> r == Err::<
            DeleteQueueOutcome,
            u16,
        >(status),
        !(status == 409 && !delete_downloads) && !is_error_status(status) ==> r == Ok::<
            DeleteQueueOutcome,
            u16,
        >(DeleteQueueOutcome::Deleted),
{
    if status == 409 && !delete_downloads {
        Ok(DeleteQueueOutcome::NeedsConfirmation)
    } else if 400 <= status && status <= 599 {
        Err(status)
    } else {
        Ok(DeleteQueueOutcome::Deleted)
    }
}

/// The daemon's answer to `GET /health`.
#[derive(Clone, Debug)]
pub struct HealthResponse {
    pub server: String,
    pub aria2_reachable: bool,
    pub tui_managed: bool,
    pub download_speed: u64,
    pub active_downloads: u64,
    pub aria2_global_options: Option<Aria2GlobalOptions>,
}

/// `GET /health`.
pub fn health(base: &str) -> (r: ApiRequest)
    ensures
        request_view(r) == (HttpMethod::Get, base@ + "/health"@, no_query()),
        r.body == ApiBody::Empty,
{
    plain(HttpMethod::Get, url_of(base, "/health"), ApiBody::Empty)
}

/// `POST /shutdown-if-idle`.
pub fn shutdown_if_idle(base: &str) -> (r: ApiRequest)
    ensures
        request_view(r) == (HttpMethod::Post, base@ + "/shutdown-if-idle"@, no_query()),
        r.body == ApiBody::Empty,
{
    plain(HttpMethod::Post, url_of(base, "/shutdown-if-idle"), ApiBody::Empty)
}

/// `POST /shutdown`.
pub fn shutdown(base: &str) -> (r: ApiRequest)
    ensures
        request_view(r) == (HttpMethod::Post, base@ + "/shutdown"@, no_query()),
        r.body == ApiBody::Empty,
{
    plain(HttpMethod::Post, url_of(base, "/shutdown"), ApiBody::Empty)
}

/// `POST /downloads/{id}/pause`.
pub fn pause_download(base: &str, id: i64) -> (r: ApiRequest)
    ensures
        request_view(r) == (
            HttpMethod::Post,
            base@ + "/downloads/"@ + signed_decimal(id as int) + "/pause"@,
            no_query(),
        ),
        r.body == ApiBody::Empty,
{
    plain(HttpMethod::Post, url_with_id(base, "/downloads/", id, "/pause"), ApiBody::Empty)
}

/// `POST /downloads/{id}/resume`.
pub fn resume_download(base: &str, id: i64) -> (r: ApiRequest)
    ensures
        request_view(r) == (
            HttpMethod::Post,
            base@ + "/downloads/"@ + signed_decimal(id as int) + "/resume"@,
            no_query(),
        ),
        r.body == ApiBody::Empty,
{
    plain(HttpMethod::Post, url_with_id(base, "/downloads/", id, "/resume"), ApiBody::Empty)
}

/// `DELETE /downloads/{id}`: the record goes, the files stay.
pub fn delete_download(base: &str, id: i64) -> (r: ApiRequest)
    ensures
        request_view(r) == (
            HttpMethod::Delete,
            base@ + "/downloads/"@ + signed_decimal(id as int),
            no_query(),
        ),
        r.body == ApiBody::Empty,
{
    plain(HttpMethod::Delete, url_id(base, "/downloads/", id), ApiBody::Empty)
}

/// `DELETE /downloads/{id}?delete_files=true`.
pub fn delete_download_files(base: &str, id: i64) -> (r: ApiRequest)
    ensures
        request_view(r) == (
            HttpMethod::Delete,
            base@ + "/downloads/"@ + signed_decimal(id as int),
            seq![("delete_files"@, "true"@)],
        ),
        r.body == ApiBody::Empty,
{
    let mut query: Vec<(String, String)> = Vec::new();
    assert(pairs_view(query@) =~= no_query());
    push_pair(&mut query, "delete_files", "true".to_owned());
    ApiRequest {
        method: HttpMethod::Delete,
        url: url_id(base, "/downloads/", id),
        query,
        body: ApiBody::Empty,
    }
}

/// `DELETE /downloads/completed`, for one queue or for all.
pub fn delete_completed_downloads(base: &str, queue_id: Option<i64>) -> (r: ApiRequest)
    ensures
        request_view(r) == (
            HttpMethod::Delete,
            base@ + "/downloads/completed"@,
            pair_if(
                "queue_id"@,
                match queue_id {
                    Some(q) => Some(signed_decimal(q as int)),
                    None => None,
                },
            ),
        ),
        r.body == ApiBody::Empty,
{
    let mut query: Vec<(String, String)> = Vec::new();
    assert(pairs_view(query@) =~= no_query());
    match queue_id {
        Some(q) => push_pair(&mut query, "queue_id", signed_decimal_string(q)),
        None => {},
    }
    assert(pairs_view(query@) =~= pair_if(
        "queue_id"@,
        match queue_id {
            Some(q) => Some(signed_decimal(q as int)),
            None => None,
        },
    ));
    ApiRequest {
        method: HttpMethod::Delete,
        url: url_of(base, "/downloads/completed"),
        query,
        body: ApiBody::Empty,
    }
}

/// `POST /queues` with the new queue as JSON.
pub fn create_queue(base: &str) -> (r: ApiRequest)
    ensures
        request_view(r) == (HttpMethod::Post, base@ + "/queues"@, no_query()),
        r.body == ApiBody::Json,
{
    plain(HttpMethod::Post, url_of(base, "/queues"), ApiBody::Json)
}

/// `PUT /queues/{id}` with the changes as JSON.
pub fn update_queue(base: &str, id: i64) -> (r: ApiRequest)
    ensures
        request_view(r) == (
            HttpMethod::Put,
            base@ + "/queues/"@ + signed_decimal(id as int),
            no_query(),
        ),
        r.body == ApiBody::Json,
{
    plain(HttpMethod::Put, url_id(base, "/queues/", id), ApiBody::Json)
}

/// `PUT /queues/{id}/reorder` with the downloads' new order.
pub fn reorder_queue(base: &str, queue_id: i64, ordered_ids: &[i64]) -> (r: ApiRequest)
    ensures
        request_view(r) == (
            HttpMethod::Put,
            base@ + "/queues/"@ + signed_decimal(queue_id as int) + "/reorder"@,
            no_query(),
        ),
        r.body matches ApiBody::OrderedIds(ids) && ids@ == ordered_ids@,
{
    let mut ids: Vec<i64> = Vec::new();
    let mut i: usize = 0;
    while i < ordered_ids.len()
        invariant
            i <= ordered_ids@.len(),
            ids@ == ordered_ids@.take(i as int),
        decreases ordered_ids@.len() - i,
    {
        ids.push(ordered_ids[i]);
        assert(ordered_ids@.take(i + 1) =~= ordered_ids@.take(i as int).push(ordered_ids@[i as int]));
        i = i + 1;
    }
    assert(ordered_ids@.take(i as int) =~= ordered_ids@);
    plain(
        HttpMethod::Put,
        url_with_id(base, "/queues/", queue_id, "/reorder"),
        ApiBody::OrderedIds(ids),
    )
}

/// `PUT /downloads/{id}/finetune` with the tuning as JSON.
pub fn update_finetune(base: &str, id: i64) -> (r: ApiRequest)
    ensures
        request_view(r) == (
            HttpMethod::Put,
            base@ + "/downloads/"@ + signed_decimal(id as int) + "/finetune"@,
            no_query(),
        ),
        r.body == ApiBody::Json,
{
    plain(HttpMethod::Put, url_with_id(base, "/downloads/", id, "/finetune"), ApiBody::Json)
}

/// `PUT /downloads/{id}/queue` moving the download to another queue.
pub fn move_download_queue(base: &str, id: i64, queue_id: i64) -> (r: ApiRequest)
    ensures
        request_view(r) == (
            HttpMethod::Put,
            base@ + "/downloads/"@ + signed_decimal(id as int) + "/queue"@,
            no_query(),
        ),
        r.body == ApiBody::QueueId(queue_id),
{
    plain(HttpMethod::Put, url_with_id(base, "/downloads/", id, "/queue"), ApiBody::QueueId(queue_id))
}

/// The body of `PUT /queues/{id}/reorder`.
#[derive(Clone, Debug)]
pub struct ReorderRequest {
    pub ordered_ids: Vec<i64>,
}

} // verus!
