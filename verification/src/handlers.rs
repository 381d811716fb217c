//! Resource handlers: one function per operation, each invoking the
//! store once and reporting the outcome as a status with a body.
//!
//! The one piece of explicit policy lives here: a successful operation
//! reports 200 with the resource or collection, an absent row reports
//! 404, and any other persistence fault reports 500. A route that
//! carries a body but arrives without one reports 400, and an unmatched
//! route 404; neither touches the store.

use vstd::prelude::*;
use crate::article::{Article, ArticleDraft, DraftView};
use crate::router::{spec_route, route, Method, Route};
use crate::store::{ArticleStore, StoreError, StoreModel};

verus! {

pub const STATUS_OK: u16 = 200;

pub const STATUS_BAD_REQUEST: u16 = 400;

pub const STATUS_NOT_FOUND: u16 = 404;

pub const STATUS_INTERNAL_SERVER_ERROR: u16 = 500;

/// The status a failed persistence operation reports: 404 for an absent
/// row, 500 for anything else.
pub open spec fn spec_error_status(e: StoreError) -> u16 {
    match e {
        StoreError::NotFound => STATUS_NOT_FOUND,
        StoreError::StorageError => STATUS_INTERNAL_SERVER_ERROR,
    }
}

/// Maps a persistence fault to the status it reports.
pub fn error_status(e: StoreError) -> (s: u16)
    ensures
        s == spec_error_status(e),
{
    match e {
        StoreError::NotFound => STATUS_NOT_FOUND,
        StoreError::StorageError => STATUS_INTERNAL_SERVER_ERROR,
    }
}

/// What a response carries besides its status.
#[derive(Debug)]
pub enum ResponseBody {
    /// A single resource.
    OneArticle(Article),
    /// The whole collection.
    AllArticles(Vec<Article>),
    /// A fixed text or acknowledgement message.
    Message(String),
    /// Nothing beyond the status.
    Empty,
}

/// A handler's outcome: a status code and a body.
#[derive(Debug)]
pub struct Response {
    pub status: u16,
    pub body: ResponseBody,
}

/// `GET /`: the fixed greeting.
pub fn root() -> (r: &'static str)
    ensures
        r@ == "Hello, World!"@,
{
    "Hello, World!"
}

/// `GET /login`: an unimplemented placeholder, a fixed acknowledgement.
pub fn login() -> (r: Response)
    ensures
        r.status == STATUS_OK,
        r.body matches ResponseBody::Message(m) && m@ == "Login endpoint"@,
{
    Response { status: STATUS_OK, body: ResponseBody::Message("Login endpoint".to_owned()) }
}

/// `GET /register`: an unimplemented placeholder, a fixed acknowledgement.
pub fn register() -> (r: Response)
    ensures
        r.status == STATUS_OK,
        r.body matches ResponseBody::Message(m) && m@ == "Register endpoint"@,
{
    Response { status: STATUS_OK, body: ResponseBody::Message("Register endpoint".to_owned()) }
}

/// `GET /categories`: an unimplemented placeholder, a fixed
/// acknowledgement; categories have no operations yet.
pub fn list_categories() -> (r: Response)
    ensures
        r.status == STATUS_OK,
        r.body matches ResponseBody::Message(m) && m@ == "Categories endpoint"@,
{
    Response { status: STATUS_OK, body: ResponseBody::Message("Categories endpoint".to_owned()) }
}

/// `GET /articles`: every persisted row, in insertion order, with 200.
pub fn list_articles(store: &ArticleStore) -> (r: Response)
    requires
        store.wf(),
    ensures
        r.status == STATUS_OK,
        r.body matches ResponseBody::AllArticles(v) && v@.map_values(|a: Article| a@)
            == store@.rows,
{
    let rows = store.list_articles();
    let n = rows.len();
    let mut out: Vec<Article> = Vec::new();
    let mut i: usize = 0;
    while i < n
        invariant
            i <= n,
            n == rows@.len(),
            rows@.map_values(|a: Article| a@) == store@.rows,
            out@.len() == i,
            forall|j: int| 0 <= j < i ==> (#[trigger] out@[j])@ == store@.rows[j],
        decreases n - i,
    {
        out.push(rows[i].duplicate());
        i += 1;
    }
    proof {
        assert(out@.map_values(|a: Article| a@) =~= store@.rows);
    }
    Response { status: STATUS_OK, body: ResponseBody::AllArticles(out) }
}

/// `GET /articles/{id}`: the row with 200 when present, else 404 — an
/// absent row is never reported as a storage fault.
pub fn get_article(store: &ArticleStore, id: u64) -> (r: Response)
    requires
        store.wf(),
    ensures
        store@.has_id(id) ==> r.status == STATUS_OK && (r.body matches ResponseBody::OneArticle(a)
            && a@ == store@.row(id)),
        !store@.has_id(id) ==> r.status == STATUS_NOT_FOUND && r.body is Empty,
{
    match store.get_article(id) {
        Ok(a) => Response { status: STATUS_OK, body: ResponseBody::OneArticle(a.duplicate()) },
        Err(e) => Response { status: error_status(e), body: ResponseBody::Empty },
    }
}

/// `POST /articles`: inserts the draft and reports 200 with the
/// persisted row, generated identifier included; 500 only on a storage
/// fault (identifier exhaustion), which leaves the store unchanged.
pub fn create_article(store: &mut ArticleStore, draft: ArticleDraft) -> (r: Response)
    requires
        old(store).wf(),
    ensures
        final(store).wf(),
        old(store)@.can_assign_id() ==> r.status == STATUS_OK && final(store)@ == old(store)@.create(draft@) && (r.body matches ResponseBody::OneArticle(a) && a@
            == draft@.as_article(old(store)@.next_id)),
        !old(store)@.can_assign_id() ==> r.status == STATUS_INTERNAL_SERVER_ERROR && r.body
            is Empty && final(store)@ == old(store)@,
{
    match store.create_article(draft) {
        Ok(a) => Response { status: STATUS_OK, body: ResponseBody::OneArticle(a) },
        Err(e) => Response { status: error_status(e), body: ResponseBody::Empty },
    }
}

/// `PUT /articles/{id}`: full replacement of the row's mutable fields,
/// 200 with the row as persisted; 404 when the row is absent, which
/// leaves the store unchanged.
pub fn update_article(store: &mut ArticleStore, id: u64, draft: ArticleDraft) -> (r: Response)
    requires
        old(store).wf(),
    ensures
        final(store).wf(),
        old(store)@.has_id(id) ==> r.status == STATUS_OK && final(store)@ == old(store)@.update(
            id,
            draft@,
        ) && (r.body matches ResponseBody::OneArticle(a) && a@ == draft@.as_article(id)),
        !old(store)@.has_id(id) ==> r.status == STATUS_NOT_FOUND && r.body is Empty
            && final(store)@ == old(store)@,
{
    match store.update_article(id, draft) {
        Ok(a) => Response { status: STATUS_OK, body: ResponseBody::OneArticle(a) },
        Err(e) => Response { status: error_status(e), body: ResponseBody::Empty },
    }
}

/// `DELETE /articles/{id}`: removes the row and reports 200 with an
/// acknowledgement; deleting an absent row reports 404, never a false
/// success, and leaves the store unchanged.
pub fn delete_article(store: &mut ArticleStore, id: u64) -> (r: Response)
    requires
        old(store).wf(),
    ensures
        final(store).wf(),
        old(store)@.has_id(id) ==> r.status == STATUS_OK && final(store)@ == old(store)@.delete(id)
            && (r.body matches ResponseBody::Message(msg) && msg@
            == "Article deleted successfully"@),
        !old(store)@.has_id(id) ==> r.status == STATUS_NOT_FOUND && r.body is Empty
            && final(store)@ == old(store)@,
{
    match store.delete_article(id) {
        Ok(()) => Response {
            status: STATUS_OK,
            body: ResponseBody::Message("Article deleted successfully".to_owned()),
        },
        Err(e) => Response { status: error_status(e), body: ResponseBody::Empty },
    }
}

/// The payload as a mathematical value, when one arrived.
pub open spec fn spec_payload_view(p: Option<ArticleDraft>) -> Option<DraftView> {
    match p {
        Some(d) => Some(d@),
        None => None,
    }
}

/// What serving one request does: the store it leaves behind and the
/// status it reports, as a function of the dispatched route, the
/// payload, and the store it found.
pub open spec fn spec_handle(m: StoreModel, rt: Option<Route>, payload: Option<DraftView>) -> (
    StoreModel,
    u16,
) {
    match rt {
        None => (m, STATUS_NOT_FOUND),
        Some(Route::Root) => (m, STATUS_OK),
        Some(Route::Login) => (m, STATUS_OK),
        Some(Route::Register) => (m, STATUS_OK),
        Some(Route::ListCategories) => (m, STATUS_OK),
        Some(Route::ListArticles) => (m, STATUS_OK),
        Some(Route::CreateArticle) => match payload {
            Some(d) => if m.can_assign_id() {
                (m.create(d), STATUS_OK)
            } else {
                (m, STATUS_INTERNAL_SERVER_ERROR)
            },
            None => (m, STATUS_BAD_REQUEST),
        },
        Some(Route::GetArticle(id)) => (
            m,
            if m.has_id(id) {
                STATUS_OK
            } else {
                STATUS_NOT_FOUND
            },
        ),
        Some(Route::UpdateArticle(id)) => match payload {
            Some(d) => if m.has_id(id) {
                (m.update(id, d), STATUS_OK)
            } else {
                (m, STATUS_NOT_FOUND)
            },
            None => (m, STATUS_BAD_REQUEST),
        },
        Some(Route::DeleteArticle(id)) => if m.has_id(id) {
            (m.delete(id), STATUS_OK)
        } else {
            (m, STATUS_NOT_FOUND)
        },
    }
}

/// Serves one request end to end: dispatches on the method and path,
/// runs the single persistence operation the route names, and reports
/// the outcome. Each request is independent; there is no session state.
pub fn handle_request(
    store: &mut ArticleStore,
    method: Method,
    path: &str,
    payload: Option<ArticleDraft>,
) -> (r: Response)
    requires
        old(store).wf(),
    ensures
        final(store).wf(),
        (final(store)@, r.status) == spec_handle(
            old(store)@,
            spec_route(method, path@),
            spec_payload_view(payload),
        ),
        match spec_route(method, path@) {
            Some(Route::GetArticle(id)) => old(store)@.has_id(id) ==> (
            r.body matches ResponseBody::OneArticle(a) && a@ == old(store)@.row(id)),
            Some(Route::ListArticles) => (r.body matches ResponseBody::AllArticles(v)
                && v@.map_values(|a: Article| a@) == old(store)@.rows),
            Some(Route::CreateArticle) => match spec_payload_view(payload) {
                Some(d) => old(store)@.can_assign_id() ==> (
                r.body matches ResponseBody::OneArticle(a) && a@ == d.as_article(
                    old(store)@.next_id,
                )),
                None => true,
            },
            Some(Route::UpdateArticle(id)) => match spec_payload_view(payload) {
                Some(d) => old(store)@.has_id(id) ==> (
                r.body matches ResponseBody::OneArticle(a) && a@ == d.as_article(id)),
                None => true,
            },
            Some(Route::DeleteArticle(id)) => old(store)@.has_id(id) ==> (
            r.body matches ResponseBody::Message(msg) && msg@
                == "Article deleted successfully"@),
            _ => true,
        },
{
    match route(method, path) {
        None => Response { status: STATUS_NOT_FOUND, body: ResponseBody::Empty },
        Some(Route::Root) => Response {
            status: STATUS_OK,
            body: ResponseBody::Message(root().to_owned()),
        },
        Some(Route::Login) => login(),
        Some(Route::Register) => register(),
        Some(Route::ListCategories) => list_categories(),
        Some(Route::ListArticles) => list_articles(store),
        Some(Route::CreateArticle) => match payload {
            Some(d) => create_article(store, d),
            None => Response { status: STATUS_BAD_REQUEST, body: ResponseBody::Empty },
        },
        Some(Route::GetArticle(id)) => get_article(store, id),
        Some(Route::UpdateArticle(id)) => match payload {
            Some(d) => update_article(store, id, d),
            None => Response { status: STATUS_BAD_REQUEST, body: ResponseBody::Empty },
        },
        Some(Route::DeleteArticle(id)) => delete_article(store, id),
    }
}

} // verus!
