use blog_api::article::ArticleDraft;
use blog_api::handlers::{
    create_article, delete_article, error_status, get_article, handle_request, list_articles,
    list_categories, login, register, root, update_article, Response, ResponseBody,
    STATUS_BAD_REQUEST, STATUS_NOT_FOUND, STATUS_OK,
};
use blog_api::router::Method;
use blog_api::store::{ArticleStore, StoreError};

fn draft(title: &str, body: &str, user_id: Option<i64>) -> ArticleDraft {
    ArticleDraft { title: title.to_owned(), body: body.to_owned(), user_id }
}

fn body_article(r: &Response) -> &blog_api::article::Article {
    match &r.body {
        ResponseBody::OneArticle(a) => a,
        _ => panic!("expected a single article body"),
    }
}

#[test]
fn error_status_mapping_is_exact() {
    assert!(error_status(StoreError::NotFound) == 404);
    assert!(error_status(StoreError::StorageError) == 500);
}

#[test]
fn root_returns_greeting() {
    assert!(root() == "Hello, World!");
}

#[test]
fn placeholder_handlers_acknowledge() {
    let r = login();
    assert!(r.status == STATUS_OK);
    match r.body {
        ResponseBody::Message(m) => assert!(m == "Login endpoint"),
        _ => panic!("expected a message body"),
    }
    let r = register();
    assert!(r.status == STATUS_OK);
    match r.body {
        ResponseBody::Message(m) => assert!(m == "Register endpoint"),
        _ => panic!("expected a message body"),
    }
    let r = list_categories();
    assert!(r.status == STATUS_OK);
    match r.body {
        ResponseBody::Message(m) => assert!(m == "Categories endpoint"),
        _ => panic!("expected a message body"),
    }
}

#[test]
fn create_reports_200_with_persisted_row() {
    let mut store = ArticleStore::new();
    let r = create_article(&mut store, draft("T", "B", Some(4)));
    assert!(r.status == STATUS_OK);
    let a = body_article(&r);
    assert!(a.title == "T");
    assert!(a.body == "B");
    assert!(a.user_id == Some(4));
}

#[test]
fn get_absent_reports_404() {
    let store = ArticleStore::new();
    let r = get_article(&store, 3);
    assert!(r.status == STATUS_NOT_FOUND);
    assert!(matches!(r.body, ResponseBody::Empty));
}

#[test]
fn update_absent_reports_404() {
    let mut store = ArticleStore::new();
    let r = update_article(&mut store, 3, draft("X", "Y", None));
    assert!(r.status == STATUS_NOT_FOUND);
    assert!(matches!(r.body, ResponseBody::Empty));
}

#[test]
fn delete_absent_reports_404_not_false_success() {
    let mut store = ArticleStore::new();
    let r = delete_article(&mut store, 3);
    assert!(r.status == STATUS_NOT_FOUND);
    assert!(matches!(r.body, ResponseBody::Empty));
}

#[test]
fn delete_present_reports_200_with_acknowledgement() {
    let mut store = ArticleStore::new();
    let created = create_article(&mut store, draft("T", "B", None));
    let id = body_article(&created).id;
    let r = delete_article(&mut store, id);
    assert!(r.status == STATUS_OK);
    match r.body {
        ResponseBody::Message(m) => assert!(m == "Article deleted successfully"),
        _ => panic!("expected an acknowledgement message"),
    }
}

#[test]
fn update_then_get_via_handlers_is_full_replacement() {
    let mut store = ArticleStore::new();
    let created = create_article(&mut store, draft("old", "old", Some(9)));
    let id = body_article(&created).id;
    let u = update_article(&mut store, id, draft("X", "Y", None));
    assert!(u.status == STATUS_OK);
    let g = get_article(&store, id);
    assert!(g.status == STATUS_OK);
    let a = body_article(&g);
    assert!(a.title == "X");
    assert!(a.body == "Y");
    assert!(a.user_id == None);
}

#[test]
fn list_reports_every_row() {
    let mut store = ArticleStore::new();
    create_article(&mut store, draft("a", "1", None));
    create_article(&mut store, draft("b", "2", None));
    let r = list_articles(&store);
    assert!(r.status == STATUS_OK);
    match r.body {
        ResponseBody::AllArticles(v) => {
            assert!(v.len() == 2);
            assert!(v[0].title == "a");
            assert!(v[1].title == "b");
        }
        _ => panic!("expected the collection body"),
    }
}

#[test]
fn requests_served_end_to_end() {
    let mut store = ArticleStore::new();

    let r = handle_request(&mut store, Method::Post, "/articles", Some(draft("T", "B", None)));
    assert!(r.status == STATUS_OK);
    let id = body_article(&r).id;

    let path = format!("/articles/{}", id);
    let r = handle_request(&mut store, Method::Get, &path, None);
    assert!(r.status == STATUS_OK);
    assert!(body_article(&r).title == "T");

    let r = handle_request(&mut store, Method::Put, &path, Some(draft("X", "Y", None)));
    assert!(r.status == STATUS_OK);
    let r = handle_request(&mut store, Method::Get, &path, None);
    assert!(body_article(&r).title == "X");
    assert!(body_article(&r).user_id == None);

    let r = handle_request(&mut store, Method::Get, "/articles", None);
    assert!(r.status == STATUS_OK);

    let r = handle_request(&mut store, Method::Delete, &path, None);
    assert!(r.status == STATUS_OK);
    let r = handle_request(&mut store, Method::Get, &path, None);
    assert!(r.status == STATUS_NOT_FOUND);
}

#[test]
fn unmatched_request_reports_404_and_changes_nothing() {
    let mut store = ArticleStore::new();
    let r = handle_request(&mut store, Method::Get, "/nope", None);
    assert!(r.status == STATUS_NOT_FOUND);
    assert!(store.article_count() == 0);
}

#[test]
fn body_route_without_payload_reports_400() {
    let mut store = ArticleStore::new();
    let r = handle_request(&mut store, Method::Post, "/articles", None);
    assert!(r.status == STATUS_BAD_REQUEST);
    assert!(store.article_count() == 0);
    let r = handle_request(&mut store, Method::Put, "/articles/0", None);
    assert!(r.status == STATUS_BAD_REQUEST);
}

#[test]
fn greeting_served_at_root() {
    let mut store = ArticleStore::new();
    let r = handle_request(&mut store, Method::Get, "/", None);
    assert!(r.status == STATUS_OK);
    match r.body {
        ResponseBody::Message(m) => assert!(m == "Hello, World!"),
        _ => panic!("expected the greeting message"),
    }
}
