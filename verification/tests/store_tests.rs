use blog_api::article::ArticleDraft;
use blog_api::store::{ArticleStore, StoreError};

fn draft(title: &str, body: &str, user_id: Option<i64>) -> ArticleDraft {
    ArticleDraft { title: title.to_owned(), body: body.to_owned(), user_id }
}

#[test]
fn create_then_get_returns_created_fields() {
    let mut store = ArticleStore::new();
    let created = store.create_article(draft("T", "B", None)).unwrap();
    let fetched = store.get_article(created.id).unwrap();
    assert!(fetched.title == "T");
    assert!(fetched.body == "B");
    assert!(fetched.user_id == None);
    assert!(fetched.id == created.id);
}

#[test]
fn get_absent_returns_not_found() {
    let store = ArticleStore::new();
    match store.get_article(12345) {
        Err(StoreError::NotFound) => {}
        _ => panic!("absent row must report NotFound, never StorageError"),
    }
}

#[test]
fn get_absent_after_creations_returns_not_found() {
    let mut store = ArticleStore::new();
    let a = store.create_article(draft("one", "1", None)).unwrap();
    match store.get_article(a.id + 1) {
        Err(StoreError::NotFound) => {}
        _ => panic!("absent row must report NotFound, never StorageError"),
    }
}

#[test]
fn update_absent_returns_not_found() {
    let mut store = ArticleStore::new();
    match store.update_article(9, draft("X", "Y", None)) {
        Err(StoreError::NotFound) => {}
        _ => panic!("updating an absent row must report NotFound"),
    }
    assert!(store.article_count() == 0);
}

#[test]
fn delete_absent_returns_not_found() {
    let mut store = ArticleStore::new();
    match store.delete_article(9) {
        Err(StoreError::NotFound) => {}
        _ => panic!("deleting an absent row must report NotFound, not a false success"),
    }
}

#[test]
fn update_then_get_is_full_replacement() {
    let mut store = ArticleStore::new();
    let created = store.create_article(draft("old title", "old body", Some(7))).unwrap();
    let updated = store.update_article(created.id, draft("X", "Y", None)).unwrap();
    assert!(updated.id == created.id);
    let fetched = store.get_article(created.id).unwrap();
    assert!(fetched.title == "X");
    assert!(fetched.body == "Y");
    assert!(fetched.user_id == None, "full replacement: no partial merge");
}

#[test]
fn update_preserves_other_rows() {
    let mut store = ArticleStore::new();
    let first = store.create_article(draft("first", "f", Some(1))).unwrap();
    let second = store.create_article(draft("second", "s", Some(2))).unwrap();
    store.update_article(second.id, draft("X", "Y", None)).unwrap();
    let untouched = store.get_article(first.id).unwrap();
    assert!(untouched.title == "first");
    assert!(untouched.body == "f");
    assert!(untouched.user_id == Some(1));
}

#[test]
fn list_after_n_creates_has_n_records_with_distinct_ids() {
    let mut store = ArticleStore::new();
    let n: usize = 5;
    let mut expected_ids = Vec::new();
    for k in 0..n {
        let title = format!("title {}", k);
        let body = format!("body {}", k);
        let created = store.create_article(draft(&title, &body, None)).unwrap();
        expected_ids.push(created.id);
    }
    let listed = store.list_articles();
    assert!(listed.len() == n);
    let mut listed_ids: Vec<u64> = listed.iter().map(|a| a.id).collect();
    let mut wanted = expected_ids.clone();
    listed_ids.sort();
    wanted.sort();
    assert!(listed_ids == wanted, "the listed identifiers are exactly the created ones");
    for i in 0..n {
        for j in (i + 1)..n {
            assert!(expected_ids[i] != expected_ids[j]);
        }
    }
}

#[test]
fn creates_assign_distinct_ids() {
    let mut store = ArticleStore::new();
    let a = store.create_article(draft("a", "1", None)).unwrap();
    let b = store.create_article(draft("b", "2", None)).unwrap();
    let c = store.create_article(draft("c", "3", None)).unwrap();
    assert!(a.id != b.id && b.id != c.id && a.id != c.id);
}

#[test]
fn delete_then_get_returns_not_found() {
    let mut store = ArticleStore::new();
    let created = store.create_article(draft("gone", "soon", None)).unwrap();
    store.delete_article(created.id).unwrap();
    match store.get_article(created.id) {
        Err(StoreError::NotFound) => {}
        _ => panic!("a deleted row must be absent"),
    }
    assert!(store.article_count() == 0);
}

#[test]
fn ids_are_not_reused_after_delete() {
    let mut store = ArticleStore::new();
    let first = store.create_article(draft("a", "1", None)).unwrap();
    store.delete_article(first.id).unwrap();
    let second = store.create_article(draft("b", "2", None)).unwrap();
    assert!(second.id != first.id, "identifiers are assigned exactly once, never reused");
}

#[test]
fn list_on_empty_store_is_empty() {
    let store = ArticleStore::new();
    assert!(store.list_articles().is_empty());
    assert!(store.article_count() == 0);
}
