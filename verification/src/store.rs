//! The persistence semantics of the articles table.
//!
//! [`ArticleStore`] models the one table the service writes: rows keyed by
//! a server-assigned identifier, created exactly once at insertion and
//! never reused. Its mathematical state is a [`StoreModel`]: the rows in
//! insertion order together with the next identifier to assign. Every
//! operation states exactly when it succeeds and which error it returns
//! otherwise: an absent row is always `NotFound`, never `StorageError`.

use vstd::prelude::*;
use vstd::pervasive::VecAdditionalExecFns;
use crate::article::{Article, ArticleDraft, ArticleView, DraftView};

verus! {

/// The ways a persistence operation can fail.
#[derive(Clone, Copy, Debug, PartialEq, Eq, Structural)]
pub enum StoreError {
    /// The requested row is absent.
    NotFound,
    /// Any other persistence fault, here only exhaustion of identifiers.
    StorageError,
}

/// The mathematical state of the store: the persisted rows in insertion
/// order, and the next identifier to assign.
pub ghost struct StoreModel {
    pub rows: Seq<ArticleView>,
    pub next_id: u64,
}

impl StoreModel {
    /// Every row's identifier was assigned before `next_id`, and no two
    /// rows share an identifier.
    pub open spec fn wf(self) -> bool {
        &&& forall|i: int| 0 <= i < self.rows.len() ==> (#[trigger] self.rows[i]).id < self.next_id
        &&& forall|i: int, j: int|
            0 <= i < j < self.rows.len() ==> (#[trigger] self.rows[i]).id != (
            #[trigger] self.rows[j]).id
    }

    /// Does some row carry the identifier `id`?
    pub open spec fn has_id(self, id: u64) -> bool {
        exists|i: int| 0 <= i < self.rows.len() && (#[trigger] self.rows[i]).id == id
    }

    /// The position of the row carrying `id`; meaningful only when
    /// `has_id(id)` holds, and unique when `wf()` holds.
    pub open spec fn row_index(self, id: u64) -> int {
        choose|i: int| 0 <= i < self.rows.len() && (#[trigger] self.rows[i]).id == id
    }

    /// The row carrying `id`; meaningful only when `has_id(id)` holds.
    pub open spec fn row(self, id: u64) -> ArticleView {
        self.rows[self.row_index(id)]
    }

    /// The set of identifiers currently persisted.
    pub open spec fn id_set(self) -> Set<u64> {
        self.rows.map_values(|a: ArticleView| a.id).to_set()
    }

    /// Can another identifier still be assigned?
    pub open spec fn can_assign_id(self) -> bool {
        self.next_id < u64::MAX
    }

    /// The state after persisting `d` under the next identifier.
    pub open spec fn create(self, d: DraftView) -> StoreModel {
        StoreModel {
            rows: self.rows.push(d.as_article(self.next_id)),
            next_id: (self.next_id + 1) as u64,
        }
    }

    /// The state after a full replacement of the row carrying `id`;
    /// meaningful only when `has_id(id)` holds.
    pub open spec fn update(self, id: u64, d: DraftView) -> StoreModel {
        StoreModel {
            rows: self.rows.update(self.row_index(id), d.as_article(id)),
            next_id: self.next_id,
        }
    }

    /// The state after removing the row carrying `id`; meaningful only
    /// when `has_id(id)` holds.
    pub open spec fn delete(self, id: u64) -> StoreModel {
        StoreModel { rows: self.rows.remove(self.row_index(id)), next_id: self.next_id }
    }
}

/// In a well-formed store, the row carrying a given identifier sits at
/// exactly one position: any position that carries it is `row_index`.
pub proof fn lemma_row_index_agrees(m: StoreModel, id: u64, i: int)
    requires
        m.wf(),
        0 <= i < m.rows.len(),
        m.rows[i].id == id,
    ensures
        m.has_id(id),
        m.row_index(id) == i,
        m.row(id) == m.rows[i],
{
    assert(m.has_id(id));
    let j = m.row_index(id);
    assert(0 <= j < m.rows.len() && m.rows[j].id == id);
    if i < j {
        assert(m.rows[i].id != m.rows[j].id);
    } else if j < i {
        assert(m.rows[j].id != m.rows[i].id);
    }
}

/// The articles table: rows in insertion order plus the identifier
/// counter. Identifiers are assigned exactly once, at creation, by this
/// layer, and are never reused, even after a deletion.
pub struct ArticleStore {
    articles: Vec<Article>,
    next_id: u64,
}

impl View for ArticleStore {
    type V = StoreModel;

    closed spec fn view(&self) -> StoreModel {
        StoreModel {
            rows: self.articles@.map_values(|a: Article| a@),
            next_id: self.next_id,
        }
    }
}

impl ArticleStore {
    /// Is the store's representation well-formed?
    pub open spec fn wf(self) -> bool {
        self@.wf()
    }

    /// An empty table; identifiers start at zero.
    pub fn new() -> (s: ArticleStore)
        ensures
            s.wf(),
            s@.rows.len() == 0,
            s@.next_id == 0,
    {
        let s = ArticleStore { articles: Vec::new(), next_id: 0 };
        proof {
            assert(s@.rows =~= Seq::<ArticleView>::empty());
        }
        s
    }

    /// The position of the row carrying `id`, if any.
    fn find_index(&self, id: u64) -> (r: Option<usize>)
        requires
            self.wf(),
        ensures
            match r {
                Some(i) => self@.has_id(id) && self@.row_index(id) == i as int,
                None => !self@.has_id(id),
            },
    {
        let n = self.articles.len();
        let mut i: usize = 0;
        while i < n
            invariant
                self.wf(),
                n == self@.rows.len(),
                i <= n,
                forall|j: int| 0 <= j < i ==> (#[trigger] self@.rows[j]).id != id,
            decreases n - i,
        {
            if self.articles[i].id == id {
                proof {
                    lemma_row_index_agrees(self@, id, i as int);
                }
                return Some(i);
            }
            i += 1;
        }
        None
    }

    /// Every persisted row, in insertion order.
    pub fn list_articles(&self) -> (r: &Vec<Article>)
        ensures
            r@.map_values(|a: Article| a@) == self@.rows,
    {
        &self.articles
    }

    /// The number of persisted rows.
    pub fn article_count(&self) -> (n: usize)
        ensures
            n == self@.rows.len(),
    {
        self.articles.len()
    }

    /// Selects the single row carrying `id`. Succeeds exactly when such a
    /// row exists; an absent row is `NotFound`, never any other error.
    pub fn get_article(&self, id: u64) -> (r: Result<&Article, StoreError>)
        requires
            self.wf(),
        ensures
            r is Ok <==> self@.has_id(id),
            r is Ok ==> r->Ok_0@ == self@.row(id),
            r is Err ==> r->Err_0 == StoreError::NotFound,
    {
        match self.find_index(id) {
            Some(i) => Ok(&self.articles[i]),
            None => Err(StoreError::NotFound),
        }
    }

    /// Inserts a new row and returns the persisted row, including the
    /// generated identifier. Succeeds exactly while an identifier can
    /// still be assigned; the identifier is fresh: no existing row
    /// carries it.
    pub fn create_article(&mut self, draft: ArticleDraft) -> (r: Result<Article, StoreError>)
        requires
            old(self).wf(),
        ensures
            final(self).wf(),
            r is Ok <==> old(self)@.can_assign_id(),
            r is Ok ==> final(self)@ == old(self)@.create(draft@),
            r is Ok ==> r->Ok_0@ == draft@.as_article(old(self)@.next_id),
            r is Ok ==> !old(self)@.has_id(r->Ok_0.id),
            r is Err ==> r->Err_0 == StoreError::StorageError && final(self)@ == old(self)@,
    {
        if self.next_id == u64::MAX {
            return Err(StoreError::StorageError);
        }
        let id = self.next_id;
        let article = Article {
            id,
            user_id: draft.user_id,
            title: draft.title,
            body: draft.body,
        };
        let persisted = article.duplicate();
        self.articles.push(article);
        self.next_id = id + 1;
        proof {
            assert(self@.rows =~= old(self)@.rows.push(draft@.as_article(id)));
            assert forall|i: int| 0 <= i < self@.rows.len() implies (
            #[trigger] self@.rows[i]).id < self@.next_id by {
                if i < old(self)@.rows.len() {
                    assert(old(self)@.rows[i].id < old(self)@.next_id);
                }
            }
        }
        Ok(persisted)
    }

    /// Full replacement of the mutable fields of the row carrying `id`,
    /// returning the row as persisted. Succeeds exactly when the row
    /// exists; an absent row is `NotFound`, never any other error, and a
    /// failed update leaves the store unchanged.
    pub fn update_article(&mut self, id: u64, draft: ArticleDraft) -> (r: Result<
        Article,
        StoreError,
    >)
        requires
            old(self).wf(),
        ensures
            final(self).wf(),
            r is Ok <==> old(self)@.has_id(id),
            r is Ok ==> final(self)@ == old(self)@.update(id, draft@),
            r is Ok ==> r->Ok_0@ == draft@.as_article(id),
            r is Err ==> r->Err_0 == StoreError::NotFound && final(self)@ == old(self)@,
    {
        match self.find_index(id) {
            Some(i) => {
                let article = Article {
                    id,
                    user_id: draft.user_id,
                    title: draft.title,
                    body: draft.body,
                };
                let persisted = article.duplicate();
                self.articles.set(i, article);
                proof {
                    assert(self@.rows =~= old(self)@.rows.update(
                        i as int,
                        draft@.as_article(id),
                    ));
                    assert forall|k: int| 0 <= k < self@.rows.len() implies (
                    #[trigger] self@.rows[k]).id < self@.next_id by {
                        if k != i {
                            assert(old(self)@.rows[k].id < old(self)@.next_id);
                        } else {
                            assert(old(self)@.rows[i as int].id == id);
                        }
                    }
                    assert forall|k: int, l: int| 0 <= k < l < self@.rows.len() implies (
                    #[trigger] self@.rows[k]).id != (#[trigger] self@.rows[l]).id by {
                        assert(old(self)@.rows[k].id != old(self)@.rows[l].id);
                        assert(self@.rows[k].id == old(self)@.rows[k].id);
                        assert(self@.rows[l].id == old(self)@.rows[l].id);
                    }
                }
                Ok(persisted)
            },
            None => Err(StoreError::NotFound),
        }
    }

    /// Deletes the row carrying `id`. Succeeds exactly when the row
    /// exists, so deleting an absent row reports `NotFound` rather than a
    /// false success; a failed delete leaves the store unchanged.
    pub fn delete_article(&mut self, id: u64) -> (r: Result<(), StoreError>)
        requires
            old(self).wf(),
        ensures
            final(self).wf(),
            r is Ok <==> old(self)@.has_id(id),
            r is Ok ==> final(self)@ == old(self)@.delete(id),
            r is Err ==> r->Err_0 == StoreError::NotFound && final(self)@ == old(self)@,
    {
        match self.find_index(id) {
            Some(i) => {
                self.articles.remove(i);
                proof {
                    assert(self@.rows =~= old(self)@.rows.remove(i as int));
                    assert forall|k: int| 0 <= k < self@.rows.len() implies (
                    #[trigger] self@.rows[k]).id < self@.next_id by {
                        let k0 = if k < i { k } else { k + 1 };
                        assert(old(self)@.rows[k0].id < old(self)@.next_id);
                    }
                    assert forall|k: int, l: int| 0 <= k < l < self@.rows.len() implies (
                    #[trigger] self@.rows[k]).id != (#[trigger] self@.rows[l]).id by {
                        let k0 = if k < i { k } else { k + 1 };
                        let l0 = if l < i { l } else { l + 1 };
                        assert(old(self)@.rows[k0].id != old(self)@.rows[l0].id);
                    }
                }
                Ok(())
            },
            None => Err(StoreError::NotFound),
        }
    }
}

} // verus!
