//! The laws the store obeys, stated over its mathematical model and
//! proved once and for all.
//!
//! Each law quantifies over every well-formed store state; requests may
//! interleave in any order, but each persistence operation is a single
//! atomic step, so a run of the service is a sequence of these
//! transitions and the laws apply to each.

use vstd::prelude::*;
use crate::article::{ArticleView, DraftView};
use crate::store::{lemma_row_index_agrees, StoreModel};

verus! {

/// A created article can be fetched: persisting a draft assigns the next
/// identifier — one that no existing row carries — and the row then found
/// under that identifier holds exactly the draft's fields. Every other
/// row is untouched.
pub proof fn lemma_create_then_get(m: StoreModel, d: DraftView)
    requires
        m.wf(),
        m.can_assign_id(),
    ensures
        !m.has_id(m.next_id),
        m.create(d).wf(),
        m.create(d).next_id == m.next_id + 1,
        m.create(d).rows.len() == m.rows.len() + 1,
        m.create(d).has_id(m.next_id),
        m.create(d).row(m.next_id) == d.as_article(m.next_id),
        forall|id2: u64| id2 != m.next_id ==> (m.create(d).has_id(id2) <==> m.has_id(id2)),
        forall|id2: u64|
            id2 != m.next_id && m.has_id(id2) ==> m.create(d).row(id2) == m.row(id2),
{
    let mc = m.create(d);
    let n = m.rows.len() as int;
    assert(mc.rows[n] == d.as_article(m.next_id));
    assert(!m.has_id(m.next_id)) by {
        if m.has_id(m.next_id) {
            let i = m.row_index(m.next_id);
            assert(m.rows[i].id < m.next_id);
        }
    }
    assert(mc.wf()) by {
        assert forall|i: int| 0 <= i < mc.rows.len() implies (#[trigger] mc.rows[i]).id
            < mc.next_id by {
            if i < n {
                assert(mc.rows[i] == m.rows[i]);
            }
        }
        assert forall|i: int, j: int| 0 <= i < j < mc.rows.len() implies (
        #[trigger] mc.rows[i]).id != (#[trigger] mc.rows[j]).id by {
            if j < n {
                assert(m.rows[i].id != m.rows[j].id);
            } else {
                assert(mc.rows[i] == m.rows[i]);
                assert(m.rows[i].id < m.next_id);
            }
        }
    }
    lemma_row_index_agrees(mc, m.next_id, n);
    assert forall|id2: u64| id2 != m.next_id implies (mc.has_id(id2) <==> m.has_id(id2)) by {
        if m.has_id(id2) {
            let i = m.row_index(id2);
            assert(mc.rows[i] == m.rows[i]);
            assert(mc.has_id(id2));
        }
        if mc.has_id(id2) {
            let i = mc.row_index(id2);
            assert(i < n);
            assert(m.rows[i].id == id2);
            assert(m.has_id(id2));
        }
    }
    assert forall|id2: u64| id2 != m.next_id && m.has_id(id2) implies mc.row(id2) == m.row(
        id2,
    ) by {
        let i = m.row_index(id2);
        assert(m.rows[i].id == id2);
        assert(mc.rows[i] == m.rows[i]);
        lemma_row_index_agrees(m, id2, i);
        lemma_row_index_agrees(mc, id2, i);
    }
}

/// Full replacement: after an update of an existing row, the row found
/// under the identifier holds exactly the new fields — no partial
/// merge — while every other row, and the set of identifiers, is
/// untouched.
pub proof fn lemma_update_then_get(m: StoreModel, id: u64, d: DraftView)
    requires
        m.wf(),
        m.has_id(id),
    ensures
        m.update(id, d).wf(),
        m.update(id, d).rows.len() == m.rows.len(),
        m.update(id, d).has_id(id),
        m.update(id, d).row(id) == d.as_article(id),
        forall|id2: u64| m.update(id, d).has_id(id2) <==> m.has_id(id2),
        forall|id2: u64| id2 != id && m.has_id(id2) ==> m.update(id, d).row(id2) == m.row(id2),
{
    let mu = m.update(id, d);
    let i = m.row_index(id);
    assert(0 <= i < m.rows.len() && m.rows[i].id == id);
    assert(mu.rows[i] == d.as_article(id));
    assert(mu.wf()) by {
        assert forall|k: int| 0 <= k < mu.rows.len() implies (#[trigger] mu.rows[k]).id
            < mu.next_id by {
            if k != i {
                assert(mu.rows[k] == m.rows[k]);
            } else {
                assert(m.rows[i].id < m.next_id);
            }
        }
        assert forall|k: int, l: int| 0 <= k < l < mu.rows.len() implies (
        #[trigger] mu.rows[k]).id != (#[trigger] mu.rows[l]).id by {
            assert(m.rows[k].id != m.rows[l].id);
            assert(mu.rows[k].id == m.rows[k].id);
            assert(mu.rows[l].id == m.rows[l].id);
        }
    }
    lemma_row_index_agrees(mu, id, i);
    assert forall|id2: u64| mu.has_id(id2) <==> m.has_id(id2) by {
        if m.has_id(id2) {
            let k = m.row_index(id2);
            assert(mu.rows[k].id == id2);
            assert(mu.has_id(id2));
        }
        if mu.has_id(id2) {
            let k = mu.row_index(id2);
            assert(m.rows[k].id == mu.rows[k].id);
            assert(m.has_id(id2));
        }
    }
    assert forall|id2: u64| id2 != id && m.has_id(id2) implies mu.row(id2) == m.row(id2) by {
        let k = m.row_index(id2);
        assert(m.rows[k].id == id2);
        assert(k != i);
        assert(mu.rows[k] == m.rows[k]);
        lemma_row_index_agrees(m, id2, k);
        lemma_row_index_agrees(mu, id2, k);
    }
}

/// A deleted article is gone: after a delete of an existing row, the
/// identifier matches no row, the table is one row shorter, and every
/// other row is untouched.
pub proof fn lemma_delete_then_get(m: StoreModel, id: u64)
    requires
        m.wf(),
        m.has_id(id),
    ensures
        m.delete(id).wf(),
        m.delete(id).rows.len() == m.rows.len() - 1,
        !m.delete(id).has_id(id),
        forall|id2: u64| id2 != id ==> (m.delete(id).has_id(id2) <==> m.has_id(id2)),
        forall|id2: u64| id2 != id && m.has_id(id2) ==> m.delete(id).row(id2) == m.row(id2),
{
    let md = m.delete(id);
    let i = m.row_index(id);
    assert(0 <= i < m.rows.len() && m.rows[i].id == id);
    m.rows.remove_ensures(i);
    assert(md.wf()) by {
        assert forall|k: int| 0 <= k < md.rows.len() implies (#[trigger] md.rows[k]).id
            < md.next_id by {
            let k0: int = if k < i { k } else { k + 1 };
            assert(m.rows[k0].id < m.next_id);
        }
        assert forall|k: int, l: int| 0 <= k < l < md.rows.len() implies (
        #[trigger] md.rows[k]).id != (#[trigger] md.rows[l]).id by {
            let k0: int = if k < i { k } else { k + 1 };
            let l0: int = if l < i { l } else { l + 1 };
            assert(m.rows[k0].id != m.rows[l0].id);
        }
    }
    assert(!md.has_id(id)) by {
        if md.has_id(id) {
            let k = md.row_index(id);
            let k0: int = if k < i { k } else { k + 1 };
            assert(m.rows[k0].id == id);
            assert(k0 != i);
            assert(m.rows[k0].id != m.rows[i].id);
        }
    }
    assert forall|id2: u64| id2 != id implies (md.has_id(id2) <==> m.has_id(id2)) by {
        if m.has_id(id2) {
            let k = m.row_index(id2);
            assert(k != i);
            let k1: int = if k < i { k } else { k - 1 };
            assert(md.rows[k1].id == id2);
            assert(md.has_id(id2));
        }
        if md.has_id(id2) {
            let k = md.row_index(id2);
            let k0: int = if k < i { k } else { k + 1 };
            assert(m.rows[k0].id == id2);
            assert(m.has_id(id2));
        }
    }
    assert forall|id2: u64| id2 != id && m.has_id(id2) implies md.row(id2) == m.row(id2) by {
        let k = m.row_index(id2);
        assert(m.rows[k].id == id2);
        assert(k != i);
        let k1: int = if k < i { k } else { k - 1 };
        assert(md.rows[k1] == m.rows[k]);
        lemma_row_index_agrees(m, id2, k);
        lemma_row_index_agrees(md, id2, k1);
    }
}

/// Two successive creations assign distinct, fresh identifiers: the
/// second identifier differs from the first, neither is carried by any
/// pre-existing row, and afterwards each identifier finds its own draft.
pub proof fn lemma_creates_assign_distinct_ids(m: StoreModel, d1: DraftView, d2: DraftView)
    requires
        m.wf(),
        m.next_id + 2 <= u64::MAX,
    ensures
        m.next_id != m.create(d1).next_id,
        !m.has_id(m.next_id),
        !m.has_id(m.create(d1).next_id),
        m.create(d1).create(d2).has_id(m.next_id),
        m.create(d1).create(d2).has_id(m.create(d1).next_id),
        m.create(d1).create(d2).row(m.next_id) == d1.as_article(m.next_id),
        m.create(d1).create(d2).row(m.create(d1).next_id) == d2.as_article(
            m.create(d1).next_id,
        ),
{
    let m1 = m.create(d1);
    lemma_create_then_get(m, d1);
    lemma_create_then_get(m1, d2);
    assert(!m.has_id(m1.next_id)) by {
        if m.has_id(m1.next_id) {
            let i = m.row_index(m1.next_id);
            assert(m.rows[i].id < m.next_id);
        }
    }
}

/// The drafts created so far, applied in order: the state a fresh store
/// reaches after a sequence of creations and nothing else.
pub open spec fn create_all(m: StoreModel, ds: Seq<DraftView>) -> StoreModel
    decreases ds.len(),
{
    if ds.len() == 0 {
        m
    } else {
        create_all(m.create(ds[0]), ds.drop_first())
    }
}

/// Listing after a run of creations and no deletions shows exactly one
/// row per creation: the table grows by the number of drafts, and the
/// set of identifiers is the old set plus one fresh identifier per
/// draft — no more, no fewer.
pub proof fn lemma_list_after_creates(m: StoreModel, ds: Seq<DraftView>)
    requires
        m.wf(),
        m.next_id + ds.len() <= u64::MAX,
    ensures
        create_all(m, ds).wf(),
        create_all(m, ds).rows.len() == m.rows.len() + ds.len(),
        create_all(m, ds).next_id == m.next_id + ds.len(),
        create_all(m, ds).id_set() =~= m.id_set() + Set::new(
            |id: u64| m.next_id <= id < m.next_id + ds.len(),
        ),
    decreases ds.len(),
{
    if ds.len() == 0 {
        assert(create_all(m, ds) == m);
        assert(create_all(m, ds).id_set() =~= m.id_set() + Set::new(
            |id: u64| m.next_id <= id < m.next_id + ds.len(),
        ));
    } else {
        let m1 = m.create(ds[0]);
        lemma_create_then_get(m, ds[0]);
        assert(m1.id_set() =~= m.id_set().insert(m.next_id)) by {
            assert forall|x: u64| m1.id_set().contains(x) implies m.id_set().insert(
                m.next_id,
            ).contains(x) by {
                let ys = m1.rows.map_values(|a: ArticleView| a.id);
                let k = choose|k: int| 0 <= k < ys.len() && ys[k] == x;
                if k < m.rows.len() {
                    assert(m.rows.map_values(|a: ArticleView| a.id)[k] == x);
                    assert(m.id_set().contains(x));
                }
            }
            assert forall|x: u64| m.id_set().insert(m.next_id).contains(x) implies m1.id_set()
                .contains(x) by {
                let xs = m.rows.map_values(|a: ArticleView| a.id);
                let ys = m1.rows.map_values(|a: ArticleView| a.id);
                if x == m.next_id {
                    assert(ys[m.rows.len() as int] == x);
                } else {
                    let k = choose|k: int| 0 <= k < xs.len() && xs[k] == x;
                    assert(ys[k] == x);
                }
            }
        }
        lemma_list_after_creates(m1, ds.drop_first());
        assert(create_all(m, ds) == create_all(m1, ds.drop_first()));
        assert(create_all(m, ds).id_set() =~= m.id_set() + Set::new(
            |id: u64| m.next_id <= id < m.next_id + ds.len(),
        )) by {
            assert(create_all(m1, ds.drop_first()).id_set() =~= m1.id_set() + Set::new(
                |id: u64| m1.next_id <= id < m1.next_id + ds.drop_first().len(),
            ));
        }
    }
}

} // verus!
