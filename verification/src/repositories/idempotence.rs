//! What reconciliation guarantees: a second pass over the same snapshot
//! writes nothing, and the rows that a pass deletes are exactly those whose
//! key the snapshot lacks.
//!
//! The stored rows of a parent are modelled as a table that maps each
//! primary key to its row. A plan is carried out on the table write by
//! write; the next pass may read the rows of the table in any order.

use crate::database::query_builder::Statement;
use crate::repositories::reconcile::{
    is_stale, item_of, item_write, item_writes, planned_writes, row_of, snapshot_items,
    stale_deletes, stored_rows, sync_statements, Component, Item, Key, Stored, StoredComponent,
    Write,
};
use vstd::prelude::*;

verus! {

/// Whether no two rows have the same primary key.
pub open spec fn distinct_ids(rows: Seq<Stored>) -> bool {
    forall|i: int, j: int|
        0 <= i < j < rows.len() ==> (#[trigger] rows[i]).id != (#[trigger] rows[j]).id
}

/// Whether no two rows have the same natural key.
pub open spec fn distinct_row_keys(rows: Seq<Stored>) -> bool {
    forall|i: int, j: int|
        0 <= i < j < rows.len() && (#[trigger] rows[i]).key is Some ==> rows[i].key != (
        #[trigger] rows[j]).key
}

/// Whether the identifiers that the database gives to inserted rows are new:
/// one for each item, no two the same, none that of a stored row.
pub open spec fn fresh_ids(fresh: Seq<int>, rows: Seq<Stored>, items: Seq<Item>) -> bool {
    &&& fresh.len() == items.len()
    &&& forall|i: int, j: int|
        0 <= i < j < fresh.len() ==> #[trigger] fresh[i] != #[trigger] fresh[j]
    &&& forall|i: int, j: int|
        0 <= i < fresh.len() && 0 <= j < rows.len() ==> #[trigger] fresh[i] != (
        #[trigger] rows[j]).id
}

/// The table of the first `n` rows: each under its primary key.
pub open spec fn table_of(rows: Seq<Stored>, n: int) -> Map<int, Stored>
    decreases n,
{
    if n <= 0 {
        Map::empty()
    } else {
        table_of(rows, n - 1).insert(rows[n - 1].id, rows[n - 1])
    }
}

/// The table after one write. An insert stores the item under the
/// identifier that the database gives it, an update replaces the compared
/// attributes of the row with the given primary key, and a delete removes
/// that row.
pub open spec fn write_table(
    table: Map<int, Stored>,
    items: Seq<Item>,
    write: Write,
    fresh: Seq<int>,
) -> Map<int, Stored> {
    match write {
        Write::Insert { item } => table.insert(
            fresh[item],
            Stored { id: fresh[item], key: items[item].key, attributes: items[item].attributes },
        ),
        Write::Update { id, item } => if table.contains_key(id) {
            table.insert(
                id,
                Stored { id: id, key: table[id].key, attributes: items[item].attributes },
            )
        } else {
            table
        },
        Write::Delete { id } => table.remove(id),
    }
}

/// The table after the writes, in order.
pub open spec fn written(
    table: Map<int, Stored>,
    items: Seq<Item>,
    writes: Seq<Write>,
    fresh: Seq<int>,
) -> Map<int, Stored>
    decreases writes.len(),
{
    if writes.len() == 0 {
        table
    } else {
        write_table(written(table, items, writes.drop_last(), fresh), items, writes.last(), fresh)
    }
}

/// Whether `rows` are the rows of `table`, each once, in some order.
pub open spec fn lists(rows: Seq<Stored>, table: Map<int, Stored>) -> bool {
    &&& distinct_ids(rows)
    &&& forall|t: int|
        0 <= t < rows.len() ==> table.contains_key((#[trigger] rows[t]).id) && table[rows[t].id]
            == rows[t]
    &&& forall|id: int|
        table.contains_key(id) ==> exists|t: int| 0 <= t < rows.len() && (#[trigger] rows[t]).id == id
}

/// The row at `i` once the first `n` items have been written: it has the
/// attributes of the item with its key, where one of them has its key.
pub open spec fn merged(rows: Seq<Stored>, items: Seq<Item>, i: int, n: int) -> Stored {
    match rows[i].key {
        Some(key) => match item_of(items, key, n) {
            Some(j) => Stored { id: rows[i].id, key: rows[i].key, attributes: items[j].attributes },
            None => rows[i],
        },
        None => rows[i],
    }
}

/// The row that the insert of the item at `j` stores.
pub open spec fn new_row(items: Seq<Item>, fresh: Seq<int>, j: int) -> Stored {
    Stored { id: fresh[j], key: items[j].key, attributes: items[j].attributes }
}

/// Whether the item at `j` is inserted.
pub open spec fn is_insert(rows: Seq<Stored>, items: Seq<Item>, j: int) -> bool {
    item_write(rows, items, j) == Some(Write::Insert { item: j })
}

/// What `row_of` finds is the first row with the key; what it does not find
/// is no row's key.
pub proof fn lemma_row_of(rows: Seq<Stored>, key: Key, n: int)
    requires
        0 <= n <= rows.len(),
    ensures
        match row_of(rows, key, n) {
            Some(i) => 0 <= i < n && rows[i].key == Some(key) && forall|t: int|
                0 <= t < i ==> (#[trigger] rows[t]).key != Some(key),
            None => forall|t: int| 0 <= t < n ==> (#[trigger] rows[t]).key != Some(key),
        },
    decreases n,
{
    if n > 0 {
        lemma_row_of(rows, key, n - 1);
    }
}

/// What `item_of` finds is the first item with the key; what it does not
/// find is no item's key.
pub proof fn lemma_item_of(items: Seq<Item>, key: Key, n: int)
    requires
        0 <= n <= items.len(),
    ensures
        match item_of(items, key, n) {
            Some(j) => 0 <= j < n && items[j].key == Some(key) && forall|t: int|
                0 <= t < j ==> (#[trigger] items[t]).key != Some(key),
            None => forall|t: int| 0 <= t < n ==> (#[trigger] items[t]).key != Some(key),
        },
    decreases n,
{
    if n > 0 {
        lemma_item_of(items, key, n - 1);
    }
}

/// The table of rows with distinct primary keys holds each row under its
/// key, and nothing else.
pub proof fn lemma_table_of(rows: Seq<Stored>, n: int)
    requires
        0 <= n <= rows.len(),
        distinct_ids(rows),
    ensures
        forall|i: int|
            0 <= i < n ==> table_of(rows, n).contains_key((#[trigger] rows[i]).id) && table_of(
                rows,
                n,
            )[rows[i].id] == rows[i],
        forall|id: int|
            table_of(rows, n).contains_key(id) ==> exists|i: int|
                0 <= i < n && (#[trigger] rows[i]).id == id,
    decreases n,
{
    if n > 0 {
        lemma_table_of(rows, n - 1);
        assert forall|id: int| table_of(rows, n).contains_key(id) implies exists|i: int|
            0 <= i < n && (#[trigger] rows[i]).id == id by {
            if id == rows[n - 1].id {
                assert(rows[n - 1].id == id);
            } else {
                assert(table_of(rows, n - 1).contains_key(id));
                let i = choose|i: int| 0 <= i < n - 1 && (#[trigger] rows[i]).id == id;
                assert(rows[i].id == id);
            }
        }
    }
}

/// Writes carried out one list after another are the writes of the joined
/// list.
pub proof fn lemma_written_joined(
    table: Map<int, Stored>,
    items: Seq<Item>,
    first: Seq<Write>,
    second: Seq<Write>,
    fresh: Seq<int>,
)
    ensures
        written(table, items, first + second, fresh) == written(
            written(table, items, first, fresh),
            items,
            second,
            fresh,
        ),
    decreases second.len(),
{
    if second.len() == 0 {
        assert(first + second =~= first);
    } else {
        assert((first + second).drop_last() =~= first + second.drop_last());
        lemma_written_joined(table, items, first, second.drop_last(), fresh);
    }
}

/// What the table holds once the first `n` items are written: every stored
/// row, merged with its item; the row of every inserted item; nothing else.
pub open spec fn after_items(
    table: Map<int, Stored>,
    rows: Seq<Stored>,
    items: Seq<Item>,
    fresh: Seq<int>,
    n: int,
) -> bool {
    &&& forall|i: int|
        0 <= i < rows.len() ==> table.contains_key((#[trigger] rows[i]).id) && table[rows[i].id]
            == merged(rows, items, i, n)
    &&& forall|j: int|
        0 <= j < n && is_insert(rows, items, j) ==> table.contains_key(#[trigger] fresh[j])
            && table[fresh[j]] == new_row(items, fresh, j)
    &&& forall|id: int|
        table.contains_key(id) ==> (exists|i: int| 0 <= i < rows.len() && (#[trigger] rows[i]).id == id)
            || (exists|j: int| 0 <= j < n && is_insert(rows, items, j) && #[trigger] fresh[j] == id)
}

/// The writes of the items leave the table as `after_items` says.
pub proof fn lemma_items_written(rows: Seq<Stored>, items: Seq<Item>, fresh: Seq<int>, n: int)
    requires
        0 <= n <= items.len(),
        distinct_ids(rows),
        distinct_row_keys(rows),
        fresh_ids(fresh, rows, items),
    ensures
        after_items(
            written(
                table_of(rows, rows.len() as int),
                items,
                item_writes(rows, items, n),
                fresh,
            ),
            rows,
            items,
            fresh,
            n,
        ),
    decreases n,
{
    let start = table_of(rows, rows.len() as int);
    if n == 0 {
        lemma_table_of(rows, rows.len() as int);
        assert(item_writes(rows, items, 0).len() == 0);
        let table = written(start, items, item_writes(rows, items, 0), fresh);
        assert(table == start);
        assert forall|id: int| table.contains_key(id) implies (exists|i: int|
            0 <= i < rows.len() && (#[trigger] rows[i]).id == id) || (exists|j: int|
            0 <= j < 0 && is_insert(rows, items, j) && #[trigger] fresh[j] == id) by {
            let i = choose|i: int| 0 <= i < rows.len() && (#[trigger] rows[i]).id == id;
            assert(rows[i].id == id);
        }
    } else {
        lemma_items_written(rows, items, fresh, n - 1);
        let before = written(start, items, item_writes(rows, items, n - 1), fresh);
        let after = written(start, items, item_writes(rows, items, n), fresh);
        let j = n - 1;
        match items[j].key {
            None => {
                assert(after == before);
                assert forall|i: int| 0 <= i < rows.len() implies merged(rows, items, i, n)
                    == merged(rows, items, i, n - 1) by {}
            },
            Some(key) => {
                lemma_item_of(items, key, j);
                lemma_row_of(rows, key, rows.len() as int);
                assert forall|i: int| 0 <= i < rows.len() && rows[i].key != Some(key) implies merged(
                    rows,
                    items,
                    i,
                    n,
                ) == merged(rows, items, i, n - 1) by {}
                if item_of(items, key, j) is Some {
                    assert(after == before);
                    assert forall|i: int| 0 <= i < rows.len() implies merged(rows, items, i, n)
                        == merged(rows, items, i, n - 1) by {}
                } else {
                match item_write(rows, items, j) {
                    None => {
                        assert(after == before);
                        let i0 = row_of(rows, key, rows.len() as int)->0;
                        assert forall|i: int| 0 <= i < rows.len() implies merged(rows, items, i, n)
                            == merged(rows, items, i, n - 1) by {
                            if rows[i].key == Some(key) {
                                if i < i0 {
                                    assert(rows[i].key != Some(key));
                                }
                                if i > i0 {
                                    assert(rows[i0].key != rows[i].key);
                                }
                                assert(i == i0);
                            }
                        }
                    },
                    Some(write) => {
                        assert(item_writes(rows, items, n).drop_last() =~= item_writes(
                            rows,
                            items,
                            n - 1,
                        ));
                        assert(item_writes(rows, items, n).last() == write);
                        assert(after == write_table(before, items, write, fresh));
                        match row_of(rows, key, rows.len() as int) {
                            None => {
                                assert(write == Write::Insert { item: j });
                                assert forall|i: int| 0 <= i < rows.len() implies after.contains_key(
                                    (#[trigger] rows[i]).id,
                                ) && after[rows[i].id] == merged(rows, items, i, n) by {
                                    assert(fresh[j] != rows[i].id);
                                    assert(rows[i].key != Some(key));
                                }
                                assert forall|t: int|
                                    0 <= t < n && is_insert(rows, items, t) implies after.contains_key(
                                    #[trigger] fresh[t],
                                ) && after[fresh[t]] == new_row(items, fresh, t) by {
                                    if t < j {
                                        assert(fresh[t] != fresh[j]);
                                    }
                                }
                                assert forall|id: int| after.contains_key(id) implies (exists|i: int|
                                    0 <= i < rows.len() && (#[trigger] rows[i]).id == id) || (exists|
                                    t: int,
                                |
                                    0 <= t < n && is_insert(rows, items, t) && #[trigger] fresh[t]
                                        == id) by {
                                    if id == fresh[j] {
                                        assert(is_insert(rows, items, j) && fresh[j] == id);
                                    } else {
                                        assert(before.contains_key(id));
                                        if exists|t: int|
                                            0 <= t < n - 1 && is_insert(rows, items, t)
                                                && #[trigger] fresh[t] == id {
                                            let t = choose|t: int|
                                                0 <= t < n - 1 && is_insert(rows, items, t)
                                                    && #[trigger] fresh[t] == id;
                                            assert(0 <= t < n && is_insert(rows, items, t)
                                                && fresh[t] == id);
                                        }
                                    }
                                }
                            },
                            Some(i0) => {
                                assert(write == Write::Update { id: rows[i0].id, item: j });
                                assert(before.contains_key(rows[i0].id));
                                assert(before[rows[i0].id] == merged(rows, items, i0, n - 1));
                                assert forall|i: int| 0 <= i < rows.len() implies after.contains_key(
                                    (#[trigger] rows[i]).id,
                                ) && after[rows[i].id] == merged(rows, items, i, n) by {
                                    if i == i0 {
                                    } else {
                                        if i < i0 {
                                            assert(rows[i].id != rows[i0].id);
                                            assert(rows[i].key != Some(key));
                                        } else {
                                            assert(rows[i0].id != rows[i].id);
                                            assert(rows[i0].key != rows[i].key);
                                        }
                                    }
                                }
                                assert forall|t: int|
                                    0 <= t < n && is_insert(rows, items, t) implies after.contains_key(
                                    #[trigger] fresh[t],
                                ) && after[fresh[t]] == new_row(items, fresh, t) by {
                                    assert(fresh[t] != rows[i0].id);
                                }
                                assert forall|id: int| after.contains_key(id) implies (exists|i: int|
                                    0 <= i < rows.len() && (#[trigger] rows[i]).id == id) || (exists|
                                    t: int,
                                |
                                    0 <= t < n && is_insert(rows, items, t) && #[trigger] fresh[t]
                                        == id) by {
                                    assert(before.contains_key(id));
                                    if exists|t: int|
                                        0 <= t < n - 1 && is_insert(rows, items, t)
                                            && #[trigger] fresh[t] == id {
                                        let t = choose|t: int|
                                            0 <= t < n - 1 && is_insert(rows, items, t)
                                                && #[trigger] fresh[t] == id;
                                        assert(0 <= t < n && is_insert(rows, items, t) && fresh[t]
                                            == id);
                                    }
                                }
                            },
                        }
                    },
                }
                }
            },
        }
        if item_write(rows, items, j) is None {
            assert forall|t: int|
                0 <= t < n && is_insert(rows, items, t) implies after.contains_key(
                #[trigger] fresh[t],
            ) && after[fresh[t]] == new_row(items, fresh, t) by {}
            assert forall|id: int| after.contains_key(id) implies (exists|i: int|
                0 <= i < rows.len() && (#[trigger] rows[i]).id == id) || (exists|t: int|
                0 <= t < n && is_insert(rows, items, t) && #[trigger] fresh[t] == id) by {
                if exists|t: int|
                    0 <= t < n - 1 && is_insert(rows, items, t) && #[trigger] fresh[t] == id {
                    let t = choose|t: int|
                        0 <= t < n - 1 && is_insert(rows, items, t) && #[trigger] fresh[t] == id;
                    assert(0 <= t < n && is_insert(rows, items, t) && fresh[t] == id);
                }
            }
        }
    }
}


/// What the table holds once the stale rows among the first `m` are deleted
/// as well.
pub open spec fn after_deletes(
    table: Map<int, Stored>,
    rows: Seq<Stored>,
    items: Seq<Item>,
    fresh: Seq<int>,
    m: int,
) -> bool {
    &&& forall|i: int|
        0 <= i < rows.len() ==> if i < m && is_stale(rows, items, i) {
            !table.contains_key((#[trigger] rows[i]).id)
        } else {
            table.contains_key(rows[i].id) && table[rows[i].id] == merged(
                rows,
                items,
                i,
                items.len() as int,
            )
        }
    &&& forall|j: int|
        0 <= j < items.len() && is_insert(rows, items, j) ==> table.contains_key(
            #[trigger] fresh[j],
        ) && table[fresh[j]] == new_row(items, fresh, j)
    &&& forall|id: int|
        table.contains_key(id) ==> (exists|i: int| 0 <= i < rows.len() && (#[trigger] rows[i]).id == id)
            || (exists|j: int|
            0 <= j < items.len() && is_insert(rows, items, j) && #[trigger] fresh[j] == id)
}

/// The deletes of the stale rows leave the table as `after_deletes` says.
pub proof fn lemma_deletes_written(rows: Seq<Stored>, items: Seq<Item>, fresh: Seq<int>, m: int)
    requires
        0 <= m <= rows.len(),
        distinct_ids(rows),
        distinct_row_keys(rows),
        fresh_ids(fresh, rows, items),
    ensures
        after_deletes(
            written(
                written(
                    table_of(rows, rows.len() as int),
                    items,
                    item_writes(rows, items, items.len() as int),
                    fresh,
                ),
                items,
                stale_deletes(rows, items, m),
                fresh,
            ),
            rows,
            items,
            fresh,
            m,
        ),
    decreases m,
{
    let asked = written(
        table_of(rows, rows.len() as int),
        items,
        item_writes(rows, items, items.len() as int),
        fresh,
    );
    if m == 0 {
        lemma_items_written(rows, items, fresh, items.len() as int);
        assert(stale_deletes(rows, items, 0).len() == 0);
    } else {
        lemma_deletes_written(rows, items, fresh, m - 1);
        let before = written(asked, items, stale_deletes(rows, items, m - 1), fresh);
        let after = written(asked, items, stale_deletes(rows, items, m), fresh);
        if is_stale(rows, items, m - 1) {
            let gone = rows[m - 1].id;
            assert(stale_deletes(rows, items, m).drop_last() =~= stale_deletes(rows, items, m - 1));
            assert(stale_deletes(rows, items, m).last() == Write::Delete { id: gone });
            assert(after == before.remove(gone));
            assert forall|i: int| 0 <= i < rows.len() implies if i < m && is_stale(rows, items, i) {
                !after.contains_key((#[trigger] rows[i]).id)
            } else {
                after.contains_key(rows[i].id) && after[rows[i].id] == merged(
                    rows,
                    items,
                    i,
                    items.len() as int,
                )
            } by {
                if i < m - 1 {
                    assert(rows[i].id != rows[m - 1].id);
                } else if i > m - 1 {
                    assert(rows[m - 1].id != rows[i].id);
                }
            }
            assert forall|j: int|
                0 <= j < items.len() && is_insert(rows, items, j) implies after.contains_key(
                #[trigger] fresh[j],
            ) && after[fresh[j]] == new_row(items, fresh, j) by {
                assert(fresh[j] != rows[m - 1].id);
            }
        } else {
            assert(after == before);
        }
    }
}

/// Whether the rows agree with the snapshot: every row with a key has the
/// attributes of the item with that key, and every item with a key has its
/// row.
pub open spec fn settled(rows: Seq<Stored>, items: Seq<Item>) -> bool {
    &&& forall|t: int|
        0 <= t < rows.len() && (#[trigger] rows[t]).key is Some ==> item_of(
            items,
            rows[t].key->0,
            items.len() as int,
        ) is Some && rows[t].attributes == items[item_of(
            items,
            rows[t].key->0,
            items.len() as int,
        )->0].attributes
    &&& forall|j: int|
        0 <= j < items.len() && (#[trigger] items[j]).key is Some ==> row_of(
            rows,
            items[j].key->0,
            rows.len() as int,
        ) is Some
}

/// For rows that agree with the snapshot, the first `n` items ask for no
/// write.
pub proof fn lemma_settled_items(rows: Seq<Stored>, items: Seq<Item>, n: int)
    requires
        0 <= n <= items.len(),
        settled(rows, items),
    ensures
        item_writes(rows, items, n) == Seq::<Write>::empty(),
    decreases n,
{
    if n > 0 {
        lemma_settled_items(rows, items, n - 1);
        let j = n - 1;
        match items[j].key {
            None => {},
            Some(key) => {
                lemma_item_of(items, key, j);
                lemma_item_of(items, key, items.len() as int);
                lemma_row_of(rows, key, rows.len() as int);
                if item_of(items, key, j) is None {
                    let t = row_of(rows, key, rows.len() as int)->0;
                    assert(rows[t].key is Some);
                    let found = item_of(items, key, items.len() as int)->0;
                    if found < j {
                        assert(items[found].key != Some(key));
                    }
                    if found > j {
                        assert(items[j].key != Some(key));
                    }
                    assert(found == j);
                }
            },
        }
    }
}

/// For rows that agree with the snapshot, none of the first `m` rows is
/// stale.
pub proof fn lemma_settled_rows(rows: Seq<Stored>, items: Seq<Item>, m: int)
    requires
        0 <= m <= rows.len(),
        settled(rows, items),
    ensures
        stale_deletes(rows, items, m) == Seq::<Write>::empty(),
    decreases m,
{
    if m > 0 {
        lemma_settled_rows(rows, items, m - 1);
        assert(rows[m - 1].key is Some ==> !is_stale(rows, items, m - 1));
    }
}

/// Rows that agree with the snapshot need no write.
pub proof fn lemma_settled_plans_nothing(rows: Seq<Stored>, items: Seq<Item>)
    requires
        settled(rows, items),
    ensures
        planned_writes(rows, items) == Seq::<Write>::empty(),
{
    lemma_settled_items(rows, items, items.len() as int);
    lemma_settled_rows(rows, items, rows.len() as int);
    assert(planned_writes(rows, items) =~= Seq::<Write>::empty());
}

/// Once a plan is carried out, the rows of the parent agree with the
/// snapshot, in whichever order they are read.
pub proof fn lemma_reconciled_is_settled(
    rows: Seq<Stored>,
    items: Seq<Item>,
    fresh: Seq<int>,
    again: Seq<Stored>,
)
    requires
        distinct_ids(rows),
        distinct_row_keys(rows),
        fresh_ids(fresh, rows, items),
        lists(
            again,
            written(table_of(rows, rows.len() as int), items, planned_writes(rows, items), fresh),
        ),
    ensures
        settled(again, items),
{
    let start = table_of(rows, rows.len() as int);
    let count = items.len() as int;
    let asked = item_writes(rows, items, count);
    let deleted = stale_deletes(rows, items, rows.len() as int);
    let table = written(start, items, planned_writes(rows, items), fresh);
    lemma_written_joined(start, items, asked, deleted, fresh);
    lemma_deletes_written(rows, items, fresh, rows.len() as int);
    assert(after_deletes(table, rows, items, fresh, rows.len() as int));
    assert forall|t: int| 0 <= t < again.len() && (#[trigger] again[t]).key is Some implies item_of(
        items,
        again[t].key->0,
        count,
    ) is Some && again[t].attributes == items[item_of(items, again[t].key->0, count)->0].attributes by {
        let id = again[t].id;
        let key = again[t].key->0;
        assert(table.contains_key(id) && table[id] == again[t]);
        lemma_item_of(items, key, count);
        if exists|i: int| 0 <= i < rows.len() && (#[trigger] rows[i]).id == id {
            let i = choose|i: int| 0 <= i < rows.len() && (#[trigger] rows[i]).id == id;
            assert(rows[i].id == id);
            assert(!is_stale(rows, items, i));
            assert(again[t] == merged(rows, items, i, count));
            assert(rows[i].key == Some(key));
            lemma_row_of(rows, key, i);
            if row_of(rows, key, i) is Some {
                let earlier = row_of(rows, key, i)->0;
                assert(rows[earlier].key == rows[i].key);
            }
        } else {
            let j = choose|j: int|
                0 <= j < items.len() && is_insert(rows, items, j) && #[trigger] fresh[j] == id;
            assert(again[t] == new_row(items, fresh, j));
            assert(items[j].key == Some(key));
            lemma_item_of(items, key, j);
            assert(item_of(items, key, j) is None);
            let found = item_of(items, key, count)->0;
            if found < j {
                assert(items[found].key != Some(key));
            }
            if found > j {
                assert(items[j].key != Some(key));
            }
        }
    }
    assert forall|j: int| 0 <= j < items.len() && (#[trigger] items[j]).key is Some implies row_of(
        again,
        items[j].key->0,
        again.len() as int,
    ) is Some by {
        let key = items[j].key->0;
        lemma_row_of(rows, key, rows.len() as int);
        lemma_row_of(again, key, again.len() as int);
        lemma_item_of(items, key, count);
        lemma_item_of(items, key, j);
        if item_of(items, key, count) is None {
            assert(items[j].key != Some(key));
        }
        match row_of(rows, key, rows.len() as int) {
            Some(i) => {
                assert(!is_stale(rows, items, i));
                let id = rows[i].id;
                assert(table.contains_key(id) && table[id] == merged(rows, items, i, count));
                let t = choose|t: int| 0 <= t < again.len() && (#[trigger] again[t]).id == id;
                assert(again[t] == table[id]);
                assert(again[t].key == Some(key));
            },
            None => {
                let first = if item_of(items, key, j) is Some {
                    item_of(items, key, j)->0
                } else {
                    j
                };
                lemma_item_of(items, key, first);
                if item_of(items, key, first) is Some {
                    let earlier = item_of(items, key, first)->0;
                    assert(items[earlier].key != Some(key));
                }
                assert(items[first].key == Some(key));
                assert(is_insert(rows, items, first));
                let id = fresh[first];
                assert(table.contains_key(id) && table[id] == new_row(items, fresh, first));
                let t = choose|t: int| 0 <= t < again.len() && (#[trigger] again[t]).id == id;
                assert(again[t] == table[id]);
                assert(again[t].key == Some(key));
            },
        }
    }
}

/// Reconciling a parent with the same snapshot twice in a row writes nothing
/// on the second pass.
///
/// `rows` are the rows of the parent before the first pass: no two have the
/// same primary key or the same natural key. The snapshot is any snapshot:
/// where a key stands twice in it, the first item stands for the key on
/// both passes. `fresh` are the identifiers that the database
/// gives to the rows that the first pass inserts, and `again` are the rows
/// that the second pass reads, in any order.
pub proof fn lemma_second_pass_writes_nothing(
    rows: Seq<Stored>,
    items: Seq<Item>,
    fresh: Seq<int>,
    again: Seq<Stored>,
)
    requires
        distinct_ids(rows),
        distinct_row_keys(rows),
        fresh_ids(fresh, rows, items),
        lists(
            again,
            written(table_of(rows, rows.len() as int), items, planned_writes(rows, items), fresh),
        ),
    ensures
        planned_writes(again, items) == Seq::<Write>::empty(),
{
    lemma_reconciled_is_settled(rows, items, fresh, again);
    lemma_settled_plans_nothing(again, items);
}

/// Whether the natural key of the row at `i` is missing from the snapshot.
pub open spec fn is_missing(rows: Seq<Stored>, items: Seq<Item>, i: int) -> bool {
    rows[i].key is Some && item_of(items, rows[i].key->0, items.len() as int) is None
}

/// The writes that items ask for are inserts and updates.
pub proof fn lemma_items_delete_nothing(rows: Seq<Stored>, items: Seq<Item>, n: int)
    ensures
        forall|t: int|
            0 <= t < item_writes(rows, items, n).len() ==> !((#[trigger] item_writes(
                rows,
                items,
                n,
            )[t]) is Delete),
    decreases n,
{
    if n > 0 {
        lemma_items_delete_nothing(rows, items, n - 1);
        let before = item_writes(rows, items, n - 1);
        let now = item_writes(rows, items, n);
        assert forall|t: int| 0 <= t < now.len() implies !((#[trigger] now[t]) is Delete) by {
            if t < before.len() {
                assert(now[t] == before[t]);
            }
        }
    }
}

/// The deletes among the first `m` rows are those of the rows whose key is
/// missing from the snapshot.
pub proof fn lemma_stale_are_missing(rows: Seq<Stored>, items: Seq<Item>, m: int)
    requires
        0 <= m <= rows.len(),
        distinct_row_keys(rows),
    ensures
        forall|t: int|
            0 <= t < stale_deletes(rows, items, m).len() ==> exists|i: int|
                0 <= i < m && is_missing(rows, items, i) && #[trigger] stale_deletes(rows, items, m)[t]
                    == (Write::Delete { id: rows[i].id }),
        forall|i: int|
            0 <= i < m && is_missing(rows, items, i) ==> stale_deletes(rows, items, m).contains(
                Write::Delete { id: (#[trigger] rows[i]).id },
            ),
    decreases m,
{
    if m > 0 {
        lemma_stale_are_missing(rows, items, m - 1);
        let before = stale_deletes(rows, items, m - 1);
        let now = stale_deletes(rows, items, m);
        let last = m - 1;
        if rows[last].key is Some {
            let key = rows[last].key->0;
            lemma_row_of(rows, key, last);
            if row_of(rows, key, last) is Some {
                let earlier = row_of(rows, key, last)->0;
                assert(rows[earlier].key == rows[last].key);
            }
        }
        assert(is_stale(rows, items, last) == is_missing(rows, items, last));
        assert forall|t: int| 0 <= t < now.len() implies exists|i: int|
            0 <= i < m && is_missing(rows, items, i) && #[trigger] now[t] == (Write::Delete {
                id: rows[i].id,
            }) by {
            if t < before.len() {
                assert(now[t] == before[t]);
                let i = choose|i: int|
                    0 <= i < m - 1 && is_missing(rows, items, i) && before[t] == (Write::Delete {
                        id: rows[i].id,
                    });
                assert(0 <= i < m && is_missing(rows, items, i) && now[t] == (Write::Delete {
                    id: rows[i].id,
                }));
            } else {
                assert(is_missing(rows, items, last) && now[t] == (Write::Delete {
                    id: rows[last].id,
                }));
            }
        }
        assert forall|i: int| 0 <= i < m && is_missing(rows, items, i) implies now.contains(
            Write::Delete { id: (#[trigger] rows[i]).id },
        ) by {
            if i < m - 1 {
                let t = choose|t: int|
                    0 <= t < before.len() && before[t] == (Write::Delete { id: rows[i].id });
                assert(now[t] == before[t]);
            } else {
                assert(now[now.len() - 1] == (Write::Delete { id: rows[i].id }));
            }
        }
    }
}

/// Whether the plan deletes the row with the primary key `id`.
pub open spec fn deletes(rows: Seq<Stored>, items: Seq<Item>, id: int) -> bool {
    planned_writes(rows, items).contains(Write::Delete { id: id })
}

/// Reconciling a parent with a snapshot deletes exactly the rows whose
/// natural key the snapshot lacks: every such row is deleted, and every
/// planned delete is that of such a row.
///
/// No two rows of the parent have the same natural key.
pub proof fn lemma_deletes_exactly_the_missing(rows: Seq<Stored>, items: Seq<Item>)
    requires
        distinct_row_keys(rows),
    ensures
        forall|id: int| #[trigger]
            deletes(rows, items, id) <==> exists|i: int|
                0 <= i < rows.len() && is_missing(rows, items, i) && (#[trigger] rows[i]).id == id,
{
    let asked = item_writes(rows, items, items.len() as int);
    let deleted = stale_deletes(rows, items, rows.len() as int);
    let planned = planned_writes(rows, items);
    lemma_items_delete_nothing(rows, items, items.len() as int);
    lemma_stale_are_missing(rows, items, rows.len() as int);
    assert forall|id: int| #[trigger] deletes(rows, items, id) implies exists|i: int|
        0 <= i < rows.len() && is_missing(rows, items, i) && (#[trigger] rows[i]).id == id by {
        let write = Write::Delete { id: id };
        let t = choose|t: int| 0 <= t < planned.len() && planned[t] == write;
        if t < asked.len() {
            assert(planned[t] == asked[t]);
        } else {
            let d = t - asked.len();
            assert(planned[t] == deleted[d]);
            let i = choose|i: int|
                0 <= i < rows.len() && is_missing(rows, items, i) && deleted[d] == (Write::Delete {
                    id: rows[i].id,
                });
            assert(rows[i].id == id);
        }
    }
    assert forall|id: int|
        (exists|i: int|
            0 <= i < rows.len() && is_missing(rows, items, i) && (#[trigger] rows[i]).id
                == id) implies #[trigger] deletes(rows, items, id) by {
        let i = choose|i: int|
            0 <= i < rows.len() && is_missing(rows, items, i) && (#[trigger] rows[i]).id == id;
        let write = Write::Delete { id: rows[i].id };
        assert(deleted.contains(write));
        let d = choose|d: int| 0 <= d < deleted.len() && deleted[d] == write;
        assert(planned[asked.len() + d] == write);
    }
}

/// The writes that the first `n` items ask for are the writes of those
/// items: each of the writes is asked by one of them, and what one of them
/// asks is among the writes.
pub proof fn lemma_item_writes(rows: Seq<Stored>, items: Seq<Item>, n: int)
    requires
        0 <= n <= items.len(),
    ensures
        forall|t: int|
            0 <= t < item_writes(rows, items, n).len() ==> exists|j: int|
                0 <= j < n && #[trigger] item_write(rows, items, j) == Some(
                    #[trigger] item_writes(rows, items, n)[t],
                ),
        forall|j: int|
            0 <= j < n && (#[trigger] item_write(rows, items, j)) is Some ==> item_writes(
                rows,
                items,
                n,
            ).contains(item_write(rows, items, j)->0),
    decreases n,
{
    if n > 0 {
        lemma_item_writes(rows, items, n - 1);
        let before = item_writes(rows, items, n - 1);
        let now = item_writes(rows, items, n);
        assert forall|t: int| 0 <= t < now.len() implies exists|j: int|
            0 <= j < n && #[trigger] item_write(rows, items, j) == Some(#[trigger] now[t]) by {
            if t < before.len() {
                assert(now[t] == before[t]);
                let j = choose|j: int|
                    0 <= j < n - 1 && #[trigger] item_write(rows, items, j) == Some(before[t]);
                assert(item_write(rows, items, j) == Some(now[t]));
            } else {
                assert(item_write(rows, items, n - 1) == Some(now[t]));
            }
        }
        assert forall|j: int|
            0 <= j < n && (#[trigger] item_write(rows, items, j)) is Some implies now.contains(
            item_write(rows, items, j)->0,
        ) by {
            let write = item_write(rows, items, j)->0;
            if j < n - 1 {
                assert(before.contains(write));
                let t = choose|t: int| 0 <= t < before.len() && before[t] == write;
                assert(now[t] == write);
            } else {
                assert(now[now.len() - 1] == write);
            }
        }
    }
}

/// Whether the plan updates the row with the primary key `id` with the item
/// at `item`.
pub open spec fn updates(rows: Seq<Stored>, items: Seq<Item>, id: int, item: int) -> bool {
    planned_writes(rows, items).contains(Write::Update { id: id, item: item })
}

/// A stored row whose natural key the snapshot holds is matched by that key
/// and stays where it is: the plan neither deletes the row nor inserts the
/// item, whatever else differs between the two. Where a compared attribute
/// differs the plan updates the row under its own primary key, and where
/// none differs it leaves the row alone.
///
/// No two rows of the parent have the same primary key or the same natural
/// key; the row at `i` and the item at `j` have the same key, and `j` is the
/// first item of the snapshot with that key.
pub proof fn lemma_matched_row_is_updated_in_place(
    rows: Seq<Stored>,
    items: Seq<Item>,
    i: int,
    j: int,
)
    requires
        distinct_ids(rows),
        distinct_row_keys(rows),
        0 <= i < rows.len(),
        0 <= j < items.len(),
        rows[i].key is Some,
        item_of(items, rows[i].key->0, items.len() as int) == Some(j),
    ensures
        !planned_writes(rows, items).contains(Write::Delete { id: rows[i].id }),
        !planned_writes(rows, items).contains(Write::Insert { item: j }),
        rows[i].attributes != items[j].attributes ==> updates(rows, items, rows[i].id, j),
        forall|item: int| #[trigger] updates(rows, items, rows[i].id, item) ==> item == j,
        rows[i].attributes == items[j].attributes ==> !updates(rows, items, rows[i].id, j),
{
    let key = rows[i].key->0;
    let n = items.len() as int;
    let asked = item_writes(rows, items, n);
    let deleted = stale_deletes(rows, items, rows.len() as int);
    let planned = planned_writes(rows, items);
    lemma_item_of(items, key, n);
    lemma_item_of(items, key, j);
    lemma_row_of(rows, key, rows.len() as int);
    let found = row_of(rows, key, rows.len() as int)->0;
    assert(found == i) by {
        if found < i {
            assert(rows[found].key != rows[i].key);
        } else if i < found {
            assert(rows[i].key != rows[found].key);
        }
    }
    lemma_item_writes(rows, items, n);
    lemma_items_delete_nothing(rows, items, n);
    lemma_stale_are_missing(rows, items, rows.len() as int);
    // The row is not deleted.
    lemma_deletes_exactly_the_missing(rows, items);
    if deletes(rows, items, rows[i].id) {
        let t = choose|t: int|
            0 <= t < rows.len() && is_missing(rows, items, t) && (#[trigger] rows[t]).id
                == rows[i].id;
        if t < i {
            assert(rows[t].id != rows[i].id);
        } else if i < t {
            assert(rows[i].id != rows[t].id);
        }
        assert(false);
    }
    // What the plan holds was asked by an item, or is a delete.
    assert forall|write: Write| planned.contains(write) && !(write is Delete) implies exists|
        k: int,
    |
        0 <= k < n && #[trigger] item_write(rows, items, k) == Some(write) by {
        let t = choose|t: int| 0 <= t < planned.len() && planned[t] == write;
        if t < asked.len() {
            assert(planned[t] == asked[t]);
        } else {
            let d = t - asked.len();
            assert(planned[t] == deleted[d]);
            let r = choose|r: int|
                0 <= r < rows.len() && is_missing(rows, items, r) && deleted[d] == (Write::Delete {
                    id: rows[r].id,
                });
            assert(write is Delete);
        }
    }
    // The item is not inserted.
    if planned.contains(Write::Insert { item: j }) {
        let k = choose|k: int|
            0 <= k < n && #[trigger] item_write(rows, items, k) == Some(Write::Insert { item: j });
        assert(k == j);
        assert(false);
    }
    if rows[i].attributes != items[j].attributes {
        let write = Write::Update { id: rows[i].id, item: j };
        assert(item_write(rows, items, j) == Some(write));
        assert(asked.contains(write));
        let t = choose|t: int| 0 <= t < asked.len() && asked[t] == write;
        assert(planned[t] == write);
    }
    assert forall|item: int| #[trigger] updates(rows, items, rows[i].id, item) implies item == j
        && rows[i].attributes != items[j].attributes by {
        let write = Write::Update { id: rows[i].id, item: item };
        let k = choose|k: int| 0 <= k < n && #[trigger] item_write(rows, items, k) == Some(write);
        assert(k == item);
        let other = items[k].key->0;
        lemma_row_of(rows, other, rows.len() as int);
        let r = row_of(rows, other, rows.len() as int)->0;
        assert(rows[r].id == rows[i].id);
        if r < i {
            assert(rows[r].id != rows[i].id);
        } else if i < r {
            assert(rows[i].id != rows[r].id);
        }
        assert(r == i);
        assert(other == key);
        lemma_item_of(items, key, k);
        if k < j {
            assert(items[k].key != Some(key));
        } else if j < k {
            lemma_item_found_later(items, key, j, k);
        }
    }
}

/// An item with the key among the first `k` items is found among them.
pub proof fn lemma_item_found_later(items: Seq<Item>, key: Key, j: int, k: int)
    requires
        0 <= j < k <= items.len(),
        items[j].key == Some(key),
    ensures
        item_of(items, key, k) is Some,
    decreases k,
{
    if j < k - 1 {
        lemma_item_found_later(items, key, j, k - 1);
    }
}

/// The statements of a reconciliation are as many as its planned writes;
/// where the plan is empty, nothing is sent to the database.
pub proof fn lemma_statements_follow_plan<R: StoredComponent, C: Component>(
    parent: int,
    existing: Seq<R>,
    incoming: Seq<C>,
)
    ensures
        sync_statements::<R, C>(parent, existing, incoming).len() == planned_writes(
            stored_rows(existing),
            snapshot_items(incoming),
        ).len(),
        planned_writes(stored_rows(existing), snapshot_items(incoming)) == Seq::<Write>::empty()
            ==> sync_statements::<R, C>(parent, existing, incoming) == Seq::<Statement>::empty(),
{
    if planned_writes(stored_rows(existing), snapshot_items(incoming)) == Seq::<Write>::empty() {
        assert(sync_statements::<R, C>(parent, existing, incoming) =~= Seq::<Statement>::empty());
    }
}

} // verus!
