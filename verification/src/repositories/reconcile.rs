//! The reconciliation engine: the rows that are stored for a parent are
//! matched, by natural key, against the items of a submitted snapshot, and
//! the least set of writes that brings the rows into agreement with the
//! snapshot is planned.
//!
//! A row or an item without a key takes no part: the row is left as it is,
//! the item is passed over. Where a key stands twice, the first stands for
//! it: an item whose key an earlier item had is passed over, and a row whose
//! key an earlier row had is left as it is. Every other item is matched to
//! the first row with its key. An item that finds its row gives an update
//! where their attributes differ and nothing where they agree; an item that
//! finds none gives an insert. A row whose key no item has, and no earlier
//! row, is deleted.

use crate::database::query_builder::{SqlStatement, Statement};
use crate::models::query::{views, QueryValue, SqlValue};
use vstd::prelude::*;

verus! {

/// What tells the components of one parent apart.
#[derive(Debug, PartialEq, Eq)]
pub enum NaturalKey {
    Number(i64),
    Text(String),
    Single,
}

/// What a `NaturalKey` stands for.
pub enum Key {
    Number(int),
    Text(Seq<char>),
    Single,
}

impl View for NaturalKey {
    type V = Key;

    open spec fn view(&self) -> Key {
        match self {
            NaturalKey::Number(n) => Key::Number(*n as int),
            NaturalKey::Text(t) => Key::Text(t@),
            NaturalKey::Single => Key::Single,
        }
    }
}

impl NaturalKey {
    /// Whether two keys are the same.
    pub fn same(&self, other: &NaturalKey) -> (same: bool)
        ensures
            same == (self@ == other@),
    {
        match (self, other) {
            (NaturalKey::Number(a), NaturalKey::Number(b)) => *a == *b,
            (NaturalKey::Text(a), NaturalKey::Text(b)) => *a == *b,
            (NaturalKey::Single, NaturalKey::Single) => true,
            _ => false,
        }
    }
}

/// The view of an optional key.
pub open spec fn key_view(key: Option<NaturalKey>) -> Option<Key> {
    match key {
        Some(k) => Some(k@),
        None => None,
    }
}

/// A stored row: its primary key, its natural key, and the attributes that
/// are compared with those of the snapshot.
#[derive(Debug, PartialEq, Eq)]
pub struct StoredRow {
    pub id: i32,
    pub key: Option<NaturalKey>,
    pub attributes: Vec<QueryValue>,
}

/// What a `StoredRow` stands for.
pub struct Stored {
    pub id: int,
    pub key: Option<Key>,
    pub attributes: Seq<SqlValue>,
}

impl View for StoredRow {
    type V = Stored;

    open spec fn view(&self) -> Stored {
        Stored { id: self.id as int, key: key_view(self.key), attributes: views(self.attributes@) }
    }
}

/// An item of a snapshot: its natural key and its attributes.
#[derive(Debug, PartialEq, Eq)]
pub struct SnapshotItem {
    pub key: Option<NaturalKey>,
    pub attributes: Vec<QueryValue>,
}

/// What a `SnapshotItem` stands for.
pub struct Item {
    pub key: Option<Key>,
    pub attributes: Seq<SqlValue>,
}

impl View for SnapshotItem {
    type V = Item;

    open spec fn view(&self) -> Item {
        Item { key: key_view(self.key), attributes: views(self.attributes@) }
    }
}

/// One write of a plan. `item` is the place of an item in the snapshot, `id`
/// the primary key of a stored row.
#[derive(Debug, Clone, Copy, PartialEq, Eq)]
pub enum RowWrite {
    Insert { item: usize },
    Update { id: i32, item: usize },
    Delete { id: i32 },
}

/// What a `RowWrite` stands for.
pub enum Write {
    Insert { item: int },
    Update { id: int, item: int },
    Delete { id: int },
}

impl View for RowWrite {
    type V = Write;

    open spec fn view(&self) -> Write {
        match self {
            RowWrite::Insert { item } => Write::Insert { item: *item as int },
            RowWrite::Update { id, item } => Write::Update { id: *id as int, item: *item as int },
            RowWrite::Delete { id } => Write::Delete { id: *id as int },
        }
    }
}

/// The place of the first of the first `n` rows that has `key`.
pub open spec fn row_of(rows: Seq<Stored>, key: Key, n: int) -> Option<int>
    decreases n,
{
    if n <= 0 {
        None
    } else {
        match row_of(rows, key, n - 1) {
            Some(i) => Some(i),
            None => if rows[n - 1].key == Some(key) {
                Some(n - 1)
            } else {
                None
            },
        }
    }
}

/// The place of the first of the first `n` items that has `key`.
pub open spec fn item_of(items: Seq<Item>, key: Key, n: int) -> Option<int>
    decreases n,
{
    if n <= 0 {
        None
    } else {
        match item_of(items, key, n - 1) {
            Some(j) => Some(j),
            None => if items[n - 1].key == Some(key) {
                Some(n - 1)
            } else {
                None
            },
        }
    }
}

/// The write that the item at `j` asks for, if it asks for one.
pub open spec fn item_write(rows: Seq<Stored>, items: Seq<Item>, j: int) -> Option<Write> {
    match items[j].key {
        None => None,
        Some(key) => if item_of(items, key, j) is Some {
            None
        } else {
            match row_of(rows, key, rows.len() as int) {
                Some(i) => if rows[i].attributes == items[j].attributes {
                    None
                } else {
                    Some(Write::Update { id: rows[i].id, item: j })
                },
                None => Some(Write::Insert { item: j }),
            }
        },
    }
}

/// The writes that the first `n` items ask for, in the items' order.
pub open spec fn item_writes(rows: Seq<Stored>, items: Seq<Item>, n: int) -> Seq<Write>
    decreases n,
{
    if n <= 0 {
        Seq::empty()
    } else {
        match item_write(rows, items, n - 1) {
            Some(write) => item_writes(rows, items, n - 1).push(write),
            None => item_writes(rows, items, n - 1),
        }
    }
}

/// Whether the row at `i` is to go: it has a key, no earlier row has that
/// key, and no item has it.
pub open spec fn is_stale(rows: Seq<Stored>, items: Seq<Item>, i: int) -> bool {
    match rows[i].key {
        Some(key) => row_of(rows, key, i) is None && item_of(items, key, items.len() as int)
            is None,
        None => false,
    }
}

/// The deletes of the stale rows among the first `m` rows, in the rows'
/// order.
pub open spec fn stale_deletes(rows: Seq<Stored>, items: Seq<Item>, m: int) -> Seq<Write>
    decreases m,
{
    if m <= 0 {
        Seq::empty()
    } else if is_stale(rows, items, m - 1) {
        stale_deletes(rows, items, m - 1).push(Write::Delete { id: rows[m - 1].id })
    } else {
        stale_deletes(rows, items, m - 1)
    }
}

/// The plan: the writes that the items ask for, then the deletes of the
/// stale rows.
pub open spec fn planned_writes(rows: Seq<Stored>, items: Seq<Item>) -> Seq<Write> {
    item_writes(rows, items, items.len() as int) + stale_deletes(rows, items, rows.len() as int)
}

/// Whether two lists of attributes hold the same values.
pub fn same_attributes(a: &Vec<QueryValue>, b: &Vec<QueryValue>) -> (same: bool)
    ensures
        same == (views(a@) == views(b@)),
{
    if a.len() != b.len() {
        assert(views(a@).len() != views(b@).len());
        return false;
    }
    let mut i: usize = 0;
    while i < a.len()
        invariant
            i <= a.len(),
            a.len() == b.len(),
            forall|j: int| 0 <= j < i ==> views(a@)[j] == views(b@)[j],
        decreases a.len() - i,
    {
        if !a[i].same(&b[i]) {
            assert(views(a@)[i as int] != views(b@)[i as int]);
            return false;
        }
        i += 1;
    }
    assert(views(a@) =~= views(b@));
    true
}

/// The place of the first of the first `n` rows that has `key`.
fn find_row(rows: &Vec<StoredRow>, key: &NaturalKey, n: usize) -> (found: Option<usize>)
    requires
        n <= rows.len(),
    ensures
        match row_of(views(rows@), key@, n as int) {
            Some(i) => found == Some(i as usize) && 0 <= i < n,
            None => found is None,
        },
{
    let mut i: usize = 0;
    while i < n
        invariant
            i <= n <= rows.len(),
            row_of(views(rows@), key@, i as int) is None,
        decreases n - i,
    {
        let here = match &rows[i].key {
            Some(k) => k.same(key),
            None => false,
        };
        if here {
            proof {
                lemma_row_found_stays(views(rows@), key@, i + 1, n as int);
            }
            return Some(i);
        }
        i += 1;
    }
    None
}

/// Whether one of the first `n` items has `key`.
fn find_item(items: &Vec<SnapshotItem>, key: &NaturalKey, n: usize) -> (found: bool)
    requires
        n <= items.len(),
    ensures
        found == item_of(views(items@), key@, n as int) is Some,
{
    let mut j: usize = 0;
    while j < n
        invariant
            j <= n <= items.len(),
            item_of(views(items@), key@, j as int) is None,
        decreases n - j,
    {
        let here = match &items[j].key {
            Some(k) => k.same(key),
            None => false,
        };
        if here {
            proof {
                lemma_item_found_stays(views(items@), key@, j + 1, n as int);
            }
            return true;
        }
        j += 1;
    }
    false
}

/// Plans the writes that bring `rows` into agreement with `items`.
pub fn reconcile(rows: &Vec<StoredRow>, items: &Vec<SnapshotItem>) -> (writes: Vec<RowWrite>)
    ensures
        views(writes@) == planned_writes(views(rows@), views(items@)),
{
    let ghost stored = views(rows@);
    let ghost snapshot = views(items@);
    let mut writes: Vec<RowWrite> = Vec::new();
    let mut j: usize = 0;
    assert(views(writes@) =~= Seq::<Write>::empty());
    while j < items.len()
        invariant
            j <= items.len(),
            stored == views(rows@),
            snapshot == views(items@),
            views(writes@) == item_writes(stored, snapshot, j as int),
        decreases items.len() - j,
    {
        let ghost before = writes@;
        match &items[j].key {
            None => {},
            Some(key) => {
                assert(snapshot[j as int].key == Some(key@));
                if find_item(items, key, j) {
                } else {
                    match find_row(rows, key, rows.len()) {
                        Some(i) => {
                            assert(stored[i as int] == rows@[i as int]@);
                            if !same_attributes(&rows[i].attributes, &items[j].attributes) {
                                let write = RowWrite::Update { id: rows[i].id, item: j };
                                writes.push(write);
                                assert(views(writes@) =~= views(before).push(write@));
                            }
                        },
                        None => {
                            writes.push(RowWrite::Insert { item: j });
                            assert(views(writes@) =~= views(before).push(
                                Write::Insert { item: j as int },
                            ));
                        },
                    }
                }
            },
        }
        j += 1;
    }
    let ghost asked = views(writes@);
    let mut i: usize = 0;
    assert(asked + Seq::<Write>::empty() =~= asked);
    while i < rows.len()
        invariant
            i <= rows.len(),
            stored == views(rows@),
            snapshot == views(items@),
            views(writes@) == asked + stale_deletes(stored, snapshot, i as int),
        decreases rows.len() - i,
    {
        let ghost before = writes@;
        assert(stored[i as int] == rows@[i as int]@);
        match &rows[i].key {
            None => {},
            Some(key) => {
                if find_row(rows, key, i).is_none() && !find_item(items, key, items.len()) {
                    let write = RowWrite::Delete { id: rows[i].id };
                    writes.push(write);
                    assert(views(writes@) =~= views(before).push(write@));
                    assert(asked + stale_deletes(stored, snapshot, i as int).push(write@) =~= (asked
                        + stale_deletes(stored, snapshot, i as int)).push(write@));
                }
            },
        }
        i += 1;
    }
    writes
}

/// A kind of component as a snapshot holds it. `position` is the place of the
/// component in its snapshot.
pub trait Component {
    /// The natural key, where the component has one.
    spec fn natural_key(&self) -> Option<Key>;

    /// The attributes that are compared with those of the stored row.
    spec fn compared(&self, position: int) -> Seq<SqlValue>;

    /// The statement that stores the component for the parent `parent`.
    spec fn insert_statement(&self, parent: int, position: int) -> Statement;

    /// The statement that brings the row `id` up to the component.
    spec fn update_statement(&self, id: int, position: int) -> Statement;

    fn key(&self) -> (key: Option<NaturalKey>)
        ensures
            key_view(key) == self.natural_key(),
    ;

    fn attributes(&self, position: usize) -> (attributes: Vec<QueryValue>)
        ensures
            views(attributes@) == self.compared(position as int),
    ;

    fn insert(&self, parent: i32, position: usize) -> (statement: SqlStatement)
        ensures
            statement@ == self.insert_statement(parent as int, position as int),
    ;

    fn update(&self, id: i32, position: usize) -> (statement: SqlStatement)
        ensures
            statement@ == self.update_statement(id as int, position as int),
    ;
}

/// A kind of component as the database holds it.
pub trait StoredComponent {
    /// The row: its primary key, its natural key, its compared attributes.
    spec fn stored(&self) -> Stored;

    /// The statement that deletes the row `id`.
    spec fn delete_statement(id: int) -> Statement;

    fn row(&self) -> (row: StoredRow)
        ensures
            row@ == self.stored(),
    ;

    fn delete(id: i32) -> (statement: SqlStatement)
        ensures
            statement@ == Self::delete_statement(id as int),
    ;
}

/// The rows of the stored components.
pub open spec fn stored_rows<R: StoredComponent>(existing: Seq<R>) -> Seq<Stored> {
    Seq::new(existing.len(), |i: int| existing[i].stored())
}

/// The items of the components of a snapshot.
pub open spec fn snapshot_items<C: Component>(incoming: Seq<C>) -> Seq<Item> {
    Seq::new(
        incoming.len(),
        |j: int| Item { key: incoming[j].natural_key(), attributes: incoming[j].compared(j) },
    )
}

/// The statement that carries out one write.
pub open spec fn write_statement<R: StoredComponent, C: Component>(
    parent: int,
    write: Write,
    incoming: Seq<C>,
) -> Statement {
    match write {
        Write::Insert { item } => incoming[item].insert_statement(parent, item),
        Write::Update { id, item } => incoming[item].update_statement(id, item),
        Write::Delete { id } => R::delete_statement(id),
    }
}

/// The statements that bring the stored components of `parent` into
/// agreement with the snapshot: one for each planned write, in order.
pub open spec fn sync_statements<R: StoredComponent, C: Component>(
    parent: int,
    existing: Seq<R>,
    incoming: Seq<C>,
) -> Seq<Statement> {
    let writes = planned_writes(stored_rows(existing), snapshot_items(incoming));
    Seq::new(writes.len(), |k: int| write_statement::<R, C>(parent, writes[k], incoming))
}

/// Plans the reconciliation of the components of `parent` and writes the
/// plan out as statements.
pub fn synchronize<R: StoredComponent, C: Component>(
    parent: i32,
    existing: &Vec<R>,
    incoming: &Vec<C>,
) -> (statements: Vec<SqlStatement>)
    ensures
        views(statements@) == sync_statements::<R, C>(parent as int, existing@, incoming@),
{
    let mut rows: Vec<StoredRow> = Vec::new();
    let mut i: usize = 0;
    while i < existing.len()
        invariant
            i <= existing.len(),
            rows.len() == i,
            forall|k: int| 0 <= k < i ==> rows@[k]@ == existing@[k].stored(),
        decreases existing.len() - i,
    {
        rows.push(existing[i].row());
        i += 1;
    }
    assert(views(rows@) =~= stored_rows(existing@));
    let mut items: Vec<SnapshotItem> = Vec::new();
    let mut j: usize = 0;
    while j < incoming.len()
        invariant
            j <= incoming.len(),
            items.len() == j,
            forall|k: int|
                0 <= k < j ==> items@[k]@ == (Item {
                    key: incoming@[k].natural_key(),
                    attributes: incoming@[k].compared(k),
                }),
        decreases incoming.len() - j,
    {
        let item = SnapshotItem { key: incoming[j].key(), attributes: incoming[j].attributes(j) };
        items.push(item);
        j += 1;
    }
    assert(views(items@) =~= snapshot_items(incoming@));
    let writes = reconcile(&rows, &items);
    let ghost planned = planned_writes(stored_rows(existing@), snapshot_items(incoming@));
    proof {
        lemma_planned_items_in_range(stored_rows(existing@), snapshot_items(incoming@));
    }
    let mut statements: Vec<SqlStatement> = Vec::new();
    let mut k: usize = 0;
    while k < writes.len()
        invariant
            k <= writes.len(),
            statements.len() == k,
            views(writes@) == planned,
            forall|t: int| 0 <= t < planned.len() ==> write_in_range(#[trigger] planned[t], incoming.len() as int),
            forall|t: int|
                0 <= t < k ==> statements@[t]@ == write_statement::<R, C>(
                    parent as int,
                    planned[t],
                    incoming@,
                ),
        decreases writes.len() - k,
    {
        assert(planned[k as int] == writes@[k as int]@);
        assert(write_in_range(planned[k as int], incoming.len() as int));
        let statement = match writes[k] {
            RowWrite::Insert { item } => incoming[item].insert(parent, item),
            RowWrite::Update { id, item } => incoming[item].update(id, item),
            RowWrite::Delete { id } => R::delete(id),
        };
        statements.push(statement);
        k += 1;
    }
    assert(views(statements@) =~= sync_statements::<R, C>(parent as int, existing@, incoming@));
    statements
}

/// Whether a write names an item of a snapshot of `count` items.
pub open spec fn write_in_range(write: Write, count: int) -> bool {
    match write {
        Write::Insert { item } => 0 <= item < count,
        Write::Update { id, item } => 0 <= item < count,
        Write::Delete { id } => true,
    }
}

/// Every write that the first `n` items ask for names one of them.
pub proof fn lemma_item_writes_in_range(rows: Seq<Stored>, items: Seq<Item>, n: int)
    requires
        0 <= n <= items.len(),
    ensures
        forall|t: int|
            0 <= t < item_writes(rows, items, n).len() ==> write_in_range(
                #[trigger] item_writes(rows, items, n)[t],
                n,
            ),
    decreases n,
{
    if n > 0 {
        lemma_item_writes_in_range(rows, items, n - 1);
        let before = item_writes(rows, items, n - 1);
        let now = item_writes(rows, items, n);
        assert forall|t: int| 0 <= t < now.len() implies write_in_range(#[trigger] now[t], n) by {
            if t < before.len() {
                assert(now[t] == before[t]);
                assert(write_in_range(before[t], n - 1));
            }
        }
    }
}

/// A delete names no item.
pub proof fn lemma_stale_deletes_are_deletes(rows: Seq<Stored>, items: Seq<Item>, m: int)
    ensures
        forall|t: int|
            0 <= t < stale_deletes(rows, items, m).len() ==> (#[trigger] stale_deletes(
                rows,
                items,
                m,
            )[t]) is Delete,
    decreases m,
{
    if m > 0 {
        lemma_stale_deletes_are_deletes(rows, items, m - 1);
    }
}

/// Every planned write that names an item names one of the snapshot.
pub proof fn lemma_planned_items_in_range(rows: Seq<Stored>, items: Seq<Item>)
    ensures
        forall|t: int|
            0 <= t < planned_writes(rows, items).len() ==> write_in_range(
                #[trigger] planned_writes(rows, items)[t],
                items.len() as int,
            ),
{
    lemma_item_writes_in_range(rows, items, items.len() as int);
    lemma_stale_deletes_are_deletes(rows, items, rows.len() as int);
}

/// A row that is found among the first `k` is the one found among the first
/// `n`.
pub proof fn lemma_row_found_stays(rows: Seq<Stored>, key: Key, k: int, n: int)
    requires
        0 <= k <= n,
        row_of(rows, key, k) is Some,
    ensures
        row_of(rows, key, n) == row_of(rows, key, k),
    decreases n - k,
{
    if k < n {
        lemma_row_found_stays(rows, key, k, n - 1);
    }
}

/// An item that is found among the first `k` is the one found among the
/// first `n`.
pub proof fn lemma_item_found_stays(items: Seq<Item>, key: Key, k: int, n: int)
    requires
        0 <= k <= n,
        item_of(items, key, k) is Some,
    ensures
        item_of(items, key, n) == item_of(items, key, k),
    decreases n - k,
{
    if k < n {
        lemma_item_found_stays(items, key, k, n - 1);
    }
}

} // verus!
