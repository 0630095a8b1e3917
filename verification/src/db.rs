//! The table of shortcuts: its rows, its errors, and the four requests that
//! the service makes of it.

use vstd::prelude::*;
use vstd::string::*;
use crate::text::{decimal, to_decimal};

verus! {

/// Why a request to the table did not give what was asked.
#[derive(Debug, Clone, PartialEq, Eq)]
pub enum DbError {
    /// The store could not be reached, or refused the request.
    RequestError(String),
    /// The store answered, but not with one usable row.
    RetrievalError(String),
    /// A row with the same hash is already there.
    DuplicationError(),
    /// The store answered that it has no row with the hash.
    NotFoundError(),
}

/// A `DbError` with its text as a sequence of characters.
pub enum DbErrorView {
    RequestError(Seq<char>),
    RetrievalError(Seq<char>),
    DuplicationError,
    NotFoundError,
}

impl View for DbError {
    type V = DbErrorView;

    open spec fn view(&self) -> DbErrorView {
        match *self {
            DbError::RequestError(detail) => DbErrorView::RequestError(detail@),
            DbError::RetrievalError(detail) => DbErrorView::RetrievalError(detail@),
            DbError::DuplicationError() => DbErrorView::DuplicationError,
            DbError::NotFoundError() => DbErrorView::NotFoundError,
        }
    }
}

impl DbError {
    /// The short text shown for this error; the detail it carries is left out.
    pub fn message(&self) -> (r: String)
        ensures
            r@ == match self@ {
                DbErrorView::RequestError(_) => "db request failed"@,
                DbErrorView::RetrievalError(_) => "invalid data returned"@,
                DbErrorView::DuplicationError => "duplicate data exists"@,
                DbErrorView::NotFoundError => "no data found"@,
            },
    {
        match self {
            DbError::RequestError(_) => String::from_str("db request failed"),
            DbError::RetrievalError(_) => String::from_str("invalid data returned"),
            DbError::DuplicationError() => String::from_str("duplicate data exists"),
            DbError::NotFoundError() => String::from_str("no data found"),
        }
    }
}

/// A short hash together with the link it stands for.
#[derive(Debug, Clone, PartialEq, Eq)]
pub struct Shortcut {
    pub link: String,
    pub hash: String,
}

/// A `Shortcut` as two sequences of characters.
pub struct ShortcutView {
    pub link: Seq<char>,
    pub hash: Seq<char>,
}

impl View for Shortcut {
    type V = ShortcutView;

    open spec fn view(&self) -> ShortcutView {
        ShortcutView { link: self.link@, hash: self.hash@ }
    }
}

/// What a stored item holds under one attribute name.
#[derive(Debug, Clone, PartialEq, Eq)]
pub enum Attribute {
    /// The item has no attribute of that name.
    Absent,
    /// The attribute is a string.
    Text(String),
    /// The attribute is there, but is not a string.
    Other,
}

/// An `Attribute` with its text as a sequence of characters.
pub enum AttributeView {
    Absent,
    Text(Seq<char>),
    Other,
}

impl View for Attribute {
    type V = AttributeView;

    open spec fn view(&self) -> AttributeView {
        match *self {
            Attribute::Absent => AttributeView::Absent,
            Attribute::Text(text) => AttributeView::Text(text@),
            Attribute::Other => AttributeView::Other,
        }
    }
}

/// One item as the store returns it: the two attributes that a shortcut is
/// made of, each of which may be missing or of the wrong kind.
#[derive(Debug, Clone, PartialEq, Eq)]
pub struct Record {
    pub link: Attribute,
    pub link_hash: Attribute,
}

/// A `Record` over attribute views.
pub struct RecordView {
    pub link: AttributeView,
    pub link_hash: AttributeView,
}

impl View for Record {
    type V = RecordView;

    open spec fn view(&self) -> RecordView {
        RecordView { link: self.link@, link_hash: self.link_hash@ }
    }
}

/// The views of a run of records.
pub open spec fn records_view(records: Seq<Record>) -> Seq<RecordView> {
    records.map_values(|r: Record| r@)
}

/// The items of a response, where it has any, as views.
pub open spec fn items_view(items: Option<Vec<Record>>) -> Option<Seq<RecordView>> {
    match items {
        Some(records) => Some(records_view(records@)),
        None => None,
    }
}

/// A link or an error, over views.
pub open spec fn link_result_view(r: Result<String, DbError>) -> Result<Seq<char>, DbErrorView> {
    match r {
        Ok(link) => Ok(link@),
        Err(e) => Err(e@),
    }
}

/// Success or an error, over views.
pub open spec fn unit_result_view(r: Result<(), DbError>) -> Result<(), DbErrorView> {
    match r {
        Ok(_) => Ok(()),
        Err(e) => Err(e@),
    }
}

/// What a query by hash amounts to: the link of the one item found, or the
/// reason why there is none to give. No item at all is `NotFoundError`; an
/// answer without a list of items, an item without a string under `link`,
/// and more than one item are each a `RetrievalError`.
pub open spec fn link_of_items(items: Option<Seq<RecordView>>) -> Result<Seq<char>, DbErrorView> {
    match items {
        None => Err(
            DbErrorView::RetrievalError("Query response did not have any items to check"@),
        ),
        Some(found) => if found.len() == 0 {
            Err(DbErrorView::NotFoundError)
        } else if found.len() == 1 {
            match found[0].link {
                AttributeView::Text(link) => Ok(link),
                _ => Err(
                    DbErrorView::RetrievalError(
                        "Query response item did not provide a valid link"@,
                    ),
                ),
            }
        } else {
            Err(
                DbErrorView::RetrievalError(
                    "Query had "@ + decimal(found.len()) + " entries instead of one"@,
                ),
            )
        },
    }
}

/// Reads the answer to a query by hash: exactly one item with a string under
/// `link` gives that link, no item gives `NotFoundError`, and anything else a
/// `RetrievalError` that says what was wrong.
pub fn link_from_query(items: &Option<Vec<Record>>) -> (r: Result<String, DbError>)
    ensures
        link_result_view(r) == link_of_items(items_view(*items)),
{
    match items {
        None => Err(
            DbError::RetrievalError(
                String::from_str("Query response did not have any items to check"),
            ),
        ),
        Some(found) => {
            if found.len() == 0 {
                Err(DbError::NotFoundError())
            } else if found.len() == 1 {
                assert(records_view(found@)[0] == found@[0]@);
                match &found[0].link {
                    Attribute::Text(link) => Ok(link.clone()),
                    _ => Err(
                        DbError::RetrievalError(
                            String::from_str("Query response item did not provide a valid link"),
                        ),
                    ),
                }
            } else {
                let mut detail = String::from_str("Query had ");
                let count = to_decimal(found.len());
                detail.append(count.as_str());
                detail.append(" entries instead of one");
                Err(DbError::RetrievalError(detail))
            }
        },
    }
}

/// The rows as views.
pub open spec fn rows_view(rows: Seq<Shortcut>) -> Seq<ShortcutView> {
    rows.map_values(|s: Shortcut| s@)
}

/// No two rows have the same hash.
pub open spec fn distinct_hashes(rows: Seq<ShortcutView>) -> bool {
    forall|i: int, j: int|
        0 <= i < rows.len() && 0 <= j < rows.len() && i != j ==> rows[i].hash != rows[j].hash
}

/// Some row has this hash.
pub open spec fn holds(rows: Seq<ShortcutView>, hash: Seq<char>) -> bool {
    exists|i: int| 0 <= i < rows.len() && #[trigger] rows[i].hash == hash
}

/// Where the row with this hash stands, if `holds` says there is one.
pub open spec fn index_of(rows: Seq<ShortcutView>, hash: Seq<char>) -> int {
    choose|i: int| 0 <= i < rows.len() && #[trigger] rows[i].hash == hash
}

/// The link stored under this hash, if `holds` says there is one.
pub open spec fn link_of(rows: Seq<ShortcutView>, hash: Seq<char>) -> Seq<char> {
    rows[index_of(rows, hash)].link
}

/// The rows that a query by hash finds: the one with that hash, or none.
pub open spec fn found(rows: Seq<ShortcutView>, hash: Seq<char>) -> Seq<ShortcutView> {
    if holds(rows, hash) {
        seq![rows[index_of(rows, hash)]]
    } else {
        Seq::empty()
    }
}

/// The rows after one is written: it takes the place of the row with the
/// same hash, or comes last where there was none.
pub open spec fn put(rows: Seq<ShortcutView>, row: ShortcutView) -> Seq<ShortcutView> {
    if holds(rows, row.hash) {
        rows.update(index_of(rows, row.hash), row)
    } else {
        rows.push(row)
    }
}

/// The rows after the one with this hash, if any, is taken out.
pub open spec fn without(rows: Seq<ShortcutView>, hash: Seq<char>) -> Seq<ShortcutView> {
    if holds(rows, hash) {
        rows.remove(index_of(rows, hash))
    } else {
        rows
    }
}

/// The rows after all are taken out: none.
pub open spec fn cleared(rows: Seq<ShortcutView>) -> Seq<ShortcutView> {
    Seq::empty()
}

/// A row as the store returns it: both attributes present, both strings.
pub open spec fn record_of(row: ShortcutView) -> RecordView {
    RecordView { link: AttributeView::Text(row.link), link_hash: AttributeView::Text(row.hash) }
}

/// The rows as the store returns them, in order.
pub open spec fn records_of(rows: Seq<ShortcutView>) -> Seq<RecordView> {
    rows.map_values(|row: ShortcutView| record_of(row))
}

/// In rows with distinct hashes, a row with the hash is the row that
/// `index_of` names.
pub proof fn lemma_index_of(rows: Seq<ShortcutView>, hash: Seq<char>, i: int)
    requires
        distinct_hashes(rows),
        0 <= i < rows.len(),
        rows[i].hash == hash,
    ensures
        holds(rows, hash),
        index_of(rows, hash) == i,
{
}

/// A table of shortcuts held in memory, keyed by hash: no two rows have the
/// same hash. Its view is the rows in the order in which they were written.
pub struct Table {
    rows: Vec<Shortcut>,
}

impl View for Table {
    type V = Seq<ShortcutView>;

    closed spec fn view(&self) -> Seq<ShortcutView> {
        rows_view(self.rows@)
    }
}

impl Table {
    #[verifier::type_invariant]
    spec fn keyed(self) -> bool {
        distinct_hashes(rows_view(self.rows@))
    }

    /// A table without rows.
    pub fn new() -> (r: Table)
        ensures
            r@ == Seq::<ShortcutView>::empty(),
    {
        let r = Table { rows: Vec::new() };
        assert(r@ =~= Seq::<ShortcutView>::empty());
        r
    }

    /// Recalls that the hashes of a table are distinct, whatever was done
    /// to it. Does nothing when run.
    pub fn recall_distinct(&self)
        ensures
            distinct_hashes(self@),
    {
        proof {
            use_type_invariant(&*self);
        }
    }

    /// The number of rows.
    pub fn len(&self) -> (r: usize)
        ensures
            r == self@.len(),
    {
        self.rows.len()
    }

    fn position(&self, hash: &String) -> (r: Option<usize>)
        ensures
            match r {
                Some(i) => i < self@.len() && self@[i as int].hash == hash@ && holds(
                    self@,
                    hash@,
                ) && index_of(self@, hash@) == i,
                None => !holds(self@, hash@),
            },
    {
        proof {
            use_type_invariant(&*self);
        }
        let mut i: usize = 0;
        while i < self.rows.len()
            invariant
                i <= self.rows.len(),
                distinct_hashes(self@),
                forall|j: int| 0 <= j < i ==> (#[trigger] self@[j]).hash != hash@,
            decreases self.rows.len() - i,
        {
            if self.rows[i].hash == *hash {
                proof {
                    lemma_index_of(self@, hash@, i as int);
                }
                return Some(i);
            }
            i += 1;
        }
        None
    }

    /// The answer to a query by hash: the items with that hash, of which
    /// there is one or none.
    pub fn query(&self, hash: &str) -> (r: Option<Vec<Record>>)
        ensures
            items_view(r) == Some(records_of(found(self@, hash@))),
    {
        let key = hash.to_owned();
        let mut items: Vec<Record> = Vec::new();
        match self.position(&key) {
            Some(i) => {
                let row = &self.rows[i];
                items.push(
                    Record {
                        link: Attribute::Text(row.link.clone()),
                        link_hash: Attribute::Text(row.hash.clone()),
                    },
                );
                assert(records_view(items@) =~= records_of(found(self@, hash@)));
            },
            None => {
                assert(records_view(items@) =~= records_of(found(self@, hash@)));
            },
        }
        Some(items)
    }

    /// The answer to a scan: every row as an item, in the table's order.
    pub fn scan(&self) -> (r: Option<Vec<Record>>)
        ensures
            items_view(r) == Some(records_of(self@)),
    {
        let mut items: Vec<Record> = Vec::new();
        let mut i: usize = 0;
        while i < self.rows.len()
            invariant
                i <= self.rows.len(),
                items@.len() == i,
                records_view(items@) == records_of(self@.take(i as int)),
            decreases self.rows.len() - i,
        {
            let row = &self.rows[i];
            let ghost so_far = items@;
            items.push(
                Record {
                    link: Attribute::Text(row.link.clone()),
                    link_hash: Attribute::Text(row.hash.clone()),
                },
            );
            i += 1;
            assert forall|j: int| 0 <= j < i implies records_view(items@)[j] == records_of(
                self@.take(i as int),
            )[j] by {
                if j < i - 1 {
                    assert(items@[j] == so_far[j]);
                    assert(records_view(so_far)[j] == records_of(self@.take(i - 1))[j]);
                    assert(self@.take(i - 1)[j] == self@.take(i as int)[j]);
                }
            }
            assert(records_view(items@) =~= records_of(self@.take(i as int)));
        }
        assert(self@.take(i as int) =~= self@);
        Some(items)
    }

    /// Writes a row: it replaces the row with the same hash, or is added.
    pub fn put_item(&mut self, row: Shortcut)
        ensures
            final(self)@ == put(old(self)@, row@),
    {
        proof {
            use_type_invariant(&*self);
        }
        let at = self.position(&row.hash);
        let ghost before = self@;
        let ghost new_row = row@;
        let mut rows: Vec<Shortcut> = Vec::new();
        std::mem::swap(&mut rows, &mut self.rows);
        assert(rows_view(rows@) == before);
        match at {
            Some(i) => {
                rows.set(i, row);
            },
            None => {
                rows.push(row);
            },
        }
        assert(rows_view(rows@) =~= put(before, new_row));
        assert(distinct_hashes(rows_view(rows@)));
        self.rows = rows;
    }

    /// Takes out the row with this hash, and says whether there was one.
    pub fn delete_item(&mut self, hash: &str) -> (r: bool)
        ensures
            r == holds(old(self)@, hash@),
            final(self)@ == without(old(self)@, hash@),
    {
        proof {
            use_type_invariant(&*self);
        }
        let key = hash.to_owned();
        let at = self.position(&key);
        let ghost before = self@;
        match at {
            Some(i) => {
                let mut rows: Vec<Shortcut> = Vec::new();
                std::mem::swap(&mut rows, &mut self.rows);
                assert(rows_view(rows@) == before);
                let _ = rows.remove(i);
                assert(rows_view(rows@) =~= without(before, hash@));
                assert(distinct_hashes(rows_view(rows@)));
                self.rows = rows;
                true
            },
            None => false,
        }
    }

    /// Takes out every row.
    pub fn clear(&mut self)
        ensures
            final(self)@ == cleared(old(self)@),
    {
        self.rows = Vec::new();
        assert(self@ =~= Seq::<ShortcutView>::empty());
    }
}

/// Records or an error, over views.
pub open spec fn records_result_view(r: Result<Vec<Record>, DbError>) -> Result<
    Seq<RecordView>,
    DbErrorView,
> {
    match r {
        Ok(records) => Ok(records_view(records@)),
        Err(e) => Err(e@),
    }
}

/// What a scan amounts to: its items, or the reason why there are none.
pub open spec fn records_of_items(items: Option<Seq<RecordView>>) -> Result<
    Seq<RecordView>,
    DbErrorView,
> {
    match items {
        Some(records) => Ok(records),
        None => Err(DbErrorView::RetrievalError("Scan response did not function properly"@)),
    }
}

/// Reads the answer to a scan: the items where it has any list of them, a
/// `RetrievalError` where it has none.
pub fn records_from_scan(items: Option<Vec<Record>>) -> (r: Result<Vec<Record>, DbError>)
    ensures
        records_result_view(r) == records_of_items(items_view(items)),
{
    match items {
        Some(records) => Ok(records),
        None => Err(
            DbError::RetrievalError(String::from_str("Scan response did not function properly")),
        ),
    }
}

/// The answer to a query, or the error of the request, over views.
pub open spec fn probe_view(probe: Result<Option<Vec<Record>>, DbError>) -> Result<
    Option<Seq<RecordView>>,
    DbErrorView,
> {
    match probe {
        Ok(items) => Ok(items_view(items)),
        Err(e) => Err(e@),
    }
}

/// A truth value or an error, over views.
pub open spec fn flag_result_view(r: Result<bool, DbError>) -> Result<bool, DbErrorView> {
    match r {
        Ok(flag) => Ok(flag),
        Err(e) => Err(e@),
    }
}

/// Whether the store has an item under a hash, given what a query by that
/// hash came to. A list without items says that it has none; a list with an
/// item says that it has one, whatever the item holds. The error of a failed
/// request is handed on, and an answer without a list is a `RetrievalError`:
/// in both cases nothing is known of the hash.
pub open spec fn presence(probe: Result<Option<Seq<RecordView>>, DbErrorView>) -> Result<
    bool,
    DbErrorView,
> {
    match probe {
        Err(e) => Err(e),
        Ok(None) => Err(
            DbErrorView::RetrievalError("Query response did not have any items to check"@),
        ),
        Ok(Some(items)) => Ok(items.len() > 0),
    }
}

/// Reads from a query by hash whether the store has an item under it.
pub fn present(probe: Result<Option<Vec<Record>>, DbError>) -> (r: Result<bool, DbError>)
    ensures
        flag_result_view(r) == presence(probe_view(probe)),
{
    match probe {
        Err(e) => Err(e),
        Ok(None) => Err(
            DbError::RetrievalError(
                String::from_str("Query response did not have any items to check"),
            ),
        ),
        Ok(Some(items)) => Ok(items.len() > 0),
    }
}

/// Whether a row may be written under a hash, given what a query by that
/// hash came to: only where the store is known to have no item under it.
/// Any item, well formed or not, is a duplicate; where nothing is known of
/// the hash, the error that says so is handed on.
pub open spec fn vacancy(probe: Result<Option<Seq<RecordView>>, DbErrorView>) -> Result<
    (),
    DbErrorView,
> {
    match presence(probe) {
        Err(e) => Err(e),
        Ok(taken) => if taken {
            Err(DbErrorView::DuplicationError)
        } else {
            Ok(())
        },
    }
}

/// Decides from a query by the hash whether a new row may be written.
pub fn vacant(probe: Result<Option<Vec<Record>>, DbError>) -> (r: Result<(), DbError>)
    ensures
        unit_result_view(r) == vacancy(probe_view(probe)),
{
    match present(probe) {
        Err(e) => Err(e),
        Ok(taken) => {
            if taken {
                Err(DbError::DuplicationError())
            } else {
                Ok(())
            }
        },
    }
}

/// What a removal amounts to, given whether a row was taken out.
pub open spec fn removal(removed: bool) -> Result<(), DbErrorView> {
    if removed {
        Ok(())
    } else {
        Err(DbErrorView::NotFoundError)
    }
}

/// Reads the answer to a removal: success where a row was taken out,
/// `NotFoundError` where there was none to take.
pub fn removed_one(removed: bool) -> (r: Result<(), DbError>)
    ensures
        unit_result_view(r) == removal(removed),
{
    if removed {
        Ok(())
    } else {
        Err(DbError::NotFoundError())
    }
}

/// The link stored under a hash, or the error that says there is none.
pub open spec fn lookup(rows: Seq<ShortcutView>, hash: Seq<char>) -> Result<
    Seq<char>,
    DbErrorView,
> {
    if holds(rows, hash) {
        Ok(link_of(rows, hash))
    } else {
        Err(DbErrorView::NotFoundError)
    }
}

/// A query by hash on a table, read as `link_of_items` reads it, is
/// `lookup`; read as `presence` reads it, it is `holds`.
pub proof fn lemma_lookup(rows: Seq<ShortcutView>, hash: Seq<char>)
    ensures
        link_of_items(Some(records_of(found(rows, hash)))) == lookup(rows, hash),
        presence(Ok(Some(records_of(found(rows, hash))))) == Ok::<bool, DbErrorView>(
            holds(rows, hash),
        ),
{
}

/// A row added under a free hash is found under that hash, with its link.
pub proof fn lemma_lookup_added(rows: Seq<ShortcutView>, row: ShortcutView)
    requires
        !holds(rows, row.hash),
    ensures
        added(rows, row) == rows.push(row),
        holds(added(rows, row), row.hash),
        lookup(added(rows, row), row.hash) == Ok::<Seq<char>, DbErrorView>(row.link),
{
    let after = rows.push(row);
    assert(after[rows.len() as int].hash == row.hash);
    let at = index_of(after, row.hash);
    if at < rows.len() {
        assert(rows[at].hash == row.hash);
    }
}

/// Get the given hash's link from the table.
pub fn get_shortcut(table: &Table, hash: &str) -> (r: Result<String, DbError>)
    ensures
        link_result_view(r) == lookup(table@, hash@),
{
    proof {
        lemma_lookup(table@, hash@);
    }
    let items = table.query(hash);
    link_from_query(&items)
}

/// The table after a shortcut is added: unchanged where its hash is taken.
pub open spec fn added(rows: Seq<ShortcutView>, row: ShortcutView) -> Seq<ShortcutView> {
    if holds(rows, row.hash) {
        rows
    } else {
        rows.push(row)
    }
}

/// Tells whether the table has a row with the hash.
pub fn has_shortcut(table: &Table, hash: &str) -> (r: Result<bool, DbError>)
    ensures
        flag_result_view(r) == Ok::<bool, DbErrorView>(holds(table@, hash@)),
{
    proof {
        lemma_lookup(table@, hash@);
    }
    present(Ok(table.query(hash)))
}

/// Add a link with its hash to the table, unless the hash is taken: then
/// the answer is `DuplicationError` and the table stays as it is.
pub fn add_shortcut(table: &mut Table, shortcut: &Shortcut) -> (r: Result<(), DbError>)
    ensures
        unit_result_view(r) == (if holds(old(table)@, shortcut@.hash) {
            Err::<(), DbErrorView>(DbErrorView::DuplicationError)
        } else {
            Ok::<(), DbErrorView>(())
        }),
        final(table)@ == added(old(table)@, shortcut@),
{
    proof {
        lemma_lookup(table@, shortcut@.hash);
    }
    let probe = Ok(table.query(shortcut.hash.as_str()));
    match vacant(probe) {
        Err(e) => Err(e),
        Ok(_) => {
            table.put_item(Shortcut { link: shortcut.link.clone(), hash: shortcut.hash.clone() });
            Ok(())
        },
    }
}

/// Every row of the table, as the store returns them.
pub fn get_all_shortcuts(table: &Table) -> (r: Result<Vec<Record>, DbError>)
    ensures
        records_result_view(r) == Ok::<Seq<RecordView>, DbErrorView>(records_of(table@)),
{
    records_from_scan(table.scan())
}

/// Deletes the given hash's shortcut from the table, and says so where
/// there was none.
pub fn delete_shortcut(table: &mut Table, hash: &str) -> (r: Result<(), DbError>)
    ensures
        unit_result_view(r) == removal(holds(old(table)@, hash@)),
        final(table)@ == without(old(table)@, hash@),
{
    let removed = table.delete_item(hash);
    removed_one(removed)
}

/// Deletes every shortcut from the table.
pub fn clear_shortcuts(table: &mut Table) -> (r: Result<(), DbError>)
    ensures
        r is Ok,
        final(table)@ == cleared(old(table)@),
{
    table.clear();
    Ok(())
}

} // verus!
