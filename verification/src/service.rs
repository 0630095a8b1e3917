//! The directory of shortcuts: create, resolve, list, delete and clear, on
//! top of the table and the hash generator.

use vstd::prelude::*;
use vstd::string::*;
use crate::db::{
    add_shortcut, added, clear_shortcuts, cleared, flag_result_view, has_shortcut, index_of,
    delete_shortcut, distinct_hashes, get_all_shortcuts, get_shortcut, holds, lemma_lookup_added,
    link_of, link_result_view, lookup, record_of, records_of, records_result_view, records_view,
    removal, rows_view, unit_result_view, without, Attribute, AttributeView, DbError, DbErrorView,
    Record, RecordView, Shortcut, ShortcutView, Table,
};
use crate::utils::{gen_hash, is_hash, is_link, is_url};

verus! {

/// Why the directory did not do what was asked.
#[derive(Debug, Clone, Copy, PartialEq, Eq, Structural)]
pub enum ServiceError {
    /// The link to shorten is not a link that the service accepts.
    InvalidTarget,
    /// Every hash that was tried was taken.
    ExhaustedNamespace,
    /// No shortcut has the given hash.
    NotFound,
    /// The table could not be reached, or refused the request.
    StoreUnavailable,
}

/// How many hashes `create` tries before it gives up.
pub const MAX_ATTEMPTS: usize = 8;

/// A link or a service error, over views.
pub open spec fn resolved_view(r: Result<String, ServiceError>) -> Result<Seq<char>, ServiceError> {
    match r {
        Ok(link) => Ok(link@),
        Err(e) => Err(e),
    }
}

/// Shortcuts or a service error, over views.
pub open spec fn listed_view(r: Result<Vec<Shortcut>, ServiceError>) -> Result<
    Seq<ShortcutView>,
    ServiceError,
> {
    match r {
        Ok(shortcuts) => Ok(rows_view(shortcuts@)),
        Err(e) => Err(e),
    }
}

/// What an error of the table means to a caller: the table answered that
/// it has no such row, or it gave no answer that could be used.
pub open spec fn lookup_failure(e: DbErrorView) -> ServiceError {
    match e {
        DbErrorView::NotFoundError => ServiceError::NotFound,
        _ => ServiceError::StoreUnavailable,
    }
}

/// What a lookup means to a caller.
pub open spec fn resolution(found: Result<Seq<char>, DbErrorView>) -> Result<
    Seq<char>,
    ServiceError,
> {
    match found {
        Ok(link) => Ok(link),
        Err(e) => Err(lookup_failure(e)),
    }
}

/// Reads the outcome of a lookup: the link, `NotFound` where the table
/// answered that it has no such row, `StoreUnavailable` for any other error.
pub fn resolved(found: Result<String, DbError>) -> (r: Result<String, ServiceError>)
    ensures
        resolved_view(r) == resolution(link_result_view(found)),
{
    match found {
        Ok(link) => Ok(link),
        Err(DbError::NotFoundError()) => Err(ServiceError::NotFound),
        Err(_) => Err(ServiceError::StoreUnavailable),
    }
}

/// The shortcut that a record holds, if both attributes are strings.
pub open spec fn shortcut_of(record: RecordView) -> Option<ShortcutView> {
    match (record.link, record.link_hash) {
        (AttributeView::Text(link), AttributeView::Text(hash)) => Some(
            ShortcutView { link, hash },
        ),
        _ => None,
    }
}

/// The shortcuts that a run of records holds, in order; a record that lacks
/// an attribute, or has one that is no string, is passed over.
pub open spec fn shortcuts_of(records: Seq<RecordView>) -> Seq<ShortcutView>
    decreases records.len(),
{
    if records.len() == 0 {
        Seq::empty()
    } else {
        let rest = shortcuts_of(records.drop_last());
        match shortcut_of(records.last()) {
            Some(shortcut) => rest.push(shortcut),
            None => rest,
        }
    }
}

/// The records of a table's rows hold exactly those rows.
pub proof fn lemma_shortcuts_of_rows(rows: Seq<ShortcutView>)
    ensures
        shortcuts_of(records_of(rows)) == rows,
    decreases rows.len(),
{
    if rows.len() == 0 {
        assert(shortcuts_of(records_of(rows)) =~= rows);
    } else {
        lemma_shortcuts_of_rows(rows.drop_last());
        assert(records_of(rows).drop_last() =~= records_of(rows.drop_last()));
        assert(records_of(rows).last() == record_of(rows.last()));
        assert(shortcuts_of(records_of(rows)) =~= rows);
    }
}

/// Collects the shortcuts out of the records of a scan, and passes over
/// every record that is not well formed.
pub fn shortcuts_from_records(records: &Vec<Record>) -> (r: Vec<Shortcut>)
    ensures
        rows_view(r@) == shortcuts_of(records_view(records@)),
{
    let mut shortcuts: Vec<Shortcut> = Vec::new();
    let mut i: usize = 0;
    assert(records_view(records@).take(0) =~= Seq::<RecordView>::empty());
    assert(rows_view(shortcuts@) =~= Seq::<ShortcutView>::empty());
    while i < records.len()
        invariant
            i <= records.len(),
            rows_view(shortcuts@) == shortcuts_of(records_view(records@).take(i as int)),
        decreases records.len() - i,
    {
        let ghost so_far = shortcuts@;
        let ghost all = records_view(records@);
        assert(all.take(i + 1).drop_last() =~= all.take(i as int));
        assert(all.take(i + 1).last() == records@[i as int]@);
        let record = &records[i];
        match (&record.link, &record.link_hash) {
            (Attribute::Text(link), Attribute::Text(hash)) => {
                shortcuts.push(Shortcut { link: link.clone(), hash: hash.clone() });
                assert(rows_view(shortcuts@) =~= rows_view(so_far).push(
                    ShortcutView { link: link@, hash: hash@ },
                ));
            },
            _ => {},
        }
        i += 1;
    }
    assert(records_view(records@).take(i as int) =~= records_view(records@));
    shortcuts
}

/// What a scan means to a caller.
pub open spec fn listing(scanned: Result<Seq<RecordView>, DbErrorView>) -> Result<
    Seq<ShortcutView>,
    ServiceError,
> {
    match scanned {
        Ok(records) => Ok(shortcuts_of(records)),
        Err(_) => Err(ServiceError::StoreUnavailable),
    }
}

/// Reads the outcome of a scan: the well-formed shortcuts among its
/// records, or `StoreUnavailable`.
pub fn listed(scanned: Result<Vec<Record>, DbError>) -> (r: Result<Vec<Shortcut>, ServiceError>)
    ensures
        listed_view(r) == listing(records_result_view(scanned)),
{
    match scanned {
        Ok(records) => Ok(shortcuts_from_records(&records)),
        Err(_) => Err(ServiceError::StoreUnavailable),
    }
}

/// What the outcome of a removal, or of a clearing, means to a caller.
pub open spec fn completion(outcome: Result<(), DbErrorView>) -> Result<(), ServiceError> {
    match outcome {
        Ok(_) => Ok(()),
        Err(e) => Err(lookup_failure(e)),
    }
}

/// Reads the outcome of a removal or of a clearing: done, `NotFound` where
/// the table answered that there was no such row, `StoreUnavailable` for any
/// other error.
pub fn completed(outcome: Result<(), DbError>) -> (r: Result<(), ServiceError>)
    ensures
        r == completion(unit_result_view(outcome)),
{
    match outcome {
        Ok(_) => Ok(()),
        Err(DbError::NotFoundError()) => Err(ServiceError::NotFound),
        Err(_) => Err(ServiceError::StoreUnavailable),
    }
}

/// What the test for a row means to a removal that is to follow: it may go
/// on where there is a row, well formed or not; it is `NotFound` where there
/// is none, and `StoreUnavailable` where the test gave no answer.
pub open spec fn existence(tested: Result<bool, DbErrorView>) -> Result<(), ServiceError> {
    match tested {
        Ok(there) => if there {
            Ok(())
        } else {
            Err(ServiceError::NotFound)
        },
        Err(_) => Err(ServiceError::StoreUnavailable),
    }
}

/// Reads the outcome of the test for a row that comes before a removal.
pub fn existing(tested: Result<bool, DbError>) -> (r: Result<(), ServiceError>)
    ensures
        r == existence(flag_result_view(tested)),
{
    match tested {
        Ok(there) => {
            if there {
                Ok(())
            } else {
                Err(ServiceError::NotFound)
            }
        },
        Err(_) => Err(ServiceError::StoreUnavailable),
    }
}

/// The link behind a hash.
pub fn resolve(table: &Table, hash: &str) -> (r: Result<String, ServiceError>)
    ensures
        resolved_view(r) == resolution(lookup(table@, hash@)),
        holds(table@, hash@) ==> resolved_view(r) == Ok::<Seq<char>, ServiceError>(
            link_of(table@, hash@),
        ),
        !holds(table@, hash@) ==> r == Err::<String, ServiceError>(ServiceError::NotFound),
{
    resolved(get_shortcut(table, hash))
}

/// Every shortcut of the table, in the table's order.
pub fn list(table: &Table) -> (r: Result<Vec<Shortcut>, ServiceError>)
    ensures
        listed_view(r) == Ok::<Seq<ShortcutView>, ServiceError>(table@),
{
    proof {
        lemma_shortcuts_of_rows(table@);
    }
    listed(get_all_shortcuts(table))
}

/// Removes the shortcut with this hash: `NotFound`, and nothing changed,
/// where there is none.
pub fn delete(table: &mut Table, hash: &str) -> (r: Result<(), ServiceError>)
    ensures
        r == (if holds(old(table)@, hash@) {
            Ok::<(), ServiceError>(())
        } else {
            Err::<(), ServiceError>(ServiceError::NotFound)
        }),
        final(table)@ == without(old(table)@, hash@),
{
    match existing(has_shortcut(table, hash)) {
        Err(e) => Err(e),
        Ok(_) => completed(delete_shortcut(table, hash)),
    }
}

/// Removes every shortcut.
pub fn clear(table: &mut Table) -> (r: Result<(), ServiceError>)
    ensures
        r is Ok,
        final(table)@ == cleared(old(table)@),
{
    completed(clear_shortcuts(table))
}

/// How far the creation of a shortcut has come. Whoever runs it does what
/// the state asks for, and hands the outcome to `step`: a hash to try while
/// `Drawing`, the table's answer to the write while `Writing`.
#[derive(Debug, PartialEq, Eq)]
pub enum Creation {
    /// A hash is to be drawn for the link; `attempts` hashes were drawn
    /// before.
    Drawing { link: String, attempts: usize },
    /// The row of `link` and `hash` is to be added to the table.
    Writing { link: String, hash: String, attempts: usize },
    /// The creation is over, with the hash of the new shortcut or an error.
    Finished(Result<String, ServiceError>),
}

/// A `Creation` over sequences of characters.
pub enum CreationView {
    Drawing { link: Seq<char>, attempts: nat },
    Writing { link: Seq<char>, hash: Seq<char>, attempts: nat },
    Finished(Result<Seq<char>, ServiceError>),
}

impl View for Creation {
    type V = CreationView;

    open spec fn view(&self) -> CreationView {
        match *self {
            Creation::Drawing { link, attempts } => CreationView::Drawing {
                link: link@,
                attempts: attempts as nat,
            },
            Creation::Writing { link, hash, attempts } => CreationView::Writing {
                link: link@,
                hash: hash@,
                attempts: attempts as nat,
            },
            Creation::Finished(outcome) => CreationView::Finished(resolved_view(outcome)),
        }
    }
}

/// What came back from the step that a `Creation` asked for.
#[derive(Debug, PartialEq, Eq)]
pub enum CreationEvent {
    /// A hash was drawn.
    Drawn(String),
    /// The table answered the write.
    Written(Result<(), DbError>),
}

/// A `CreationEvent` over sequences of characters.
pub enum CreationEventView {
    Drawn(Seq<char>),
    Written(Result<(), DbErrorView>),
}

impl View for CreationEvent {
    type V = CreationEventView;

    open spec fn view(&self) -> CreationEventView {
        match *self {
            CreationEvent::Drawn(hash) => CreationEventView::Drawn(hash@),
            CreationEvent::Written(outcome) => CreationEventView::Written(
                unit_result_view(outcome),
            ),
        }
    }
}

/// Where a creation starts: at the first draw for a link that the service
/// accepts, at its end with `InvalidTarget` for any other text.
pub open spec fn started(link: Seq<char>) -> CreationView {
    if is_link(link) {
        CreationView::Drawing { link, attempts: 0 }
    } else {
        CreationView::Finished(Err(ServiceError::InvalidTarget))
    }
}

/// Where a creation goes after a hash was taken: to another draw while
/// attempts are left, to its end with `ExhaustedNamespace` when none is.
pub open spec fn retried(link: Seq<char>, attempts: nat) -> CreationView {
    if attempts < MAX_ATTEMPTS {
        CreationView::Drawing { link, attempts }
    } else {
        CreationView::Finished(Err(ServiceError::ExhaustedNamespace))
    }
}

/// The state that follows a state and an event. A drawn hash counts as an
/// attempt and is written; a hash that the table has already leads to
/// another draw, or to the end when `MAX_ATTEMPTS` were made; an accepted
/// write ends the creation with its hash, any other answer with
/// `StoreUnavailable`. An event that the state did not ask for changes
/// nothing.
pub open spec fn next(state: CreationView, event: CreationEventView) -> CreationView {
    match (state, event) {
        (CreationView::Drawing { link, attempts }, CreationEventView::Drawn(hash)) => {
            if attempts >= MAX_ATTEMPTS {
                CreationView::Finished(Err(ServiceError::ExhaustedNamespace))
            } else {
                CreationView::Writing { link, hash, attempts: attempts + 1 }
            }
        },
        (CreationView::Writing { link, hash, attempts }, CreationEventView::Written(outcome)) => {
            match outcome {
                Ok(_) => CreationView::Finished(Ok(hash)),
                Err(DbErrorView::DuplicationError) => retried(link, attempts),
                Err(_) => CreationView::Finished(Err(ServiceError::StoreUnavailable)),
            }
        },
        _ => state,
    }
}

/// How many steps a creation has left at most.
pub open spec fn steps_left(state: CreationView) -> nat {
    match state {
        CreationView::Drawing { attempts, .. } => if attempts < MAX_ATTEMPTS {
            (2 * (MAX_ATTEMPTS - attempts) + 2) as nat
        } else {
            1
        },
        CreationView::Writing { attempts, .. } => if attempts < MAX_ATTEMPTS {
            (2 * (MAX_ATTEMPTS - attempts) + 3) as nat
        } else {
            2
        },
        CreationView::Finished(_) => 0,
    }
}

/// An event that the state asked for brings the creation closer to its end.
pub proof fn lemma_step_decreases(state: CreationView, event: CreationEventView)
    requires
        (state is Drawing && event is Drawn) || (state is Writing && event is Written),
    ensures
        steps_left(next(state, event)) < steps_left(state),
{
}

/// Starts the creation of a shortcut for a link.
pub fn begin(link: &str) -> (r: Creation)
    ensures
        r@ == started(link@),
{
    if is_url(link) {
        Creation::Drawing { link: link.to_owned(), attempts: 0 }
    } else {
        Creation::Finished(Err(ServiceError::InvalidTarget))
    }
}

fn retry(link: String, attempts: usize) -> (r: Creation)
    ensures
        r@ == retried(link@, attempts as nat),
{
    if attempts < MAX_ATTEMPTS {
        Creation::Drawing { link, attempts }
    } else {
        Creation::Finished(Err(ServiceError::ExhaustedNamespace))
    }
}

/// Takes a creation one step further, given what its last state asked for.
pub fn step(state: Creation, event: CreationEvent) -> (r: Creation)
    ensures
        r@ == next(state@, event@),
{
    match (state, event) {
        (Creation::Drawing { link, attempts }, CreationEvent::Drawn(hash)) => {
            if attempts >= MAX_ATTEMPTS {
                Creation::Finished(Err(ServiceError::ExhaustedNamespace))
            } else {
                Creation::Writing { link, hash, attempts: attempts + 1 }
            }
        },
        (Creation::Writing { link, hash, attempts }, CreationEvent::Written(outcome)) => {
            match outcome {
                Ok(_) => Creation::Finished(Ok(hash)),
                Err(DbError::DuplicationError()) => retry(link, attempts),
                Err(_) => Creation::Finished(Err(ServiceError::StoreUnavailable)),
            }
        },
        (state, _) => state,
    }
}

/// What holds between a table and a creation that runs on it: while the
/// creation is under way, or has failed, the table is as it was; once it has
/// ended with a hash, the table has one row more, that of the link and the
/// hash, and the hash was free before.
pub open spec fn creation_on(
    before: Seq<ShortcutView>,
    now: Seq<ShortcutView>,
    link: Seq<char>,
    state: CreationView,
) -> bool {
    match state {
        CreationView::Drawing { link: l, attempts } => {
            &&& now == before
            &&& l == link
            &&& is_link(link)
            &&& attempts < MAX_ATTEMPTS
        },
        CreationView::Writing { link: l, hash, attempts } => {
            &&& now == before
            &&& l == link
            &&& is_link(link)
            &&& is_hash(hash)
            &&& attempts <= MAX_ATTEMPTS
        },
        CreationView::Finished(Ok(hash)) => {
            &&& is_link(link)
            &&& is_hash(hash)
            &&& !holds(before, hash)
            &&& now == before.push(ShortcutView { link, hash })
        },
        CreationView::Finished(Err(e)) => {
            &&& now == before
            &&& e == ServiceError::InvalidTarget <==> !is_link(link)
            &&& e == ServiceError::InvalidTarget || e == ServiceError::ExhaustedNamespace
        },
    }
}

/// Creates a shortcut for a link: draws hashes until the table takes one,
/// at most `MAX_ATTEMPTS` times, and returns the hash that it took. A text
/// that is no link is refused before the table is touched. Which hash is
/// taken is left to the draws, and so is whether one is found in a table
/// that has rows; in an empty table the first hash drawn is free.
pub fn create(table: &mut Table, link: &str) -> (r: Result<String, ServiceError>)
    ensures
        creation_on(
            old(table)@,
            final(table)@,
            link@,
            CreationView::Finished(resolved_view(r)),
        ),
        r matches Ok(hash) ==> lookup(final(table)@, hash@) == Ok::<Seq<char>, DbErrorView>(
            link@,
        ),
        is_link(link@) && old(table)@.len() == 0 ==> r is Ok,
{
    let ghost before = table@;
    let mut state = begin(link);
    loop
        invariant
            before == old(table)@,
            creation_on(before, table@, link@, state@),
            before.len() == 0 ==> state@ != CreationView::Finished(
                Err(ServiceError::ExhaustedNamespace),
            ),
        decreases steps_left(state@),
    {
        let ghost entered = state@;
        match &state {
            Creation::Finished(outcome) => {
                let r = match outcome {
                    Ok(hash) => Ok(hash.clone()),
                    Err(e) => Err(*e),
                };
                proof {
                    if r is Ok {
                        lemma_lookup_added(before, ShortcutView { link: link@, hash: r->Ok_0@ });
                    }
                }
                return r;
            },
            Creation::Drawing { .. } => {
                let event = CreationEvent::Drawn(gen_hash());
                proof {
                    lemma_step_decreases(entered, event@);
                }
                state = step(state, event);
            },
            Creation::Writing { link: target, hash, .. } => {
                let row = Shortcut { link: target.clone(), hash: hash.clone() };
                let event = CreationEvent::Written(add_shortcut(table, &row));
                proof {
                    lemma_step_decreases(entered, event@);
                }
                state = step(state, event);
            },
        }
    }
}

/// Resolving the hash that a creation returned gives the link that was
/// shortened.
pub proof fn law_resolve_after_create(
    before: Seq<ShortcutView>,
    after: Seq<ShortcutView>,
    link: Seq<char>,
    hash: Seq<char>,
)
    requires
        creation_on(before, after, link, CreationView::Finished(Ok(hash))),
    ensures
        resolution(lookup(after, hash)) == Ok::<Seq<char>, ServiceError>(link),
{
    lemma_lookup_added(before, ShortcutView { link, hash });
}

/// The hash that a creation returns is the hash of no shortcut that was in
/// the table before, and the table keeps its hashes distinct.
pub proof fn law_create_takes_free_hash(
    before: Seq<ShortcutView>,
    after: Seq<ShortcutView>,
    link: Seq<char>,
    hash: Seq<char>,
)
    requires
        distinct_hashes(before),
        creation_on(before, after, link, CreationView::Finished(Ok(hash))),
    ensures
        forall|i: int| 0 <= i < before.len() ==> (#[trigger] before[i]).hash != hash,
        distinct_hashes(after),
{
    assert forall|i: int| 0 <= i < before.len() implies (#[trigger] before[i]).hash != hash by {
        if before[i].hash == hash {
            assert(holds(before, hash));
        }
    }
}

/// Two creations, one after the other on the same table, return two
/// different hashes.
pub proof fn law_creations_differ(
    first: Seq<ShortcutView>,
    second: Seq<ShortcutView>,
    third: Seq<ShortcutView>,
    link_a: Seq<char>,
    hash_a: Seq<char>,
    link_b: Seq<char>,
    hash_b: Seq<char>,
)
    requires
        creation_on(first, second, link_a, CreationView::Finished(Ok(hash_a))),
        creation_on(second, third, link_b, CreationView::Finished(Ok(hash_b))),
    ensures
        hash_a != hash_b,
{
    lemma_lookup_added(first, ShortcutView { link: link_a, hash: hash_a });
}

/// Once a shortcut is deleted, resolving its hash gives `NotFound`.
pub proof fn law_resolve_after_delete(rows: Seq<ShortcutView>, hash: Seq<char>)
    requires
        distinct_hashes(rows),
    ensures
        !holds(without(rows, hash), hash),
        resolution(lookup(without(rows, hash), hash)) == Err::<Seq<char>, ServiceError>(
            ServiceError::NotFound,
        ),
{
    let after = without(rows, hash);
    if holds(after, hash) {
        let j = index_of(after, hash);
        assert(holds(rows, hash));
        let at = index_of(rows, hash);
        if j < at {
            assert(rows[j].hash == hash);
        } else {
            assert(rows[j + 1].hash == hash);
        }
    }
}

/// Whatever a table held, a listing of it after a clearing is empty.
pub proof fn law_list_after_clear(rows: Seq<ShortcutView>)
    ensures
        listing(Ok(records_of(cleared(rows)))) == Ok::<Seq<ShortcutView>, ServiceError>(
            Seq::empty(),
        ),
{
    lemma_shortcuts_of_rows(cleared(rows));
}

} // verus!
