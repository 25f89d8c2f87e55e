//! The boundary with the relational engine: plain values that cross it, the
//! calls that cross it, the record of those calls, and the error type that
//! the rest of the index uses.
//!
//! Only the functions of this module call the engine, and each of them
//! records what it asked and what came back. The record lives in proofs
//! alone. It cannot say what the store holds, which is the engine's
//! business; it says exactly what this library did about it.

use vstd::prelude::*;
use vstd::utf8::*;

verus! {

/// The engine's connection handle. Nothing inside it is visible here.
#[verifier::external_type_specification]
#[verifier::external_body]
pub struct ExConnection(rusqlite::Connection);

/// The engine's error value. Nothing inside it is visible here.
#[verifier::external_type_specification]
#[verifier::external_body]
pub struct ExEngineError(rusqlite::Error);

/// The engine's owned dynamic value, used only to hand bound values over.
#[verifier::external_type_specification]
#[verifier::external_body]
pub struct ExEngineValue(rusqlite::types::Value);

/// One row of an answer while the engine holds it.
#[verifier::external_type_specification]
#[verifier::external_body]
pub struct ExEngineRow<'a>(rusqlite::Row<'a>);

/// A value bound to a statement parameter.
#[derive(Debug)]
pub enum Bind {
    Integer(i64),
    Text(String),
}

/// The mathematical content of a [`Bind`].
pub enum BindView {
    Integer(i64),
    Text(Seq<char>),
}

impl View for Bind {
    type V = BindView;

    open spec fn view(&self) -> BindView {
        match self {
            Bind::Integer(i) => BindView::Integer(*i),
            Bind::Text(s) => BindView::Text(s@),
        }
    }
}

/// One column of one result row, as the engine stored it. Text is kept as
/// the raw bytes; a floating-point column keeps only its kind.
#[derive(Debug)]
pub enum Cell {
    Null,
    Integer(i64),
    Real,
    Text(Vec<u8>),
    Blob(Vec<u8>),
}

/// The mathematical content of a [`Cell`].
pub enum CellView {
    Null,
    Integer(i64),
    Real,
    Text(Seq<u8>),
    Blob(Seq<u8>),
}

impl View for Cell {
    type V = CellView;

    open spec fn view(&self) -> CellView {
        match self {
            Cell::Null => CellView::Null,
            Cell::Integer(i) => CellView::Integer(*i),
            Cell::Real => CellView::Real,
            Cell::Text(b) => CellView::Text(b@),
            Cell::Blob(b) => CellView::Blob(b@),
        }
    }
}

/// The contents of a row of cells.
pub open spec fn cells_view(row: Seq<Cell>) -> Seq<CellView> {
    row.map_values(|c: Cell| c@)
}

/// The contents of a list of bound values.
pub open spec fn binds_view(binds: Seq<Bind>) -> Seq<BindView> {
    binds.map_values(|b: Bind| b@)
}

/// A statement ready for the engine: its text and the values for its
/// numbered parameters, in order.
#[derive(Debug)]
pub struct Statement {
    pub sql: String,
    pub binds: Vec<Bind>,
}

/// The mathematical content of a [`Statement`].
pub struct StatementView {
    pub sql: Seq<char>,
    pub binds: Seq<BindView>,
}

impl View for Statement {
    type V = StatementView;

    open spec fn view(&self) -> StatementView {
        StatementView { sql: self.sql@, binds: binds_view(self.binds@) }
    }
}

/// Why an index operation failed.
#[derive(Debug)]
pub enum DbError {
    /// The engine could not open the store or refused a statement; the text
    /// is the engine's own description.
    Engine(String),
    /// A row was required and none came back.
    NotFound,
    /// A row came back whose columns do not decode to the record asked for.
    Corrupt,
    /// The requested page lies beyond what a row offset can address.
    Validation,
}

/// The kind of a [`DbError`], without its text.
pub enum Fault {
    Engine,
    NotFound,
    Corrupt,
    Validation,
}

impl DbError {
    pub open spec fn fault(self) -> Fault {
        match self {
            DbError::Engine(_) => Fault::Engine,
            DbError::NotFound => Fault::NotFound,
            DbError::Corrupt => Fault::Corrupt,
            DbError::Validation => Fault::Validation,
        }
    }
}

/// Rows as they come back from a query: each row either its cells or the
/// engine's error for that row.
pub type RawRows = Vec<Result<Vec<Cell>, rusqlite::Error>>;

/// The engine's own value for a bound value: its integer variant holding
/// the integer, or its text variant holding the text.
pub uninterp spec fn engine_value(b: BindView) -> rusqlite::types::Value;

/// Builds the engine's integer value (`rusqlite::types::Value::Integer`)
/// that holds `i`.
#[verifier::external_body]
fn integer_value(i: i64) -> (r: rusqlite::types::Value)
    ensures
        r == engine_value(BindView::Integer(i)),
{
    rusqlite::types::Value::Integer(i)
}

/// Builds the engine's text value (`rusqlite::types::Value::Text`) that
/// holds the text of `s`.
#[verifier::external_body]
fn text_value(s: &str) -> (r: rusqlite::types::Value)
    ensures
        r == engine_value(BindView::Text(s@)),
{
    rusqlite::types::Value::Text(s.to_string())
}

/// The bound values in the engine's own type, one for one and in order.
fn engine_values(binds: &Vec<Bind>) -> (r: Vec<rusqlite::types::Value>)
    ensures
        r@.len() == binds@.len(),
        forall|k: int| 0 <= k < r@.len() ==> #[trigger] r@[k] == engine_value(binds@[k]@),
{
    let mut out: Vec<rusqlite::types::Value> = Vec::new();
    let mut i: usize = 0;
    while i < binds.len()
        invariant
            i <= binds@.len(),
            out@.len() == i,
            forall|k: int| 0 <= k < i ==> #[trigger] out@[k] == engine_value(binds@[k]@),
        decreases binds@.len() - i,
    {
        let v = match &binds[i] {
            Bind::Integer(n) => integer_value(*n),
            Bind::Text(t) => text_value(t.as_str()),
        };
        out.push(v);
        i += 1;
    }
    out
}

/// Reads column `i` of the engine's current row with
/// `rusqlite::Row::get_ref` and hands it on as a [`Cell`], variant for
/// variant. Fails where the row has no such column. The call aborts only
/// where the engine announces a text or blob column and then hands out no
/// data for it, which it does not do while it works as documented.
#[verifier::external_body]
fn column(row: &rusqlite::Row<'_>, i: usize) -> (r: Result<Cell, rusqlite::Error>) {
    Ok(
        match row.get_ref(i)? {
            rusqlite::types::ValueRef::Null => Cell::Null,
            rusqlite::types::ValueRef::Integer(n) => Cell::Integer(n),
            rusqlite::types::ValueRef::Real(_) => Cell::Real,
            rusqlite::types::ValueRef::Text(t) => Cell::Text(t.to_vec()),
            rusqlite::types::ValueRef::Blob(b) => Cell::Blob(b.to_vec()),
        },
    )
}

/// Reads the first `width` columns of the engine's current row, in order,
/// and stops at the first that cannot be read. A row of which no column is
/// asked is read without asking the engine, and so without fail.
fn read_row(row: &rusqlite::Row<'_>, width: usize) -> (r: Result<Vec<Cell>, rusqlite::Error>)
    ensures
        r is Ok ==> r->Ok_0@.len() == width,
        width == 0 ==> r is Ok,
{
    let mut cells: Vec<Cell> = Vec::new();
    let mut i: usize = 0;
    while i < width
        invariant
            i <= width,
            cells@.len() == i,
        decreases width - i,
    {
        match column(row, i) {
            Ok(c) => {
                cells.push(c);
            },
            Err(e) => {
                return Err(e);
            },
        }
        i += 1;
    }
    Ok(cells)
}

/// Calls `rusqlite::Connection::open`. Nothing is claimed of the outcome:
/// it depends on the file system.
#[verifier::external_body]
fn open_connection(path: &str) -> (r: Result<rusqlite::Connection, rusqlite::Error>) {
    rusqlite::Connection::open(path)
}

/// Calls `rusqlite::Connection::execute_batch` with statements that take no
/// parameters. Nothing is claimed of the outcome.
#[verifier::external_body]
fn run_batch(conn: &rusqlite::Connection, sql: &str) -> (r: Result<(), rusqlite::Error>) {
    conn.execute_batch(sql)
}

/// Calls `rusqlite::Connection::execute` with `values` as the positional
/// parameters. The engine reports how many rows it changed; nothing is
/// claimed of that number or of success.
#[verifier::external_body]
fn run_statement(conn: &rusqlite::Connection, sql: &str, values: &Vec<rusqlite::types::Value>) -> (r:
    Result<usize, rusqlite::Error>) {
    conn.execute(sql, rusqlite::params_from_iter(values.iter()))
}

/// Calls `rusqlite::Connection::prepare` and `rusqlite::Statement::query_map`
/// with `values` as the positional parameters, and collects what
/// [`read_row`] makes of every row. Nothing is claimed of the rows: they
/// are the store's contents.
#[verifier::external_body]
fn run_query(conn: &rusqlite::Connection, sql: &str, values: &Vec<rusqlite::types::Value>) -> (r:
    Result<RawRows, rusqlite::Error>) {
    let mut stmt = conn.prepare(sql)?;
    let width = stmt.column_count();
    let rows = stmt.query_map(rusqlite::params_from_iter(values.iter()), |row| read_row(row, width))?;
    Ok(rows.collect())
}

/// Calls `rusqlite::Connection::last_insert_rowid`.
#[verifier::external_body]
fn last_rowid(conn: &rusqlite::Connection) -> (r: i64) {
    conn.last_insert_rowid()
}

/// The engine's own description of an error (`Display` of `rusqlite::Error`).
#[verifier::external_body]
pub(crate) fn describe(e: &rusqlite::Error) -> (r: String) {
    e.to_string()
}

/// Calls `String::from_utf8`: the text that `bytes` encode, when they are
/// valid UTF-8, and nothing otherwise.
#[verifier::external_body]
pub(crate) fn text_from_utf8(bytes: &Vec<u8>) -> (r: Option<String>)
    ensures
        r is Some <==> valid_utf8(bytes@),
        r is Some ==> r->0@ == decode_utf8(bytes@),
{
    String::from_utf8(bytes.clone()).ok()
}

/// What a row is to the decoders: its cells, or nothing where the engine
/// reported an error in its place.
pub open spec fn row_view(row: Result<Vec<Cell>, rusqlite::Error>) -> Option<Seq<CellView>> {
    match row {
        Ok(cells) => Some(cells_view(cells@)),
        Err(_) => None,
    }
}

/// What a list of rows is to the decoders.
pub open spec fn rows_view(rows: Seq<Result<Vec<Cell>, rusqlite::Error>>) -> Seq<
    Option<Seq<CellView>>,
> {
    rows.map_values(|r: Result<Vec<Cell>, rusqlite::Error>| row_view(r))
}

/// The first row of an answer of which one row is required.
pub open spec fn first_row(rows: Seq<Option<Seq<CellView>>>) -> Result<Seq<CellView>, Fault> {
    if rows.len() == 0 {
        Err(Fault::NotFound)
    } else {
        match rows[0] {
            Some(cells) => Ok(cells),
            None => Err(Fault::Engine),
        }
    }
}

/// The records that the rows decode to under `decode`, in row order. A row
/// that the engine failed, or that does not decode, is passed over.
pub open spec fn decoded_rows<V>(
    rows: Seq<Option<Seq<CellView>>>,
    decode: spec_fn(Seq<CellView>) -> Option<V>,
) -> Seq<V>
    decreases rows.len(),
{
    if rows.len() == 0 {
        Seq::empty()
    } else {
        let before = decoded_rows(rows.drop_last(), decode);
        match rows.last() {
            Some(cells) => match decode(cells) {
                Some(v) => before.push(v),
                None => before,
            },
            None => before,
        }
    }
}

/// A decoded record agrees with its specification.
pub open spec fn decoded_is<T: View>(r: Option<T>, want: Option<T::V>) -> bool {
    match r {
        Some(v) => want == Some(v@),
        None => want is None,
    }
}

/// The views of a list of records.
pub open spec fn views<T: View>(v: Seq<T>) -> Seq<T::V> {
    v.map_values(|x: T| x@)
}

/// Decodes every row with `decode`, passing over the rows that the engine
/// failed and those that do not decode.
pub(crate) fn collect_rows<T: View, F: Fn(&Vec<Cell>) -> Option<T>>(
    rows: &RawRows,
    decode: F,
    Ghost(want): Ghost<spec_fn(Seq<CellView>) -> Option<T::V>>,
) -> (r: Vec<T>)
    requires
        forall|c: &Vec<Cell>| #[trigger] decode.requires((c,)),
        forall|c: &Vec<Cell>, o: Option<T>| #[trigger]
            decode.ensures((c,), o) ==> decoded_is(o, want(cells_view(c@))),
    ensures
        views(r@) == decoded_rows(rows_view(rows@), want),
{
    let mut out: Vec<T> = Vec::new();
    let mut i: usize = 0;
    while i < rows.len()
        invariant
            i <= rows.len(),
            forall|c: &Vec<Cell>| #[trigger] decode.requires((c,)),
            forall|c: &Vec<Cell>, o: Option<T>| #[trigger]
                decode.ensures((c,), o) ==> decoded_is(o, want(cells_view(c@))),
            views(out@) == decoded_rows(rows_view(rows@).take(i as int), want),
        decreases rows.len() - i,
    {
        proof {
            assert(rows_view(rows@).take(i + 1).drop_last() =~= rows_view(rows@).take(i as int));
            assert(rows_view(rows@).take(i + 1).last() == row_view(rows@[i as int]));
        }
        match &rows[i] {
            Ok(cells) => {
                match decode(cells) {
                    Some(v) => {
                        proof {
                            assert(views(out@.push(v)) =~= views(out@).push(v@));
                        }
                        out.push(v);
                    },
                    None => {},
                }
            },
            Err(_) => {},
        }
        i += 1;
    }
    assert(rows_view(rows@).take(rows@.len() as int) =~= rows_view(rows@));
    out
}

/// The first row of an answer, which must have one.
pub fn take_first_row(rows: &RawRows) -> (r: Result<&Vec<Cell>, DbError>)
    ensures
        match r {
            Ok(cells) => first_row(rows_view(rows@)) == Ok::<Seq<CellView>, Fault>(
                cells_view(cells@),
            ),
            Err(e) => first_row(rows_view(rows@)) == Err::<Seq<CellView>, Fault>(e.fault()),
        },
{
    if rows.len() == 0 {
        return Err(DbError::NotFound);
    }
    match &rows[0] {
        Ok(cells) => Ok(cells),
        Err(e) => Err(engine_failure(e)),
    }
}

/// The library error for an engine error.
pub(crate) fn engine_failure(e: &rusqlite::Error) -> (r: DbError)
    ensures
        r is Engine,
{
    DbError::Engine(describe(e))
}

/// Appends one bound value.
pub fn push_bind(binds: &mut Vec<Bind>, b: Bind)
    ensures
        binds_view(final(binds)@) == binds_view(old(binds)@).push(b@),
{
    assert(binds_view(binds@.push(b)) =~= binds_view(binds@).push(b@));
    binds.push(b);
}

/// A text as a bound value.
pub fn text_bind(s: &str) -> (r: Bind)
    ensures
        r@ == BindView::Text(s@),
{
    Bind::Text(String::from_str(s))
}

/// A statement with the given text and bound values.
pub fn statement(sql: &str, binds: Vec<Bind>) -> (r: Statement)
    ensures
        r@ == (StatementView { sql: sql@, binds: binds_view(binds@) }),
{
    Statement { sql: String::from_str(sql), binds }
}

/// What the engine answered to a statement that reads: every row as its
/// cells, or nothing in place of a row that the engine failed.
pub type Answer = Seq<Option<Seq<CellView>>>;

/// One exchange with the engine: what was asked of it and what came back.
pub enum Exchange {
    /// Statements without parameters were run in one go.
    Batch { sql: Seq<char>, accepted: bool },
    /// A statement that changes the store was run. Where the engine
    /// accepted it, `rows` is the number of rows that it changed, as the
    /// engine counts them; where the engine refused it, there is none.
    Change { statement: StatementView, rows: Option<usize> },
    /// A statement that reads the store was run. The answer is missing
    /// where the engine refused the statement.
    Read { statement: StatementView, answer: Option<Answer> },
    /// The identifier of the connection's latest insertion was asked for.
    RowId { id: i64 },
}

impl Exchange {
    /// What came back, if this exchange is a reading statement that the
    /// engine answered.
    pub open spec fn answer(self) -> Option<Answer> {
        match self {
            Exchange::Read { statement, answer } => answer,
            _ => None,
        }
    }

    /// The number of rows that the engine changed, if this exchange is a
    /// changing statement that the engine accepted.
    pub open spec fn rows(self) -> Option<usize> {
        match self {
            Exchange::Change { statement, rows } => rows,
            _ => None,
        }
    }

    /// Whether this exchange is a changing statement that the engine
    /// accepted.
    pub open spec fn accepted_change(self) -> bool {
        self.rows() is Some
    }

    /// Whether this exchange is a changing statement that changed a row.
    pub open spec fn changed_a_row(self) -> bool {
        self.rows() is Some && self.rows()->0 > 0
    }
}

/// A changing statement and the number of rows it changed, or none where
/// the engine refused it.
pub open spec fn change(statement: StatementView, rows: Option<usize>) -> Exchange {
    Exchange::Change { statement, rows }
}

/// A changing statement that the engine refused.
pub open spec fn refused(statement: StatementView) -> Exchange {
    Exchange::Change { statement, rows: None }
}

/// What the engine's answer to a changing statement is in the record.
pub open spec fn changed_rows(r: Result<usize, DbError>) -> Option<usize> {
    match r {
        Ok(n) => Some(n),
        Err(_) => None,
    }
}

/// A reading statement and what the engine answered.
pub open spec fn read(statement: StatementView, answer: Option<Answer>) -> Exchange {
    Exchange::Read { statement, answer }
}

/// An open store, together with the record of every exchange that this
/// library has had with the engine over it. The record exists only in
/// proofs; it is what the contracts of the index speak of, since the
/// contents of the store are the engine's own.
pub struct Index {
    conn: rusqlite::Connection,
    exchanges: Ghost<Seq<Exchange>>,
}

impl Index {
    /// The exchanges so far, oldest first.
    pub closed spec fn trace(&self) -> Seq<Exchange> {
        self.exchanges@
    }
}

/// Takes over a connection. No exchange has been recorded yet.
pub fn index_over(conn: rusqlite::Connection) -> (r: Index)
    ensures
        r.trace() == Seq::<Exchange>::empty(),
{
    Index { conn, exchanges: Ghost(Seq::empty()) }
}

/// Opens a connection to the store at `path` and takes it over. Whether
/// the store can be opened is the engine's and the file system's to decide.
pub(crate) fn connect(path: &str) -> (r: Result<Index, DbError>)
    ensures
        match r {
            Ok(index) => index.trace() == Seq::<Exchange>::empty(),
            Err(e) => e is Engine,
        },
{
    match open_connection(path) {
        Ok(conn) => Ok(index_over(conn)),
        Err(e) => Err(engine_failure(&e)),
    }
}

/// Runs statements without parameters in one go, and records the exchange.
pub(crate) fn batch(index: &mut Index, sql: &str) -> (r: Result<(), DbError>)
    ensures
        final(index).trace() == old(index).trace().push(
            Exchange::Batch { sql: sql@, accepted: r is Ok },
        ),
        r is Err ==> r->Err_0 is Engine,
{
    let r = match run_batch(&index.conn, sql) {
        Ok(()) => Ok(()),
        Err(e) => Err(engine_failure(&e)),
    };
    index.exchanges = Ghost(index.exchanges@.push(Exchange::Batch { sql: sql@, accepted: r is Ok }));
    r
}

/// Asks for the identifier of the connection's latest insertion, and
/// records the exchange.
pub(crate) fn rowid(index: &mut Index) -> (r: i64)
    ensures
        final(index).trace() == old(index).trace().push(Exchange::RowId { id: r }),
{
    let r = last_rowid(&index.conn);
    index.exchanges = Ghost(index.exchanges@.push(Exchange::RowId { id: r }));
    r
}

/// Runs a statement that changes the store, and records the exchange. The
/// number is the engine's count of changed rows.
pub(crate) fn execute(index: &mut Index, st: &Statement) -> (r: Result<usize, DbError>)
    ensures
        final(index).trace() == old(index).trace().push(change(st@, changed_rows(r))),
        r is Err ==> r->Err_0 is Engine,
{
    let values = engine_values(&st.binds);
    let r = match run_statement(&index.conn, st.sql.as_str(), &values) {
        Ok(n) => Ok(n),
        Err(e) => Err(engine_failure(&e)),
    };
    index.exchanges = Ghost(index.exchanges@.push(change(st@, changed_rows(r))));
    r
}

/// What a fetch hands back, as the record keeps it.
pub open spec fn answer_view(r: Result<RawRows, DbError>) -> Option<Answer> {
    match r {
        Ok(rows) => Some(rows_view(rows@)),
        Err(_) => None,
    }
}

/// Runs a statement that reads the store, and records the exchange with
/// the answer.
pub(crate) fn fetch(index: &mut Index, st: &Statement) -> (r: Result<RawRows, DbError>)
    ensures
        final(index).trace() == old(index).trace().push(read(st@, answer_view(r))),
        r is Err ==> r->Err_0 is Engine,
{
    let values = engine_values(&st.binds);
    let r = match run_query(&index.conn, st.sql.as_str(), &values) {
        Ok(rows) => Ok(rows),
        Err(e) => Err(engine_failure(&e)),
    };
    index.exchanges = Ghost(index.exchanges@.push(read(st@, answer_view(r))));
    r
}

/// A statement without parameters.
pub open spec fn plain(sql: Seq<char>) -> StatementView {
    StatementView { sql, binds: Seq::empty() }
}

/// A statement whose one parameter is an identifier.
pub open spec fn with_id(sql: Seq<char>, id: i64) -> StatementView {
    StatementView { sql, binds: seq![BindView::Integer(id)] }
}

/// A statement whose one parameter is a text.
pub open spec fn with_text(sql: Seq<char>, a: Seq<char>) -> StatementView {
    StatementView { sql, binds: seq![BindView::Text(a)] }
}

/// A result agrees with its specification: the same record on success, an
/// error of the same kind on failure.
pub open spec fn agrees<T: View>(r: Result<T, DbError>, want: Result<T::V, Fault>) -> bool {
    match r {
        Ok(v) => want == Ok::<T::V, Fault>(v@),
        Err(e) => want == Err::<T::V, Fault>(e.fault()),
    }
}

/// What is made of an answer with `reading`, where a missing answer is the
/// engine's failure.
pub open spec fn finish<V>(
    answer: Option<Answer>,
    reading: spec_fn(Answer) -> Result<V, Fault>,
) -> Result<V, Fault> {
    match answer {
        Some(rows) => reading(rows),
        None => Err(Fault::Engine),
    }
}

/// A listing agrees with the answer it was made from: every row that
/// decodes, in row order, and the engine's failure where there is no
/// answer.
pub open spec fn listed<T: View>(
    r: Result<Vec<T>, DbError>,
    answer: Option<Answer>,
    decode: spec_fn(Seq<CellView>) -> Option<T::V>,
) -> bool {
    match answer {
        Some(rows) => r is Ok && views(r->Ok_0@) == decoded_rows(rows, decode),
        None => r is Err && r->Err_0 is Engine,
    }
}

/// The record grew by one reading statement, `st`. What the engine
/// answered is the answer of the last exchange of `after`.
pub open spec fn read_once(before: Seq<Exchange>, after: Seq<Exchange>, st: StatementView) -> bool {
    after == before.push(read(st, after.last().answer()))
}

/// The record grew by one changing statement, `st`, which the engine
/// accepted or not.
pub open spec fn changed_once(
    before: Seq<Exchange>,
    after: Seq<Exchange>,
    st: StatementView,
    accepted: bool,
) -> bool {
    &&& after == before.push(change(st, after.last().rows()))
    &&& after.last().accepted_change() == accepted
}

/// The record grew by `first` and, if the engine accepted that, by
/// `second`; both were accepted exactly if `done`.
pub open spec fn two_changes(
    before: Seq<Exchange>,
    after: Seq<Exchange>,
    first: StatementView,
    second: StatementView,
    done: bool,
) -> bool {
    let n = before.len() as int;
    if done {
        &&& after == before.push(change(first, after[n].rows())).push(
            change(second, after[n + 1].rows()),
        )
        &&& after[n].accepted_change()
        &&& after[n + 1].accepted_change()
    } else {
        ||| after == before.push(refused(first))
        ||| after == before.push(change(first, after[n].rows())).push(refused(second))
            && after[n].accepted_change()
    }
}

/// The record grew by the changing statement `first` and, if the engine
/// accepted that, by the reading statement `second`; the result is the
/// engine's failure where `first` was refused, and otherwise what `reading`
/// makes of the answer to `second`.
pub open spec fn change_then_read<T: View>(
    before: Seq<Exchange>,
    after: Seq<Exchange>,
    first: StatementView,
    second: StatementView,
    r: Result<T, DbError>,
    reading: spec_fn(Answer) -> Result<T::V, Fault>,
) -> bool {
    let n = before.len() as int;
    ||| after == before.push(refused(first)) && r is Err && r->Err_0 is Engine
    ||| after == before.push(change(first, after[n].rows())).push(
        read(second, after.last().answer()),
    ) && after[n].accepted_change() && agrees(r, finish(after.last().answer(), reading))
}

/// The record grew by the changing statement `st` and, if the engine
/// accepted that, by a request for the identifier of the insertion, which
/// is the result; where the engine refused the statement, the result is
/// its failure.
pub open spec fn change_then_rowid(
    before: Seq<Exchange>,
    after: Seq<Exchange>,
    st: StatementView,
    r: Result<i64, DbError>,
) -> bool {
    let n = before.len() as int;
    match r {
        Ok(id) => after == before.push(change(st, after[n].rows())).push(Exchange::RowId { id })
            && after[n].accepted_change(),
        Err(e) => after == before.push(refused(st)) && e is Engine,
    }
}

/// The views of a list of statements.
pub open spec fn statements_view(list: Seq<Statement>) -> Seq<StatementView> {
    list.map_values(|s: Statement| s@)
}

/// The number of changing statements in a stretch of the record that
/// changed a row: those that the engine accepted and for which it counted
/// one changed row or more. A statement that the engine accepted without
/// changing anything does not count.
pub open spec fn affected_count(stretch: Seq<Exchange>) -> nat
    decreases stretch.len(),
{
    if stretch.len() == 0 {
        0
    } else {
        affected_count(stretch.drop_last()) + if stretch.last().changed_a_row() {
            1nat
        } else {
            0nat
        }
    }
}

/// The record grew by the changing statements `statements`, each run once
/// and in order, whether or not the engine accepted the ones before it.
pub open spec fn each_changed(
    before: Seq<Exchange>,
    after: Seq<Exchange>,
    statements: Seq<StatementView>,
) -> bool {
    &&& after.len() == before.len() + statements.len()
    &&& after.take(before.len() as int) == before
    &&& forall|j: int|
        before.len() <= j < after.len() ==> #[trigger] after[j] == change(
            statements[j - before.len()],
            after[j].rows(),
        )
}

/// The changing statements that the record gained since it was `before`,
/// counted where they changed a row.
pub open spec fn affected_since(before: Seq<Exchange>, after: Seq<Exchange>) -> nat {
    affected_count(after.skip(before.len() as int))
}

/// Runs every statement, in order. A statement that the engine refuses is
/// passed over and the rest go on; the number returned counts the
/// statements that changed a row.
pub(crate) fn execute_each(index: &mut Index, statements: &Vec<Statement>) -> (count: usize)
    ensures
        each_changed(old(index).trace(), final(index).trace(), statements_view(statements@)),
        count == affected_since(old(index).trace(), final(index).trace()),
        count <= statements@.len(),
{
    let ghost before = index.trace();
    let mut count: usize = 0;
    let mut i: usize = 0;
    assert(index.trace().take(before.len() as int) =~= before);
    assert(index.trace().skip(before.len() as int) =~= Seq::<Exchange>::empty());
    while i < statements.len()
        invariant
            i <= statements@.len(),
            count <= i,
            index.trace().len() == before.len() + i,
            index.trace().take(before.len() as int) == before,
            forall|j: int|
                before.len() <= j < index.trace().len() ==> #[trigger] index.trace()[j] == change(
                    statements_view(statements@)[j - before.len()],
                    index.trace()[j].rows(),
                ),
            count == affected_count(index.trace().skip(before.len() as int)),
        decreases statements@.len() - i,
    {
        let ghost earlier = index.trace();
        let outcome = execute(index, &statements[i]);
        proof {
            let now = index.trace();
            let last = change(statements@[i as int]@, changed_rows(outcome));
            assert(now == earlier.push(last));
            assert(now.take(before.len() as int) =~= earlier.take(before.len() as int));
            assert(now.skip(before.len() as int) =~= earlier.skip(before.len() as int).push(last));
            assert(now.skip(before.len() as int).drop_last() =~= earlier.skip(before.len() as int));
            assert(statements_view(statements@)[i as int] == statements@[i as int]@);
            assert forall|j: int| before.len() <= j < now.len() implies #[trigger] now[j] == change(
                statements_view(statements@)[j - before.len()],
                now[j].rows(),
            ) by {
                if j < earlier.len() {
                    assert(now[j] == earlier[j]);
                }
            }
        }
        match outcome {
            Ok(rows) => {
                if rows > 0 {
                    count += 1;
                }
            },
            Err(_) => {},
        }
        i += 1;
    }
    count
}

} // verus!
