//! Loading a table's metadata: the sequence of catalogue queries and the
//! decisions taken on their answers.
//!
//! The loader asks one query at a time; the caller runs it and hands back
//! the answer. In order it finds the table's primary-key index, the index's
//! columns, checks that every key column has an integer type, estimates the
//! row count, reads the range of the first key column, reads the column
//! catalogue and estimates the row count again. A key that is missing or
//! not numeric is simply absent from the result; a failed query ends the
//! load with an error, except the quick row estimate, whose failure falls
//! back to an exact count.

use vstd::prelude::*;
use vstd::string::*;
use crate::column_type::is_integer_field_type;
use crate::metadata::{
    ColumnRow, PrimaryKeyInfo, TableMetadata, build_table_metadata, column_from_row, holds_text_blob,
};
use crate::sql::{
    column_type_query, column_type_sql, columns_query, columns_sql, count_query, count_sql, min_max_query,
    min_max_sql, pk_columns_query, pk_columns_sql, pk_index_query, pk_index_sql, row_estimate_query,
    row_estimate_sql,
};
use crate::text::{trimmed, uppercased, trim_text, to_upper};

verus! {

/// The shape of the rows a query returns.
#[derive(Clone, Copy, Debug, PartialEq, Eq, Structural)]
pub enum RowShape {
    /// One text per row.
    Names,
    /// One small integer per row.
    TypeCodes,
    /// One 64-bit integer per row.
    Counts,
    /// Two optional 64-bit integers per row.
    Bounds,
    /// Name, position, type and subtype per row.
    Catalogue,
}

/// A query to run: its text, its positional parameters, and the shape of
/// its rows.
pub struct QueryRequest {
    pub sql: String,
    pub params: Vec<String>,
    pub shape: RowShape,
}

/// What a query request says, as plain values.
pub struct QueryView {
    pub sql: Seq<char>,
    pub params: Seq<Seq<char>>,
    pub shape: RowShape,
}

impl View for QueryRequest {
    type V = QueryView;

    open spec fn view(&self) -> QueryView {
        QueryView { sql: self.sql@, params: self.params.deep_view(), shape: self.shape }
    }
}

/// The rows a query returned, or its failure.
pub enum Answer {
    Names(Vec<String>),
    TypeCodes(Vec<i16>),
    Counts(Vec<i64>),
    Bounds(Vec<(Option<i64>, Option<i64>)>),
    Catalogue(Vec<ColumnRow>),
    /// The query failed, with the database's message.
    Failed(String),
}

/// An answer as plain values.
pub enum AnswerView {
    Names(Seq<Seq<char>>),
    TypeCodes(Seq<i16>),
    Counts(Seq<i64>),
    Bounds(Seq<(Option<i64>, Option<i64>)>),
    Catalogue(Seq<ColumnRow>),
    Failed(Seq<char>),
}

impl View for Answer {
    type V = AnswerView;

    open spec fn view(&self) -> AnswerView {
        match self {
            Answer::Names(v) => AnswerView::Names(v.deep_view()),
            Answer::TypeCodes(v) => AnswerView::TypeCodes(v@),
            Answer::Counts(v) => AnswerView::Counts(v@),
            Answer::Bounds(v) => AnswerView::Bounds(v@),
            Answer::Catalogue(v) => AnswerView::Catalogue(v@),
            Answer::Failed(m) => AnswerView::Failed(m@),
        }
    }
}

/// Why a load failed.
#[derive(Debug)]
pub enum LoadError {
    /// A catalogue query failed, with the database's message.
    QueryFailed(String),
}

/// A primary key as plain values.
pub struct PkView {
    pub columns: Seq<Seq<char>>,
    pub min_values: Seq<i64>,
    pub max_values: Seq<i64>,
    pub row_count: i64,
}

impl View for PrimaryKeyInfo {
    type V = PkView;

    open spec fn view(&self) -> PkView {
        PkView {
            columns: self.columns.deep_view(),
            min_values: self.min_values@,
            max_values: self.max_values@,
            row_count: self.row_count,
        }
    }
}

/// The view of an optional primary key.
pub open spec fn opt_pk(pk: Option<PrimaryKeyInfo>) -> Option<PkView> {
    match pk {
        Some(p) => Some(p@),
        None => None,
    }
}

/// Where a load stands.
pub enum LoadStep {
    /// Waiting for the primary-key index name.
    PkIndex,
    /// Waiting for the key's column names.
    PkColumns,
    /// Waiting for the type code of key column `checked`.
    PkTypes { names: Vec<String>, checked: usize },
    /// Waiting for the quick row estimate made for the key.
    PkEstimate { names: Vec<String> },
    /// Waiting for the exact row count made for the key.
    PkCount { names: Vec<String> },
    /// Waiting for the range of the first key column.
    PkBounds { names: Vec<String>, row_count: i64 },
    /// Waiting for the column catalogue.
    Columns { pk: Option<PrimaryKeyInfo> },
    /// Waiting for the table's quick row estimate.
    Estimate { pk: Option<PrimaryKeyInfo>, columns: Vec<ColumnRow> },
    /// Waiting for the table's exact row count.
    Count { pk: Option<PrimaryKeyInfo>, columns: Vec<ColumnRow> },
    /// The load is over.
    Finished,
}

/// A load step as plain values.
pub enum StepView {
    PkIndex,
    PkColumns,
    PkTypes { names: Seq<Seq<char>>, checked: nat },
    PkEstimate { names: Seq<Seq<char>> },
    PkCount { names: Seq<Seq<char>> },
    PkBounds { names: Seq<Seq<char>>, row_count: i64 },
    Columns { pk: Option<PkView> },
    Estimate { pk: Option<PkView>, columns: Seq<ColumnRow> },
    Count { pk: Option<PkView>, columns: Seq<ColumnRow> },
    Finished,
}

impl View for LoadStep {
    type V = StepView;

    open spec fn view(&self) -> StepView {
        match self {
            LoadStep::PkIndex => StepView::PkIndex,
            LoadStep::PkColumns => StepView::PkColumns,
            LoadStep::PkTypes { names, checked } => StepView::PkTypes { names: names.deep_view(), checked: *checked as nat },
            LoadStep::PkEstimate { names } => StepView::PkEstimate { names: names.deep_view() },
            LoadStep::PkCount { names } => StepView::PkCount { names: names.deep_view() },
            LoadStep::PkBounds { names, row_count } => StepView::PkBounds { names: names.deep_view(), row_count: *row_count },
            LoadStep::Columns { pk } => StepView::Columns { pk: opt_pk(*pk) },
            LoadStep::Estimate { pk, columns } => StepView::Estimate { pk: opt_pk(*pk), columns: columns@ },
            LoadStep::Count { pk, columns } => StepView::Count { pk: opt_pk(*pk), columns: columns@ },
            LoadStep::Finished => StepView::Finished,
        }
    }
}

/// What a finished load is built from: the catalogue rows, the row count
/// and the primary key.
pub struct LoadedView {
    pub columns: Seq<ColumnRow>,
    pub row_count: i64,
    pub pk: Option<PkView>,
}

/// What follows an answer: another query, or the end of the load.
pub enum ProgressView {
    Ask(QueryView),
    /// The load is over: what it is built from, or the failing query's
    /// message.
    Done(Result<LoadedView, Seq<char>>),
}

/// What the loader hands back after an answer.
pub enum Progress {
    /// Run this query and hand back its answer.
    Ask(QueryRequest),
    /// The load is over.
    Done(Result<TableMetadata, LoadError>),
}

/// The query for the key's column names, given the index name as read.
pub open spec fn ask_key_columns(index_name: Seq<char>) -> QueryView {
    QueryView { sql: pk_columns_sql(), params: seq![uppercased(trimmed(index_name))], shape: RowShape::Names }
}

/// The query for the type code of a key column.
pub open spec fn ask_key_type(table: Seq<char>, column: Seq<char>) -> QueryView {
    QueryView { sql: column_type_sql(), params: seq![uppercased(table), uppercased(column)], shape: RowShape::TypeCodes }
}

/// The quick row estimate query.
pub open spec fn ask_estimate(table: Seq<char>) -> QueryView {
    QueryView { sql: row_estimate_sql(), params: seq![uppercased(table)], shape: RowShape::Counts }
}

/// The exact row count query.
pub open spec fn ask_count(table: Seq<char>) -> QueryView {
    QueryView { sql: count_sql(table), params: Seq::empty(), shape: RowShape::Counts }
}

/// The query for the range of the first key column.
pub open spec fn ask_bounds(table: Seq<char>, column: Seq<char>) -> QueryView {
    QueryView { sql: min_max_sql(column, table), params: Seq::empty(), shape: RowShape::Bounds }
}

/// The column catalogue query.
pub open spec fn ask_columns(table: Seq<char>) -> QueryView {
    QueryView { sql: columns_sql(), params: seq![uppercased(table)], shape: RowShape::Catalogue }
}

/// The first query of a load: the table's primary-key index.
pub open spec fn ask_key_index(table: Seq<char>) -> QueryView {
    QueryView { sql: pk_index_sql(), params: seq![uppercased(table)], shape: RowShape::Names }
}

/// The first value of a one-column answer, or `default` when it has no row.
pub open spec fn first_or<T>(rows: Seq<T>, default: T) -> T {
    if rows.len() > 0 { rows[0] } else { default }
}

/// Whether a quick estimate answer gives a usable count: its first row is
/// positive.
pub open spec fn estimate_usable(a: AnswerView) -> bool {
    a matches AnswerView::Counts(c) && c.len() > 0 && c[0] > 0
}

/// The shape of the answer a step waits for; `None` once the load is over.
pub open spec fn waits_for(s: StepView) -> Option<RowShape> {
    match s {
        StepView::PkIndex => Some(RowShape::Names),
        StepView::PkColumns => Some(RowShape::Names),
        StepView::PkTypes { .. } => Some(RowShape::TypeCodes),
        StepView::PkEstimate { .. } => Some(RowShape::Counts),
        StepView::PkCount { .. } => Some(RowShape::Counts),
        StepView::PkBounds { .. } => Some(RowShape::Bounds),
        StepView::Columns { .. } => Some(RowShape::Catalogue),
        StepView::Estimate { .. } => Some(RowShape::Counts),
        StepView::Count { .. } => Some(RowShape::Counts),
        StepView::Finished => None,
    }
}

/// The answer reports a failure, or has the shape the step waits for.
pub open spec fn answer_fits(s: StepView, a: AnswerView) -> bool {
    a is Failed || (shape_of(a) is Some && shape_of(a) == waits_for(s))
}

/// The key range read from a bounds answer: the first row's values, a
/// missing value counting as 0, or `(0, row_count)` when no row came.
pub open spec fn key_range_from(rows: Seq<(Option<i64>, Option<i64>)>, row_count: i64) -> (i64, i64) {
    if rows.len() > 0 {
        (
            match rows[0].0 { Some(v) => v, None => 0 },
            match rows[0].1 { Some(v) => v, None => 0 },
        )
    } else {
        (0, row_count)
    }
}

/// The message of a failed answer; other answers have none.
pub open spec fn failure_message(a: AnswerView) -> Seq<char> {
    match a {
        AnswerView::Failed(m) => m,
        _ => Seq::empty(),
    }
}

/// The step after an answer, and what follows it.
pub open spec fn next_step(table: Seq<char>, s: StepView, a: AnswerView) -> (StepView, ProgressView) {
    let fail = (StepView::Finished, ProgressView::Done(Err(failure_message(a))));
    let no_key = (StepView::Columns { pk: None }, ProgressView::Ask(ask_columns(table)));
    match s {
        StepView::PkIndex => match a {
            AnswerView::Names(rows) => if rows.len() == 0 {
                no_key
            } else {
                (StepView::PkColumns, ProgressView::Ask(ask_key_columns(rows[0])))
            },
            _ => fail,
        },
        StepView::PkColumns => match a {
            AnswerView::Names(rows) => {
                let names = rows.map_values(|r: Seq<char>| trimmed(r));
                if names.len() == 0 {
                    no_key
                } else {
                    (StepView::PkTypes { names, checked: 0 }, ProgressView::Ask(ask_key_type(table, names[0])))
                }
            },
            _ => fail,
        },
        StepView::PkTypes { names, checked } => match a {
            AnswerView::TypeCodes(codes) => if !is_integer_field_type(first_or(codes, 0i16)) {
                no_key
            } else if checked + 1 < names.len() {
                (StepView::PkTypes { names, checked: checked + 1 }, ProgressView::Ask(ask_key_type(table, names[checked + 1 as int])))
            } else {
                (StepView::PkEstimate { names }, ProgressView::Ask(ask_estimate(table)))
            },
            _ => fail,
        },
        StepView::PkEstimate { names } => if estimate_usable(a) {
            let c = a->Counts_0[0];
            (StepView::PkBounds { names, row_count: c }, ProgressView::Ask(ask_bounds(table, names[0])))
        } else {
            (StepView::PkCount { names }, ProgressView::Ask(ask_count(table)))
        },
        StepView::PkCount { names } => match a {
            AnswerView::Counts(c) => {
                let n = first_or(c, 0i64);
                (StepView::PkBounds { names, row_count: n }, ProgressView::Ask(ask_bounds(table, names[0])))
            },
            _ => fail,
        },
        StepView::PkBounds { names, row_count } => match a {
            AnswerView::Bounds(rows) => {
                let (lo, hi) = key_range_from(rows, row_count);
                let pk = PkView { columns: names, min_values: seq![lo], max_values: seq![hi], row_count };
                (StepView::Columns { pk: Some(pk) }, ProgressView::Ask(ask_columns(table)))
            },
            _ => fail,
        },
        StepView::Columns { pk } => match a {
            AnswerView::Catalogue(rows) => (StepView::Estimate { pk, columns: rows }, ProgressView::Ask(ask_estimate(table))),
            _ => fail,
        },
        StepView::Estimate { pk, columns } => if estimate_usable(a) {
            let c = a->Counts_0[0];
            (StepView::Finished, ProgressView::Done(Ok(LoadedView { columns, row_count: c, pk })))
        } else {
            (StepView::Count { pk, columns }, ProgressView::Ask(ask_count(table)))
        },
        StepView::Count { pk, columns } => match a {
            AnswerView::Counts(c) => (StepView::Finished, ProgressView::Done(Ok(LoadedView { columns, row_count: first_or(c, 0i64), pk }))),
            _ => fail,
        },
        StepView::Finished => fail,
    }
}

/// A detected key is well formed: it has at least one column, and one
/// smallest and one largest value (those of its first column).
pub open spec fn key_wf(pk: Option<PkView>) -> bool {
    pk matches Some(p) ==> p.columns.len() > 0 && p.min_values.len() == 1 && p.max_values.len() == 1
}

/// The step's own consistency: a key column under check exists, and a key
/// found so far has at least one column.
pub open spec fn step_wf(s: StepView) -> bool {
    match s {
        StepView::PkTypes { names, checked } => checked < names.len(),
        StepView::PkEstimate { names } => names.len() > 0,
        StepView::PkCount { names } => names.len() > 0,
        StepView::PkBounds { names, .. } => names.len() > 0,
        StepView::Columns { pk } => key_wf(pk),
        StepView::Estimate { pk, .. } => key_wf(pk),
        StepView::Count { pk, .. } => key_wf(pk),
        _ => true,
    }
}

/// `m` is the metadata of `table` built from `l`.
pub open spec fn built_from(m: TableMetadata, table: Seq<char>, l: LoadedView) -> bool {
    &&& m.table_name@ == table
    &&& m.columns@.len() == l.columns.len()
    &&& forall|i: int| 0 <= i < l.columns.len() ==> column_from_row(#[trigger] m.columns@[i], l.columns[i])
    &&& m.row_count == l.row_count
    &&& m.has_blob == holds_text_blob(m.columns@)
    &&& opt_pk(m.pk) == l.pk
}

/// The progress handed back is the one `next_step` describes.
pub open spec fn progress_is(p: Progress, table: Seq<char>, v: ProgressView) -> bool {
    match (p, v) {
        (Progress::Ask(q), ProgressView::Ask(qv)) => q@ == qv,
        (Progress::Done(Ok(m)), ProgressView::Done(Ok(l))) => built_from(m, table, l),
        (Progress::Done(Err(LoadError::QueryFailed(m))), ProgressView::Done(Err(mv))) => m@ == mv,
        _ => false,
    }
}

/// Loads the metadata of one table, one catalogue query at a time.
pub struct MetadataLoader {
    table: String,
    step: LoadStep,
}

impl MetadataLoader {
    /// The table being loaded.
    pub closed spec fn table(&self) -> Seq<char> {
        self.table@
    }

    /// Where the load stands.
    pub closed spec fn step(&self) -> StepView {
        self.step@
    }

    /// The loader's consistency.
    pub open spec fn wf(&self) -> bool {
        step_wf(self.step())
    }

    /// Starts loading the metadata of `table`; the first query looks for its
    /// primary-key index.
    pub fn new(table: &str) -> (r: (Self, QueryRequest))
        ensures
            r.0.table() == table@,
            r.0.step() == StepView::PkIndex,
            r.0.wf(),
            r.1@ == ask_key_index(table@),
            r.1.sql@ == pk_index_sql(),
            r.1.params.deep_view() == seq![uppercased(table@)],
            r.1.shape == RowShape::Names,
    {
        let q = QueryRequest { sql: pk_index_query(), params: one_param(to_upper(table)), shape: RowShape::Names };
        (MetadataLoader { table: String::from_str(table), step: LoadStep::PkIndex }, q)
    }

    /// Whether the load is over.
    pub fn is_finished(&self) -> (b: bool)
        ensures
            b == (self.step() is Finished),
    {
        match self.step {
            LoadStep::Finished => true,
            _ => false,
        }
    }

    /// The shape of the answer the loader waits for, or `None` once the load
    /// is over.
    pub fn expected_shape(&self) -> (r: Option<RowShape>)
        ensures
            r == waits_for(self.step()),
    {
        match self.step {
            LoadStep::PkIndex => Some(RowShape::Names),
            LoadStep::PkColumns => Some(RowShape::Names),
            LoadStep::PkTypes { .. } => Some(RowShape::TypeCodes),
            LoadStep::PkEstimate { .. } => Some(RowShape::Counts),
            LoadStep::PkCount { .. } => Some(RowShape::Counts),
            LoadStep::PkBounds { .. } => Some(RowShape::Bounds),
            LoadStep::Columns { .. } => Some(RowShape::Catalogue),
            LoadStep::Estimate { .. } => Some(RowShape::Counts),
            LoadStep::Count { .. } => Some(RowShape::Counts),
            LoadStep::Finished => None,
        }
    }

    /// Takes the answer to the last query and says what follows.
    pub fn answer(&mut self, a: Answer) -> (p: Progress)
        requires
            old(self).wf(),
            !(old(self).step() is Finished),
            answer_fits(old(self).step(), a@),
        ensures
            final(self).wf(),
            final(self).table() == old(self).table(),
            final(self).step() == next_step(old(self).table(), old(self).step(), a@).0,
            progress_is(p, old(self).table(), next_step(old(self).table(), old(self).step(), a@).1),
            p matches Progress::Ask(q) ==> table_query_ok(old(self).table(), q@),
    {
        let mut step = LoadStep::Finished;
        std::mem::swap(&mut step, &mut self.step);
        let table = self.table.as_str();
        let (next, p) = match step {
            LoadStep::PkIndex => match a {
                Answer::Names(rows) => {
                    if rows.len() == 0 {
                        Self::no_key(table)
                    } else {
                        let index_name = String::from_str(trim_text(rows[0].as_str()));
                        let q = QueryRequest { sql: pk_columns_query(), params: one_param(to_upper(index_name.as_str())), shape: RowShape::Names };
                        proof { assert(rows.deep_view()[0] == rows@[0]@); }
                        (LoadStep::PkColumns, Progress::Ask(q))
                    }
                },
                other => Self::failed(other),
            },
            LoadStep::PkColumns => match a {
                Answer::Names(rows) => {
                    let names = trim_all(&rows);
                    if names.len() == 0 {
                        Self::no_key(table)
                    } else {
                        let q = Self::key_type_request(table, names[0].as_str());
                        proof { assert(names.deep_view()[0] == names@[0]@); }
                        (LoadStep::PkTypes { names, checked: 0 }, Progress::Ask(q))
                    }
                },
                other => Self::failed(other),
            },
            LoadStep::PkTypes { names, checked } => match a {
                Answer::TypeCodes(codes) => {
                    proof { assert(names.deep_view().len() == names@.len()); }
                    let code: i16 = if codes.len() > 0 { codes[0] } else { 0 };
                    if !(code == 7 || code == 8 || code == 16) {
                        Self::no_key(table)
                    } else if checked < names.len() - 1 {
                        let q = Self::key_type_request(table, names[checked + 1].as_str());
                        proof { assert(names.deep_view()[checked + 1] == names@[checked + 1]@); }
                        (LoadStep::PkTypes { names, checked: checked + 1 }, Progress::Ask(q))
                    } else {
                        (LoadStep::PkEstimate { names }, Progress::Ask(Self::estimate_request(table)))
                    }
                },
                other => Self::failed(other),
            },
            LoadStep::PkEstimate { names } => {
                match usable_estimate(&a) {
                    Some(c) => {
                        let q = Self::bounds_request(table, &names);
                        (LoadStep::PkBounds { names, row_count: c }, Progress::Ask(q))
                    },
                    None => (LoadStep::PkCount { names }, Progress::Ask(Self::count_request(table))),
                }
            },
            LoadStep::PkCount { names } => match a {
                Answer::Counts(c) => {
                    let n: i64 = if c.len() > 0 { c[0] } else { 0 };
                    let q = Self::bounds_request(table, &names);
                    (LoadStep::PkBounds { names, row_count: n }, Progress::Ask(q))
                },
                other => Self::failed(other),
            },
            LoadStep::PkBounds { names, row_count } => match a {
                Answer::Bounds(rows) => {
                    let (lo, hi) = if rows.len() > 0 {
                        let lo = match rows[0].0 { Some(v) => v, None => 0 };
                        let hi = match rows[0].1 { Some(v) => v, None => 0 };
                        (lo, hi)
                    } else {
                        (0, row_count)
                    };
                    let mut min_values: Vec<i64> = Vec::new();
                    min_values.push(lo);
                    let mut max_values: Vec<i64> = Vec::new();
                    max_values.push(hi);
                    let pk = PrimaryKeyInfo { columns: names, min_values, max_values, row_count };
                    proof {
                        assert(pk@.min_values =~= seq![lo]);
                        assert(pk@.max_values =~= seq![hi]);
                    }
                    (LoadStep::Columns { pk: Some(pk) }, Progress::Ask(Self::columns_request(table)))
                },
                other => Self::failed(other),
            },
            LoadStep::Columns { pk } => match a {
                Answer::Catalogue(rows) => (LoadStep::Estimate { pk, columns: rows }, Progress::Ask(Self::estimate_request(table))),
                other => Self::failed(other),
            },
            LoadStep::Estimate { pk, columns } => {
                match usable_estimate(&a) {
                    Some(c) => {
                        let m = build_table_metadata(table, &columns, c, pk);
                        (LoadStep::Finished, Progress::Done(Ok(m)))
                    },
                    None => (LoadStep::Count { pk, columns }, Progress::Ask(Self::count_request(table))),
                }
            },
            LoadStep::Count { pk, columns } => match a {
                Answer::Counts(c) => {
                    let n: i64 = if c.len() > 0 { c[0] } else { 0 };
                    let m = build_table_metadata(table, &columns, n, pk);
                    (LoadStep::Finished, Progress::Done(Ok(m)))
                },
                other => Self::failed(other),
            },
            LoadStep::Finished => Self::failed(a),
        };
        self.step = next;
        p
    }

    fn failed(a: Answer) -> (r: (LoadStep, Progress))
        ensures
            r.0@ == StepView::Finished,
            r.1 matches Progress::Done(Err(LoadError::QueryFailed(m))) && m@ == failure_message(a@),
    {
        let message = match a {
            Answer::Failed(m) => m,
            _ => String::new(),
        };
        (LoadStep::Finished, Progress::Done(Err(LoadError::QueryFailed(message))))
    }

    fn no_key(table: &str) -> (r: (LoadStep, Progress))
        ensures
            r.0@ == (StepView::Columns { pk: None }),
            r.1 matches Progress::Ask(q) && q@ == ask_columns(table@),
    {
        (LoadStep::Columns { pk: None }, Progress::Ask(Self::columns_request(table)))
    }

    fn columns_request(table: &str) -> (q: QueryRequest)
        ensures
            q@ == ask_columns(table@),
    {
        QueryRequest { sql: columns_query(), params: one_param(to_upper(table)), shape: RowShape::Catalogue }
    }

    fn estimate_request(table: &str) -> (q: QueryRequest)
        ensures
            q@ == ask_estimate(table@),
    {
        QueryRequest { sql: row_estimate_query(), params: one_param(to_upper(table)), shape: RowShape::Counts }
    }

    fn count_request(table: &str) -> (q: QueryRequest)
        ensures
            q@ == ask_count(table@),
    {
        let q = QueryRequest { sql: count_query(table), params: Vec::new(), shape: RowShape::Counts };
        proof { assert(q.params.deep_view() =~= Seq::<Seq<char>>::empty()); }
        q
    }

    fn key_type_request(table: &str, column: &str) -> (q: QueryRequest)
        ensures
            q@ == ask_key_type(table@, column@),
    {
        let mut params: Vec<String> = Vec::new();
        params.push(to_upper(table));
        params.push(to_upper(column));
        let q = QueryRequest { sql: column_type_query(), params, shape: RowShape::TypeCodes };
        proof { assert(q.params.deep_view() =~= seq![uppercased(table@), uppercased(column@)]); }
        q
    }

    fn bounds_request(table: &str, names: &Vec<String>) -> (q: QueryRequest)
        requires
            names@.len() > 0,
        ensures
            q@ == ask_bounds(table@, names.deep_view()[0]),
    {
        let q = QueryRequest { sql: min_max_query(names[0].as_str(), table), params: Vec::new(), shape: RowShape::Bounds };
        proof {
            assert(names.deep_view()[0] == names@[0]@);
            assert(q.params.deep_view() =~= Seq::<Seq<char>>::empty());
        }
        q
    }
}

/// A finished load's primary key, when there is one, has at least one
/// column and one smallest and one largest value.
pub proof fn loaded_key_is_well_formed(table: Seq<char>, s: StepView, a: AnswerView)
    requires
        step_wf(s),
        answer_fits(s, a),
    ensures
        next_step(table, s, a).1 matches ProgressView::Done(Ok(l)) ==> key_wf(l.pk),
        step_wf(next_step(table, s, a).0),
{
}

/// Every query the loader asks has the row shape the step it moves to
/// waits for, and a load ends exactly when no further answer is awaited.
pub proof fn asked_shape_is_awaited(table: Seq<char>, s: StepView, a: AnswerView)
    requires
        step_wf(s),
        answer_fits(s, a),
    ensures
        next_step(table, s, a).1 matches ProgressView::Ask(q) ==> waits_for(next_step(table, s, a).0) == Some(q.shape),
        next_step(table, s, a).1 is Done <==> next_step(table, s, a).0 is Finished,
{
}

/// What every query asked for a table satisfies: the column catalogue and
/// quick row estimate queries pass the table name upper-cased as their only
/// parameter (as the catalogue stores relation names); the key-type check
/// passes the upper-cased table name and one upper-cased column name; the
/// key-column query passes one upper-cased index name; the exact count and
/// key-range queries name the table in their text and take no parameter.
pub open spec fn table_query_ok(table: Seq<char>, q: QueryView) -> bool {
    &&& q.shape == RowShape::Catalogue ==> q.sql == columns_sql() && q.params == seq![uppercased(table)]
    &&& q.shape == RowShape::TypeCodes ==> q.sql == column_type_sql() && q.params.len() == 2
        && q.params[0] == uppercased(table) && (exists|c: Seq<char>| q.params[1] == uppercased(c))
    &&& q.shape == RowShape::Counts ==> (q.sql == row_estimate_sql() && q.params == seq![uppercased(table)])
        || (q.sql == "SELECT COUNT(*) FROM "@ + table && q.params.len() == 0)
    &&& q.shape == RowShape::Names ==> (q.sql == pk_index_sql() && q.params == seq![uppercased(table)])
        || (q.sql == pk_columns_sql() && q.params.len() == 1 && (exists|c: Seq<char>| q.params[0] == uppercased(c)))
    &&& q.shape == RowShape::Bounds ==> q.params.len() == 0
        && (exists|c: Seq<char>| q.sql == "SELECT MIN("@ + c + "), MAX("@ + c + ") FROM "@ + table)
}

/// Every query the loader asks for a table names it as the catalogue
/// expects: `table_query_ok` holds of each, whatever the step and answer.
pub proof fn table_queries_use_upper_case_name(table: Seq<char>, s: StepView, a: AnswerView)
    requires
        step_wf(s),
        answer_fits(s, a),
    ensures
        next_step(table, s, a).1 matches ProgressView::Ask(q) ==> table_query_ok(table, q),
        table_query_ok(table, ask_key_index(table)),
{
    match next_step(table, s, a).1 {
        ProgressView::Ask(q) => {
            if q.shape == RowShape::TypeCodes {
                let c = q.params[1];
                assert(exists|c: Seq<char>| q.params[1] == uppercased(c));
            }
        },
        _ => {},
    }
}

/// The key queries follow the answers: the key-column query passes the
/// index name read (trimmed, upper-cased); each key-type check passes the
/// table and the key column under check, first to last, each trimmed and
/// upper-cased; and the key-range query reads the first key column.
pub proof fn key_queries_follow_answers(table: Seq<char>, rows: Seq<Seq<char>>, names: Seq<Seq<char>>, checked: nat, codes: Seq<i16>, counts: Seq<i64>)
    ensures
        rows.len() > 0 ==> next_step(table, StepView::PkIndex, AnswerView::Names(rows)).1 == ProgressView::Ask(QueryView {
            sql: pk_columns_sql(),
            params: seq![uppercased(trimmed(rows[0]))],
            shape: RowShape::Names,
        }),
        rows.len() > 0 ==> next_step(table, StepView::PkColumns, AnswerView::Names(rows)).0
            == (StepView::PkTypes { names: rows.map_values(|r: Seq<char>| trimmed(r)), checked: 0 }),
        rows.len() > 0 ==> next_step(table, StepView::PkColumns, AnswerView::Names(rows)).1 == ProgressView::Ask(QueryView {
            sql: column_type_sql(),
            params: seq![uppercased(table), uppercased(trimmed(rows[0]))],
            shape: RowShape::TypeCodes,
        }),
        checked + 1 < names.len() && codes.len() > 0 && (codes[0] == 7 || codes[0] == 8 || codes[0] == 16)
            ==> next_step(table, StepView::PkTypes { names, checked }, AnswerView::TypeCodes(codes)).1
                == ProgressView::Ask(QueryView {
                    sql: column_type_sql(),
                    params: seq![uppercased(table), uppercased(names[checked + 1 as int])],
                    shape: RowShape::TypeCodes,
                }),
        names.len() > 0 && counts.len() > 0 && counts[0] > 0
            ==> next_step(table, StepView::PkEstimate { names }, AnswerView::Counts(counts)).1
                == ProgressView::Ask(QueryView {
                    sql: "SELECT MIN("@ + names[0] + "), MAX("@ + names[0] + ") FROM "@ + table,
                    params: Seq::empty(),
                    shape: RowShape::Bounds,
                }),
{
    if rows.len() > 0 {
        assert(rows.map_values(|r: Seq<char>| trimmed(r))[0] == trimmed(rows[0]));
    }
}

/// How counts and key bounds are read: a quick estimate is used only when
/// its first row is positive, else the exact count is asked; an exact count
/// with no row counts as 0; key bounds take the first row's values, a null
/// counting as 0, and with no row the range is 0 to the row count.
pub proof fn counts_and_bounds_are_read(
    table: Seq<char>,
    pk: Option<PkView>,
    columns: Seq<ColumnRow>,
    names: Seq<Seq<char>>,
    row_count: i64,
    c: Seq<i64>,
    b: Seq<(Option<i64>, Option<i64>)>,
)
    ensures
        c.len() > 0 && c[0] > 0 ==> next_step(table, StepView::Estimate { pk, columns }, AnswerView::Counts(c))
            == (StepView::Finished, ProgressView::Done(Ok(LoadedView { columns, row_count: c[0], pk }))),
        !(c.len() > 0 && c[0] > 0) ==> next_step(table, StepView::Estimate { pk, columns }, AnswerView::Counts(c))
            == (StepView::Count { pk, columns }, ProgressView::Ask(QueryView {
                sql: "SELECT COUNT(*) FROM "@ + table,
                params: Seq::empty(),
                shape: RowShape::Counts,
            })),
        next_step(table, StepView::Count { pk, columns }, AnswerView::Counts(c)) == (StepView::Finished,
            ProgressView::Done(Ok(LoadedView { columns, row_count: if c.len() > 0 { c[0] } else { 0 }, pk }))),
        next_step(table, StepView::PkCount { names }, AnswerView::Counts(c)).0
            == (StepView::PkBounds { names, row_count: if c.len() > 0 { c[0] } else { 0 } }),
        next_step(table, StepView::PkBounds { names, row_count }, AnswerView::Bounds(b)).0 == (StepView::Columns {
            pk: Some(PkView {
                columns: names,
                min_values: seq![if b.len() > 0 { match b[0].0 { Some(v) => v, None => 0 } } else { 0 }],
                max_values: seq![if b.len() > 0 { match b[0].1 { Some(v) => v, None => 0 } } else { row_count }],
                row_count,
            }),
        }),
        next_step(table, StepView::Columns { pk }, AnswerView::Catalogue(columns))
            == (StepView::Estimate { pk, columns }, ProgressView::Ask(QueryView {
                sql: row_estimate_sql(),
                params: seq![uppercased(table)],
                shape: RowShape::Counts,
            })),
{
}

/// The key-type check reads the first type code of the answer: a key column
/// whose answer has no row, or whose first code is not 7, 8 or 16, drops the
/// key and the load goes on to the column catalogue; a last key column that
/// passes leads on to the row estimate.
pub proof fn key_type_check_reads_first_code(table: Seq<char>, names: Seq<Seq<char>>, checked: nat, codes: Seq<i16>)
    requires
        checked < names.len(),
    ensures
        !(codes.len() > 0 && (codes[0] == 7 || codes[0] == 8 || codes[0] == 16))
            ==> next_step(table, StepView::PkTypes { names, checked }, AnswerView::TypeCodes(codes))
                == (StepView::Columns { pk: None }, ProgressView::Ask(QueryView {
                    sql: columns_sql(),
                    params: seq![uppercased(table)],
                    shape: RowShape::Catalogue,
                })),
        codes.len() > 0 && (codes[0] == 7 || codes[0] == 8 || codes[0] == 16) && checked + 1 == names.len()
            ==> next_step(table, StepView::PkTypes { names, checked }, AnswerView::TypeCodes(codes))
                == (StepView::PkEstimate { names }, ProgressView::Ask(QueryView {
                    sql: row_estimate_sql(),
                    params: seq![uppercased(table)],
                    shape: RowShape::Counts,
                })),
{
}

/// A failed quick row estimate never fails a load: the loader falls back to
/// an exact count. Every other failed query ends the load with an error
/// that carries the database's message.
pub proof fn only_the_estimate_may_fail(table: Seq<char>, s: StepView, message: Seq<char>)
    requires
        !(s is Finished),
    ensures
        (s is PkEstimate || s is Estimate) ==> next_step(table, s, AnswerView::Failed(message)).1 == ProgressView::Ask(ask_count(table)),
        !(s is PkEstimate || s is Estimate) ==> next_step(table, s, AnswerView::Failed(message))
            == (StepView::Finished, ProgressView::Done(Err(message))),
{
}

/// A table without a primary-key index is loaded without a key, and the
/// next query reads its column catalogue.
pub proof fn no_index_means_no_key(table: Seq<char>)
    ensures
        next_step(table, StepView::PkIndex, AnswerView::Names(Seq::empty()))
            == (StepView::Columns { pk: None }, ProgressView::Ask(ask_columns(table))),
{
}

/// A key column whose type code is not an integer type (or that has no
/// type row, counted as code 0) drops the key: the load goes on without one.
pub proof fn non_integer_key_is_dropped(table: Seq<char>, names: Seq<Seq<char>>, checked: nat, codes: Seq<i16>)
    requires
        checked < names.len(),
        !is_integer_field_type(first_or(codes, 0i16)),
    ensures
        next_step(table, StepView::PkTypes { names, checked }, AnswerView::TypeCodes(codes))
            == (StepView::Columns { pk: None }, ProgressView::Ask(ask_columns(table))),
{
}

/// The step reached from `s` by answering each query with the type codes in
/// `codes`, in order.
pub open spec fn after_type_answers(table: Seq<char>, s: StepView, codes: Seq<Seq<i16>>) -> StepView
    decreases codes.len(),
{
    if codes.len() == 0 {
        s
    } else {
        after_type_answers(table, next_step(table, s, AnswerView::TypeCodes(codes[0])).0, codes.drop_first())
    }
}

/// Whether the first type code of every answer names an integer type (an
/// answer without rows counting as code 0).
pub open spec fn all_integer(codes: Seq<Seq<i16>>) -> bool {
    forall|k: int| 0 <= k < codes.len() ==> is_integer_field_type(#[trigger] first_or(codes[k], 0i16))
}

proof fn non_key_steps_stay_off_key(table: Seq<char>, s: StepView, codes: Seq<Seq<i16>>)
    requires
        s is Columns || s is Finished,
    ensures
        after_type_answers(table, s, codes) is Columns || after_type_answers(table, s, codes) is Finished,
    decreases codes.len(),
{
    if codes.len() > 0 {
        non_key_steps_stay_off_key(table, next_step(table, s, AnswerView::TypeCodes(codes[0])).0, codes.drop_first());
    }
}

proof fn type_answers_from(table: Seq<char>, names: Seq<Seq<char>>, checked: nat, codes: Seq<Seq<i16>>)
    requires
        checked < names.len(),
        codes.len() == names.len() - checked,
    ensures
        all_integer(codes) ==> after_type_answers(table, StepView::PkTypes { names, checked }, codes)
            == (StepView::PkEstimate { names }),
        !all_integer(codes) ==> (after_type_answers(table, StepView::PkTypes { names, checked }, codes) is Columns
            || after_type_answers(table, StepView::PkTypes { names, checked }, codes) is Finished),
    decreases codes.len(),
{
    let s = StepView::PkTypes { names, checked };
    let nxt = next_step(table, s, AnswerView::TypeCodes(codes[0])).0;
    let rest = codes.drop_first();
    assert(after_type_answers(table, s, codes) == after_type_answers(table, nxt, rest));
    if !is_integer_field_type(first_or(codes[0], 0i16)) {
        assert(nxt is Columns);
        non_key_steps_stay_off_key(table, nxt, rest);
        assert(!all_integer(codes));
    } else if checked + 1 < names.len() {
        type_answers_from(table, names, checked + 1, rest);
        assert(all_integer(codes) <==> all_integer(rest)) by {
            if all_integer(rest) {
                assert forall|k: int| 0 <= k < codes.len() implies is_integer_field_type(#[trigger] first_or(codes[k], 0i16)) by {
                    if k > 0 {
                        assert(codes[k] == rest[k - 1]);
                    }
                }
            }
            if all_integer(codes) {
                assert forall|k: int| 0 <= k < rest.len() implies is_integer_field_type(#[trigger] first_or(rest[k], 0i16)) by {
                    assert(rest[k] == codes[k + 1]);
                }
            }
        }
    } else {
        assert(rest.len() == 0);
        assert(all_integer(codes)) by {
            assert forall|k: int| 0 <= k < codes.len() implies is_integer_field_type(#[trigger] first_or(codes[k], 0i16)) by {
                assert(k == 0);
            }
        }
    }
}

/// A primary key is kept only when every one of its columns has an integer
/// type: answering the type checks of all key columns leads on to the row
/// estimate exactly when each answer's first code is SMALLINT, INTEGER or
/// BIGINT; otherwise the load goes on without a key (or has failed).
pub proof fn key_kept_only_if_all_columns_are_integers(table: Seq<char>, names: Seq<Seq<char>>, codes: Seq<Seq<i16>>)
    requires
        names.len() > 0,
        codes.len() == names.len(),
    ensures
        (after_type_answers(table, StepView::PkTypes { names, checked: 0 }, codes) == (StepView::PkEstimate { names }))
            <==> all_integer(codes),
{
    type_answers_from(table, names, 0, codes);
}

/// The shape of an answer's rows, `None` for a failure.
pub open spec fn shape_of(a: AnswerView) -> Option<RowShape> {
    match a {
        AnswerView::Names(_) => Some(RowShape::Names),
        AnswerView::TypeCodes(_) => Some(RowShape::TypeCodes),
        AnswerView::Counts(_) => Some(RowShape::Counts),
        AnswerView::Bounds(_) => Some(RowShape::Bounds),
        AnswerView::Catalogue(_) => Some(RowShape::Catalogue),
        AnswerView::Failed(_) => None,
    }
}

fn one_param(p: String) -> (v: Vec<String>)
    ensures
        v.deep_view() == seq![p@],
{
    let mut v: Vec<String> = Vec::new();
    v.push(p);
    proof { assert(v.deep_view() =~= seq![p@]); }
    v
}

fn usable_estimate(a: &Answer) -> (r: Option<i64>)
    ensures
        r is Some <==> estimate_usable(a@),
        r matches Some(c) ==> c == a@->Counts_0[0],
{
    match a {
        Answer::Counts(c) => {
            if c.len() > 0 && c[0] > 0 { Some(c[0]) } else { None }
        },
        _ => None,
    }
}

fn trim_all(rows: &Vec<String>) -> (names: Vec<String>)
    ensures
        names.deep_view() == rows.deep_view().map_values(|r: Seq<char>| trimmed(r)),
{
    let mut names: Vec<String> = Vec::new();
    let mut i: usize = 0;
    while i < rows.len()
        invariant
            i <= rows@.len(),
            names@.len() == i,
            forall|k: int| 0 <= k < i ==> #[trigger] names@[k]@ == trimmed(rows@[k]@),
        decreases rows.len() - i,
    {
        names.push(String::from_str(trim_text(rows[i].as_str())));
        i = i + 1;
    }
    assert(names.deep_view() =~= rows.deep_view().map_values(|r: Seq<char>| trimmed(r)));
    names
}

} // verus!
