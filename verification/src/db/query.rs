//! The filtered, sorted and paged listing of assets.
//!
//! A query is answered in three steps: the parameters become two
//! statements (one that counts every match, one that fetches the requested
//! page), the engine runs them, and the rows that come back are decoded.
//! User-supplied values only ever travel as bound parameters; the one part
//! of the text that depends on the request, the sort column, is chosen from
//! a fixed list.

use vstd::prelude::*;
use crate::db::engine::{
    agrees, binds_view, collect_rows, decoded_rows, fetch, first_row, read, rows_view,
    take_first_row, views, Answer, Bind, BindView, CellView, DbError, Exchange, Fault, Index,
    RawRows, Statement, StatementView,
};
use crate::db::records::{asset_of_cells, decode_asset, cell_int, int_at, AssetInfo, AssetInfoView};
use crate::text::{decimal, decimal_string, join, join_text, lowercase, lowercase_of, text_eq, texts};

verus! {

/// What a caller may ask of the asset listing. Every field is optional.
#[derive(Debug, Clone)]
pub struct AssetQueryParams {
    pub folder_id: Option<i64>,
    pub search: Option<String>,
    pub extensions: Option<Vec<String>>,
    pub min_width: Option<u32>,
    pub max_width: Option<u32>,
    pub sort_by: Option<String>,
    pub sort_order: Option<String>,
    pub page: Option<i64>,
    pub page_size: Option<i64>,
}

pub struct AssetQueryParamsView {
    pub folder_id: Option<i64>,
    pub search: Option<Seq<char>>,
    pub extensions: Option<Seq<Seq<char>>>,
    pub min_width: Option<u32>,
    pub max_width: Option<u32>,
    pub sort_by: Option<Seq<char>>,
    pub sort_order: Option<Seq<char>>,
    pub page: Option<i64>,
    pub page_size: Option<i64>,
}

/// The content of an optional text.
pub open spec fn opt_text(o: Option<String>) -> Option<Seq<char>> {
    match o {
        Some(s) => Some(s@),
        None => None,
    }
}

impl View for AssetQueryParams {
    type V = AssetQueryParamsView;

    open spec fn view(&self) -> AssetQueryParamsView {
        AssetQueryParamsView {
            folder_id: self.folder_id,
            search: opt_text(self.search),
            extensions: match self.extensions {
                Some(v) => Some(texts(v@)),
                None => None,
            },
            min_width: self.min_width,
            max_width: self.max_width,
            sort_by: opt_text(self.sort_by),
            sort_order: opt_text(self.sort_order),
            page: self.page,
            page_size: self.page_size,
        }
    }
}

/// One page of the listing, with the number of all matches.
#[derive(Debug, Clone)]
pub struct AssetQueryResult {
    pub assets: Vec<AssetInfo>,
    pub total: i64,
    pub page: i64,
    pub page_size: i64,
}

pub struct AssetQueryResultView {
    pub assets: Seq<AssetInfoView>,
    pub total: i64,
    pub page: i64,
    pub page_size: i64,
}

impl View for AssetQueryResult {
    type V = AssetQueryResultView;

    open spec fn view(&self) -> AssetQueryResultView {
        AssetQueryResultView {
            assets: views(self.assets@),
            total: self.total,
            page: self.page,
            page_size: self.page_size,
        }
    }
}

/// The largest page size that a query serves.
pub const MAX_PAGE_SIZE: i64 = 500;

/// The page size of a query that names none.
pub const DEFAULT_PAGE_SIZE: i64 = 100;

/// The page that a request means: the first one unless it names a later one.
pub open spec fn page_number(page: Option<i64>) -> i64 {
    match page {
        Some(p) => if p >= 1 {
            p
        } else {
            1
        },
        None => 1,
    }
}

/// The page size that a request means: the default if it names none, and
/// otherwise the named size brought into `1 ..= MAX_PAGE_SIZE`.
pub open spec fn page_length(page_size: Option<i64>) -> i64 {
    match page_size {
        Some(s) => if s < 1 {
            1
        } else if s > MAX_PAGE_SIZE {
            MAX_PAGE_SIZE
        } else {
            s
        },
        None => DEFAULT_PAGE_SIZE,
    }
}

/// The number of rows that precede the requested page.
pub open spec fn row_offset(page: Option<i64>, page_size: Option<i64>) -> int {
    (page_number(page) - 1) * page_length(page_size)
}

pub fn effective_page(page: Option<i64>) -> (r: i64)
    ensures
        r == page_number(page),
        r >= 1,
{
    match page {
        Some(p) => if p >= 1 {
            p
        } else {
            1
        },
        None => 1,
    }
}

pub fn effective_page_size(page_size: Option<i64>) -> (r: i64)
    ensures
        r == page_length(page_size),
        1 <= r <= MAX_PAGE_SIZE,
{
    match page_size {
        Some(s) => if s < 1 {
            1
        } else if s > MAX_PAGE_SIZE {
            MAX_PAGE_SIZE
        } else {
            s
        },
        None => DEFAULT_PAGE_SIZE,
    }
}

/// The column that a sort key names; any key outside the list, or none,
/// sorts by file name.
pub open spec fn sort_column(sort_by: Option<Seq<char>>) -> Seq<char> {
    match sort_by {
        Some(s) => if s == "size"@ {
            "file_size"@
        } else if s == "modified"@ {
            "modified_at"@
        } else if s == "width"@ {
            "width"@
        } else if s == "ext"@ {
            "file_ext"@
        } else {
            "file_name"@
        },
        None => "file_name"@,
    }
}

/// The direction that a sort order names: descending only when asked for.
pub open spec fn sort_direction(sort_order: Option<Seq<char>>) -> Seq<char> {
    match sort_order {
        Some(s) => if s == "desc"@ {
            "DESC"@
        } else {
            "ASC"@
        },
        None => "ASC"@,
    }
}

pub fn sort_column_name(sort_by: &Option<String>) -> (r: &'static str)
    ensures
        r@ == sort_column(opt_text(*sort_by)),
{
    match sort_by {
        Some(s) => {
            if text_eq(s.as_str(), "size") {
                "file_size"
            } else if text_eq(s.as_str(), "modified") {
                "modified_at"
            } else if text_eq(s.as_str(), "width") {
                "width"
            } else if text_eq(s.as_str(), "ext") {
                "file_ext"
            } else {
                "file_name"
            }
        },
        None => "file_name",
    }
}

pub fn sort_direction_name(sort_order: &Option<String>) -> (r: &'static str)
    ensures
        r@ == sort_direction(opt_text(*sort_order)),
{
    match sort_order {
        Some(s) => {
            if text_eq(s.as_str(), "desc") {
                "DESC"
            } else {
                "ASC"
            }
        },
        None => "ASC",
    }
}

/// The conditions of a listing, each a fragment of statement text, and the
/// values bound to their numbered parameters.
#[derive(Debug)]
pub struct Filter {
    pub conditions: Vec<String>,
    pub binds: Vec<Bind>,
}

pub struct FilterView {
    pub conditions: Seq<Seq<char>>,
    pub binds: Seq<BindView>,
}

impl View for Filter {
    type V = FilterView;

    open spec fn view(&self) -> FilterView {
        FilterView { conditions: texts(self.conditions@), binds: binds_view(self.binds@) }
    }
}

/// The text of the parameter numbered `n`.
pub open spec fn placeholder(n: nat) -> Seq<char> {
    "?"@ + decimal(n)
}

/// The texts of `count` parameters numbered from `first`.
pub open spec fn placeholders(first: nat, count: nat) -> Seq<Seq<char>> {
    Seq::new(count, |i: int| placeholder((first + i) as nat))
}

/// A filter with one more condition, `column op ?n`, bound to `value`.
pub open spec fn with_condition(f: FilterView, lead: Seq<char>, value: BindView) -> FilterView {
    FilterView {
        conditions: f.conditions.push(lead + placeholder(f.binds.len() + 1)),
        binds: f.binds.push(value),
    }
}

pub open spec fn with_folder(f: FilterView, folder_id: Option<i64>) -> FilterView {
    match folder_id {
        Some(id) => with_condition(f, "folder_id = "@, BindView::Integer(id)),
        None => f,
    }
}

/// A search for nothing is no condition; a search for a text matches the
/// names that contain it.
pub open spec fn with_search(f: FilterView, search: Option<Seq<char>>) -> FilterView {
    match search {
        Some(s) => if s.len() > 0 {
            with_condition(f, "file_name LIKE "@, BindView::Text("%"@ + s + "%"@))
        } else {
            f
        },
        None => f,
    }
}

/// An empty list of extensions is no condition; otherwise the extension must
/// be one of those listed, each bound to a parameter of its own.
pub open spec fn with_extensions(f: FilterView, exts: Seq<Seq<char>>) -> FilterView {
    if exts.len() == 0 {
        f
    } else {
        FilterView {
            conditions: f.conditions.push(
                "file_ext IN ("@ + join_text(placeholders(f.binds.len() + 1, exts.len()), ","@)
                    + ")"@,
            ),
            binds: f.binds + exts.map_values(|e: Seq<char>| BindView::Text(e)),
        }
    }
}

pub open spec fn with_min_width(f: FilterView, w: Option<u32>) -> FilterView {
    match w {
        Some(w) => with_condition(f, "width >= "@, BindView::Integer(w as i64)),
        None => f,
    }
}

pub open spec fn with_max_width(f: FilterView, w: Option<u32>) -> FilterView {
    match w {
        Some(w) => with_condition(f, "width <= "@, BindView::Integer(w as i64)),
        None => f,
    }
}

/// The filter that a request means, given the extensions to match.
pub open spec fn asset_filter(p: AssetQueryParamsView, exts: Seq<Seq<char>>) -> FilterView {
    let f0 = FilterView { conditions: Seq::empty(), binds: Seq::empty() };
    let f1 = with_folder(f0, p.folder_id);
    let f2 = with_search(f1, p.search);
    let f3 = with_extensions(f2, exts);
    let f4 = with_min_width(f3, p.min_width);
    with_max_width(f4, p.max_width)
}

/// The `WHERE` clause of a filter: nothing when it has no condition.
pub open spec fn where_clause(f: FilterView) -> Seq<char> {
    if f.conditions.len() == 0 {
        Seq::empty()
    } else {
        "WHERE "@ + join_text(f.conditions, " AND "@)
    }
}

/// The statement that counts every asset that the filter admits.
pub open spec fn count_statement(f: FilterView) -> StatementView {
    StatementView { sql: "SELECT COUNT(*) FROM assets "@ + where_clause(f), binds: f.binds }
}

/// The statement that fetches `limit` admitted assets after the first
/// `offset`, in the given order.
pub open spec fn page_statement(
    f: FilterView,
    column: Seq<char>,
    direction: Seq<char>,
    limit: i64,
    offset: i64,
) -> StatementView {
    StatementView {
        sql: "SELECT id, folder_id, file_path, file_name, file_ext, file_size, width, height, thumb_path, modified_at FROM assets "@
            + where_clause(f) + " ORDER BY "@ + column + " "@ + direction + " LIMIT "@
            + placeholder(f.binds.len() + 1) + " OFFSET "@ + placeholder(f.binds.len() + 2),
        binds: f.binds.push(BindView::Integer(limit)).push(BindView::Integer(offset)),
    }
}

/// The two statements of a listing and the page they serve.
#[derive(Debug)]
pub struct QueryPlan {
    pub count: Statement,
    pub rows: Statement,
    pub page: i64,
    pub page_size: i64,
}

pub struct QueryPlanView {
    pub count: StatementView,
    pub rows: StatementView,
    pub page: i64,
    pub page_size: i64,
}

impl View for QueryPlan {
    type V = QueryPlanView;

    open spec fn view(&self) -> QueryPlanView {
        QueryPlanView {
            count: self.count@,
            rows: self.rows@,
            page: self.page,
            page_size: self.page_size,
        }
    }
}

/// The plan of a request, or nothing when the rows that precede the
/// requested page cannot be counted in 64 signed bits.
pub open spec fn asset_query_plan(p: AssetQueryParamsView, exts: Seq<Seq<char>>) -> Option<
    QueryPlanView,
> {
    if row_offset(p.page, p.page_size) > i64::MAX {
        None
    } else {
        let f = asset_filter(p, exts);
        Some(
            QueryPlanView {
                count: count_statement(f),
                rows: page_statement(
                    f,
                    sort_column(p.sort_by),
                    sort_direction(p.sort_order),
                    page_length(p.page_size),
                    row_offset(p.page, p.page_size) as i64,
                ),
                page: page_number(p.page),
                page_size: page_length(p.page_size),
            },
        )
    }
}

proof fn lemma_binds_push(s: Seq<Bind>, b: Bind)
    ensures
        binds_view(s.push(b)) == binds_view(s).push(b@),
{
    assert(binds_view(s.push(b)) =~= binds_view(s).push(b@));
}

proof fn lemma_texts_push(s: Seq<String>, t: String)
    ensures
        texts(s.push(t)) == texts(s).push(t@),
{
    assert(texts(s.push(t)) =~= texts(s).push(t@));
}

fn placeholder_text(n: u128) -> (r: String)
    ensures
        r@ == placeholder(n as nat),
{
    let mut out = String::from_str("?");
    let d = decimal_string(n);
    out.append(d.as_str());
    out
}

impl Filter {
    pub fn new() -> (r: Filter)
        ensures
            r@ == (FilterView { conditions: Seq::empty(), binds: Seq::empty() }),
    {
        let r = Filter { conditions: Vec::new(), binds: Vec::new() };
        assert(r@.conditions =~= Seq::empty());
        assert(r@.binds =~= Seq::empty());
        r
    }

    /// Adds the condition `lead ?n`, with `value` bound to the new parameter.
    pub fn condition(&mut self, lead: &str, value: Bind)
        ensures
            final(self)@ == with_condition(old(self)@, lead@, value@),
    {
        let mut text = String::from_str(lead);
        let n: u128 = self.binds.len() as u128 + 1;
        let ph = placeholder_text(n);
        text.append(ph.as_str());
        proof {
            lemma_texts_push(self.conditions@, text);
            lemma_binds_push(self.binds@, value);
        }
        self.conditions.push(text);
        self.binds.push(value);
    }

    /// Adds the extension condition; `exts` are matched as they stand.
    pub fn extensions(&mut self, exts: &Vec<String>)
        ensures
            final(self)@ == with_extensions(old(self)@, texts(exts@)),
    {
        if exts.len() == 0 {
            return ;
        }
        let first: u128 = self.binds.len() as u128 + 1;
        let mut marks: Vec<String> = Vec::new();
        let mut i: usize = 0;
        while i < exts.len()
            invariant
                i <= exts.len(),
                first == old(self).binds@.len() + 1,
                first <= usize::MAX + 1,
                self.conditions == old(self).conditions,
                texts(marks@) == placeholders(first as nat, i as nat),
                binds_view(self.binds@) == binds_view(old(self).binds@) + texts(exts@).take(
                    i as int,
                ).map_values(|e: Seq<char>| BindView::Text(e)),
            decreases exts.len() - i,
        {
            let mark = placeholder_text(first + i as u128);
            let value = Bind::Text(exts[i].clone());
            proof {
                lemma_texts_push(marks@, mark);
                lemma_binds_push(self.binds@, value);
                assert(placeholders(first as nat, i as nat).push(mark@) =~= placeholders(
                    first as nat,
                    (i + 1) as nat,
                ));
                assert(texts(exts@).take(i + 1).map_values(|e: Seq<char>| BindView::Text(e))
                    =~= texts(exts@).take(i as int).map_values(|e: Seq<char>| BindView::Text(e)).push(
                    value@,
                ));
                assert(binds_view(self.binds@).push(value@) =~= binds_view(old(self).binds@)
                    + texts(exts@).take(i + 1).map_values(|e: Seq<char>| BindView::Text(e)));
            }
            marks.push(mark);
            self.binds.push(value);
            i += 1;
        }
        let mut text = String::from_str("file_ext IN (");
        let list = join(&marks, ",");
        text.append(list.as_str());
        text.append(")");
        proof {
            assert(texts(exts@).take(exts@.len() as int) =~= texts(exts@));
            lemma_texts_push(self.conditions@, text);
        }
        self.conditions.push(text);
    }

    /// The `WHERE` clause of this filter.
    pub fn where_text(&self) -> (r: String)
        ensures
            r@ == where_clause(self@),
    {
        if self.conditions.len() == 0 {
            String::new()
        } else {
            let mut out = String::from_str("WHERE ");
            let all = join(&self.conditions, " AND ");
            out.append(all.as_str());
            out
        }
    }
}

/// A copy of a list of bound values.
pub fn copy_binds(binds: &Vec<Bind>) -> (r: Vec<Bind>)
    ensures
        binds_view(r@) == binds_view(binds@),
{
    let mut out: Vec<Bind> = Vec::new();
    let mut i: usize = 0;
    while i < binds.len()
        invariant
            i <= binds.len(),
            binds_view(out@) == binds_view(binds@).take(i as int),
        decreases binds.len() - i,
    {
        let b = match &binds[i] {
            Bind::Integer(v) => Bind::Integer(*v),
            Bind::Text(s) => Bind::Text(s.clone()),
        };
        proof {
            lemma_binds_push(out@, b);
            assert(binds_view(binds@).take(i as int).push(b@) =~= binds_view(binds@).take(i + 1));
        }
        out.push(b);
        i += 1;
    }
    assert(binds_view(binds@).take(binds@.len() as int) =~= binds_view(binds@));
    out
}

/// Builds the filter of a request; `exts` are the extensions to match.
pub fn build_filter(params: &AssetQueryParams, exts: &Vec<String>) -> (r: Filter)
    ensures
        r@ == asset_filter(params@, texts(exts@)),
{
    let mut f = Filter::new();
    match params.folder_id {
        Some(id) => {
            f.condition("folder_id = ", Bind::Integer(id));
        },
        None => {},
    }
    match &params.search {
        Some(s) => {
            if !s.as_str().is_empty() {
                let mut pattern = String::from_str("%");
                pattern.append(s.as_str());
                pattern.append("%");
                f.condition("file_name LIKE ", Bind::Text(pattern));
            }
        },
        None => {},
    }
    f.extensions(exts);
    match params.min_width {
        Some(w) => {
            f.condition("width >= ", Bind::Integer(w as i64));
        },
        None => {},
    }
    match params.max_width {
        Some(w) => {
            f.condition("width <= ", Bind::Integer(w as i64));
        },
        None => {},
    }
    f
}

/// Turns a request into its two statements. The extensions to match are
/// taken from `exts`, not from the request.
///
/// Fails with [`DbError::Validation`] exactly when the requested page starts
/// beyond the last row offset that 64 signed bits can hold.
pub fn plan_asset_query(params: &AssetQueryParams, exts: &Vec<String>) -> (r: Result<
    QueryPlan,
    DbError,
>)
    ensures
        match r {
            Ok(plan) => asset_query_plan(params@, texts(exts@)) == Some(plan@),
            Err(e) => e is Validation && asset_query_plan(params@, texts(exts@)) is None,
        },
{
    let page = effective_page(params.page);
    let page_size = effective_page_size(params.page_size);
    let offset = match (page - 1).checked_mul(page_size) {
        Some(o) => o,
        None => {
            return Err(DbError::Validation);
        },
    };
    let filter = build_filter(params, exts);
    let clause = filter.where_text();

    let mut count_sql = String::from_str("SELECT COUNT(*) FROM assets ");
    count_sql.append(clause.as_str());
    let count = Statement { sql: count_sql, binds: copy_binds(&filter.binds) };

    let n: u128 = filter.binds.len() as u128;
    let mut sql = String::from_str(
        "SELECT id, folder_id, file_path, file_name, file_ext, file_size, width, height, thumb_path, modified_at FROM assets ",
    );
    sql.append(clause.as_str());
    sql.append(" ORDER BY ");
    sql.append(sort_column_name(&params.sort_by));
    sql.append(" ");
    sql.append(sort_direction_name(&params.sort_order));
    sql.append(" LIMIT ");
    sql.append(placeholder_text(n + 1).as_str());
    sql.append(" OFFSET ");
    sql.append(placeholder_text(n + 2).as_str());
    let mut binds = filter.binds;
    proof {
        lemma_binds_push(binds@, Bind::Integer(page_size));
        lemma_binds_push(binds@.push(Bind::Integer(page_size)), Bind::Integer(offset));
    }
    binds.push(Bind::Integer(page_size));
    binds.push(Bind::Integer(offset));
    let rows = Statement { sql, binds };
    Ok(QueryPlan { count, rows, page, page_size })
}

/// What of a request decides the text of its statements: which conditions
/// it has, how many extensions it lists, and how it sorts. The values it
/// filters by are no part of it.
pub open spec fn same_shape(
    p: AssetQueryParamsView,
    exts: Seq<Seq<char>>,
    q: AssetQueryParamsView,
    others: Seq<Seq<char>>,
) -> bool {
    &&& p.folder_id is Some <==> q.folder_id is Some
    &&& (p.search is Some && p.search->0.len() > 0) <==> (q.search is Some && q.search->0.len()
        > 0)
    &&& exts.len() == others.len()
    &&& p.min_width is Some <==> q.min_width is Some
    &&& p.max_width is Some <==> q.max_width is Some
    &&& sort_column(p.sort_by) == sort_column(q.sort_by)
    &&& sort_direction(p.sort_order) == sort_direction(q.sort_order)
}

/// No value that a request filters by reaches the text of a statement: two
/// requests of the same shape have the same texts, whatever folder, search
/// text, extensions, widths and page they name. The values travel as bound
/// parameters, one for each placeholder.
pub proof fn law_values_never_reach_the_text(
    p: AssetQueryParamsView,
    exts: Seq<Seq<char>>,
    q: AssetQueryParamsView,
    others: Seq<Seq<char>>,
)
    requires
        same_shape(p, exts, q, others),
        asset_query_plan(p, exts) is Some,
        asset_query_plan(q, others) is Some,
    ensures
        asset_query_plan(p, exts)->0.count.sql == asset_query_plan(q, others)->0.count.sql,
        asset_query_plan(p, exts)->0.rows.sql == asset_query_plan(q, others)->0.rows.sql,
        asset_query_plan(p, exts)->0.count.binds.len() == asset_query_plan(
            q,
            others,
        )->0.count.binds.len(),
{
    let e = FilterView { conditions: Seq::empty(), binds: Seq::empty() };
    let p1 = with_folder(e, p.folder_id);
    let q1 = with_folder(e, q.folder_id);
    assert(p1.conditions == q1.conditions && p1.binds.len() == q1.binds.len());
    let p2 = with_search(p1, p.search);
    let q2 = with_search(q1, q.search);
    assert(p2.conditions == q2.conditions && p2.binds.len() == q2.binds.len());
    let p3 = with_extensions(p2, exts);
    let q3 = with_extensions(q2, others);
    assert(p3.conditions == q3.conditions && p3.binds.len() == q3.binds.len());
    let p4 = with_min_width(p3, p.min_width);
    let q4 = with_min_width(q3, q.min_width);
    assert(p4.conditions == q4.conditions && p4.binds.len() == q4.binds.len());
    let p5 = with_max_width(p4, p.max_width);
    let q5 = with_max_width(q4, q.max_width);
    assert(p5.conditions == q5.conditions && p5.binds.len() == q5.binds.len());
}

/// The column that a listing is sorted by is always one of five, whatever
/// the request asks for.
pub proof fn law_sort_column_is_listed(sort_by: Option<Seq<char>>)
    ensures
        ({
            let c = sort_column(sort_by);
            c == "file_name"@ || c == "file_size"@ || c == "modified_at"@ || c == "width"@ || c
                == "file_ext"@
        }),
        sort_direction(sort_by) == "ASC"@ || sort_direction(sort_by) == "DESC"@,
{
}

/// A page never holds less than one row nor more than the largest page
/// size, and the first page begins at the first row.
pub proof fn law_paging_bounds(page: Option<i64>, page_size: Option<i64>)
    ensures
        page_number(page) >= 1,
        1 <= page_length(page_size) <= MAX_PAGE_SIZE,
        row_offset(page, page_size) >= 0,
        page_number(page) == 1 ==> row_offset(page, page_size) == 0,
{
    assert(row_offset(page, page_size) >= 0) by (nonlinear_arith)
        requires
            row_offset(page, page_size) == (page_number(page) - 1) * page_length(page_size),
            page_number(page) >= 1,
            page_length(page_size) >= 1,
    ;
    if page_number(page) == 1 {
        assert(0 * page_length(page_size) == 0);
    }
}

/// The number of matches that the answer to a count statement reports: the
/// integer in the first column of its first row.
pub open spec fn first_int(rows: Seq<Option<Seq<CellView>>>) -> Result<i64, Fault> {
    match first_row(rows) {
        Ok(cells) => match int_at(cells, 0) {
            Some(v) => Ok(v),
            None => Err(Fault::Corrupt),
        },
        Err(f) => Err(f),
    }
}

/// Reads the single integer that a statement such as a count answers with.
pub fn read_first_int(rows: &RawRows) -> (r: Result<i64, DbError>)
    ensures
        agrees(r, first_int(rows_view(rows@))),
{
    let cells = take_first_row(rows)?;
    match cell_int(cells, 0) {
        Some(v) => Ok(v),
        None => Err(DbError::Corrupt),
    }
}

/// The assets that the rows of a page decode to, in row order.
pub open spec fn decoded_assets(rows: Seq<Option<Seq<CellView>>>) -> Seq<AssetInfoView> {
    decoded_rows(rows, |cells: Seq<CellView>| asset_of_cells(cells))
}

/// Decodes the rows of a page, passing over those that do not decode.
pub fn collect_assets(rows: &RawRows) -> (r: Vec<AssetInfo>)
    ensures
        views(r@) == decoded_assets(rows_view(rows@)),
{
    collect_rows(rows, decode_asset, Ghost(|cells: Seq<CellView>| asset_of_cells(cells)))
}

/// What a listing is worth, given the answers to its two statements.
pub open spec fn query_outcome(
    count_rows: Seq<Option<Seq<CellView>>>,
    page_rows: Seq<Option<Seq<CellView>>>,
    page: i64,
    page_size: i64,
) -> Result<AssetQueryResultView, Fault> {
    match first_int(count_rows) {
        Ok(total) => Ok(
            AssetQueryResultView { assets: decoded_assets(page_rows), total, page, page_size },
        ),
        Err(f) => Err(f),
    }
}

/// Puts the answers to the two statements of a listing together: the total
/// is what the count statement reported, whatever the page holds.
pub fn assemble_query_result(
    count_rows: &RawRows,
    page_rows: &RawRows,
    page: i64,
    page_size: i64,
) -> (r: Result<AssetQueryResult, DbError>)
    ensures
        agrees(
            r,
            query_outcome(rows_view(count_rows@), rows_view(page_rows@), page, page_size),
        ),
{
    let total = read_first_int(count_rows)?;
    let assets = collect_assets(page_rows);
    Ok(AssetQueryResult { assets, total, page, page_size })
}

/// The extensions that a request matches: those it lists, in lower case.
pub open spec fn matched_extensions(extensions: Option<Seq<Seq<char>>>) -> Seq<Seq<char>> {
    match extensions {
        Some(list) => list.map_values(|e: Seq<char>| lowercase_of(e)),
        None => Seq::empty(),
    }
}

/// Brings the listed extensions into lower case.
pub fn lower_extensions(extensions: &Option<Vec<String>>) -> (r: Vec<String>)
    ensures
        texts(r@) == matched_extensions(
            match *extensions {
                Some(v) => Some(texts(v@)),
                None => None,
            },
        ),
{
    let mut out: Vec<String> = Vec::new();
    match extensions {
        Some(list) => {
            let mut i: usize = 0;
            while i < list.len()
                invariant
                    i <= list.len(),
                    texts(out@) == texts(list@).take(i as int).map_values(
                        |e: Seq<char>| lowercase_of(e),
                    ),
                decreases list.len() - i,
            {
                let low = lowercase(list[i].as_str());
                proof {
                    lemma_texts_push(out@, low);
                    assert(texts(list@).take(i + 1).map_values(|e: Seq<char>| lowercase_of(e))
                        =~= texts(list@).take(i as int).map_values(
                        |e: Seq<char>| lowercase_of(e),
                    ).push(low@));
                }
                out.push(low);
                i += 1;
            }
            assert(texts(list@).take(list@.len() as int) =~= texts(list@));
        },
        None => {
            assert(texts(out@) =~= Seq::<Seq<char>>::empty());
        },
    }
    out
}

/// The exchanges of a listing and its result: the engine is asked to count
/// the matches and then, if it answered, for the rows of the page; the
/// result is what [`query_outcome`] makes of the two answers.
pub open spec fn listing_exchange(
    before: Seq<Exchange>,
    after: Seq<Exchange>,
    plan: QueryPlanView,
    r: Result<AssetQueryResult, DbError>,
) -> bool {
    ||| after == before.push(read(plan.count, None)) && r is Err && r->Err_0 is Engine
    ||| exists|counted: Answer|
        after == before.push(read(plan.count, Some(counted))).push(read(plan.rows, None)) && r
            is Err && r->Err_0 is Engine
    ||| exists|counted: Answer, page: Answer|
        after == before.push(read(plan.count, Some(counted))).push(read(plan.rows, Some(page)))
            && agrees(r, query_outcome(counted, page, plan.page, plan.page_size))
}

/// Lists the assets that match `params`: one page of them, in the requested
/// order, and the number of all matches.
///
/// The statements handed to the engine are those of [`asset_query_plan`]
/// for the request with its extensions in lower case, and the result is
/// what [`query_outcome`] makes of the engine's answers. The request is
/// refused with [`DbError::Validation`], before the engine is asked
/// anything, exactly when its page lies beyond the addressable rows.
pub fn query_assets(index: &mut Index, params: &AssetQueryParams) -> (r: Result<
    AssetQueryResult,
    DbError,
>)
    ensures
        match asset_query_plan(params@, matched_extensions(params@.extensions)) {
            None => final(index).trace() == old(index).trace() && r is Err && r->Err_0
                is Validation,
            Some(plan) => listing_exchange(old(index).trace(), final(index).trace(), plan, r),
        },
        (r is Err && r->Err_0 is Validation) <==> row_offset(params.page, params.page_size)
            > i64::MAX,
        r is Ok ==> r->Ok_0.page == page_number(params.page) && r->Ok_0.page_size == page_length(
            params.page_size,
        ),
{
    let exts = lower_extensions(&params.extensions);
    let plan = plan_asset_query(params, &exts)?;
    let count_rows = fetch(index, &plan.count)?;
    let page_rows = fetch(index, &plan.rows)?;
    assemble_query_result(&count_rows, &page_rows, plan.page, plan.page_size)
}

} // verus!
