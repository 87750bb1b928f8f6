//! The dynamic query builder: base text, filter conditions, sort clause and
//! pagination clause, appended in this order and never rewound.

use vstd::prelude::*;
use vstd::string::StringExecFns;
use crate::descriptor::DescriptorView;
use crate::descriptor::EntityDescriptor;
use crate::filterable::Condition;
use crate::filterable::condition_bindable;
use crate::filterable::decimal_filter_bindable;
use crate::filterable::Filterable;
use crate::filterable::lemma_condition_keeps_lockstep;
use crate::filterable::text_filter_bindable;
use crate::filterable::with_condition;
use crate::fragment::BoundValue;
use crate::fragment::FragmentView;
use crate::fragment::QueryFragment;
use crate::paginable::PaginationPolicy;

verus! {

/// An optional filter value, tagged with the semantic type of its column.
pub enum FilterValue {
    /// A text column: matched by substring.
    Text(Option<String>),
    /// An integer column: matched exactly.
    Integer(Option<i32>),
    /// A boolean column: matched exactly.
    Boolean(Option<bool>),
    /// A fixed-point decimal column: matched exactly.
    Decimal(Option<sqlx::types::BigDecimal>),
    /// An enumerated column, given by the canonical lowercase name of the
    /// value: matched by substring of that name.
    Enumerated(Option<String>),
}

/// The filter on one column.
pub struct Filter {
    /// The column that the filter constrains.
    pub column: String,
    /// The value asked for, if any.
    pub value: FilterValue,
}

/// One listing request: the filters in the entity's column order, the sort
/// directive and the pagination directive.
pub struct FilterSpec {
    /// One filter for each filterable column, in column order.
    pub filters: Vec<Filter>,
    /// The column to sort by, if any.
    pub sort_by: Option<String>,
    /// Whether to sort ascending; ascending where absent.
    pub asc: Option<bool>,
    /// The 1-based page asked for, if any.
    pub page: Option<u32>,
    /// The page size asked for, if any.
    pub limit: Option<u32>,
}

/// A filter as the contracts see it: the column and the condition on it.
pub struct FilterEntry {
    /// The column name.
    pub column: Seq<char>,
    /// The condition; none where the filter carries no value.
    pub condition: Option<Condition>,
}

/// A listing request as the contracts see it.
pub struct FilterSpecView {
    /// The filters, in column order.
    pub filters: Seq<FilterEntry>,
    /// The column to sort by, if any.
    pub sort_by: Option<Seq<char>>,
    /// Whether to sort ascending; ascending where absent.
    pub asc: Option<bool>,
    /// The page asked for, if any.
    pub page: Option<u32>,
    /// The page size asked for, if any.
    pub limit: Option<u32>,
}

impl FilterValue {
    /// Whether the value, where present, fits a parameter.
    pub fn is_bindable(&self) -> (result: bool)
        ensures
            result == condition_bindable(self.condition()),
    {
        match self {
            FilterValue::Text(value) => text_filter_bindable(value),
            FilterValue::Enumerated(name) => text_filter_bindable(name),
            FilterValue::Decimal(value) => decimal_filter_bindable(value),
            _ => true,
        }
    }
}

/// Dispatch by the semantic type of the column.
impl Filterable for FilterValue {
    open spec fn condition(&self) -> Option<Condition> {
        match self {
            FilterValue::Text(value) => value.condition(),
            FilterValue::Integer(value) => value.condition(),
            FilterValue::Boolean(value) => value.condition(),
            FilterValue::Decimal(value) => value.condition(),
            FilterValue::Enumerated(value) => value.condition(),
        }
    }

    fn append_filter(&self, builder: &mut QueryFragment, column: &str) {
        match self {
            FilterValue::Text(value) => value.append_filter(builder, column),
            FilterValue::Integer(value) => value.append_filter(builder, column),
            FilterValue::Boolean(value) => value.append_filter(builder, column),
            FilterValue::Decimal(value) => value.append_filter(builder, column),
            FilterValue::Enumerated(value) => value.append_filter(builder, column),
        }
    }
}

impl View for Filter {
    type V = FilterEntry;

    open spec fn view(&self) -> FilterEntry {
        FilterEntry { column: self.column@, condition: self.value.condition() }
    }
}

/// The text of an optional string.
pub open spec fn optional_text(value: Option<String>) -> Option<Seq<char>> {
    match value {
        Some(text) => Some(text@),
        None => None,
    }
}

/// The filters of a list, as the contracts see them.
pub open spec fn filters_view(filters: Seq<Filter>) -> Seq<FilterEntry> {
    filters.map_values(|filter: Filter| filter@)
}

impl View for FilterSpec {
    type V = FilterSpecView;

    open spec fn view(&self) -> FilterSpecView {
        FilterSpecView {
            filters: filters_view(self.filters@),
            sort_by: optional_text(self.sort_by),
            asc: self.asc,
            page: self.page,
            limit: self.limit,
        }
    }
}

/// Whether every filter of the list fits a parameter.
pub open spec fn filters_bindable(filters: Seq<FilterEntry>) -> bool {
    forall|i: int| 0 <= i < filters.len() ==> condition_bindable(#[trigger] filters[i].condition)
}

/// The fragment after the filters were applied, first to last.
pub open spec fn with_filters(view: FragmentView, filters: Seq<FilterEntry>) -> FragmentView
    decreases filters.len(),
{
    if filters.len() == 0 {
        view
    } else {
        with_condition(
            with_filters(view, filters.drop_last()),
            filters.last().column,
            filters.last().condition,
        )
    }
}

/// The sort direction as it is written: ascending unless descending was
/// asked for.
pub open spec fn direction_text(asc: Option<bool>) -> Seq<char> {
    if asc == Some(false) {
        "DESC"@
    } else {
        "ASC"@
    }
}

/// ` ORDER BY <column> <direction>`.
pub open spec fn sort_text(column: Seq<char>, asc: Option<bool>) -> Seq<char> {
    " ORDER BY "@ + column + " "@ + direction_text(asc)
}

/// The fragment after the sort directive was applied: the clause is
/// appended only for a column of the allow-list; any other column is
/// ignored, so that no caller text reaches the SQL.
pub open spec fn with_sort(
    view: FragmentView,
    sort_by: Option<Seq<char>>,
    asc: Option<bool>,
    allowed: Seq<Seq<char>>,
) -> FragmentView {
    match sort_by {
        Some(column) => if allowed.contains(column) {
            view.with_sql(sort_text(column, asc))
        } else {
            view
        },
        None => view,
    }
}

/// The fragment after ` LIMIT <bound limit> OFFSET <bound offset>` was
/// appended.
pub open spec fn with_pagination(view: FragmentView, limit: int, offset: int) -> FragmentView {
    view.with_sql(" LIMIT "@).with_parameter(BoundValue::BigInt(limit)).with_sql(
        " OFFSET "@,
    ).with_parameter(BoundValue::BigInt(offset))
}

impl FilterSpecView {
    /// Whether every filter value fits a parameter.
    pub open spec fn bindable(self) -> bool {
        filters_bindable(self.filters)
    }

    /// The same request without a sort column.
    pub open spec fn unsorted(self) -> FilterSpecView {
        FilterSpecView { sort_by: None, ..self }
    }

    /// The limit of the page: the one asked for, or the policy's default.
    pub open spec fn limit_or_default(self, policy: PaginationPolicy) -> int {
        policy.limit_of(self.limit)
    }

    /// The offset of the page, with the policy's defaults applied.
    pub open spec fn offset(self, policy: PaginationPolicy) -> int {
        policy.offset_of(self.page, self.limit)
    }

    /// Whether the offset fits the 64-bit integer that the store takes.
    pub open spec fn offset_fits(self, policy: PaginationPolicy) -> bool {
        self.offset(policy) <= i64::MAX
    }
}

/// The WHERE clause that the filters of a request write after the base
/// text, and the values they bind: the count and the page share it.
pub open spec fn filtered_query(base: Seq<char>, request: FilterSpecView) -> FragmentView {
    with_filters(FragmentView::starting_with(base), request.filters)
}

/// The count query of a request: the count base, the filters and the sort
/// clause.
pub open spec fn count_query(entity: DescriptorView, request: FilterSpecView) -> FragmentView {
    with_sort(
        filtered_query(entity.count_where_text(), request),
        request.sort_by,
        request.asc,
        entity.sortable_columns(),
    )
}

/// The page query of a request: the read base, the filters, the sort clause
/// and the pagination clause.
pub open spec fn page_query(
    entity: DescriptorView,
    request: FilterSpecView,
    policy: PaginationPolicy,
) -> FragmentView {
    with_pagination(
        with_sort(
            filtered_query(entity.select_where_text(), request),
            request.sort_by,
            request.asc,
            entity.sortable_columns(),
        ),
        request.limit_or_default(policy),
        request.offset(policy),
    )
}

/// Applying filters keeps placeholders and bound values in lockstep.
pub proof fn lemma_filters_keep_lockstep(view: FragmentView, filters: Seq<FilterEntry>)
    requires
        view.in_lockstep(),
    ensures
        with_filters(view, filters).in_lockstep(),
    decreases filters.len(),
{
    if filters.len() > 0 {
        lemma_filters_keep_lockstep(view, filters.drop_last());
        lemma_condition_keeps_lockstep(
            with_filters(view, filters.drop_last()),
            filters.last().column,
            filters.last().condition,
        );
    }
}

/// Appends the sort clause for a sort column of the entity; a column that
/// the entity does not have is ignored.
pub fn push_sort(
    builder: &mut QueryFragment,
    sort_by: &Option<String>,
    asc: Option<bool>,
    entity: &EntityDescriptor,
)
    requires
        old(builder)@.open,
    ensures
        final(builder)@ == with_sort(
            old(builder)@,
            optional_text(*sort_by),
            asc,
            entity@.sortable_columns(),
        ),
        old(builder)@.in_lockstep() ==> final(builder)@.in_lockstep(),
{
    if let Some(column) = sort_by {
        if entity.is_sortable(column) {
            let descending = match asc {
                Some(ascending) => !ascending,
                None => false,
            };
            let direction = if descending {
                "DESC"
            } else {
                "ASC"
            };
            let clause = String::from_str(" ORDER BY ").concat(column.as_str()).concat(" ").concat(
                direction,
            );
            builder.push(clause.as_str());
        }
    }
}

/// Appends ` LIMIT ` and ` OFFSET `, each with its bound value.
pub fn push_pagination(builder: &mut QueryFragment, limit: i64, offset: i64)
    requires
        old(builder)@.open,
    ensures
        final(builder)@ == with_pagination(old(builder)@, limit as int, offset as int),
        old(builder)@.in_lockstep() ==> final(builder)@.in_lockstep(),
{
    builder.push(" LIMIT ");
    builder.push_bind_i64(limit);
    builder.push(" OFFSET ");
    builder.push_bind_i64(offset);
}

/// The stages of a query under construction, in the order in which they are
/// reached.
#[derive(Debug, Clone, Copy, PartialEq, Eq, Structural)]
pub enum QueryStage {
    /// Nothing was written yet.
    Empty,
    /// The base text stands.
    HasBase,
    /// Filters were applied.
    HasFilters,
    /// The sort directive was applied.
    HasSort,
    /// The pagination clause stands.
    HasPagination,
    /// The query was handed out.
    Built,
}

impl QueryStage {
    /// The position of the stage in the order of construction.
    pub open spec fn rank(self) -> nat {
        match self {
            QueryStage::Empty => 0,
            QueryStage::HasBase => 1,
            QueryStage::HasFilters => 2,
            QueryStage::HasSort => 3,
            QueryStage::HasPagination => 4,
            QueryStage::Built => 5,
        }
    }

    /// Whether a query at this stage may take the step that leads to
    /// `next`: the base text comes first and once, filters may repeat, every
    /// other step leads strictly forward, and nothing follows `Built`.
    pub open spec fn admits(self, next: QueryStage) -> bool {
        match next {
            QueryStage::Empty => false,
            QueryStage::HasBase => self == QueryStage::Empty,
            QueryStage::HasFilters => self == QueryStage::HasBase || self
                == QueryStage::HasFilters,
            _ => 1 <= self.rank() < next.rank(),
        }
    }

    /// Whether a query at this stage may take the step that leads to `next`.
    pub fn can_advance(self, next: QueryStage) -> (result: bool)
        ensures
            result == self.admits(next),
    {
        match next {
            QueryStage::Empty => false,
            QueryStage::HasBase => self == QueryStage::Empty,
            QueryStage::HasFilters => self == QueryStage::HasBase || self
                == QueryStage::HasFilters,
            QueryStage::HasSort => self == QueryStage::HasBase || self == QueryStage::HasFilters,
            QueryStage::HasPagination => self == QueryStage::HasBase || self
                == QueryStage::HasFilters || self == QueryStage::HasSort,
            QueryStage::Built => self == QueryStage::HasBase || self == QueryStage::HasFilters
                || self == QueryStage::HasSort || self == QueryStage::HasPagination,
        }
    }
}

/// A step never leads back: the stage it reaches is not before the stage
/// it starts from.
pub proof fn lemma_stages_never_rewind(from: QueryStage, to: QueryStage)
    requires
        from.admits(to),
    ensures
        from.rank() <= to.rank(),
        from != QueryStage::Built,
{
}

/// A query under construction together with the stage it has reached.
pub struct DynamicQuery {
    fragment: QueryFragment,
    stage: QueryStage,
}

/// A query under construction as the contracts see it.
pub struct DynamicQueryView {
    /// The text and the bound values so far.
    pub query: FragmentView,
    /// The stage reached.
    pub stage: QueryStage,
}

impl View for DynamicQuery {
    type V = DynamicQueryView;

    closed spec fn view(&self) -> DynamicQueryView {
        DynamicQueryView { query: self.fragment@, stage: self.stage }
    }
}

impl DynamicQuery {
    /// The text accepts more, placeholders and bound values are in
    /// lockstep, and a query at `Empty` holds nothing.
    pub open spec fn well_formed(&self) -> bool {
        &&& self@.query.open
        &&& self@.query.in_lockstep()
        &&& self@.stage == QueryStage::Empty ==> self@.query == FragmentView::starting_with(
            Seq::empty(),
        )
    }

    /// A query at stage `Empty`: no text, no bound value.
    pub fn new() -> (query: DynamicQuery)
        ensures
            query@.query == FragmentView::starting_with(Seq::empty()),
            query@.stage == QueryStage::Empty,
            query.well_formed(),
    {
        proof {
            reveal_strlit("");
        }
        let fragment = QueryFragment::new("");
        assert(fragment@.sql =~= Seq::<char>::empty());
        DynamicQuery { fragment, stage: QueryStage::Empty }
    }

    /// The stage that the query has reached.
    pub fn stage(&self) -> (stage: QueryStage)
        ensures
            stage == self@.stage,
    {
        self.stage
    }

    /// Writes the base text, the first step of every query.
    pub fn base(&mut self, text: &str)
        requires
            old(self).well_formed(),
            old(self)@.stage.admits(QueryStage::HasBase),
        ensures
            final(self)@.query == FragmentView::starting_with(text@),
            final(self)@.stage == QueryStage::HasBase,
            final(self).well_formed(),
    {
        self.fragment.push(text);
        self.stage = QueryStage::HasBase;
        assert(self.fragment@.sql =~= text@);
    }

    /// Applies one filter: appends its condition on `column`, if it has one.
    pub fn filter<F: Filterable>(&mut self, value: &F, column: &str)
        requires
            old(self).well_formed(),
            old(self)@.stage.admits(QueryStage::HasFilters),
            condition_bindable(value.condition()),
        ensures
            final(self)@.query == with_condition(old(self)@.query, column@, value.condition()),
            final(self)@.stage == QueryStage::HasFilters,
            final(self).well_formed(),
    {
        value.append_filter(&mut self.fragment, column);
        self.stage = QueryStage::HasFilters;
    }

    /// Applies the sort directive: appends the clause for a sort column of
    /// the entity and ignores any other column.
    pub fn sort(&mut self, sort_by: &Option<String>, asc: Option<bool>, entity: &EntityDescriptor)
        requires
            old(self).well_formed(),
            old(self)@.stage.admits(QueryStage::HasSort),
        ensures
            final(self)@.query == with_sort(
                old(self)@.query,
                optional_text(*sort_by),
                asc,
                entity@.sortable_columns(),
            ),
            final(self)@.stage == QueryStage::HasSort,
            final(self).well_formed(),
    {
        push_sort(&mut self.fragment, sort_by, asc, entity);
        self.stage = QueryStage::HasSort;
    }

    /// Appends the pagination clause with its two bound values.
    pub fn paginate(&mut self, limit: i64, offset: i64)
        requires
            old(self).well_formed(),
            old(self)@.stage.admits(QueryStage::HasPagination),
        ensures
            final(self)@.query == with_pagination(old(self)@.query, limit as int, offset as int),
            final(self)@.stage == QueryStage::HasPagination,
            final(self).well_formed(),
    {
        push_pagination(&mut self.fragment, limit, offset);
        self.stage = QueryStage::HasPagination;
    }

    /// Hands out the finished query. The builder is left at `Built` and
    /// takes no further step.
    pub fn build(&mut self) -> (fragment: QueryFragment)
        requires
            old(self).well_formed(),
            old(self)@.stage.admits(QueryStage::Built),
        ensures
            fragment@ == old(self)@.query,
            fragment@.open,
            fragment@.in_lockstep(),
            final(self)@.stage == QueryStage::Built,
            final(self).well_formed(),
    {
        proof {
            reveal_strlit("");
        }
        let mut fragment = QueryFragment::new("");
        std::mem::swap(&mut self.fragment, &mut fragment);
        self.stage = QueryStage::Built;
        fragment
    }
}

/// Sorting and paginating keep placeholders and bound values in lockstep.
pub proof fn lemma_sort_and_pagination_keep_lockstep(
    view: FragmentView,
    sort_by: Option<Seq<char>>,
    asc: Option<bool>,
    allowed: Seq<Seq<char>>,
    limit: int,
    offset: int,
)
    requires
        view.in_lockstep(),
    ensures
        with_sort(view, sort_by, asc, allowed).in_lockstep(),
        with_pagination(view, limit, offset).in_lockstep(),
{
    match sort_by {
        Some(column) => {
            crate::fragment::lemma_sql_keeps_lockstep(view, sort_text(column, asc));
        },
        None => {},
    }
    crate::fragment::lemma_sql_keeps_lockstep(view, " LIMIT "@);
    let limited = view.with_sql(" LIMIT "@);
    crate::fragment::lemma_parameter_keeps_lockstep(limited, BoundValue::BigInt(limit));
    let bound = limited.with_parameter(BoundValue::BigInt(limit));
    crate::fragment::lemma_sql_keeps_lockstep(bound, " OFFSET "@);
    crate::fragment::lemma_parameter_keeps_lockstep(
        bound.with_sql(" OFFSET "@),
        BoundValue::BigInt(offset),
    );
}

/// In every count query and in every page query the placeholders and the
/// bound values are in lockstep: the text holds the placeholders 1, 2, ...
/// in this order, one for each bound value.
pub proof fn lemma_queries_in_lockstep(
    entity: DescriptorView,
    request: FilterSpecView,
    policy: PaginationPolicy,
)
    ensures
        count_query(entity, request).in_lockstep(),
        page_query(entity, request, policy).in_lockstep(),
{
    crate::fragment::lemma_start_in_lockstep(entity.count_where_text());
    crate::fragment::lemma_start_in_lockstep(entity.select_where_text());
    lemma_filters_keep_lockstep(
        FragmentView::starting_with(entity.count_where_text()),
        request.filters,
    );
    lemma_filters_keep_lockstep(
        FragmentView::starting_with(entity.select_where_text()),
        request.filters,
    );
    let counted = filtered_query(entity.count_where_text(), request);
    lemma_sort_and_pagination_keep_lockstep(
        counted,
        request.sort_by,
        request.asc,
        entity.sortable_columns(),
        0,
        0,
    );
    let selected = filtered_query(entity.select_where_text(), request);
    lemma_sort_and_pagination_keep_lockstep(
        selected,
        request.sort_by,
        request.asc,
        entity.sortable_columns(),
        0,
        0,
    );
    lemma_sort_and_pagination_keep_lockstep(
        with_sort(selected, request.sort_by, request.asc, entity.sortable_columns()),
        request.sort_by,
        request.asc,
        entity.sortable_columns(),
        request.limit_or_default(policy),
        request.offset(policy),
    );
}

/// A sort column that the entity does not have leaves no trace: the queries
/// are those of the same request without a sort column. So no text of the
/// caller reaches the SQL, but the name of a column of the entity.
pub proof fn lemma_unknown_sort_column_is_ignored(
    entity: DescriptorView,
    request: FilterSpecView,
    policy: PaginationPolicy,
)
    requires
        request.sort_by.is_some(),
        !entity.sortable_columns().contains(request.sort_by.unwrap()),
    ensures
        count_query(entity, request) == count_query(entity, request.unsorted()),
        page_query(entity, request, policy) == page_query(entity, request.unsorted(), policy),
{
}

/// The conditions that the filters write after any base text.
pub open spec fn where_text(filters: Seq<FilterEntry>) -> Seq<char> {
    with_filters(FragmentView::starting_with(Seq::empty()), filters).sql
}

/// The values that the filters bind, in binding order.
pub open spec fn where_binds(filters: Seq<FilterEntry>) -> Seq<BoundValue> {
    with_filters(FragmentView::starting_with(Seq::empty()), filters).binds
}

/// The sort clause of a request for an entity; empty where the request
/// names no sort column or one that the entity does not have.
pub open spec fn order_text(entity: DescriptorView, request: FilterSpecView) -> Seq<char> {
    with_sort(
        FragmentView::starting_with(Seq::empty()),
        request.sort_by,
        request.asc,
        entity.sortable_columns(),
    ).sql
}

/// What filters write and bind does not depend on the base text before
/// them.
pub proof fn lemma_filters_after_any_base(base: Seq<char>, filters: Seq<FilterEntry>)
    ensures
        with_filters(FragmentView::starting_with(base), filters).sql == base + where_text(filters),
        with_filters(FragmentView::starting_with(base), filters).binds == where_binds(filters),
    decreases filters.len(),
{
    let nothing = Seq::<char>::empty();
    if filters.len() == 0 {
        assert(base + nothing =~= base);
    } else {
        let before = filters.drop_last();
        lemma_filters_after_any_base(base, before);
        let with_base = with_filters(FragmentView::starting_with(base), before);
        let without = with_filters(FragmentView::starting_with(nothing), before);
        match filters.last().condition {
            None => {},
            Some(c) => {
                let clause = crate::filterable::condition_text(filters.last().column, c.comparison);
                let number = crate::text::placeholder_text(without.binds.len() + 1);
                assert((base + without.sql) + clause + number =~= base + (without.sql + clause
                    + number));
            },
        }
    }
}

/// The sort directive writes the same clause after any text and binds
/// nothing.
pub proof fn lemma_sort_after_any_text(
    view: FragmentView,
    entity: DescriptorView,
    request: FilterSpecView,
)
    ensures
        with_sort(view, request.sort_by, request.asc, entity.sortable_columns()).sql == view.sql
            + order_text(entity, request),
        with_sort(view, request.sort_by, request.asc, entity.sortable_columns()).binds
            == view.binds,
{
    let nothing = Seq::<char>::empty();
    assert(view.sql + nothing =~= view.sql);
    match request.sort_by {
        Some(column) => {
            assert(nothing + sort_text(column, request.asc) =~= sort_text(column, request.asc));
        },
        None => {},
    }
}

/// The count and the page of one request share their WHERE clause and the
/// values bound to it: the count query is the count base, the conditions
/// and the sort clause; the page query is the read base, the same
/// conditions, the same sort clause, and the pagination clause, whose two
/// values, the limit asked for or the default and the offset, are bound
/// after those of the conditions.
pub proof fn lemma_count_and_page_share_filters(
    entity: DescriptorView,
    request: FilterSpecView,
    policy: PaginationPolicy,
)
    ensures
        count_query(entity, request).sql == entity.count_where_text() + where_text(
            request.filters,
        ) + order_text(entity, request),
        count_query(entity, request).binds == where_binds(request.filters),
        page_query(entity, request, policy).sql == entity.select_where_text() + where_text(
            request.filters,
        ) + order_text(entity, request) + " LIMIT "@ + crate::text::placeholder_text(
            where_binds(request.filters).len() + 1,
        ) + " OFFSET "@ + crate::text::placeholder_text(where_binds(request.filters).len() + 2),
        page_query(entity, request, policy).binds == where_binds(request.filters).push(
            BoundValue::BigInt(request.limit_or_default(policy)),
        ).push(BoundValue::BigInt(request.offset(policy))),
{
    lemma_filters_after_any_base(entity.count_where_text(), request.filters);
    lemma_filters_after_any_base(entity.select_where_text(), request.filters);
    lemma_sort_after_any_text(filtered_query(entity.count_where_text(), request), entity, request);
    lemma_sort_after_any_text(
        filtered_query(entity.select_where_text(), request),
        entity,
        request,
    );
}

} // verus!
