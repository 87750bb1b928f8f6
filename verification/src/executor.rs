//! The statements of the CRUD operations, for any entity: built from the
//! entity's descriptor and, for listings, from the request's filters.

use vstd::prelude::*;
use crate::descriptor::DescriptorView;
use crate::descriptor::EntityDescriptor;
use crate::descriptor::Statement;
use crate::filterable::condition_bindable;
use crate::filterable::Filterable;
use crate::fragment::BoundValue;
use crate::fragment::FragmentView;
use crate::fragment::QueryFragment;
use crate::paginable::Paginable;
use crate::paginable::PaginationPolicy;
use crate::query::count_query;
use crate::query::DynamicQuery;
use crate::query::Filter;
use crate::query::filters_bindable;
use crate::query::filters_view;
use crate::query::FilterSpec;
use crate::query::page_query;
use crate::query::QueryStage;
use crate::query::with_filters;
use crate::record::Record;

verus! {

impl Paginable for FilterSpec {
    open spec fn requested_page(&self) -> Option<u32> {
        self.page
    }

    open spec fn requested_limit(&self) -> Option<u32> {
        self.limit
    }

    fn page(&self) -> Option<u32> {
        self.page
    }

    fn limit(&self) -> Option<u32> {
        self.limit
    }
}

impl FilterSpec {
    /// Whether every filter value fits a parameter of the wire protocol.
    pub fn is_bindable(&self) -> (result: bool)
        ensures
            result == self@.bindable(),
    {
        let mut i: usize = 0;
        while i < self.filters.len()
            invariant
                i <= self.filters.len(),
                forall|k: int|
                    0 <= k < i ==> condition_bindable(
                        #[trigger] filters_view(self.filters@)[k].condition,
                    ),
            decreases self.filters.len() - i,
        {
            if !self.filters[i].value.is_bindable() {
                assert(!condition_bindable(filters_view(self.filters@)[i as int].condition));
                return false;
            }
            i = i + 1;
        }
        true
    }

    /// Whether the offset of the requested page fits the 64-bit integer that
    /// the store takes.
    pub fn offset_fits(&self, policy: &PaginationPolicy) -> (result: bool)
        ensures
            result == self@.offset_fits(*policy),
    {
        policy.offset_fits(self)
    }
}

/// Writes `base` and applies the request's filters in their order.
fn filtered(base: &str, filters: &Vec<Filter>) -> (query: DynamicQuery)
    requires
        filters_bindable(filters_view(filters@)),
    ensures
        query@.query == with_filters(FragmentView::starting_with(base@), filters_view(filters@)),
        query@.stage == QueryStage::HasBase || query@.stage == QueryStage::HasFilters,
        query.well_formed(),
{
    let ghost entries = filters_view(filters@);
    let mut query = DynamicQuery::new();
    query.base(base);
    let mut i: usize = 0;
    while i < filters.len()
        invariant
            i <= filters.len(),
            entries == filters_view(filters@),
            filters_bindable(entries),
            query@.query == with_filters(
                FragmentView::starting_with(base@),
                entries.take(i as int),
            ),
            query@.stage == QueryStage::HasBase || query@.stage == QueryStage::HasFilters,
            query.well_formed(),
        decreases filters.len() - i,
    {
        proof {
            assert(entries.take(i as int + 1).drop_last() =~= entries.take(i as int));
            assert(condition_bindable(entries[i as int].condition));
        }
        query.filter(&filters[i].value, filters[i].column.as_str());
        i = i + 1;
    }
    proof {
        assert(entries.take(filters.len() as int) =~= entries);
    }
    query
}

/// The count of the rows that a request selects:
/// `SELECT COUNT(*) FROM <table> WHERE 1=1`, the request's conditions, and
/// the sort clause for a sort column of the entity.
pub fn count_paged(entity: &EntityDescriptor, request: &FilterSpec) -> (query: QueryFragment)
    requires
        request@.bindable(),
    ensures
        query@ == count_query(entity@, request@),
        query@.open,
        query@.in_lockstep(),
{
    let base = entity.count_where_sql();
    let mut builder = filtered(base.as_str(), &request.filters);
    builder.sort(&request.sort_by, request.asc, entity);
    builder.build()
}

/// The count of the rows that a request selects, without a sort clause
/// whatever the request's sort directive: the order of rows does not bear
/// on their number, and a store may refuse to order a lone aggregate.
pub fn count_unsorted(entity: &EntityDescriptor, request: &FilterSpec) -> (query: QueryFragment)
    requires
        request@.bindable(),
    ensures
        query@ == count_query(entity@, request@.unsorted()),
        query@.open,
        query@.in_lockstep(),
{
    let base = entity.count_where_sql();
    let mut builder = filtered(base.as_str(), &request.filters);
    builder.build()
}

/// One page of the rows that a request selects:
/// `SELECT * FROM <table> WHERE 1=1`, the request's conditions, the sort
/// clause for a sort column of the entity, and the pagination clause with
/// the limit and the offset that the policy gives the request.
pub fn read_paged(
    entity: &EntityDescriptor,
    request: &FilterSpec,
    policy: &PaginationPolicy,
) -> (query: QueryFragment)
    requires
        request@.bindable(),
        request@.offset_fits(*policy),
    ensures
        query@ == page_query(entity@, request@, *policy),
        query@.open,
        query@.in_lockstep(),
{
    let base = entity.select_where_sql();
    let mut builder = filtered(base.as_str(), &request.filters);
    builder.sort(&request.sort_by, request.asc, entity);
    builder.paginate(policy.limit_or_default(request), policy.offset(request));
    builder.build()
}

/// The count query of a request, where every filter value fits a parameter;
/// none otherwise.
pub fn try_count_paged(entity: &EntityDescriptor, request: &FilterSpec) -> (query: Option<
    QueryFragment,
>)
    ensures
        query.is_some() == request@.bindable(),
        query.is_some() ==> query.unwrap()@ == count_query(entity@, request@)
            && query.unwrap()@.open && query.unwrap()@.in_lockstep(),
{
    if request.is_bindable() {
        Some(count_paged(entity, request))
    } else {
        None
    }
}

/// The unsorted count query of a request, where every filter value fits a
/// parameter; none otherwise.
pub fn try_count_unsorted(entity: &EntityDescriptor, request: &FilterSpec) -> (query: Option<
    QueryFragment,
>)
    ensures
        query.is_some() == request@.bindable(),
        query.is_some() ==> query.unwrap()@ == count_query(entity@, request@.unsorted())
            && query.unwrap()@.open && query.unwrap()@.in_lockstep(),
{
    if request.is_bindable() {
        Some(count_unsorted(entity, request))
    } else {
        None
    }
}

/// The page query of a request, where every filter value fits a parameter
/// and the offset fits the store's integer; none otherwise.
pub fn try_read_paged(
    entity: &EntityDescriptor,
    request: &FilterSpec,
    policy: &PaginationPolicy,
) -> (query: Option<QueryFragment>)
    ensures
        query.is_some() == (request@.bindable() && request@.offset_fits(*policy)),
        query.is_some() ==> query.unwrap()@ == page_query(entity@, request@, *policy)
            && query.unwrap()@.open && query.unwrap()@.in_lockstep(),
{
    if request.is_bindable() && request.offset_fits(policy) {
        Some(read_paged(entity, request, policy))
    } else {
        None
    }
}

/// The read of one row by its key: `SELECT * FROM <table> WHERE id = $1`
/// with the key bound.
pub open spec fn read_by_id_query(entity: DescriptorView, id: int) -> FragmentView {
    FragmentView::starting_with(entity.select_by_id_text()).with_parameter(
        BoundValue::Integer(id),
    )
}

/// The delete of one row by its key:
/// `DELETE FROM <table> WHERE id = $1 RETURNING *` with the key bound.
pub open spec fn delete_query(entity: DescriptorView, id: int) -> FragmentView {
    FragmentView::starting_with(entity.delete_by_id_text()).with_parameter(
        BoundValue::Integer(id),
    ).with_sql(" RETURNING *"@)
}

/// The read of one row by its key.
pub fn read_by_id(entity: &EntityDescriptor, id: i32) -> (query: QueryFragment)
    ensures
        query@ == read_by_id_query(entity@, id as int),
        query@.in_lockstep(),
{
    let base = entity.select_by_id_sql();
    let mut query = QueryFragment::new(base.as_str());
    query.push_bind_i32(id);
    query
}

/// The read of every row: `SELECT * FROM <table>`, nothing bound.
pub fn read_all(entity: &EntityDescriptor) -> (query: QueryFragment)
    ensures
        query@ == FragmentView::starting_with(entity@.select_all_text()),
        query@.in_lockstep(),
{
    let base = entity.select_all_sql();
    QueryFragment::new(base.as_str())
}

/// The delete of one row by its key; the statement returns the deleted row.
pub fn delete(entity: &EntityDescriptor, id: i32) -> (query: QueryFragment)
    ensures
        query@ == delete_query(entity@, id as int),
        query@.in_lockstep(),
{
    let base = entity.delete_by_id_sql();
    let mut query = QueryFragment::new(base.as_str());
    query.push_bind_i32(id);
    query.push(" RETURNING *");
    query
}

/// The insert of one row; the statement returns the new row. It binds the
/// record's values of the insert columns, in column order.
pub fn create<R: Record>(entity: &EntityDescriptor, record: &R) -> (statement: Statement)
    requires
        entity@.well_formed(),
    ensures
        statement@ == entity@.insert_statement(record),
{
    entity.insert_statement(record)
}

/// The update of one row; the statement returns the updated row. It binds
/// the record's key first, then the record's values of the update columns
/// in column order.
pub fn update<R: Record>(entity: &EntityDescriptor, record: &R) -> (statement: Statement)
    requires
        entity@.well_formed(),
    ensures
        statement@ == entity@.update_statement(record),
{
    entity.update_statement(record)
}

} // verus!
