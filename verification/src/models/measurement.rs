//! Measurements: the measured quantities of a budget line.

use vstd::prelude::*;
use vstd::string::StringExecFns;
use crate::descriptor::DescriptorView;
use crate::descriptor::EntityDescriptor;
use crate::descriptor::Statement;
use crate::executor::delete_query;
use crate::executor::read_by_id_query;
use crate::filterable::condition_bindable;
use crate::filterable::Filterable;
use crate::filterable::text_filter_bindable;
use crate::filterable::with_condition;
use crate::fragment::FragmentView;
use crate::fragment::QueryFragment;
use crate::models::copy_text;
use crate::models::UtcTimestamp;
use crate::paginable::is_paged;
use crate::paginable::limit_or;
use crate::paginable::offset_of;
use crate::paginable::offset_or;
use crate::paginable::Paginable;
use crate::paginable::PaginationPolicy;
use crate::paginable::paging_requested;
use crate::paginable::value_or;
use crate::query::count_query;
use crate::query::filtered_query;
use crate::query::FilterEntry;
use crate::query::FilterSpecView;
use crate::query::optional_text;
use crate::query::push_pagination;
use crate::query::push_sort;
use crate::query::with_filters;
use crate::query::with_pagination;
use crate::query::with_sort;
use crate::record::ColumnValue;
use crate::record::ColumnValueView;
use crate::record::optional_text_value;
use crate::record::Record;
use crate::record::same_text;

verus! {

/// A row of the table `measurements`, without its JSON parameters and its
/// measured quantity: a JSON document and a floating-point number, which stay
/// with the code that talks to the store.
#[derive(Debug)]
pub struct Measurement {
    pub id: i32,
    pub element_id: i32,
    pub price_id: i32,
    pub measurement_text: Option<String>,
    pub created_at: UtcTimestamp,
    pub updated_at: UtcTimestamp,
}

/// The values of a measurement that is to be created, without its JSON
/// parameters and its measured quantity.
#[derive(Debug)]
pub struct NewMeasurement {
    pub element_id: i32,
    pub price_id: i32,
    pub measurement_text: Option<String>,
}

/// A listing request for measurements, without the measured quantity asked
/// for: a floating-point number, which stays with the code that talks to the
/// store.
#[derive(Debug)]
pub struct MeasurementParams {
    pub id: Option<i32>,
    pub measurement_text: Option<String>,
    pub page: Option<u32>,
    pub limit: Option<u32>,
    pub sort_by: Option<String>,
    pub asc: Option<bool>,
}

impl Paginable for MeasurementParams {
    open spec fn requested_page(&self) -> Option<u32> {
        self.page
    }

    open spec fn requested_limit(&self) -> Option<u32> {
        self.limit
    }

    fn page(&self) -> Option<u32> {
        self.page
    }

    fn limit(&self) -> Option<u32> {
        self.limit
    }
}

impl MeasurementParams {
    /// The request as the query engine sees it: one filter for each
    /// filterable column, in column order.
    pub open spec fn request(&self) -> FilterSpecView {
        FilterSpecView {
            filters: seq![
                FilterEntry {
                    column: "measurement_text"@,
                    condition: self.measurement_text.condition(),
                },
            ],
            sort_by: optional_text(self.sort_by),
            asc: self.asc,
            page: self.page,
            limit: self.limit,
        }
    }

    /// Whether every value of the request fits a parameter of the wire
    /// protocol: every text within the greatest parameter length
    /// (integers and enumerated names always do).
    pub open spec fn bindable(&self) -> bool {
        condition_bindable(self.measurement_text.condition())
    }

    /// The request's filters fit their parameters exactly when `bindable`
    /// holds.
    pub proof fn lemma_request_bindable(&self)
        ensures
            self.request().bindable() == self.bindable(),
    {
        let filters = self.request().filters;
        if self.bindable() {
            assert forall|i: int| 0 <= i < filters.len() implies condition_bindable(
                #[trigger] filters[i].condition,
            ) by {}
        } else {
            assert(filters[0].condition == self.measurement_text.condition());
        }
    }

    /// Whether every value of the request fits a parameter of the wire
    /// protocol.
    pub fn is_bindable(&self) -> (result: bool)
        ensures
            result == self.bindable(),
    {
        text_filter_bindable(&self.measurement_text)
    }

    /// The limit asked for, or `default` where none was supplied.
    pub fn limit_sql(&self, default: u32) -> (result: i64)
        ensures
            result == value_or(self.limit, default),
    {
        limit_or(self.limit, default)
    }

    /// The number of rows to skip: `(page - 1) * limit` for a page above 0
    /// and 0 for page 0, with the defaults in place of what was not
    /// supplied. The offset has to fit the 64-bit integer that the store
    /// takes.
    pub fn offset_sql(&self, default_page: u32, default_limit: u32) -> (result: i64)
        requires
            offset_of(value_or(self.page, default_page), value_or(self.limit, default_limit))
                <= i64::MAX,
        ensures
            result == offset_of(
                value_or(self.page, default_page),
                value_or(self.limit, default_limit),
            ),
    {
        offset_or(self.page, self.limit, default_page, default_limit)
    }

    /// Whether pagination was asked for: whether a page or a limit was
    /// supplied.
    pub fn is_paged(&self) -> (result: bool)
        ensures
            result == paging_requested(self.page, self.limit),
    {
        is_paged(self.page, self.limit)
    }
}

/// The values that an insert binds.
impl Record for NewMeasurement {
    open spec fn value_of(&self, column: Seq<char>) -> ColumnValueView {
        if column == "element_id"@ {
            ColumnValueView::Integer(self.element_id as int)
        } else if column == "price_id"@ {
            ColumnValueView::Integer(self.price_id as int)
        } else if column == "measurement_text"@ {
            optional_text_value(self.measurement_text)
        } else {
            ColumnValueView::Deferred
        }
    }

    fn column_value(&self, column: &str) -> ColumnValue {
        if same_text(column, "element_id") {
            ColumnValue::Integer(self.element_id)
        } else if same_text(column, "price_id") {
            ColumnValue::Integer(self.price_id)
        } else if same_text(column, "measurement_text") {
            ColumnValue::OptionalText(copy_text(&self.measurement_text))
        } else {
            ColumnValue::Deferred
        }
    }
}

/// The key and the values that an update binds.
impl Record for Measurement {
    open spec fn value_of(&self, column: Seq<char>) -> ColumnValueView {
        if column == "id"@ {
            ColumnValueView::Integer(self.id as int)
        } else if column == "element_id"@ {
            ColumnValueView::Integer(self.element_id as int)
        } else if column == "price_id"@ {
            ColumnValueView::Integer(self.price_id as int)
        } else if column == "measurement_text"@ {
            optional_text_value(self.measurement_text)
        } else {
            ColumnValueView::Deferred
        }
    }

    fn column_value(&self, column: &str) -> ColumnValue {
        if same_text(column, "id") {
            ColumnValue::Integer(self.id)
        } else if same_text(column, "element_id") {
            ColumnValue::Integer(self.element_id)
        } else if same_text(column, "price_id") {
            ColumnValue::Integer(self.price_id)
        } else if same_text(column, "measurement_text") {
            ColumnValue::OptionalText(copy_text(&self.measurement_text))
        } else {
            ColumnValue::Deferred
        }
    }
}

impl NewMeasurement {
    /// The values of the insert columns, in column order.
    pub open spec fn values(&self) -> Seq<ColumnValueView> {
        seq![
            ColumnValueView::Integer(self.element_id as int),
            ColumnValueView::Integer(self.price_id as int),
            ColumnValueView::Deferred,
            optional_text_value(self.measurement_text),
            ColumnValueView::Deferred,
        ]
    }
}

impl Measurement {
    /// The key, then the values of the update columns in column order.
    pub open spec fn values(&self) -> Seq<ColumnValueView> {
        seq![
            ColumnValueView::Integer(self.id as int),
            ColumnValueView::Integer(self.element_id as int),
            ColumnValueView::Integer(self.price_id as int),
            ColumnValueView::Deferred,
            optional_text_value(self.measurement_text),
            ColumnValueView::Deferred,
        ]
    }
}

impl Measurement {
    /// How measurements map to their table.
    pub open spec fn entity() -> DescriptorView {
        DescriptorView {
            table: "measurements"@,
            insert_columns: seq![
                "element_id"@,
                "price_id"@,
                "params_json"@,
                "measurement_text"@,
                "measured_quantity"@,
            ],
            update_columns: seq![
                "element_id"@,
                "price_id"@,
                "params_json"@,
                "measurement_text"@,
                "measured_quantity"@,
            ],
            audit_columns: seq![
                "created_at"@,
                "updated_at"@,
            ],
        }
    }

    /// The descriptor of measurements.
    pub fn descriptor() -> (entity: EntityDescriptor)
        ensures
            entity@ == Self::entity(),
            entity@.well_formed(),
    {
        let mut inserts: Vec<String> = Vec::new();
        inserts.push(String::from_str("element_id"));
        inserts.push(String::from_str("price_id"));
        inserts.push(String::from_str("params_json"));
        inserts.push(String::from_str("measurement_text"));
        inserts.push(String::from_str("measured_quantity"));
        let mut updates: Vec<String> = Vec::new();
        updates.push(String::from_str("element_id"));
        updates.push(String::from_str("price_id"));
        updates.push(String::from_str("params_json"));
        updates.push(String::from_str("measurement_text"));
        updates.push(String::from_str("measured_quantity"));
        let mut audit: Vec<String> = Vec::new();
        audit.push(String::from_str("created_at"));
        audit.push(String::from_str("updated_at"));
        let entity = EntityDescriptor {
            table: String::from_str("measurements"),
            insert_columns: inserts,
            update_columns: updates,
            audit_columns: audit,
        };
        proof {
            assert(entity@.insert_columns =~= Self::entity().insert_columns);
            assert(entity@.update_columns =~= Self::entity().update_columns);
            assert(entity@.audit_columns =~= Self::entity().audit_columns);
        }
        entity
    }

    /// The read of one measurement by its key.
    pub fn read_by_id(id: i32) -> (query: QueryFragment)
        ensures
            query@ == read_by_id_query(Self::entity(), id as int),
            query@.in_lockstep(),
    {
        crate::executor::read_by_id(&Self::descriptor(), id)
    }

    /// The read of every measurement.
    pub fn read_all() -> (query: QueryFragment)
        ensures
            query@ == FragmentView::starting_with(Self::entity().select_all_text()),
            query@.in_lockstep(),
    {
        crate::executor::read_all(&Self::descriptor())
    }

    /// The first part of the count of the measurements that a request
    /// selects: the count base and the condition on the text. The caller
    /// appends the condition on the measured quantity. The query is then
    /// the unsorted count; `count_paged` adds the sort clause to it.
    pub fn filtered_count(params: &MeasurementParams) -> (query: QueryFragment)
        requires
            params.bindable(),
        ensures
            query@ == filtered_query(Self::entity().count_where_text(), params.request()),
            query@ == count_query(Self::entity(), params.request().unsorted()),
            query@.open,
            query@.in_lockstep(),
    {
        let entity = Self::descriptor();
        let mut query = QueryFragment::new(entity.count_where_sql().as_str());
        params.measurement_text.append_filter(&mut query, "measurement_text");
        proof {
            Self::lemma_one_filter(query@, params.request(), Self::entity().count_where_text());
        }
        query
    }

    /// The first part of one page of the measurements that a request
    /// selects: the read base and the condition on the text. The caller
    /// appends the condition on the measured quantity and hands the query to
    /// `read_paged`.
    pub fn filtered_page(params: &MeasurementParams) -> (query: QueryFragment)
        requires
            params.bindable(),
        ensures
            query@ == filtered_query(Self::entity().select_where_text(), params.request()),
            query@.open,
            query@.in_lockstep(),
    {
        let entity = Self::descriptor();
        let mut query = QueryFragment::new(entity.select_where_sql().as_str());
        params.measurement_text.append_filter(&mut query, "measurement_text");
        proof {
            Self::lemma_one_filter(query@, params.request(), Self::entity().select_where_text());
        }
        query
    }

    /// With its one filter applied, a base is the filtered query of the
    /// request.
    proof fn lemma_one_filter(view: FragmentView, request: FilterSpecView, base: Seq<char>)
        requires
            request.filters.len() == 1,
            view == with_condition(
                FragmentView::starting_with(base),
                request.filters[0].column,
                request.filters[0].condition,
            ),
        ensures
            view == filtered_query(base, request),
    {
        let none = request.filters.drop_last();
        assert(none.len() == 0);
        assert(with_filters(FragmentView::starting_with(base), none)
            == FragmentView::starting_with(base));
    }

    /// The last part of the count: the sort clause for a sort column of
    /// the entity, after the conditions that `query` holds.
    pub fn count_paged(
        query: QueryFragment,
        params: &MeasurementParams,
    ) -> (sorted: QueryFragment)
        requires
            query@.open,
        ensures
            sorted@ == with_sort(
                query@,
                params.request().sort_by,
                params.asc,
                Self::entity().sortable_columns(),
            ),
            query@.in_lockstep() ==> sorted@.in_lockstep(),
    {
        let mut sorted = query;
        push_sort(&mut sorted, &params.sort_by, params.asc, &Self::descriptor());
        sorted
    }

    /// The last part of the page: the sort clause for a sort column of the
    /// entity and the pagination clause, after the conditions that `query`
    /// holds. The offset of the page has to fit the 64-bit integer that the
    /// store takes.
    pub fn read_paged(
        query: QueryFragment,
        params: &MeasurementParams,
        policy: &PaginationPolicy,
    ) -> (paged: QueryFragment)
        requires
            query@.open,
            params.request().offset_fits(*policy),
        ensures
            paged@ == with_pagination(
                with_sort(
                    query@,
                    params.request().sort_by,
                    params.asc,
                    Self::entity().sortable_columns(),
                ),
                params.request().limit_or_default(*policy),
                params.request().offset(*policy),
            ),
            query@.in_lockstep() ==> paged@.in_lockstep(),
    {
        let mut paged = query;
        push_sort(&mut paged, &params.sort_by, params.asc, &Self::descriptor());
        push_pagination(&mut paged, policy.limit_or_default(params), policy.offset(params));
        paged
    }

    /// The insert of one measurement: it binds the values of the insert columns,
    /// in column order, and returns the new row.
    pub fn create(item: &NewMeasurement) -> (statement: Statement)
        ensures
            statement@.sql == Self::entity().insert_text(),
            statement@.columns == Self::entity().insert_columns,
            statement@.values == item.values(),
    {
        proof {
            Self::lemma_insert_values(item);
        }
        crate::executor::create(&Self::descriptor(), item)
    }

    /// The update of one measurement: it binds the key first, then the values of
    /// the update columns in column order, and returns the updated row.
    pub fn update(item: &Measurement) -> (statement: Statement)
        ensures
            statement@.sql == Self::entity().update_text(),
            statement@.columns == Self::entity().update_bindings(),
            statement@.values == item.values(),
    {
        proof {
            Self::lemma_update_values(item);
        }
        crate::executor::update(&Self::descriptor(), item)
    }

    /// The insert of `item` binds the values of `item`, placeholder by
    /// placeholder.
    pub proof fn lemma_insert_values(item: &NewMeasurement)
        ensures
            Self::entity().insert_statement(item).values == item.values(),
    {
        reveal_strlit("element_id");
        reveal_strlit("price_id");
        reveal_strlit("measurement_text");
        reveal_strlit("params_json");
        reveal_strlit("measured_quantity");
        let columns = Self::entity().insert_columns;
        assert("element_id"@.len() == 10);
        assert("price_id"@.len() == 8);
        assert("measurement_text"@.len() == 16);
        assert("params_json"@.len() == 11);
        assert("measured_quantity"@.len() == 17);
        assert(columns[0] == "element_id"@);
        assert(item.value_of(columns[0]) == item.values()[0]);
        assert(columns[1] == "price_id"@);
        assert(item.value_of(columns[1]) == item.values()[1]);
        assert(columns[2] == "params_json"@);
        assert(item.value_of(columns[2]) == item.values()[2]);
        assert(columns[3] == "measurement_text"@);
        assert(item.value_of(columns[3]) == item.values()[3]);
        assert(columns[4] == "measured_quantity"@);
        assert(item.value_of(columns[4]) == item.values()[4]);
        assert(Self::entity().insert_statement(item).values =~= item.values());
    }

    /// The update of `item` binds the key and the values of `item`,
    /// placeholder by placeholder.
    pub proof fn lemma_update_values(item: &Measurement)
        ensures
            Self::entity().update_statement(item).values == item.values(),
    {
        reveal_strlit("id");
        reveal_strlit("element_id");
        reveal_strlit("price_id");
        reveal_strlit("measurement_text");
        reveal_strlit("params_json");
        reveal_strlit("measured_quantity");
        let columns = Self::entity().update_bindings();
        assert("id"@.len() == 2);
        assert("element_id"@.len() == 10);
        assert("price_id"@.len() == 8);
        assert("measurement_text"@.len() == 16);
        assert("params_json"@.len() == 11);
        assert("measured_quantity"@.len() == 17);
        assert(columns[0] == "id"@);
        assert(item.value_of(columns[0]) == item.values()[0]);
        assert(columns[1] == "element_id"@);
        assert(item.value_of(columns[1]) == item.values()[1]);
        assert(columns[2] == "price_id"@);
        assert(item.value_of(columns[2]) == item.values()[2]);
        assert(columns[3] == "params_json"@);
        assert(item.value_of(columns[3]) == item.values()[3]);
        assert(columns[4] == "measurement_text"@);
        assert(item.value_of(columns[4]) == item.values()[4]);
        assert(columns[5] == "measured_quantity"@);
        assert(item.value_of(columns[5]) == item.values()[5]);
        assert(Self::entity().update_statement(item).values =~= item.values());
    }

    /// The delete of one measurement by its key.
    pub fn delete(id: i32) -> (query: QueryFragment)
        ensures
            query@ == delete_query(Self::entity(), id as int),
            query@.in_lockstep(),
    {
        crate::executor::delete(&Self::descriptor(), id)
    }
}

} // verus!
