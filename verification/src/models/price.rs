//! Prices: the entries of a price catalogue version.

use vstd::prelude::*;
use vstd::string::StringExecFns;
use crate::descriptor::DescriptorView;
use crate::descriptor::EntityDescriptor;
use crate::descriptor::Statement;
use crate::executor::delete_query;
use crate::executor::read_by_id_query;
use crate::filterable::Condition;
use crate::filterable::condition_bindable;
use crate::filterable::contains_condition;
use crate::filterable::decimal_filter_bindable;
use crate::filterable::Filterable;
use crate::filterable::lemma_pattern_len;
use crate::filterable::push_contains_filter;
use crate::filterable::text_filter_bindable;
use crate::fragment::copy_decimal;
use crate::fragment::FragmentView;
use crate::fragment::lemma_utf8_len_ascii;
use crate::fragment::QueryFragment;
use crate::models::copy_text;
use crate::models::UtcTimestamp;
use crate::paginable::is_paged;
use crate::paginable::limit_or;
use crate::paginable::offset_of;
use crate::paginable::offset_or;
use crate::paginable::Paginable;
use crate::paginable::PaginationPolicy;
use crate::paginable::paging_requested;
use crate::paginable::value_or;
use crate::query::count_query;
use crate::query::Filter;
use crate::query::FilterEntry;
use crate::query::FilterSpec;
use crate::query::FilterSpecView;
use crate::query::FilterValue;
use crate::query::optional_text;
use crate::query::page_query;
use crate::record::ColumnValue;
use crate::record::ColumnValueView;
use crate::record::Record;
use crate::record::same_text;

verus! {

/// Whether a price stands alone or is made up of components.
#[derive(Debug, Clone, Copy, PartialEq, Eq, Structural)]
pub enum PriceType {
    Base,
    Decomposed,
}

impl PriceType {
    /// The canonical lowercase name of the price type.
    pub open spec fn label(self) -> Seq<char> {
        match self {
            PriceType::Base => "base"@,
            PriceType::Decomposed => "decomposed"@,
        }
    }

    /// The canonical lowercase name of the price type.
    pub fn as_str(&self) -> (name: &'static str)
        ensures
            name@ == self.label(),
    {
        match self {
            PriceType::Base => "base",
            PriceType::Decomposed => "decomposed",
        }
    }

    /// The canonical lowercase name of the price type, as an owned text.
    pub fn to_string(&self) -> (name: String)
        ensures
            name@ == self.label(),
    {
        String::from_str(self.as_str())
    }

    /// The pattern made of a name always fits a parameter.
    pub proof fn lemma_label_bindable(self)
        ensures
            condition_bindable(Some(contains_condition(self.label()))),
    {
        reveal_strlit("base");
        reveal_strlit("decomposed");
        lemma_utf8_len_ascii(self.label());
        lemma_pattern_len(self.label());
    }
}

/// Enumerated values are matched by substring of their canonical name.
impl Filterable for Option<PriceType> {
    open spec fn condition(&self) -> Option<Condition> {
        match self {
            Some(value) => Some(contains_condition(value.label())),
            None => None,
        }
    }

    fn append_filter(&self, builder: &mut QueryFragment, column: &str) {
        if let Some(value) = self {
            push_contains_filter(builder, column, value.as_str());
        }
    }
}

/// A row of the table `prices`.
#[derive(Debug)]
pub struct Price {
    pub id: i32,
    pub version_id: i32,
    pub code: String,
    pub description: String,
    pub base_price: sqlx::types::BigDecimal,
    pub unit_id: i32,
    pub price_type: PriceType,
    pub created_at: UtcTimestamp,
    pub updated_at: UtcTimestamp,
}

/// The values of a price that is to be created.
#[derive(Debug)]
pub struct NewPrice {
    pub version_id: i32,
    pub code: String,
    pub description: String,
    pub base_price: sqlx::types::BigDecimal,
    pub unit_id: i32,
    pub price_type: PriceType,
}

/// A listing request for prices.
#[derive(Debug)]
pub struct PriceParams {
    pub id: Option<i32>,
    pub code: Option<String>,
    pub description: Option<String>,
    pub base_price: Option<sqlx::types::BigDecimal>,
    pub unit_id: Option<i32>,
    pub price_type: Option<PriceType>,
    pub page: Option<u32>,
    pub limit: Option<u32>,
    pub sort_by: Option<String>,
    pub asc: Option<bool>,
}

impl Paginable for PriceParams {
    open spec fn requested_page(&self) -> Option<u32> {
        self.page
    }

    open spec fn requested_limit(&self) -> Option<u32> {
        self.limit
    }

    fn page(&self) -> Option<u32> {
        self.page
    }

    fn limit(&self) -> Option<u32> {
        self.limit
    }
}

impl PriceParams {
    /// The request as the query engine sees it: one filter for each
    /// filterable column, in column order.
    pub open spec fn request(&self) -> FilterSpecView {
        FilterSpecView {
            filters: seq![
                FilterEntry {
                    column: "code"@,
                    condition: self.code.condition(),
                },
                FilterEntry {
                    column: "description"@,
                    condition: self.description.condition(),
                },
                FilterEntry {
                    column: "base_price"@,
                    condition: self.base_price.condition(),
                },
                FilterEntry {
                    column: "unit_id"@,
                    condition: self.unit_id.condition(),
                },
                FilterEntry {
                    column: "price_type"@,
                    condition: self.price_type.condition(),
                },
            ],
            sort_by: optional_text(self.sort_by),
            asc: self.asc,
            page: self.page,
            limit: self.limit,
        }
    }

    /// Whether every value of the request fits a parameter of the wire
    /// protocol: every text within the greatest parameter length, the decimal
    /// one that can be bound.
    pub open spec fn bindable(&self) -> bool {
        condition_bindable(self.code.condition())
            && condition_bindable(self.description.condition())
            && condition_bindable(self.base_price.condition())
    }

    /// The request's filters fit their parameters exactly when `bindable`
    /// holds.
    pub proof fn lemma_request_bindable(&self)
        ensures
            self.request().bindable() == self.bindable(),
    {
        let filters = self.request().filters;
        if let Some(value) = self.price_type {
            value.lemma_label_bindable();
        }
        if self.bindable() {
            assert forall|i: int| 0 <= i < filters.len() implies condition_bindable(
                #[trigger] filters[i].condition,
            ) by {}
        } else {
            assert(filters[0].condition == self.code.condition());
            assert(filters[1].condition == self.description.condition());
            assert(filters[2].condition == self.base_price.condition());
        }
    }

    /// Whether every value of the request fits a parameter of the wire
    /// protocol.
    pub fn is_bindable(&self) -> (result: bool)
        ensures
            result == self.bindable(),
    {
        text_filter_bindable(&self.code)
            && text_filter_bindable(&self.description)
            && decimal_filter_bindable(&self.base_price)
    }

    /// The request, handed to the query engine.
    pub fn filter_spec(&self) -> (spec: FilterSpec)
        ensures
            spec@ == self.request(),
    {
        let mut filters: Vec<Filter> = Vec::new();
        filters.push(
            Filter {
                column: String::from_str("code"),
                value: FilterValue::Text(copy_text(&self.code)),
            },
        );
        filters.push(
            Filter {
                column: String::from_str("description"),
                value: FilterValue::Text(copy_text(&self.description)),
            },
        );
        let base_price = match &self.base_price {
            Some(value) => Some(copy_decimal(value)),
            None => None,
        };
        filters.push(
            Filter {
                column: String::from_str("base_price"),
                value: FilterValue::Decimal(base_price),
            },
        );
        filters.push(
            Filter {
                column: String::from_str("unit_id"),
                value: FilterValue::Integer(self.unit_id),
            },
        );
        let price_type = match self.price_type {
            Some(value) => Some(value.to_string()),
            None => None,
        };
        filters.push(
            Filter {
                column: String::from_str("price_type"),
                value: FilterValue::Enumerated(price_type),
            },
        );
        let spec = FilterSpec {
            filters,
            sort_by: copy_text(&self.sort_by),
            asc: self.asc,
            page: self.page,
            limit: self.limit,
        };
        proof {
            assert(spec@.filters =~= self.request().filters);
        }
        spec
    }

    /// The limit asked for, or `default` where none was supplied.
    pub fn limit_sql(&self, default: u32) -> (result: i64)
        ensures
            result == value_or(self.limit, default),
    {
        limit_or(self.limit, default)
    }

    /// The number of rows to skip: `(page - 1) * limit` for a page above 0
    /// and 0 for page 0, with the defaults in place of what was not
    /// supplied. The offset has to fit the 64-bit integer that the store
    /// takes.
    pub fn offset_sql(&self, default_page: u32, default_limit: u32) -> (result: i64)
        requires
            offset_of(value_or(self.page, default_page), value_or(self.limit, default_limit))
                <= i64::MAX,
        ensures
            result == offset_of(
                value_or(self.page, default_page),
                value_or(self.limit, default_limit),
            ),
    {
        offset_or(self.page, self.limit, default_page, default_limit)
    }

    /// Whether pagination was asked for: whether a page or a limit was
    /// supplied.
    pub fn is_paged(&self) -> (result: bool)
        ensures
            result == paging_requested(self.page, self.limit),
    {
        is_paged(self.page, self.limit)
    }
}

/// The values that an insert binds.
impl Record for NewPrice {
    open spec fn value_of(&self, column: Seq<char>) -> ColumnValueView {
        if column == "version_id"@ {
            ColumnValueView::Integer(self.version_id as int)
        } else if column == "code"@ {
            ColumnValueView::Text(self.code@)
        } else if column == "description"@ {
            ColumnValueView::Text(self.description@)
        } else if column == "base_price"@ {
            ColumnValueView::Decimal(self.base_price)
        } else if column == "unit_id"@ {
            ColumnValueView::Integer(self.unit_id as int)
        } else if column == "price_type"@ {
            ColumnValueView::Enumerated(self.price_type.label())
        } else {
            ColumnValueView::Deferred
        }
    }

    fn column_value(&self, column: &str) -> ColumnValue {
        if same_text(column, "version_id") {
            ColumnValue::Integer(self.version_id)
        } else if same_text(column, "code") {
            ColumnValue::Text(self.code.clone())
        } else if same_text(column, "description") {
            ColumnValue::Text(self.description.clone())
        } else if same_text(column, "base_price") {
            ColumnValue::Decimal(copy_decimal(&self.base_price))
        } else if same_text(column, "unit_id") {
            ColumnValue::Integer(self.unit_id)
        } else if same_text(column, "price_type") {
            ColumnValue::Enumerated(self.price_type.to_string())
        } else {
            ColumnValue::Deferred
        }
    }
}

/// The key and the values that an update binds.
impl Record for Price {
    open spec fn value_of(&self, column: Seq<char>) -> ColumnValueView {
        if column == "id"@ {
            ColumnValueView::Integer(self.id as int)
        } else if column == "version_id"@ {
            ColumnValueView::Integer(self.version_id as int)
        } else if column == "code"@ {
            ColumnValueView::Text(self.code@)
        } else if column == "description"@ {
            ColumnValueView::Text(self.description@)
        } else if column == "base_price"@ {
            ColumnValueView::Decimal(self.base_price)
        } else if column == "unit_id"@ {
            ColumnValueView::Integer(self.unit_id as int)
        } else if column == "price_type"@ {
            ColumnValueView::Enumerated(self.price_type.label())
        } else {
            ColumnValueView::Deferred
        }
    }

    fn column_value(&self, column: &str) -> ColumnValue {
        if same_text(column, "id") {
            ColumnValue::Integer(self.id)
        } else if same_text(column, "version_id") {
            ColumnValue::Integer(self.version_id)
        } else if same_text(column, "code") {
            ColumnValue::Text(self.code.clone())
        } else if same_text(column, "description") {
            ColumnValue::Text(self.description.clone())
        } else if same_text(column, "base_price") {
            ColumnValue::Decimal(copy_decimal(&self.base_price))
        } else if same_text(column, "unit_id") {
            ColumnValue::Integer(self.unit_id)
        } else if same_text(column, "price_type") {
            ColumnValue::Enumerated(self.price_type.to_string())
        } else {
            ColumnValue::Deferred
        }
    }
}

impl NewPrice {
    /// The values of the insert columns, in column order.
    pub open spec fn values(&self) -> Seq<ColumnValueView> {
        seq![
            ColumnValueView::Integer(self.version_id as int),
            ColumnValueView::Text(self.code@),
            ColumnValueView::Text(self.description@),
            ColumnValueView::Decimal(self.base_price),
            ColumnValueView::Integer(self.unit_id as int),
            ColumnValueView::Enumerated(self.price_type.label()),
        ]
    }
}

impl Price {
    /// The key, then the values of the update columns in column order.
    pub open spec fn values(&self) -> Seq<ColumnValueView> {
        seq![
            ColumnValueView::Integer(self.id as int),
            ColumnValueView::Integer(self.version_id as int),
            ColumnValueView::Text(self.code@),
            ColumnValueView::Text(self.description@),
            ColumnValueView::Decimal(self.base_price),
            ColumnValueView::Integer(self.unit_id as int),
            ColumnValueView::Enumerated(self.price_type.label()),
        ]
    }
}

impl Price {
    /// How prices map to their table.
    pub open spec fn entity() -> DescriptorView {
        DescriptorView {
            table: "prices"@,
            insert_columns: seq![
                "version_id"@,
                "code"@,
                "description"@,
                "base_price"@,
                "unit_id"@,
                "price_type"@,
            ],
            update_columns: seq![
                "version_id"@,
                "code"@,
                "description"@,
                "base_price"@,
                "unit_id"@,
                "price_type"@,
            ],
            audit_columns: seq![
                "created_at"@,
                "updated_at"@,
            ],
        }
    }

    /// The descriptor of prices.
    pub fn descriptor() -> (entity: EntityDescriptor)
        ensures
            entity@ == Self::entity(),
            entity@.well_formed(),
    {
        let mut inserts: Vec<String> = Vec::new();
        inserts.push(String::from_str("version_id"));
        inserts.push(String::from_str("code"));
        inserts.push(String::from_str("description"));
        inserts.push(String::from_str("base_price"));
        inserts.push(String::from_str("unit_id"));
        inserts.push(String::from_str("price_type"));
        let mut updates: Vec<String> = Vec::new();
        updates.push(String::from_str("version_id"));
        updates.push(String::from_str("code"));
        updates.push(String::from_str("description"));
        updates.push(String::from_str("base_price"));
        updates.push(String::from_str("unit_id"));
        updates.push(String::from_str("price_type"));
        let mut audit: Vec<String> = Vec::new();
        audit.push(String::from_str("created_at"));
        audit.push(String::from_str("updated_at"));
        let entity = EntityDescriptor {
            table: String::from_str("prices"),
            insert_columns: inserts,
            update_columns: updates,
            audit_columns: audit,
        };
        proof {
            assert(entity@.insert_columns =~= Self::entity().insert_columns);
            assert(entity@.update_columns =~= Self::entity().update_columns);
            assert(entity@.audit_columns =~= Self::entity().audit_columns);
        }
        entity
    }

    /// The read of one price by its key.
    pub fn read_by_id(id: i32) -> (query: QueryFragment)
        ensures
            query@ == read_by_id_query(Self::entity(), id as int),
            query@.in_lockstep(),
    {
        crate::executor::read_by_id(&Self::descriptor(), id)
    }

    /// The read of every price.
    pub fn read_all() -> (query: QueryFragment)
        ensures
            query@ == FragmentView::starting_with(Self::entity().select_all_text()),
            query@.in_lockstep(),
    {
        crate::executor::read_all(&Self::descriptor())
    }

    /// The count of the prices that a request selects.
    pub fn count_paged(params: &PriceParams) -> (query: QueryFragment)
        requires
            params.bindable(),
        ensures
            query@ == count_query(Self::entity(), params.request()),
            query@.open,
            query@.in_lockstep(),
    {
        proof {
            params.lemma_request_bindable();
        }
        crate::executor::count_paged(&Self::descriptor(), &params.filter_spec())
    }

    /// The count of the prices that a request selects, without a sort
    /// clause whatever the sort directive of the request.
    pub fn count_unsorted(params: &PriceParams) -> (query: QueryFragment)
        requires
            params.bindable(),
        ensures
            query@ == count_query(Self::entity(), params.request().unsorted()),
            query@.open,
            query@.in_lockstep(),
    {
        proof {
            params.lemma_request_bindable();
        }
        crate::executor::count_unsorted(&Self::descriptor(), &params.filter_spec())
    }

    /// The unsorted count query of a request whose values fit their
    /// parameters; none otherwise.
    pub fn try_count_unsorted(params: &PriceParams) -> (query: Option<QueryFragment>)
        ensures
            query.is_some() == params.bindable(),
            query.is_some() ==> query.unwrap()@ == count_query(
                Self::entity(),
                params.request().unsorted(),
            ) && query.unwrap()@.open && query.unwrap()@.in_lockstep(),
    {
        proof {
            params.lemma_request_bindable();
        }
        crate::executor::try_count_unsorted(&Self::descriptor(), &params.filter_spec())
    }

    /// One page of the prices that a request selects, with the limit and
    /// the offset that the policy gives the request. The offset has to fit
    /// the 64-bit integer that the store takes.
    pub fn read_paged(
        params: &PriceParams,
        policy: &PaginationPolicy,
    ) -> (query: QueryFragment)
        requires
            params.bindable(),
            params.request().offset_fits(*policy),
        ensures
            query@ == page_query(Self::entity(), params.request(), *policy),
            query@.open,
            query@.in_lockstep(),
    {
        proof {
            params.lemma_request_bindable();
        }
        crate::executor::read_paged(&Self::descriptor(), &params.filter_spec(), policy)
    }

    /// The count query of a request whose values fit their parameters; none
    /// otherwise.
    pub fn try_count_paged(params: &PriceParams) -> (query: Option<QueryFragment>)
        ensures
            query.is_some() == params.bindable(),
            query.is_some() ==> query.unwrap()@ == count_query(Self::entity(), params.request())
                && query.unwrap()@.open && query.unwrap()@.in_lockstep(),
    {
        proof {
            params.lemma_request_bindable();
        }
        crate::executor::try_count_paged(&Self::descriptor(), &params.filter_spec())
    }

    /// The page query of a request whose values fit their parameters and
    /// whose offset fits the store's integer; none otherwise.
    pub fn try_read_paged(
        params: &PriceParams,
        policy: &PaginationPolicy,
    ) -> (query: Option<QueryFragment>)
        ensures
            query.is_some() == (params.bindable() && params.request().offset_fits(*policy)),
            query.is_some() ==> query.unwrap()@ == page_query(
                Self::entity(),
                params.request(),
                *policy,
            ) && query.unwrap()@.open && query.unwrap()@.in_lockstep(),
    {
        proof {
            params.lemma_request_bindable();
        }
        crate::executor::try_read_paged(&Self::descriptor(), &params.filter_spec(), policy)
    }

    /// The insert of one price: it binds the values of the insert columns,
    /// in column order, and returns the new row.
    pub fn create(item: &NewPrice) -> (statement: Statement)
        ensures
            statement@.sql == Self::entity().insert_text(),
            statement@.columns == Self::entity().insert_columns,
            statement@.values == item.values(),
    {
        proof {
            Self::lemma_insert_values(item);
        }
        crate::executor::create(&Self::descriptor(), item)
    }

    /// The update of one price: it binds the key first, then the values of
    /// the update columns in column order, and returns the updated row.
    pub fn update(item: &Price) -> (statement: Statement)
        ensures
            statement@.sql == Self::entity().update_text(),
            statement@.columns == Self::entity().update_bindings(),
            statement@.values == item.values(),
    {
        proof {
            Self::lemma_update_values(item);
        }
        crate::executor::update(&Self::descriptor(), item)
    }

    /// The insert of `item` binds the values of `item`, placeholder by
    /// placeholder.
    pub proof fn lemma_insert_values(item: &NewPrice)
        ensures
            Self::entity().insert_statement(item).values == item.values(),
    {
        reveal_strlit("version_id");
        reveal_strlit("code");
        reveal_strlit("description");
        reveal_strlit("base_price");
        reveal_strlit("unit_id");
        reveal_strlit("price_type");
        let columns = Self::entity().insert_columns;
        assert("version_id"@.len() == 10);
        assert("code"@.len() == 4);
        assert("description"@.len() == 11);
        assert("base_price"@.len() == 10);
        assert("unit_id"@.len() == 7);
        assert("price_type"@.len() == 10);
        assert("base_price"@[0] == 'b' && "version_id"@[0] == 'v');
        assert("price_type"@[0] == 'p' && "version_id"@[0] == 'v');
        assert("price_type"@[0] == 'p' && "base_price"@[0] == 'b');
        assert(columns[0] == "version_id"@);
        assert(item.value_of(columns[0]) == item.values()[0]);
        assert(columns[1] == "code"@);
        assert(item.value_of(columns[1]) == item.values()[1]);
        assert(columns[2] == "description"@);
        assert(item.value_of(columns[2]) == item.values()[2]);
        assert(columns[3] == "base_price"@);
        assert(item.value_of(columns[3]) == item.values()[3]);
        assert(columns[4] == "unit_id"@);
        assert(item.value_of(columns[4]) == item.values()[4]);
        assert(columns[5] == "price_type"@);
        assert(item.value_of(columns[5]) == item.values()[5]);
        assert(Self::entity().insert_statement(item).values =~= item.values());
    }

    /// The update of `item` binds the key and the values of `item`,
    /// placeholder by placeholder.
    pub proof fn lemma_update_values(item: &Price)
        ensures
            Self::entity().update_statement(item).values == item.values(),
    {
        reveal_strlit("id");
        reveal_strlit("version_id");
        reveal_strlit("code");
        reveal_strlit("description");
        reveal_strlit("base_price");
        reveal_strlit("unit_id");
        reveal_strlit("price_type");
        let columns = Self::entity().update_bindings();
        assert("id"@.len() == 2);
        assert("version_id"@.len() == 10);
        assert("code"@.len() == 4);
        assert("description"@.len() == 11);
        assert("base_price"@.len() == 10);
        assert("unit_id"@.len() == 7);
        assert("price_type"@.len() == 10);
        assert("base_price"@[0] == 'b' && "version_id"@[0] == 'v');
        assert("price_type"@[0] == 'p' && "version_id"@[0] == 'v');
        assert("price_type"@[0] == 'p' && "base_price"@[0] == 'b');
        assert(columns[0] == "id"@);
        assert(item.value_of(columns[0]) == item.values()[0]);
        assert(columns[1] == "version_id"@);
        assert(item.value_of(columns[1]) == item.values()[1]);
        assert(columns[2] == "code"@);
        assert(item.value_of(columns[2]) == item.values()[2]);
        assert(columns[3] == "description"@);
        assert(item.value_of(columns[3]) == item.values()[3]);
        assert(columns[4] == "base_price"@);
        assert(item.value_of(columns[4]) == item.values()[4]);
        assert(columns[5] == "unit_id"@);
        assert(item.value_of(columns[5]) == item.values()[5]);
        assert(columns[6] == "price_type"@);
        assert(item.value_of(columns[6]) == item.values()[6]);
        assert(Self::entity().update_statement(item).values =~= item.values());
    }

    /// The delete of one price by its key.
    pub fn delete(id: i32) -> (query: QueryFragment)
        ensures
            query@ == delete_query(Self::entity(), id as int),
            query@.in_lockstep(),
    {
        crate::executor::delete(&Self::descriptor(), id)
    }
}

} // verus!
