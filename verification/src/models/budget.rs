//! Budgets: versions of a project's cost estimate.

use vstd::prelude::*;
use vstd::string::StringExecFns;
use crate::descriptor::DescriptorView;
use crate::descriptor::EntityDescriptor;
use crate::descriptor::Statement;
use crate::executor::delete_query;
use crate::executor::read_by_id_query;
use crate::filterable::Condition;
use crate::filterable::condition_bindable;
use crate::filterable::contains_condition;
use crate::filterable::Filterable;
use crate::filterable::lemma_pattern_len;
use crate::filterable::push_contains_filter;
use crate::filterable::text_filter_bindable;
use crate::fragment::FragmentView;
use crate::fragment::lemma_utf8_len_ascii;
use crate::fragment::QueryFragment;
use crate::models::copy_text;
use crate::models::UtcTimestamp;
use crate::paginable::is_paged;
use crate::paginable::limit_or;
use crate::paginable::offset_of;
use crate::paginable::offset_or;
use crate::paginable::Paginable;
use crate::paginable::PaginationPolicy;
use crate::paginable::paging_requested;
use crate::paginable::value_or;
use crate::query::count_query;
use crate::query::Filter;
use crate::query::FilterEntry;
use crate::query::FilterSpec;
use crate::query::FilterSpecView;
use crate::query::FilterValue;
use crate::query::optional_text;
use crate::query::page_query;
use crate::record::ColumnValue;
use crate::record::ColumnValueView;
use crate::record::Record;
use crate::record::same_text;

verus! {

/// How far a budget has come towards approval.
#[derive(Debug, Clone, Copy, PartialEq, Eq, Structural)]
pub enum BudgetStatus {
    Draft,
    Submitted,
    Approved,
    Rejected,
    Archived,
}

impl BudgetStatus {
    /// The canonical lowercase name of the status.
    pub open spec fn label(self) -> Seq<char> {
        match self {
            BudgetStatus::Draft => "draft"@,
            BudgetStatus::Submitted => "submitted"@,
            BudgetStatus::Approved => "approved"@,
            BudgetStatus::Rejected => "rejected"@,
            BudgetStatus::Archived => "archived"@,
        }
    }

    /// The canonical lowercase name of the status.
    pub fn as_str(&self) -> (name: &'static str)
        ensures
            name@ == self.label(),
    {
        match self {
            BudgetStatus::Draft => "draft",
            BudgetStatus::Submitted => "submitted",
            BudgetStatus::Approved => "approved",
            BudgetStatus::Rejected => "rejected",
            BudgetStatus::Archived => "archived",
        }
    }

    /// The canonical lowercase name of the status, as an owned text.
    pub fn to_string(&self) -> (name: String)
        ensures
            name@ == self.label(),
    {
        String::from_str(self.as_str())
    }

    /// The pattern made of a name always fits a parameter.
    pub proof fn lemma_label_bindable(self)
        ensures
            condition_bindable(Some(contains_condition(self.label()))),
    {
        reveal_strlit("draft");
        reveal_strlit("submitted");
        reveal_strlit("approved");
        reveal_strlit("rejected");
        reveal_strlit("archived");
        lemma_utf8_len_ascii(self.label());
        lemma_pattern_len(self.label());
    }
}

/// Enumerated values are matched by substring of their canonical name.
impl Filterable for Option<BudgetStatus> {
    open spec fn condition(&self) -> Option<Condition> {
        match self {
            Some(value) => Some(contains_condition(value.label())),
            None => None,
        }
    }

    fn append_filter(&self, builder: &mut QueryFragment, column: &str) {
        if let Some(value) = self {
            push_contains_filter(builder, column, value.as_str());
        }
    }
}

/// A row of the table `budgets`.
#[derive(Debug)]
pub struct Budget {
    pub id: i32,
    pub project_id: i32,
    pub code: String,
    pub version_number: i32,
    pub name: String,
    pub status: BudgetStatus,
    pub created_at: UtcTimestamp,
    pub updated_at: UtcTimestamp,
}

/// The values of a budget that is to be created.
#[derive(Debug)]
pub struct NewBudget {
    pub project_id: i32,
    pub code: String,
    pub version_number: i32,
    pub name: String,
    pub status: BudgetStatus,
}

/// A listing request for budgets.
#[derive(Debug)]
pub struct BudgetParams {
    pub id: Option<i32>,
    pub project_id: Option<i32>,
    pub code: Option<String>,
    pub version_number: Option<i32>,
    pub name: Option<String>,
    pub status: Option<BudgetStatus>,
    pub page: Option<u32>,
    pub limit: Option<u32>,
    pub sort_by: Option<String>,
    pub asc: Option<bool>,
}

impl Paginable for BudgetParams {
    open spec fn requested_page(&self) -> Option<u32> {
        self.page
    }

    open spec fn requested_limit(&self) -> Option<u32> {
        self.limit
    }

    fn page(&self) -> Option<u32> {
        self.page
    }

    fn limit(&self) -> Option<u32> {
        self.limit
    }
}

impl BudgetParams {
    /// The request as the query engine sees it: one filter for each
    /// filterable column, in column order.
    pub open spec fn request(&self) -> FilterSpecView {
        FilterSpecView {
            filters: seq![
                FilterEntry {
                    column: "project_id"@,
                    condition: self.project_id.condition(),
                },
                FilterEntry {
                    column: "code"@,
                    condition: self.code.condition(),
                },
                FilterEntry {
                    column: "version_number"@,
                    condition: self.version_number.condition(),
                },
                FilterEntry {
                    column: "status"@,
                    condition: self.status.condition(),
                },
                FilterEntry {
                    column: "name"@,
                    condition: self.name.condition(),
                },
            ],
            sort_by: optional_text(self.sort_by),
            asc: self.asc,
            page: self.page,
            limit: self.limit,
        }
    }

    /// Whether every value of the request fits a parameter of the wire
    /// protocol: every text within the greatest parameter length
    /// (integers and enumerated names always do).
    pub open spec fn bindable(&self) -> bool {
        condition_bindable(self.code.condition())
            && condition_bindable(self.name.condition())
    }

    /// The request's filters fit their parameters exactly when `bindable`
    /// holds.
    pub proof fn lemma_request_bindable(&self)
        ensures
            self.request().bindable() == self.bindable(),
    {
        let filters = self.request().filters;
        if let Some(value) = self.status {
            value.lemma_label_bindable();
        }
        if self.bindable() {
            assert forall|i: int| 0 <= i < filters.len() implies condition_bindable(
                #[trigger] filters[i].condition,
            ) by {}
        } else {
            assert(filters[1].condition == self.code.condition());
            assert(filters[4].condition == self.name.condition());
        }
    }

    /// Whether every value of the request fits a parameter of the wire
    /// protocol.
    pub fn is_bindable(&self) -> (result: bool)
        ensures
            result == self.bindable(),
    {
        text_filter_bindable(&self.code)
            && text_filter_bindable(&self.name)
    }

    /// The request, handed to the query engine.
    pub fn filter_spec(&self) -> (spec: FilterSpec)
        ensures
            spec@ == self.request(),
    {
        let mut filters: Vec<Filter> = Vec::new();
        filters.push(
            Filter {
                column: String::from_str("project_id"),
                value: FilterValue::Integer(self.project_id),
            },
        );
        filters.push(
            Filter {
                column: String::from_str("code"),
                value: FilterValue::Text(copy_text(&self.code)),
            },
        );
        filters.push(
            Filter {
                column: String::from_str("version_number"),
                value: FilterValue::Integer(self.version_number),
            },
        );
        let status = match self.status {
            Some(value) => Some(value.to_string()),
            None => None,
        };
        filters.push(
            Filter {
                column: String::from_str("status"),
                value: FilterValue::Enumerated(status),
            },
        );
        filters.push(
            Filter {
                column: String::from_str("name"),
                value: FilterValue::Text(copy_text(&self.name)),
            },
        );
        let spec = FilterSpec {
            filters,
            sort_by: copy_text(&self.sort_by),
            asc: self.asc,
            page: self.page,
            limit: self.limit,
        };
        proof {
            assert(spec@.filters =~= self.request().filters);
        }
        spec
    }

    /// The limit asked for, or `default` where none was supplied.
    pub fn limit_sql(&self, default: u32) -> (result: i64)
        ensures
            result == value_or(self.limit, default),
    {
        limit_or(self.limit, default)
    }

    /// The number of rows to skip: `(page - 1) * limit` for a page above 0
    /// and 0 for page 0, with the defaults in place of what was not
    /// supplied. The offset has to fit the 64-bit integer that the store
    /// takes.
    pub fn offset_sql(&self, default_page: u32, default_limit: u32) -> (result: i64)
        requires
            offset_of(value_or(self.page, default_page), value_or(self.limit, default_limit))
                <= i64::MAX,
        ensures
            result == offset_of(
                value_or(self.page, default_page),
                value_or(self.limit, default_limit),
            ),
    {
        offset_or(self.page, self.limit, default_page, default_limit)
    }

    /// Whether pagination was asked for: whether a page or a limit was
    /// supplied.
    pub fn is_paged(&self) -> (result: bool)
        ensures
            result == paging_requested(self.page, self.limit),
    {
        is_paged(self.page, self.limit)
    }
}

/// The values that an insert binds.
impl Record for NewBudget {
    open spec fn value_of(&self, column: Seq<char>) -> ColumnValueView {
        if column == "project_id"@ {
            ColumnValueView::Integer(self.project_id as int)
        } else if column == "code"@ {
            ColumnValueView::Text(self.code@)
        } else if column == "version_number"@ {
            ColumnValueView::Integer(self.version_number as int)
        } else if column == "status"@ {
            ColumnValueView::Enumerated(self.status.label())
        } else if column == "name"@ {
            ColumnValueView::Text(self.name@)
        } else {
            ColumnValueView::Deferred
        }
    }

    fn column_value(&self, column: &str) -> ColumnValue {
        if same_text(column, "project_id") {
            ColumnValue::Integer(self.project_id)
        } else if same_text(column, "code") {
            ColumnValue::Text(self.code.clone())
        } else if same_text(column, "version_number") {
            ColumnValue::Integer(self.version_number)
        } else if same_text(column, "status") {
            ColumnValue::Enumerated(self.status.to_string())
        } else if same_text(column, "name") {
            ColumnValue::Text(self.name.clone())
        } else {
            ColumnValue::Deferred
        }
    }
}

/// The key and the values that an update binds.
impl Record for Budget {
    open spec fn value_of(&self, column: Seq<char>) -> ColumnValueView {
        if column == "id"@ {
            ColumnValueView::Integer(self.id as int)
        } else if column == "project_id"@ {
            ColumnValueView::Integer(self.project_id as int)
        } else if column == "code"@ {
            ColumnValueView::Text(self.code@)
        } else if column == "version_number"@ {
            ColumnValueView::Integer(self.version_number as int)
        } else if column == "status"@ {
            ColumnValueView::Enumerated(self.status.label())
        } else if column == "name"@ {
            ColumnValueView::Text(self.name@)
        } else {
            ColumnValueView::Deferred
        }
    }

    fn column_value(&self, column: &str) -> ColumnValue {
        if same_text(column, "id") {
            ColumnValue::Integer(self.id)
        } else if same_text(column, "project_id") {
            ColumnValue::Integer(self.project_id)
        } else if same_text(column, "code") {
            ColumnValue::Text(self.code.clone())
        } else if same_text(column, "version_number") {
            ColumnValue::Integer(self.version_number)
        } else if same_text(column, "status") {
            ColumnValue::Enumerated(self.status.to_string())
        } else if same_text(column, "name") {
            ColumnValue::Text(self.name.clone())
        } else {
            ColumnValue::Deferred
        }
    }
}

impl NewBudget {
    /// The values of the insert columns, in column order.
    pub open spec fn values(&self) -> Seq<ColumnValueView> {
        seq![
            ColumnValueView::Integer(self.project_id as int),
            ColumnValueView::Text(self.code@),
            ColumnValueView::Integer(self.version_number as int),
            ColumnValueView::Enumerated(self.status.label()),
            ColumnValueView::Text(self.name@),
        ]
    }
}

impl Budget {
    /// The key, then the values of the update columns in column order.
    pub open spec fn values(&self) -> Seq<ColumnValueView> {
        seq![
            ColumnValueView::Integer(self.id as int),
            ColumnValueView::Integer(self.project_id as int),
            ColumnValueView::Text(self.code@),
            ColumnValueView::Integer(self.version_number as int),
            ColumnValueView::Enumerated(self.status.label()),
            ColumnValueView::Text(self.name@),
        ]
    }
}

impl Budget {
    /// How budgets map to their table.
    pub open spec fn entity() -> DescriptorView {
        DescriptorView {
            table: "budgets"@,
            insert_columns: seq![
                "project_id"@,
                "code"@,
                "version_number"@,
                "status"@,
                "name"@,
            ],
            update_columns: seq![
                "project_id"@,
                "code"@,
                "version_number"@,
                "status"@,
                "name"@,
            ],
            audit_columns: seq![
                "created_at"@,
                "updated_at"@,
            ],
        }
    }

    /// The descriptor of budgets.
    pub fn descriptor() -> (entity: EntityDescriptor)
        ensures
            entity@ == Self::entity(),
            entity@.well_formed(),
    {
        let mut inserts: Vec<String> = Vec::new();
        inserts.push(String::from_str("project_id"));
        inserts.push(String::from_str("code"));
        inserts.push(String::from_str("version_number"));
        inserts.push(String::from_str("status"));
        inserts.push(String::from_str("name"));
        let mut updates: Vec<String> = Vec::new();
        updates.push(String::from_str("project_id"));
        updates.push(String::from_str("code"));
        updates.push(String::from_str("version_number"));
        updates.push(String::from_str("status"));
        updates.push(String::from_str("name"));
        let mut audit: Vec<String> = Vec::new();
        audit.push(String::from_str("created_at"));
        audit.push(String::from_str("updated_at"));
        let entity = EntityDescriptor {
            table: String::from_str("budgets"),
            insert_columns: inserts,
            update_columns: updates,
            audit_columns: audit,
        };
        proof {
            assert(entity@.insert_columns =~= Self::entity().insert_columns);
            assert(entity@.update_columns =~= Self::entity().update_columns);
            assert(entity@.audit_columns =~= Self::entity().audit_columns);
        }
        entity
    }

    /// The read of one budget by its key.
    pub fn read_by_id(id: i32) -> (query: QueryFragment)
        ensures
            query@ == read_by_id_query(Self::entity(), id as int),
            query@.in_lockstep(),
    {
        crate::executor::read_by_id(&Self::descriptor(), id)
    }

    /// The read of every budget.
    pub fn read_all() -> (query: QueryFragment)
        ensures
            query@ == FragmentView::starting_with(Self::entity().select_all_text()),
            query@.in_lockstep(),
    {
        crate::executor::read_all(&Self::descriptor())
    }

    /// The count of the budgets that a request selects.
    pub fn count_paged(params: &BudgetParams) -> (query: QueryFragment)
        requires
            params.bindable(),
        ensures
            query@ == count_query(Self::entity(), params.request()),
            query@.open,
            query@.in_lockstep(),
    {
        proof {
            params.lemma_request_bindable();
        }
        crate::executor::count_paged(&Self::descriptor(), &params.filter_spec())
    }

    /// The count of the budgets that a request selects, without a sort
    /// clause whatever the sort directive of the request.
    pub fn count_unsorted(params: &BudgetParams) -> (query: QueryFragment)
        requires
            params.bindable(),
        ensures
            query@ == count_query(Self::entity(), params.request().unsorted()),
            query@.open,
            query@.in_lockstep(),
    {
        proof {
            params.lemma_request_bindable();
        }
        crate::executor::count_unsorted(&Self::descriptor(), &params.filter_spec())
    }

    /// The unsorted count query of a request whose values fit their
    /// parameters; none otherwise.
    pub fn try_count_unsorted(params: &BudgetParams) -> (query: Option<QueryFragment>)
        ensures
            query.is_some() == params.bindable(),
            query.is_some() ==> query.unwrap()@ == count_query(
                Self::entity(),
                params.request().unsorted(),
            ) && query.unwrap()@.open && query.unwrap()@.in_lockstep(),
    {
        proof {
            params.lemma_request_bindable();
        }
        crate::executor::try_count_unsorted(&Self::descriptor(), &params.filter_spec())
    }

    /// One page of the budgets that a request selects, with the limit and
    /// the offset that the policy gives the request. The offset has to fit
    /// the 64-bit integer that the store takes.
    pub fn read_paged(
        params: &BudgetParams,
        policy: &PaginationPolicy,
    ) -> (query: QueryFragment)
        requires
            params.bindable(),
            params.request().offset_fits(*policy),
        ensures
            query@ == page_query(Self::entity(), params.request(), *policy),
            query@.open,
            query@.in_lockstep(),
    {
        proof {
            params.lemma_request_bindable();
        }
        crate::executor::read_paged(&Self::descriptor(), &params.filter_spec(), policy)
    }

    /// The count query of a request whose values fit their parameters; none
    /// otherwise.
    pub fn try_count_paged(params: &BudgetParams) -> (query: Option<QueryFragment>)
        ensures
            query.is_some() == params.bindable(),
            query.is_some() ==> query.unwrap()@ == count_query(Self::entity(), params.request())
                && query.unwrap()@.open && query.unwrap()@.in_lockstep(),
    {
        proof {
            params.lemma_request_bindable();
        }
        crate::executor::try_count_paged(&Self::descriptor(), &params.filter_spec())
    }

    /// The page query of a request whose values fit their parameters and
    /// whose offset fits the store's integer; none otherwise.
    pub fn try_read_paged(
        params: &BudgetParams,
        policy: &PaginationPolicy,
    ) -> (query: Option<QueryFragment>)
        ensures
            query.is_some() == (params.bindable() && params.request().offset_fits(*policy)),
            query.is_some() ==> query.unwrap()@ == page_query(
                Self::entity(),
                params.request(),
                *policy,
            ) && query.unwrap()@.open && query.unwrap()@.in_lockstep(),
    {
        proof {
            params.lemma_request_bindable();
        }
        crate::executor::try_read_paged(&Self::descriptor(), &params.filter_spec(), policy)
    }

    /// The insert of one budget: it binds the values of the insert columns,
    /// in column order, and returns the new row.
    pub fn create(item: &NewBudget) -> (statement: Statement)
        ensures
            statement@.sql == Self::entity().insert_text(),
            statement@.columns == Self::entity().insert_columns,
            statement@.values == item.values(),
    {
        proof {
            Self::lemma_insert_values(item);
        }
        crate::executor::create(&Self::descriptor(), item)
    }

    /// The update of one budget: it binds the key first, then the values of
    /// the update columns in column order, and returns the updated row.
    pub fn update(item: &Budget) -> (statement: Statement)
        ensures
            statement@.sql == Self::entity().update_text(),
            statement@.columns == Self::entity().update_bindings(),
            statement@.values == item.values(),
    {
        proof {
            Self::lemma_update_values(item);
        }
        crate::executor::update(&Self::descriptor(), item)
    }

    /// The insert of `item` binds the values of `item`, placeholder by
    /// placeholder.
    pub proof fn lemma_insert_values(item: &NewBudget)
        ensures
            Self::entity().insert_statement(item).values == item.values(),
    {
        reveal_strlit("project_id");
        reveal_strlit("code");
        reveal_strlit("version_number");
        reveal_strlit("name");
        reveal_strlit("status");
        let columns = Self::entity().insert_columns;
        assert("project_id"@.len() == 10);
        assert("code"@.len() == 4);
        assert("version_number"@.len() == 14);
        assert("name"@.len() == 4);
        assert("status"@.len() == 6);
        assert("name"@[0] == 'n' && "code"@[0] == 'c');
        assert(columns[0] == "project_id"@);
        assert(item.value_of(columns[0]) == item.values()[0]);
        assert(columns[1] == "code"@);
        assert(item.value_of(columns[1]) == item.values()[1]);
        assert(columns[2] == "version_number"@);
        assert(item.value_of(columns[2]) == item.values()[2]);
        assert(columns[3] == "status"@);
        assert(item.value_of(columns[3]) == item.values()[3]);
        assert(columns[4] == "name"@);
        assert(item.value_of(columns[4]) == item.values()[4]);
        assert(Self::entity().insert_statement(item).values =~= item.values());
    }

    /// The update of `item` binds the key and the values of `item`,
    /// placeholder by placeholder.
    pub proof fn lemma_update_values(item: &Budget)
        ensures
            Self::entity().update_statement(item).values == item.values(),
    {
        reveal_strlit("id");
        reveal_strlit("project_id");
        reveal_strlit("code");
        reveal_strlit("version_number");
        reveal_strlit("name");
        reveal_strlit("status");
        let columns = Self::entity().update_bindings();
        assert("id"@.len() == 2);
        assert("project_id"@.len() == 10);
        assert("code"@.len() == 4);
        assert("version_number"@.len() == 14);
        assert("name"@.len() == 4);
        assert("status"@.len() == 6);
        assert("name"@[0] == 'n' && "code"@[0] == 'c');
        assert(columns[0] == "id"@);
        assert(item.value_of(columns[0]) == item.values()[0]);
        assert(columns[1] == "project_id"@);
        assert(item.value_of(columns[1]) == item.values()[1]);
        assert(columns[2] == "code"@);
        assert(item.value_of(columns[2]) == item.values()[2]);
        assert(columns[3] == "version_number"@);
        assert(item.value_of(columns[3]) == item.values()[3]);
        assert(columns[4] == "status"@);
        assert(item.value_of(columns[4]) == item.values()[4]);
        assert(columns[5] == "name"@);
        assert(item.value_of(columns[5]) == item.values()[5]);
        assert(Self::entity().update_statement(item).values =~= item.values());
    }

    /// The delete of one budget by its key.
    pub fn delete(id: i32) -> (query: QueryFragment)
        ensures
            query@ == delete_query(Self::entity(), id as int),
            query@.in_lockstep(),
    {
        crate::executor::delete(&Self::descriptor(), id)
    }
}

} // verus!
