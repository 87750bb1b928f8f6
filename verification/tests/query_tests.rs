use backend::descriptor::EntityDescriptor;
use backend::executor::count_paged;
use backend::executor::count_unsorted;
use backend::executor::delete;
use backend::executor::read_all;
use backend::executor::read_by_id;
use backend::executor::read_paged;
use backend::executor::try_count_paged;
use backend::executor::try_count_unsorted;
use backend::executor::try_read_paged;
use backend::filterable::Filterable;
use backend::fragment::QueryFragment;
use backend::paginable::Paginable;
use backend::paginable::PaginationPolicy;
use backend::query::push_pagination;
use backend::query::push_sort;
use backend::query::DynamicQuery;
use backend::query::Filter;
use backend::query::FilterSpec;
use backend::query::FilterValue;
use backend::query::QueryStage;
use sqlx::types::BigDecimal;
use sqlx::Arguments;
use sqlx::Execute;
use std::str::FromStr;

fn names(items: &[&str]) -> Vec<String> {
    items.iter().map(|item| item.to_string()).collect()
}

fn things() -> EntityDescriptor {
    EntityDescriptor {
        table: "things".to_string(),
        insert_columns: names(&["code", "size", "done", "cost", "kind"]),
        update_columns: names(&["code", "size", "done", "cost", "kind"]),
        audit_columns: names(&["created_at", "updated_at"]),
    }
}

fn request(filters: Vec<Filter>) -> FilterSpec {
    FilterSpec { filters, sort_by: None, asc: None, page: None, limit: None }
}

fn filter(column: &str, value: FilterValue) -> Filter {
    Filter { column: column.to_string(), value }
}

fn bound(fragment: &mut QueryFragment) -> (usize, String) {
    let mut query = fragment.builder.build();
    let arguments = query.take_arguments().unwrap().unwrap();
    (arguments.len(), format!("{:?}", arguments))
}

#[test]
fn filter_values_dispatch_by_semantic_type() {
    let mut builder = QueryFragment::new("Q");
    FilterValue::Text(Some("a".to_string())).append_filter(&mut builder, "code");
    FilterValue::Integer(Some(3)).append_filter(&mut builder, "size");
    FilterValue::Boolean(Some(true)).append_filter(&mut builder, "done");
    FilterValue::Decimal(Some(BigDecimal::from_str("2.5").unwrap()))
        .append_filter(&mut builder, "cost");
    FilterValue::Enumerated(Some("base".to_string())).append_filter(&mut builder, "kind");
    FilterValue::Text(None).append_filter(&mut builder, "x");
    FilterValue::Integer(None).append_filter(&mut builder, "x");
    FilterValue::Boolean(None).append_filter(&mut builder, "x");
    FilterValue::Decimal(None).append_filter(&mut builder, "x");
    FilterValue::Enumerated(None).append_filter(&mut builder, "x");
    assert_eq!(
        builder.sql(),
        "Q AND code LIKE $1 AND size = $2 AND done = $3 AND cost = $4 AND kind LIKE $5"
    );
    assert_eq!(bound(&mut builder).0, 5);
}

#[test]
fn filter_values_know_whether_they_fit_a_parameter() {
    assert!(FilterValue::Text(Some("abc".to_string())).is_bindable());
    assert!(FilterValue::Text(None).is_bindable());
    assert!(FilterValue::Integer(Some(1)).is_bindable());
    assert!(FilterValue::Boolean(None).is_bindable());
    assert!(FilterValue::Enumerated(Some("draft".to_string())).is_bindable());
    assert!(FilterValue::Decimal(Some(BigDecimal::from_str("1").unwrap())).is_bindable());
    assert!(!FilterValue::Decimal(Some(BigDecimal::from_str("1e-40000").unwrap())).is_bindable());
}

#[test]
fn count_query_is_the_count_base_and_the_conditions() {
    let spec = request(vec![
        filter("code", FilterValue::Text(Some("X1".to_string()))),
        filter("size", FilterValue::Integer(None)),
        filter("done", FilterValue::Boolean(Some(false))),
    ]);
    let mut query = count_paged(&things(), &spec);
    assert_eq!(
        query.sql(),
        "SELECT COUNT(*) FROM things WHERE 1=1 AND code LIKE $1 AND done = $2"
    );
    assert_eq!(bound(&mut query).0, 2);
}

#[test]
fn count_query_sorts_but_never_paginates() {
    let mut spec = request(vec![filter("size", FilterValue::Integer(Some(4)))]);
    spec.page = Some(2);
    spec.limit = Some(5);
    let mut query = count_paged(&things(), &spec);
    assert_eq!(query.sql(), "SELECT COUNT(*) FROM things WHERE 1=1 AND size = $1");
    assert_eq!(bound(&mut query).0, 1);
    spec.sort_by = Some("code".to_string());
    spec.asc = Some(false);
    assert_eq!(
        count_paged(&things(), &spec).sql(),
        "SELECT COUNT(*) FROM things WHERE 1=1 AND size = $1 ORDER BY code DESC"
    );
    spec.sort_by = Some("no_such_column".to_string());
    assert_eq!(
        count_paged(&things(), &spec).sql(),
        "SELECT COUNT(*) FROM things WHERE 1=1 AND size = $1"
    );
}

#[test]
fn unsorted_count_is_the_count_base_and_the_conditions() {
    let mut spec = request(vec![
        filter("code", FilterValue::Text(Some("X1".to_string()))),
        filter("size", FilterValue::Integer(Some(4))),
    ]);
    spec.sort_by = Some("code".to_string());
    spec.asc = Some(false);
    spec.page = Some(2);
    let mut query = count_unsorted(&things(), &spec);
    assert_eq!(
        query.sql(),
        "SELECT COUNT(*) FROM things WHERE 1=1 AND code LIKE $1 AND size = $2"
    );
    assert_eq!(bound(&mut query).0, 2);
    assert_eq!(
        try_count_unsorted(&things(), &spec).unwrap().sql(),
        "SELECT COUNT(*) FROM things WHERE 1=1 AND code LIKE $1 AND size = $2"
    );
    let unbindable = request(vec![filter(
        "cost",
        FilterValue::Decimal(Some(BigDecimal::from_str("1e-40000").unwrap())),
    )]);
    assert!(try_count_unsorted(&things(), &unbindable).is_none());
}

#[test]
fn page_query_without_filters_binds_the_default_page() {
    let mut query = read_paged(&things(), &request(vec![]), &PaginationPolicy::standard());
    assert_eq!(query.sql(), "SELECT * FROM things WHERE 1=1 LIMIT $1 OFFSET $2");
    let (count, shown) = bound(&mut query);
    assert_eq!(count, 2);
    // limit 10, offset 0, each in eight bytes
    assert!(shown.contains(
        "0, 0, 0, 8, 0, 0, 0, 0, 0, 0, 0, 10, 0, 0, 0, 8, 0, 0, 0, 0, 0, 0, 0, 0"
    ));
}

#[test]
fn page_query_binds_limit_and_offset_after_the_filters() {
    let mut spec = request(vec![
        filter("code", FilterValue::Text(Some("X1".to_string()))),
        filter("size", FilterValue::Integer(Some(4))),
    ]);
    spec.page = Some(3);
    spec.limit = Some(20);
    let mut query = read_paged(&things(), &spec, &PaginationPolicy::standard());
    assert_eq!(
        query.sql(),
        "SELECT * FROM things WHERE 1=1 AND code LIKE $1 AND size = $2 LIMIT $3 OFFSET $4"
    );
    let (count, shown) = bound(&mut query);
    assert_eq!(count, 4);
    // limit 20, offset 40
    assert!(shown.contains(
        "0, 0, 0, 8, 0, 0, 0, 0, 0, 0, 0, 20, 0, 0, 0, 8, 0, 0, 0, 0, 0, 0, 0, 40"
    ));
}

#[test]
fn page_query_sorts_by_a_column_of_the_entity() {
    let mut spec = request(vec![]);
    spec.sort_by = Some("code".to_string());
    assert_eq!(
        read_paged(&things(), &spec, &PaginationPolicy::standard()).sql(),
        "SELECT * FROM things WHERE 1=1 ORDER BY code ASC LIMIT $1 OFFSET $2"
    );
    spec.asc = Some(true);
    assert_eq!(
        read_paged(&things(), &spec, &PaginationPolicy::standard()).sql(),
        "SELECT * FROM things WHERE 1=1 ORDER BY code ASC LIMIT $1 OFFSET $2"
    );
    spec.asc = Some(false);
    assert_eq!(
        read_paged(&things(), &spec, &PaginationPolicy::standard()).sql(),
        "SELECT * FROM things WHERE 1=1 ORDER BY code DESC LIMIT $1 OFFSET $2"
    );
    spec.sort_by = Some("id".to_string());
    assert_eq!(
        read_paged(&things(), &spec, &PaginationPolicy::standard()).sql(),
        "SELECT * FROM things WHERE 1=1 ORDER BY id DESC LIMIT $1 OFFSET $2"
    );
    spec.sort_by = Some("updated_at".to_string());
    assert_eq!(
        read_paged(&things(), &spec, &PaginationPolicy::standard()).sql(),
        "SELECT * FROM things WHERE 1=1 ORDER BY updated_at DESC LIMIT $1 OFFSET $2"
    );
}

#[test]
fn page_query_ignores_a_sort_column_that_the_entity_lacks() {
    let mut spec = request(vec![filter("size", FilterValue::Integer(Some(1)))]);
    spec.sort_by = Some("code; DROP TABLE things; --".to_string());
    spec.asc = Some(false);
    assert_eq!(
        read_paged(&things(), &spec, &PaginationPolicy::standard()).sql(),
        "SELECT * FROM things WHERE 1=1 AND size = $1 LIMIT $2 OFFSET $3"
    );
    spec.sort_by = Some("Code".to_string());
    assert_eq!(
        read_paged(&things(), &spec, &PaginationPolicy::standard()).sql(),
        "SELECT * FROM things WHERE 1=1 AND size = $1 LIMIT $2 OFFSET $3"
    );
    spec.sort_by = Some("".to_string());
    assert_eq!(
        read_paged(&things(), &spec, &PaginationPolicy::standard()).sql(),
        "SELECT * FROM things WHERE 1=1 AND size = $1 LIMIT $2 OFFSET $3"
    );
}

#[test]
fn page_zero_has_offset_zero() {
    let mut spec = request(vec![]);
    spec.page = Some(0);
    spec.limit = Some(25);
    let mut query = read_paged(&things(), &spec, &PaginationPolicy::standard());
    let (_, shown) = bound(&mut query);
    assert!(shown.contains(
        "0, 0, 0, 8, 0, 0, 0, 0, 0, 0, 0, 25, 0, 0, 0, 8, 0, 0, 0, 0, 0, 0, 0, 0"
    ));
}

#[test]
fn count_and_page_share_their_conditions() {
    let mut spec = request(vec![
        filter("code", FilterValue::Text(Some("a".to_string()))),
        filter("kind", FilterValue::Enumerated(Some("base".to_string()))),
        filter("cost", FilterValue::Decimal(Some(BigDecimal::from_str("9.99").unwrap()))),
    ]);
    spec.sort_by = Some("size".to_string());
    let count = count_paged(&things(), &spec).sql();
    let page = read_paged(&things(), &spec, &PaginationPolicy::standard()).sql();
    let conditions = " AND code LIKE $1 AND kind LIKE $2 AND cost = $3";
    assert_eq!(
        count,
        format!("SELECT COUNT(*) FROM things WHERE 1=1{} ORDER BY size ASC", conditions)
    );
    assert_eq!(
        page,
        format!(
            "SELECT * FROM things WHERE 1=1{} ORDER BY size ASC LIMIT $4 OFFSET $5",
            conditions
        )
    );
}

#[test]
fn the_same_request_gives_the_same_text() {
    let build = || {
        let mut spec = request(vec![
            filter("code", FilterValue::Text(Some("a".to_string()))),
            filter("size", FilterValue::Integer(Some(2))),
        ]);
        spec.sort_by = Some("code".to_string());
        spec.limit = Some(3);
        read_paged(&things(), &spec, &PaginationPolicy::standard()).sql()
    };
    assert_eq!(build(), build());
}

#[test]
fn try_queries_refuse_what_does_not_fit() {
    let fine = request(vec![filter("code", FilterValue::Text(Some("a".to_string())))]);
    assert!(try_count_paged(&things(), &fine).is_some());
    assert_eq!(
        try_read_paged(&things(), &fine, &PaginationPolicy::standard()).unwrap().sql(),
        "SELECT * FROM things WHERE 1=1 AND code LIKE $1 LIMIT $2 OFFSET $3"
    );
    let unbindable = request(vec![filter(
        "cost",
        FilterValue::Decimal(Some(BigDecimal::from_str("1e-40000").unwrap())),
    )]);
    assert!(!unbindable.is_bindable());
    assert!(try_count_paged(&things(), &unbindable).is_none());
    assert!(try_read_paged(&things(), &unbindable, &PaginationPolicy::standard()).is_none());
    let mut far = request(vec![]);
    far.page = Some(u32::MAX);
    far.limit = Some(u32::MAX);
    assert!(far.is_bindable());
    assert!(!far.offset_fits(&PaginationPolicy::standard()));
    assert!(try_count_paged(&things(), &far).is_some());
    assert!(try_read_paged(&things(), &far, &PaginationPolicy::standard()).is_none());
    far.page = Some(u32::MAX);
    far.limit = Some(1 << 31);
    assert!(far.offset_fits(&PaginationPolicy::standard()));
    assert_eq!(far.offset(), 9223372032559808512);
}

#[test]
fn the_policy_supplies_what_the_request_leaves_out() {
    let policy = PaginationPolicy::new(2, 25);
    let mut spec = request(vec![]);
    assert_eq!(policy.page_or_default(&spec), 2);
    assert_eq!(policy.limit_or_default(&spec), 25);
    assert_eq!(policy.offset(&spec), 25);
    assert!(policy.offset_fits(&spec));
    assert!(!PaginationPolicy::is_paged(&spec));
    let mut query = read_paged(&things(), &spec, &policy);
    assert_eq!(query.sql(), "SELECT * FROM things WHERE 1=1 LIMIT $1 OFFSET $2");
    let (_, shown) = bound(&mut query);
    assert!(shown.contains(
        "0, 0, 0, 8, 0, 0, 0, 0, 0, 0, 0, 25, 0, 0, 0, 8, 0, 0, 0, 0, 0, 0, 0, 25"
    ));
    spec.page = Some(4);
    spec.limit = Some(3);
    assert_eq!(policy.page_or_default(&spec), 4);
    assert_eq!(policy.limit_or_default(&spec), 3);
    assert_eq!(policy.offset(&spec), 9);
    assert!(PaginationPolicy::is_paged(&spec));
    spec.page = Some(0);
    assert_eq!(policy.offset(&spec), 0);
    let zero = PaginationPolicy::new(0, 25);
    spec.page = None;
    assert_eq!(zero.offset(&spec), 0);
    let standard = PaginationPolicy::standard();
    assert_eq!(standard.default_page, 1);
    assert_eq!(standard.default_limit, 10);
    spec.page = Some(u32::MAX);
    spec.limit = Some(u32::MAX);
    assert!(!standard.offset_fits(&spec));
}

#[test]
fn filter_spec_is_paginable() {
    let mut spec = request(vec![]);
    assert_eq!(spec.page(), None);
    assert_eq!(spec.limit_or_default(), 10);
    spec.page = Some(5);
    spec.limit = Some(4);
    assert_eq!(spec.page_or_default(), 5);
    assert_eq!(spec.offset(), 16);
}

#[test]
fn reads_by_key_bind_the_key() {
    let mut query = read_by_id(&things(), 77);
    assert_eq!(query.sql(), "SELECT * FROM things WHERE id = $1");
    let (count, shown) = bound(&mut query);
    assert_eq!(count, 1);
    assert!(shown.contains("0, 0, 0, 4, 0, 0, 0, 77"));
}

#[test]
fn deletes_return_the_deleted_row() {
    let mut query = delete(&things(), -1);
    assert_eq!(query.sql(), "DELETE FROM things WHERE id = $1 RETURNING *");
    let (count, shown) = bound(&mut query);
    assert_eq!(count, 1);
    assert!(shown.contains("0, 0, 0, 4, 255, 255, 255, 255"));
}

#[test]
fn read_all_has_no_conditions() {
    let mut query = read_all(&things());
    assert_eq!(query.sql(), "SELECT * FROM things");
    assert_eq!(bound(&mut query).0, 0);
}

#[test]
fn push_sort_and_push_pagination_work_on_any_fragment() {
    let mut fragment = QueryFragment::new("SELECT * FROM things WHERE 1=1");
    push_sort(&mut fragment, &None, Some(false), &things());
    assert_eq!(fragment.sql(), "SELECT * FROM things WHERE 1=1");
    push_sort(&mut fragment, &Some("kind".to_string()), Some(false), &things());
    push_pagination(&mut fragment, 15, 30);
    assert_eq!(
        fragment.sql(),
        "SELECT * FROM things WHERE 1=1 ORDER BY kind DESC LIMIT $1 OFFSET $2"
    );
}

#[test]
fn a_dynamic_query_walks_through_its_stages() {
    let mut query = DynamicQuery::new();
    assert_eq!(query.stage(), QueryStage::Empty);
    query.base("SELECT * FROM things WHERE 1=1");
    assert_eq!(query.stage(), QueryStage::HasBase);
    query.filter(&Some(5), "size");
    assert_eq!(query.stage(), QueryStage::HasFilters);
    query.filter(&Some("a".to_string()), "code");
    assert_eq!(query.stage(), QueryStage::HasFilters);
    query.sort(&Some("code".to_string()), None, &things());
    assert_eq!(query.stage(), QueryStage::HasSort);
    query.paginate(10, 0);
    assert_eq!(query.stage(), QueryStage::HasPagination);
    let fragment = query.build();
    assert_eq!(query.stage(), QueryStage::Built);
    assert_eq!(
        fragment.sql(),
        "SELECT * FROM things WHERE 1=1 AND size = $1 AND code LIKE $2 ORDER BY code ASC LIMIT $3 OFFSET $4"
    );
}

#[test]
fn a_dynamic_query_may_skip_filters_sort_and_pagination() {
    let mut query = DynamicQuery::new();
    query.base("SELECT 1");
    let fragment = query.build();
    assert_eq!(fragment.sql(), "SELECT 1");
    assert_eq!(query.stage(), QueryStage::Built);
}

#[test]
fn stages_admit_only_steps_forward() {
    let empty = QueryStage::Empty;
    let base = QueryStage::HasBase;
    let filters = QueryStage::HasFilters;
    let sort = QueryStage::HasSort;
    let pagination = QueryStage::HasPagination;
    let built = QueryStage::Built;
    for from in [empty, base, filters, sort, pagination, built] {
        assert!(!from.can_advance(empty));
        assert_eq!(from.can_advance(base), from == empty);
        assert_eq!(from.can_advance(filters), from == base || from == filters);
        assert_eq!(from.can_advance(sort), from == base || from == filters);
        assert_eq!(
            from.can_advance(pagination),
            from == base || from == filters || from == sort
        );
        assert_eq!(from.can_advance(built), from != empty && from != built);
    }
}
