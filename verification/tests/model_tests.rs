use backend::models::budget::Budget;
use backend::models::budget::BudgetParams;
use backend::models::budget::BudgetStatus;
use backend::models::descomposition::CalculationMode;
use backend::models::descomposition::Descomposition;
use backend::models::descomposition::DescompositionParams;
use backend::models::element::Element;
use backend::models::element::ElementParams;
use backend::models::element::ElementType;
use backend::models::measurement::Measurement;
use backend::models::measurement::MeasurementParams;
use backend::models::price::Price;
use backend::models::price::PriceParams;
use backend::models::price::PriceType;
use backend::models::project::NewProject;
use backend::models::project::Project;
use backend::models::project::ProjectParams;
use backend::paginable::PaginationPolicy;
use backend::query::FilterValue;
use backend::record::ColumnValue;
use sqlx::types::BigDecimal;
use sqlx::Arguments;
use sqlx::Execute;
use std::str::FromStr;

fn budget_params() -> BudgetParams {
    BudgetParams {
        id: None,
        project_id: None,
        code: None,
        version_number: None,
        name: None,
        status: None,
        page: None,
        limit: None,
        sort_by: None,
        asc: None,
    }
}

fn project_params() -> ProjectParams {
    ProjectParams {
        id: None,
        code: None,
        title: None,
        page: None,
        limit: None,
        sort_by: None,
        asc: None,
    }
}

fn price_params() -> PriceParams {
    PriceParams {
        id: None,
        code: None,
        description: None,
        base_price: None,
        unit_id: None,
        price_type: None,
        page: None,
        limit: None,
        sort_by: None,
        asc: None,
    }
}

#[test]
fn listing_budgets_of_a_project() {
    let mut params = budget_params();
    params.project_id = Some(12);
    let mut query = Budget::read_paged(&params, &PaginationPolicy::standard());
    assert_eq!(
        query.sql(),
        "SELECT * FROM budgets WHERE 1=1 AND project_id = $1 LIMIT $2 OFFSET $3"
    );
    let mut built = query.builder.build();
    assert_eq!(built.take_arguments().unwrap().unwrap().len(), 3);
    assert_eq!(
        Budget::count_paged(&params).sql(),
        "SELECT COUNT(*) FROM budgets WHERE 1=1 AND project_id = $1"
    );
}

#[test]
fn budget_filters_follow_the_column_order() {
    let params = BudgetParams {
        id: Some(1),
        project_id: Some(2),
        code: Some("PR-".to_string()),
        version_number: Some(3),
        name: Some("Budget".to_string()),
        status: Some(BudgetStatus::Approved),
        page: Some(2),
        limit: Some(5),
        sort_by: Some("name".to_string()),
        asc: Some(false),
    };
    assert_eq!(
        Budget::read_paged(&params, &PaginationPolicy::standard()).sql(),
        "SELECT * FROM budgets WHERE 1=1 AND project_id = $1 AND code LIKE $2 AND version_number = $3 AND status LIKE $4 AND name LIKE $5 ORDER BY name DESC LIMIT $6 OFFSET $7"
    );
    assert_eq!(
        Budget::count_paged(&params).sql(),
        "SELECT COUNT(*) FROM budgets WHERE 1=1 AND project_id = $1 AND code LIKE $2 AND version_number = $3 AND status LIKE $4 AND name LIKE $5 ORDER BY name DESC"
    );
}

#[test]
fn budget_request_becomes_a_filter_spec() {
    let mut params = budget_params();
    params.code = Some("PR-".to_string());
    params.status = Some(BudgetStatus::Draft);
    params.sort_by = Some("code".to_string());
    params.asc = Some(true);
    params.page = Some(2);
    params.limit = Some(9);
    let spec = params.filter_spec();
    let columns: Vec<&str> = spec.filters.iter().map(|f| f.column.as_str()).collect();
    assert_eq!(columns, vec!["project_id", "code", "version_number", "status", "name"]);
    assert!(matches!(spec.filters[0].value, FilterValue::Integer(None)));
    assert!(matches!(&spec.filters[1].value, FilterValue::Text(Some(code)) if code == "PR-"));
    assert!(matches!(&spec.filters[3].value, FilterValue::Enumerated(Some(name)) if name == "draft"));
    assert!(matches!(spec.filters[4].value, FilterValue::Text(None)));
    assert_eq!(spec.sort_by, Some("code".to_string()));
    assert_eq!(spec.asc, Some(true));
    assert_eq!(spec.page, Some(2));
    assert_eq!(spec.limit, Some(9));
}

#[test]
fn budget_reads_and_deletes_by_key() {
    assert_eq!(Budget::read_by_id(5).sql(), "SELECT * FROM budgets WHERE id = $1");
    assert_eq!(Budget::read_all().sql(), "SELECT * FROM budgets");
    assert_eq!(Budget::delete(5).sql(), "DELETE FROM budgets WHERE id = $1 RETURNING *");
}

#[test]
fn listing_elements() {
    let params = ElementParams {
        id: None,
        parent_id: Some(1),
        version_id: Some(2),
        element_type: Some(ElementType::Chapter),
        budget_code: Some("01".to_string()),
        description: Some("walls".to_string()),
        page: None,
        limit: None,
        sort_by: Some("created_by".to_string()),
        asc: None,
    };
    assert_eq!(
        Element::read_paged(&params, &PaginationPolicy::standard()).sql(),
        "SELECT * FROM elements WHERE 1=1 AND parent_id = $1 AND version_id = $2 AND element_type LIKE $3 AND budget_code LIKE $4 AND description LIKE $5 ORDER BY created_by ASC LIMIT $6 OFFSET $7"
    );
    assert_eq!(
        Element::count_paged(&params).sql(),
        "SELECT COUNT(*) FROM elements WHERE 1=1 AND parent_id = $1 AND version_id = $2 AND element_type LIKE $3 AND budget_code LIKE $4 AND description LIKE $5 ORDER BY created_by ASC"
    );
    assert_eq!(Element::read_by_id(1).sql(), "SELECT * FROM elements WHERE id = $1");
    assert_eq!(Element::read_all().sql(), "SELECT * FROM elements");
    assert_eq!(Element::delete(1).sql(), "DELETE FROM elements WHERE id = $1 RETURNING *");
}

#[test]
fn listing_decompositions() {
    let params = DescompositionParams {
        id: None,
        parent_price_id: Some(4),
        component_price_id: None,
        calculation_mode: Some(CalculationMode::Fixed),
        page: Some(1),
        limit: Some(2),
        sort_by: Some("fixed_quantity".to_string()),
        asc: None,
    };
    assert_eq!(
        Descomposition::read_paged(&params, &PaginationPolicy::standard()).sql(),
        "SELECT * FROM descompositions WHERE 1=1 AND parent_price_id = $1 AND calculation_mode LIKE $2 ORDER BY fixed_quantity ASC LIMIT $3 OFFSET $4"
    );
    assert_eq!(
        Descomposition::count_paged(&params).sql(),
        "SELECT COUNT(*) FROM descompositions WHERE 1=1 AND parent_price_id = $1 AND calculation_mode LIKE $2 ORDER BY fixed_quantity ASC"
    );
    assert_eq!(
        Descomposition::delete(3).sql(),
        "DELETE FROM descompositions WHERE id = $1 RETURNING *"
    );
}

#[test]
fn listing_prices() {
    let mut params = price_params();
    params.code = Some("C".to_string());
    params.base_price = Some(BigDecimal::from_str("12.50").unwrap());
    params.unit_id = Some(3);
    params.price_type = Some(PriceType::Decomposed);
    assert_eq!(
        Price::read_paged(&params, &PaginationPolicy::standard()).sql(),
        "SELECT * FROM prices WHERE 1=1 AND code LIKE $1 AND base_price = $2 AND unit_id = $3 AND price_type LIKE $4 LIMIT $5 OFFSET $6"
    );
    assert_eq!(
        Price::count_paged(&params).sql(),
        "SELECT COUNT(*) FROM prices WHERE 1=1 AND code LIKE $1 AND base_price = $2 AND unit_id = $3 AND price_type LIKE $4"
    );
}

#[test]
fn prices_with_a_decimal_that_cannot_be_encoded_are_refused() {
    let mut params = price_params();
    params.base_price = Some(BigDecimal::from_str("1e-40000").unwrap());
    assert!(Price::try_read_paged(&params, &PaginationPolicy::standard()).is_none());
    assert!(Price::try_count_paged(&params).is_none());
    params.base_price = Some(BigDecimal::from_str("0.01").unwrap());
    assert_eq!(
        Price::try_count_paged(&params).unwrap().sql(),
        "SELECT COUNT(*) FROM prices WHERE 1=1 AND base_price = $1"
    );
    assert_eq!(
        Price::try_read_paged(&params, &PaginationPolicy::standard()).unwrap().sql(),
        "SELECT * FROM prices WHERE 1=1 AND base_price = $1 LIMIT $2 OFFSET $3"
    );
}

#[test]
fn listing_projects() {
    let mut params = project_params();
    params.code = Some("PR-TEST".to_string());
    params.title = Some("Bridge".to_string());
    params.sort_by = Some("title".to_string());
    let mut page = Project::read_paged(&params, &PaginationPolicy::standard());
    assert_eq!(
        page.sql(),
        "SELECT * FROM projects WHERE 1=1 AND code LIKE $1 AND title LIKE $2 ORDER BY title ASC LIMIT $3 OFFSET $4"
    );
    let mut built = page.builder.build();
    let shown = format!("{:?}", built.take_arguments().unwrap().unwrap());
    // %PR-TEST%, then %Bridge%
    assert!(shown.contains(
        "0, 0, 0, 9, 37, 80, 82, 45, 84, 69, 83, 84, 37, 0, 0, 0, 8, 37, 66, 114, 105, 100, 103, 101, 37"
    ));
    assert_eq!(
        Project::count_paged(&params).sql(),
        "SELECT COUNT(*) FROM projects WHERE 1=1 AND code LIKE $1 AND title LIKE $2 ORDER BY title ASC"
    );
}

#[test]
fn a_title_alone_filters_the_column_title_by_substring() {
    let mut params = project_params();
    params.title = Some("Bridge".to_string());
    let mut page = Project::read_paged(&params, &PaginationPolicy::standard());
    assert_eq!(
        page.sql(),
        "SELECT * FROM projects WHERE 1=1 AND title LIKE $1 LIMIT $2 OFFSET $3"
    );
    let mut built = page.builder.build();
    let shown = format!("{:?}", built.take_arguments().unwrap().unwrap());
    assert!(shown.contains("0, 0, 0, 8, 37, 66, 114, 105, 100, 103, 101, 37"));
    assert!(backend::matching::text_filter_matches("Bridge", "Old Bridge Road"));
    assert!(!backend::matching::text_filter_matches("Bridge", "Old bridge road"));
}

#[test]
fn unsorted_counts_leave_the_sort_directive_out() {
    let mut params = budget_params();
    params.project_id = Some(12);
    params.sort_by = Some("name".to_string());
    params.asc = Some(false);
    let mut query = Budget::count_unsorted(&params);
    assert_eq!(query.sql(), "SELECT COUNT(*) FROM budgets WHERE 1=1 AND project_id = $1");
    let mut built = query.builder.build();
    assert_eq!(built.take_arguments().unwrap().unwrap().len(), 1);
    assert_eq!(
        Budget::count_paged(&params).sql(),
        "SELECT COUNT(*) FROM budgets WHERE 1=1 AND project_id = $1 ORDER BY name DESC"
    );
    assert_eq!(
        Budget::try_count_unsorted(&params).unwrap().sql(),
        "SELECT COUNT(*) FROM budgets WHERE 1=1 AND project_id = $1"
    );
    let mut params = project_params();
    params.title = Some("Bridge".to_string());
    params.sort_by = Some("code".to_string());
    assert_eq!(
        Project::count_unsorted(&params).sql(),
        "SELECT COUNT(*) FROM projects WHERE 1=1 AND title LIKE $1"
    );
    let mut params = price_params();
    params.sort_by = Some("code".to_string());
    params.base_price = Some(BigDecimal::from_str("1e-40000").unwrap());
    assert!(Price::try_count_unsorted(&params).is_none());
    params.base_price = Some(BigDecimal::from_str("2").unwrap());
    assert_eq!(
        Price::try_count_unsorted(&params).unwrap().sql(),
        "SELECT COUNT(*) FROM prices WHERE 1=1 AND base_price = $1"
    );
}

#[test]
fn decimals_with_a_scale_out_of_range_are_refused_without_asking_the_driver() {
    let mut params = price_params();
    params.base_price = Some(BigDecimal::new(1.into(), i64::MIN));
    assert!(!params.is_bindable());
    assert!(Price::try_read_paged(&params, &PaginationPolicy::standard()).is_none());
    assert!(Price::try_count_paged(&params).is_none());
    assert!(Price::try_count_unsorted(&params).is_none());
}

#[test]
fn requests_know_whether_their_values_fit() {
    let mut params = price_params();
    assert!(params.is_bindable());
    params.code = Some("C".to_string());
    params.base_price = Some(BigDecimal::from_str("1.25").unwrap());
    assert!(params.is_bindable());
    params.base_price = Some(BigDecimal::from_str("1e-40000").unwrap());
    assert!(!params.is_bindable());
    assert!(budget_params().is_bindable());
    assert!(project_params().is_bindable());
}

#[test]
fn a_page_too_far_is_refused_by_the_try_functions() {
    let mut params = project_params();
    params.page = Some(u32::MAX);
    params.limit = Some(u32::MAX);
    assert!(Project::try_read_paged(&params, &PaginationPolicy::standard()).is_none());
    assert!(Project::try_count_paged(&params).is_some());
    let mut params = budget_params();
    params.page = Some(u32::MAX);
    params.limit = Some(u32::MAX);
    assert!(Budget::try_read_paged(&params, &PaginationPolicy::standard()).is_none());
}

#[test]
fn one_entity_with_code_x1_and_a_page_of_one() {
    // the entity is created with code X1 ...
    let item = NewProject { code: "X1".to_string(), title: None };
    let insert = Project::create(&item);
    assert_eq!(insert.sql, "INSERT INTO projects (code, title) VALUES ($1, $2) RETURNING *");
    assert_eq!(insert.columns, vec!["code".to_string(), "title".to_string()]);
    assert!(matches!(&insert.values[0], ColumnValue::Text(code) if code == "X1"));
    // ... and listed by that code, one row to the page
    let mut params = project_params();
    params.code = Some("X1".to_string());
    params.limit = Some(1);
    let mut page = Project::read_paged(&params, &PaginationPolicy::standard());
    assert_eq!(
        page.sql(),
        "SELECT * FROM projects WHERE 1=1 AND code LIKE $1 LIMIT $2 OFFSET $3"
    );
    let mut built = page.builder.build();
    let shown = format!("{:?}", built.take_arguments().unwrap().unwrap());
    // %X1%, then limit 1 and offset 0
    assert!(shown.contains(
        "0, 0, 0, 4, 37, 88, 49, 37, 0, 0, 0, 8, 0, 0, 0, 0, 0, 0, 0, 1, 0, 0, 0, 8, 0, 0, 0, 0, 0, 0, 0, 0"
    ));
    let mut count = Project::count_paged(&params);
    assert_eq!(count.sql(), "SELECT COUNT(*) FROM projects WHERE 1=1 AND code LIKE $1");
    let mut built = count.builder.build();
    let shown = format!("{:?}", built.take_arguments().unwrap().unwrap());
    assert!(shown.contains("0, 0, 0, 4, 37, 88, 49, 37"));
    // the stored code X1 is among what the filter selects
    assert!(backend::matching::text_filter_matches("X1", "X1"));
}

#[test]
fn listing_measurements_in_two_parts() {
    let params = MeasurementParams {
        id: None,
        measurement_text: Some("wall".to_string()),
        page: Some(2),
        limit: Some(4),
        sort_by: Some("measured_quantity".to_string()),
        asc: Some(false),
    };
    let mut query = Measurement::filtered_page(&params);
    assert_eq!(
        query.sql(),
        "SELECT * FROM measurements WHERE 1=1 AND measurement_text LIKE $1"
    );
    // the caller's part: the condition on the quantity
    backend::filterable::push_equals_clause(&mut query, "measured_quantity");
    query.builder.push_bind(2.5);
    let paged = Measurement::read_paged(query, &params, &PaginationPolicy::standard());
    assert_eq!(
        paged.sql(),
        "SELECT * FROM measurements WHERE 1=1 AND measurement_text LIKE $1 AND measured_quantity = $2 ORDER BY measured_quantity DESC LIMIT $3 OFFSET $4"
    );
    let query = Measurement::filtered_count(&params);
    // as it stands, the unsorted count
    assert_eq!(
        query.sql(),
        "SELECT COUNT(*) FROM measurements WHERE 1=1 AND measurement_text LIKE $1"
    );
    let counted = Measurement::count_paged(query, &params);
    assert_eq!(
        counted.sql(),
        "SELECT COUNT(*) FROM measurements WHERE 1=1 AND measurement_text LIKE $1 ORDER BY measured_quantity DESC"
    );
    assert!(params.is_paged());
    assert_eq!(params.limit_sql(10), 4);
    assert_eq!(params.offset_sql(1, 10), 4);
}

#[test]
fn measurement_statements() {
    assert_eq!(Measurement::read_by_id(9).sql(), "SELECT * FROM measurements WHERE id = $1");
    assert_eq!(Measurement::read_all().sql(), "SELECT * FROM measurements");
    assert_eq!(
        Measurement::delete(9).sql(),
        "DELETE FROM measurements WHERE id = $1 RETURNING *"
    );
}
