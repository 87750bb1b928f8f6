use backend::constants::DEFAULT_LIMIT;
use backend::constants::DEFAULT_PAGE;
use backend::models::budget::BudgetParams;
use backend::models::descomposition::DescompositionParams;
use backend::models::element::ElementParams;
use backend::models::price::PriceParams;
use backend::models::project::ProjectParams;
use backend::paginable::is_paged;
use backend::paginable::limit_or;
use backend::paginable::offset_or;
use backend::paginable::page_or;
use backend::paginable::Paginable;

fn project_params(page: Option<u32>, limit: Option<u32>) -> ProjectParams {
    ProjectParams {
        id: None,
        code: None,
        title: None,
        page,
        limit,
        sort_by: None,
        asc: None,
    }
}

fn budget_params(page: Option<u32>, limit: Option<u32>) -> BudgetParams {
    BudgetParams {
        id: None,
        project_id: None,
        code: None,
        version_number: None,
        name: None,
        status: None,
        page,
        limit,
        sort_by: None,
        asc: None,
    }
}

#[test]
fn the_defaults_are_the_first_page_of_ten() {
    assert_eq!(DEFAULT_PAGE, 1);
    assert_eq!(DEFAULT_LIMIT, 10);
}

#[test]
fn limit_or_prefers_the_supplied_limit() {
    assert_eq!(limit_or(Some(25), 10), 25);
    assert_eq!(limit_or(None, 10), 10);
    assert_eq!(limit_or(Some(0), 10), 0);
    assert_eq!(limit_or(Some(u32::MAX), 10), 4294967295);
    assert_eq!(page_or(Some(3), 1), 3);
    assert_eq!(page_or(None, 1), 1);
}

#[test]
fn offset_is_pages_before_times_limit() {
    assert_eq!(offset_or(Some(1), Some(10), 1, 10), 0);
    assert_eq!(offset_or(Some(3), Some(20), 1, 10), 40);
    assert_eq!(offset_or(Some(7), None, 1, 10), 60);
    assert_eq!(offset_or(None, Some(50), 2, 10), 50);
    assert_eq!(offset_or(Some(65537), Some(65537), 1, 10), 4295032832);
}

#[test]
fn offset_of_page_zero_is_zero() {
    assert_eq!(offset_or(Some(0), Some(20), 1, 10), 0);
    assert_eq!(offset_or(Some(0), None, 1, 10), 0);
    assert_eq!(offset_or(None, Some(20), 0, 10), 0);
}

#[test]
fn offset_without_page_and_limit_is_zero_under_the_defaults() {
    assert_eq!(offset_or(None, None, DEFAULT_PAGE, DEFAULT_LIMIT), 0);
    assert_eq!(project_params(None, None).offset(), 0);
}

#[test]
fn is_paged_tells_whether_page_or_limit_was_supplied() {
    assert!(!is_paged(None, None));
    assert!(is_paged(Some(1), None));
    assert!(is_paged(None, Some(10)));
    assert!(is_paged(Some(0), Some(0)));
}

#[test]
fn every_request_type_tells_whether_it_is_paged() {
    assert!(!project_params(None, None).is_paged());
    assert!(project_params(Some(2), None).is_paged());
    assert!(!budget_params(None, None).is_paged());
    assert!(budget_params(None, Some(5)).is_paged());
    let element = ElementParams {
        id: None,
        parent_id: None,
        version_id: None,
        element_type: None,
        budget_code: None,
        description: None,
        page: None,
        limit: None,
        sort_by: None,
        asc: None,
    };
    assert!(!element.is_paged());
    let price = PriceParams {
        id: None,
        code: None,
        description: None,
        base_price: None,
        unit_id: None,
        price_type: None,
        page: Some(1),
        limit: Some(1),
        sort_by: None,
        asc: None,
    };
    assert!(price.is_paged());
    let decomposition = DescompositionParams {
        id: None,
        parent_price_id: None,
        component_price_id: None,
        calculation_mode: None,
        page: None,
        limit: Some(3),
        sort_by: None,
        asc: None,
    };
    assert!(decomposition.is_paged());
}

#[test]
fn limit_sql_and_offset_sql_take_their_defaults_as_arguments() {
    let params = budget_params(None, None);
    assert_eq!(params.limit_sql(25), 25);
    assert_eq!(params.offset_sql(3, 25), 50);
    let params = budget_params(Some(4), Some(5));
    assert_eq!(params.limit_sql(25), 5);
    assert_eq!(params.offset_sql(3, 25), 15);
    let params = budget_params(Some(0), Some(5));
    assert_eq!(params.offset_sql(3, 25), 0);
}

#[test]
fn paginable_applies_the_process_wide_defaults() {
    let params = project_params(None, None);
    assert_eq!(params.page(), None);
    assert_eq!(params.limit(), None);
    assert_eq!(params.page_or_default(), 1);
    assert_eq!(params.limit_or_default(), 10);
    assert_eq!(params.offset(), 0);
    let params = project_params(Some(3), None);
    assert_eq!(params.page(), Some(3));
    assert_eq!(params.page_or_default(), 3);
    assert_eq!(params.offset(), 20);
    let params = project_params(Some(0), Some(7));
    assert_eq!(params.limit_or_default(), 7);
    assert_eq!(params.offset(), 0);
}
