use backend::descriptor::EntityDescriptor;
use backend::models::budget::Budget;
use backend::models::budget::BudgetStatus;
use backend::models::budget::NewBudget;
use backend::models::descomposition::CalculationMode;
use backend::models::descomposition::Descomposition;
use backend::models::descomposition::NewDescomposition;
use backend::models::element::Element;
use backend::models::element::ElementType;
use backend::models::element::NewElement;
use backend::models::measurement::Measurement;
use backend::models::measurement::NewMeasurement;
use backend::models::price::NewPrice;
use backend::models::price::Price;
use backend::models::price::PriceType;
use backend::models::project::NewProject;
use backend::models::project::Project;
use backend::record::column_values;
use backend::record::same_text;
use backend::record::ColumnValue;
use sqlx::types::BigDecimal;
use std::str::FromStr;

fn names(items: &[&str]) -> Vec<String> {
    items.iter().map(|item| item.to_string()).collect()
}

fn thing() -> Project {
    Project { id: 7, code: "T-1".to_string(), title: "Thing".to_string(), created_at: 0, updated_at: 0 }
}

fn new_thing() -> NewProject {
    NewProject { code: "T-2".to_string(), title: Some("Other".to_string()) }
}

/// What the values show of themselves.
fn shown(values: &[ColumnValue]) -> Vec<String> {
    values.iter().map(|value| format!("{:?}", value)).collect()
}

fn budget() -> Budget {
    Budget {
        id: 11,
        project_id: 2,
        code: "B-1".to_string(),
        version_number: 3,
        name: "First".to_string(),
        status: BudgetStatus::Submitted,
        created_at: 0,
        updated_at: 0,
    }
}

fn sample() -> EntityDescriptor {
    EntityDescriptor {
        table: "things".to_string(),
        insert_columns: names(&["code", "title"]),
        update_columns: names(&["title"]),
        audit_columns: names(&["created_at"]),
    }
}

#[test]
fn base_texts_name_the_table() {
    let entity = sample();
    assert_eq!(entity.select_all_sql(), "SELECT * FROM things");
    assert_eq!(entity.select_where_sql(), "SELECT * FROM things WHERE 1=1");
    assert_eq!(entity.count_where_sql(), "SELECT COUNT(*) FROM things WHERE 1=1");
    assert_eq!(entity.select_by_id_sql(), "SELECT * FROM things WHERE id = ");
    assert_eq!(entity.delete_by_id_sql(), "DELETE FROM things WHERE id = ");
}

#[test]
fn insert_statement_has_one_placeholder_for_each_column() {
    let statement = sample().insert_statement(&new_thing());
    assert_eq!(
        statement.sql,
        "INSERT INTO things (code, title) VALUES ($1, $2) RETURNING *"
    );
    assert_eq!(statement.columns, names(&["code", "title"]));
    assert_eq!(
        shown(&statement.values),
        vec!["Text(\"T-2\")", "OptionalText(Some(\"Other\"))"]
    );
}

#[test]
fn update_statement_binds_the_key_first() {
    let statement = sample().update_statement(&thing());
    assert_eq!(statement.sql, "UPDATE things SET title = $2 WHERE id = $1 RETURNING *");
    assert_eq!(statement.columns, names(&["id", "title"]));
    assert_eq!(shown(&statement.values), vec!["Integer(7)", "Text(\"Thing\")"]);
}

#[test]
fn column_values_follow_the_columns() {
    let values = column_values(&thing(), &names(&["title", "weight", "id", "code", "title"]));
    assert_eq!(
        shown(&values),
        vec![
            "Text(\"Thing\")",
            "Deferred",
            "Integer(7)",
            "Text(\"T-1\")",
            "Text(\"Thing\")"
        ]
    );
    assert_eq!(shown(&column_values(&thing(), &names(&[]))), Vec::<String>::new());
}

#[test]
fn same_text_compares_character_by_character() {
    assert!(same_text("code", "code"));
    assert!(same_text("", ""));
    assert!(!same_text("code", "Code"));
    assert!(!same_text("code", "codes"));
}

#[test]
fn statements_of_an_entity_with_many_columns() {
    let mut entity = sample();
    entity.insert_columns = (1..=11).map(|n| format!("c{}", n)).collect();
    entity.update_columns = (1..=11).map(|n| format!("c{}", n)).collect();
    let insert = entity.insert_statement(&thing());
    assert!(insert.sql.ends_with("VALUES ($1, $2, $3, $4, $5, $6, $7, $8, $9, $10, $11) RETURNING *"));
    assert_eq!(insert.values.len(), 11);
    let update = entity.update_statement(&thing());
    assert!(update.sql.contains("c9 = $10, c10 = $11, c11 = $12 WHERE id = $1"));
    assert_eq!(update.columns.len(), 12);
}

#[test]
fn sortable_columns_are_the_key_and_the_named_columns() {
    let entity = sample();
    assert!(entity.is_sortable(&"id".to_string()));
    assert!(entity.is_sortable(&"code".to_string()));
    assert!(entity.is_sortable(&"title".to_string()));
    assert!(entity.is_sortable(&"created_at".to_string()));
    assert!(!entity.is_sortable(&"updated_at".to_string()));
    assert!(!entity.is_sortable(&"CODE".to_string()));
    assert!(!entity.is_sortable(&"code; DROP TABLE things".to_string()));
    assert!(!entity.is_sortable(&"".to_string()));
}

#[test]
fn well_formed_descriptors_stay_within_the_parameter_limit() {
    assert!(sample().is_well_formed());
    let mut wide = sample();
    wide.insert_columns = (0..65536).map(|n| format!("c{}", n)).collect();
    assert!(!wide.is_well_formed());
    let mut wide = sample();
    wide.update_columns = (0..65535).map(|n| format!("c{}", n)).collect();
    assert!(!wide.is_well_formed());
    wide.update_columns.pop();
    assert!(wide.is_well_formed());
}

#[test]
fn budget_descriptor() {
    let entity = Budget::descriptor();
    assert_eq!(entity.table, "budgets");
    assert_eq!(
        entity.insert_columns,
        names(&["project_id", "code", "version_number", "status", "name"])
    );
    assert_eq!(entity.update_columns, entity.insert_columns);
    assert_eq!(entity.audit_columns, names(&["created_at", "updated_at"]));
    let item = NewBudget {
        project_id: 2,
        code: "B-1".to_string(),
        version_number: 3,
        name: "First".to_string(),
        status: BudgetStatus::Draft,
    };
    let insert = Budget::create(&item);
    assert_eq!(
        insert.sql,
        "INSERT INTO budgets (project_id, code, version_number, status, name) VALUES ($1, $2, $3, $4, $5) RETURNING *"
    );
    assert_eq!(insert.columns, entity.insert_columns);
    assert_eq!(
        shown(&insert.values),
        vec![
            "Integer(2)",
            "Text(\"B-1\")",
            "Integer(3)",
            "Enumerated(\"draft\")",
            "Text(\"First\")"
        ]
    );
    let update = Budget::update(&budget());
    assert_eq!(
        update.sql,
        "UPDATE budgets SET project_id = $2, code = $3, version_number = $4, status = $5, name = $6 WHERE id = $1 RETURNING *"
    );
    assert_eq!(
        update.columns,
        names(&["id", "project_id", "code", "version_number", "status", "name"])
    );
    assert_eq!(
        shown(&update.values),
        vec![
            "Integer(11)",
            "Integer(2)",
            "Text(\"B-1\")",
            "Integer(3)",
            "Enumerated(\"submitted\")",
            "Text(\"First\")"
        ]
    );
}

#[test]
fn element_descriptor() {
    let entity = Element::descriptor();
    assert_eq!(entity.table, "elements");
    assert_eq!(
        entity.insert_columns,
        names(&["project_id", "parent_id", "version_id", "element_type", "budget_code", "description"])
    );
    assert_eq!(
        entity.audit_columns,
        names(&["created_at", "updated_at", "created_by", "updated_by"])
    );
    let element = Element {
        id: 5,
        project_id: 1,
        parent_id: None,
        version_id: 2,
        element_type: ElementType::Chapter,
        budget_code: "01".to_string(),
        description: Some("walls".to_string()),
        created_at: 0,
        updated_at: 0,
        created_by: 1,
        updated_by: 1,
    };
    let update = Element::update(&element);
    assert_eq!(
        update.sql,
        "UPDATE elements SET project_id = $2, parent_id = $3, version_id = $4, element_type = $5, budget_code = $6, description = $7 WHERE id = $1 RETURNING *"
    );
    assert_eq!(
        shown(&update.values),
        vec![
            "Integer(5)",
            "Integer(1)",
            "OptionalInteger(None)",
            "Integer(2)",
            "Enumerated(\"chapter\")",
            "Text(\"01\")",
            "OptionalText(Some(\"walls\"))"
        ]
    );
    let item = NewElement {
        project_id: 1,
        parent_id: Some(5),
        version_id: 2,
        element_type: ElementType::Line,
        budget_code: "01.01".to_string(),
        description: None,
    };
    let insert = Element::create(&item);
    assert_eq!(
        insert.sql,
        "INSERT INTO elements (project_id, parent_id, version_id, element_type, budget_code, description) VALUES ($1, $2, $3, $4, $5, $6) RETURNING *"
    );
    assert_eq!(
        shown(&insert.values),
        vec![
            "Integer(1)",
            "OptionalInteger(Some(5))",
            "Integer(2)",
            "Enumerated(\"line\")",
            "Text(\"01.01\")",
            "OptionalText(None)"
        ]
    );
}

#[test]
fn descomposition_descriptor() {
    let entity = Descomposition::descriptor();
    assert_eq!(entity.table, "descompositions");
    let item = NewDescomposition {
        parent_price_id: 8,
        component_price_id: 9,
        calculation_mode: CalculationMode::Formula,
    };
    let insert = Descomposition::create(&item);
    assert_eq!(
        insert.sql,
        "INSERT INTO descompositions (parent_price_id, component_price_id, calculation_mode, fixed_quantity, params_json) VALUES ($1, $2, $3, $4, $5) RETURNING *"
    );
    assert_eq!(
        insert.columns,
        names(&["parent_price_id", "component_price_id", "calculation_mode", "fixed_quantity", "params_json"])
    );
    assert_eq!(
        shown(&insert.values),
        vec!["Integer(8)", "Integer(9)", "Enumerated(\"formula\")", "Deferred", "Deferred"]
    );
    let row = Descomposition {
        id: 4,
        parent_price_id: 8,
        component_price_id: 9,
        calculation_mode: CalculationMode::Fixed,
        created_at: 0,
        updated_at: 0,
    };
    let update = Descomposition::update(&row);
    assert_eq!(
        update.sql,
        "UPDATE descompositions SET parent_price_id = $2, component_price_id = $3, calculation_mode = $4, fixed_quantity = $5, params_json = $6 WHERE id = $1 RETURNING *"
    );
    assert_eq!(
        shown(&update.values),
        vec![
            "Integer(4)",
            "Integer(8)",
            "Integer(9)",
            "Enumerated(\"fixed\")",
            "Deferred",
            "Deferred"
        ]
    );
}

#[test]
fn measurement_descriptor() {
    assert_eq!(Measurement::descriptor().table, "measurements");
    let item = NewMeasurement {
        element_id: 1,
        price_id: 2,
        measurement_text: Some("north wall".to_string()),
    };
    let insert = Measurement::create(&item);
    assert_eq!(
        insert.sql,
        "INSERT INTO measurements (element_id, price_id, params_json, measurement_text, measured_quantity) VALUES ($1, $2, $3, $4, $5) RETURNING *"
    );
    assert_eq!(
        shown(&insert.values),
        vec![
            "Integer(1)",
            "Integer(2)",
            "Deferred",
            "OptionalText(Some(\"north wall\"))",
            "Deferred"
        ]
    );
    let row = Measurement {
        id: 6,
        element_id: 1,
        price_id: 2,
        measurement_text: None,
        created_at: 0,
        updated_at: 0,
    };
    let update = Measurement::update(&row);
    assert_eq!(
        update.sql,
        "UPDATE measurements SET element_id = $2, price_id = $3, params_json = $4, measurement_text = $5, measured_quantity = $6 WHERE id = $1 RETURNING *"
    );
    assert_eq!(
        shown(&update.values),
        vec![
            "Integer(6)",
            "Integer(1)",
            "Integer(2)",
            "Deferred",
            "OptionalText(None)",
            "Deferred"
        ]
    );
}

#[test]
fn price_descriptor() {
    assert_eq!(Price::descriptor().table, "prices");
    let item = NewPrice {
        version_id: 1,
        code: "C-1".to_string(),
        description: "Concrete".to_string(),
        base_price: BigDecimal::from_str("12.50").unwrap(),
        unit_id: 3,
        price_type: PriceType::Base,
    };
    let insert = Price::create(&item);
    assert_eq!(
        insert.sql,
        "INSERT INTO prices (version_id, code, description, base_price, unit_id, price_type) VALUES ($1, $2, $3, $4, $5, $6) RETURNING *"
    );
    assert_eq!(insert.values.len(), 6);
    assert!(matches!(&insert.values[0], ColumnValue::Integer(1)));
    assert!(matches!(&insert.values[1], ColumnValue::Text(code) if code == "C-1"));
    assert!(matches!(&insert.values[2], ColumnValue::Text(text) if text == "Concrete"));
    assert!(matches!(&insert.values[3], ColumnValue::Decimal(price) if *price == item.base_price));
    assert!(matches!(&insert.values[4], ColumnValue::Integer(3)));
    assert!(matches!(&insert.values[5], ColumnValue::Enumerated(name) if name == "base"));
    let row = Price {
        id: 10,
        version_id: 1,
        code: "C-1".to_string(),
        description: "Concrete".to_string(),
        base_price: BigDecimal::from_str("13").unwrap(),
        unit_id: 3,
        price_type: PriceType::Decomposed,
        created_at: 0,
        updated_at: 0,
    };
    let update = Price::update(&row);
    assert_eq!(
        update.columns,
        names(&["id", "version_id", "code", "description", "base_price", "unit_id", "price_type"])
    );
    assert!(matches!(&update.values[0], ColumnValue::Integer(10)));
    assert!(matches!(&update.values[4], ColumnValue::Decimal(price) if *price == row.base_price));
    assert!(matches!(&update.values[6], ColumnValue::Enumerated(name) if name == "decomposed"));
}

#[test]
fn project_descriptor() {
    assert_eq!(Project::descriptor().table, "projects");
    let item = NewProject { code: "PR-1".to_string(), title: None };
    let insert = Project::create(&item);
    assert_eq!(insert.sql, "INSERT INTO projects (code, title) VALUES ($1, $2) RETURNING *");
    assert_eq!(shown(&insert.values), vec!["Text(\"PR-1\")", "OptionalText(None)"]);
    let row = Project {
        id: 3,
        code: "PR-1".to_string(),
        title: "Bridge".to_string(),
        created_at: 0,
        updated_at: 0,
    };
    let update = Project::update(&row);
    assert_eq!(update.sql, "UPDATE projects SET code = $2, title = $3 WHERE id = $1 RETURNING *");
    assert_eq!(
        shown(&update.values),
        vec!["Integer(3)", "Text(\"PR-1\")", "Text(\"Bridge\")"]
    );
}
