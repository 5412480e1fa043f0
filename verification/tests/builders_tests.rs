//! The environment and categories builders and their rendered files.

use allure::categories;
use allure::environment;
use allure::CategoriesBuilder;
use allure::Category;
use allure::EnvironmentBuilder;
use allure::Status;
use allure::DEFAULT_RESULTS_DIR;

#[test]
fn test_environment_builder() {
    let builder = environment()
        .set("key1".to_string(), "value1".to_string())
        .set("key2".to_string(), "value2".to_string());

    assert_eq!(builder.properties.len(), 2);
}

#[test]
fn test_categories_builder() {
    let builder = categories()
        .with_product_defects()
        .with_test_defects()
        .with_category(Category::new("Custom".to_string()).with_status(Status::Skipped));

    assert_eq!(builder.categories.len(), 3);
}

#[test]
fn test_builder_defaults_use_default_dir() {
    let env_builder = EnvironmentBuilder::default();
    assert_eq!(env_builder.results_dir, DEFAULT_RESULTS_DIR);

    let cat_builder = CategoriesBuilder::default();
    assert_eq!(cat_builder.results_dir, DEFAULT_RESULTS_DIR);
}

#[test]
fn test_environment_render_escapes_in_order() {
    let f = environment()
        .set("os".to_string(), "linux".to_string())
        .set("key=odd".to_string(), "a\\b\nc\rd".to_string())
        .render();
    assert_eq!(f.name, "environment.properties");
    assert!(f.content.contains("os=linux\n"));
    // Backslashes double first, then line breaks and the equals sign gain
    // single backslashes; nothing is escaped twice.
    assert!(f.content.contains("key\\=odd=a\\\\b\\nc\\rd\n"));
}

#[test]
fn test_categories_render_includes_defaults() {
    let f = categories()
        .with_product_defects()
        .with_test_defects()
        .with_category(
            Category::new("Custom".to_string())
                .with_status(Status::Skipped)
                .with_message_regex("oops".to_string())
                .with_trace_regex("trace".to_string())
                .as_flaky(),
        )
        .render();
    assert_eq!(f.name, "categories.json");
    let cats: serde_json::Value = serde_json::from_str(&f.content).unwrap();
    let arr = cats.as_array().unwrap();
    assert_eq!(arr.len(), 3);
    assert_eq!(arr[0]["name"], "Product defects");
    assert_eq!(arr[0]["matchedStatuses"][0], "failed");
    assert_eq!(arr[1]["name"], "Test defects");
    assert_eq!(arr[2]["name"], "Custom");
    assert_eq!(arr[2]["messageRegex"], "oops");
    assert_eq!(arr[2]["traceRegex"], "trace");
    assert_eq!(arr[2]["flaky"], true);
}

#[test]
fn test_prelude_imports() {
    let _ = allure::prelude::Status::Passed;
    let _ = allure::prelude::Severity::Critical;
}
