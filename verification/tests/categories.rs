use finance_cli::category::{default_categories, Category, CategoryType};
use finance_cli::db::CategoryRepository;
use std::collections::HashSet;

#[test]
fn test_category_creation() {
    let cat = Category::expense("Office Supplies")
        .with_schedule_c("L18")
        .with_description("Business office supplies");

    assert_eq!(cat.name, "Office Supplies");
    assert_eq!(cat.category_type, CategoryType::Expense);
    assert_eq!(cat.schedule_c_line, Some("L18".to_string()));
    assert!(cat.is_tax_deductible);
    assert!(cat.is_active);
}

#[test]
fn test_default_categories() {
    let categories = default_categories();
    assert!(!categories.is_empty());

    let expense_count = categories
        .iter()
        .filter(|c| c.category_type == CategoryType::Expense)
        .count();
    assert!(expense_count > 0);
}

#[test]
fn test_default_category_names_are_unique() {
    let categories = default_categories();
    let mut names: Vec<&str> = categories.iter().map(|c| c.name.as_str()).collect();
    names.sort_unstable();
    let len_before = names.len();
    names.dedup();
    assert_eq!(len_before, names.len(), "duplicate category names in defaults");
}

#[test]
fn test_default_category_parents_resolve_and_precede_children() {
    let categories = default_categories();
    let mut seen_ids = HashSet::new();
    for cat in &categories {
        if let Some(parent_id) = cat.parent_id {
            assert!(
                seen_ids.contains(&parent_id),
                "child '{}' appears before (or without) its parent in default_categories()",
                cat.name
            );
        }
        seen_ids.insert(cat.id);
    }
}

/// The store that `insert_defaults` seeds, kept as the names it holds.
#[test]
fn test_category_defaults() {
    let repo = CategoryRepository::new();
    let stored: Vec<String> = Vec::new();

    let inserted = repo.insert_defaults(&stored);

    let count = inserted.len() as i64;
    assert!(count > 0);

    let office = inserted.iter().find(|c| c.name == "Office Expense");
    assert!(office.is_some());
    assert_eq!(office.unwrap().schedule_c_line, Some("L18".to_string()));
}

#[test]
fn default_catalogue_has_forty_four_categories() {
    let categories = default_categories();
    assert_eq!(categories.len(), 44);
    let on = |prefix: &str| {
        categories
            .iter()
            .filter(|c| c.schedule_c_line.as_deref().map_or(false, |l| l.starts_with(prefix)))
            .count()
    };
    assert_eq!(on("L"), 13);
    assert_eq!(on("A-"), 10);
    assert_eq!(on("E-"), 16);
    let personal = categories.iter().filter(|c| c.category_type == CategoryType::Personal).count();
    assert_eq!(personal, 2);
    let income = categories.iter().filter(|c| c.category_type == CategoryType::Income).count();
    assert_eq!(income, 4);
    assert_eq!(categories[0].name, "Business Income");
    assert_eq!(categories[43].name, "Transfer");
    assert_eq!(categories[43].sort_order, 81);
}

#[test]
fn default_categories_are_roots() {
    assert!(default_categories().iter().all(|c| c.is_root() && c.is_active));
}

#[test]
fn defaults_seeded_twice_add_nothing() {
    let repo = CategoryRepository::new();
    let first = repo.insert_defaults(&Vec::new());
    assert_eq!(first.len(), 44);
    let names: Vec<String> = first.iter().map(|c| c.name.clone()).collect();
    let second = repo.insert_defaults(&names);
    assert!(second.is_empty());
}

#[test]
fn defaults_skip_existing_names() {
    let repo = CategoryRepository::new();
    let existing = vec!["Office Expense".to_string(), "Travel".to_string(), "Groceries".to_string()];
    let inserted = repo.insert_defaults(&existing);
    assert_eq!(inserted.len(), 42);
    assert!(inserted.iter().all(|c| c.name != "Office Expense" && c.name != "Travel"));
    assert_eq!(inserted[0].name, "Business Income");
    assert!(inserted.iter().all(|c| c.parent_id.is_none()));
}

#[test]
fn schedule_lines_make_categories_deductible() {
    for c in default_categories() {
        if c.schedule_c_line.is_some() {
            assert!(c.is_tax_deductible, "{}", c.name);
        } else {
            assert!(!c.is_tax_deductible, "{}", c.name);
        }
    }
}

#[test]
fn category_activation() {
    let mut c = Category::income("Consulting");
    assert!(c.is_new());
    c.deactivate();
    assert!(!c.is_active);
    c.activate();
    assert!(c.is_active);
    assert_eq!(c.sort_order, 100);
    let c = c.with_sort_order(5);
    assert_eq!(c.sort_order, 5);
}
