use fab::preferences::{
    checked_items, chosen_from_indices, default_limit, migrate_preferences, possible_priorities,
    reset_preferences, Preferences,
};

#[test]
fn first_run_defaults() {
    let prefs = Preferences::default();
    assert_eq!(vec!["high".to_string(), "needs-triage".to_string()], prefs.summary_task_priority);
    assert_eq!(vec!["high".to_string()], prefs.default_task_priority);
    assert_eq!(20, prefs.default_limit);
    assert_eq!("updated", prefs.default_sort);
    assert_eq!("20", prefs.default_limit_str);
    assert_eq!("20", default_limit());
}

#[test]
fn migration_rederives_the_limit_string() {
    let mut prefs = Preferences::default();
    prefs.default_limit = 35;
    prefs.default_limit_str = String::new();
    let migrated = migrate_preferences(prefs);
    assert_eq!("35", migrated.default_limit_str);
    assert_eq!(35, migrated.default_limit);
    assert_eq!("updated", migrated.default_sort);
}

#[test]
fn reset_narrows_the_summary_to_high() {
    let prefs = reset_preferences();
    assert_eq!(vec!["high".to_string()], prefs.summary_task_priority);
    assert_eq!(vec!["high".to_string()], prefs.default_task_priority);
    assert_eq!(20, prefs.default_limit);
    assert_eq!("20", prefs.default_limit_str);
    assert_eq!("updated", prefs.default_sort);
}

#[test]
fn checkbox_preselection_flags_the_current_choices() {
    let possible = possible_priorities();
    let current = vec!["high".to_string(), "wishlist".to_string()];
    let items = checked_items(&possible, &current);
    let expected = [
        ("unbreak-now", false),
        ("needs-triage", false),
        ("high", true),
        ("normal", false),
        ("low", false),
        ("wishlist", true),
    ];
    assert_eq!(expected.len(), items.len());
    let mut i = 0;
    while i < items.len() {
        assert_eq!(expected[i].0, items[i].0);
        assert_eq!(expected[i].1, items[i].1);
        i += 1;
    }
}

#[test]
fn chosen_indices_map_back_to_names() {
    let possible = possible_priorities();
    let chosen = chosen_from_indices(&possible, &vec![2usize, 4usize]);
    assert_eq!(vec!["high".to_string(), "low".to_string()], chosen);
}
