use spog::options::{Search, SearchCategory, SearchOption, SearchOptionSelect, SearchOptionSelectItem};
use spog::params::DynamicSearchParameters;
use spog::search::{DefaultEntry, SearchDefaults, SearchMode, SearchModeAction};

fn catalogue() -> Search {
    Search {
        categories: vec![
            SearchCategory {
                title: "Severity".to_string(),
                options: vec![
                    SearchOption::new_check(
                        "Critical".to_string(),
                        "severity".to_string(),
                        "critical".to_string(),
                        "true".to_string(),
                    ),
                    SearchOption::Divider,
                    SearchOption::Select(SearchOptionSelect {
                        options: vec![SearchOptionSelectItem {
                            label: "Any".to_string(),
                            category: "severity".to_string(),
                            id: "level".to_string(),
                            value: "any".to_string(),
                        }],
                    }),
                ],
            },
            SearchCategory { title: "Products".to_string(), options: vec![] },
        ],
    }
}

#[test]
fn category_labels_are_in_display_order() {
    assert_eq!(
        catalogue().category_labels(),
        vec!["Severity".to_string(), "Products".to_string()]
    );
}

#[test]
fn checking_a_box_sets_its_field() {
    let search = catalogue();
    let check = match &search.categories[0].options[0] {
        SearchOption::Check(c) => c.clone(),
        _ => panic!("first option is the checkbox"),
    };
    assert_eq!(check.label, "Critical");
    let mut state = SearchMode::Simple(DynamicSearchParameters {
        terms: vec![],
        sort: None,
        filters: vec![DefaultEntry {
            category: "severity".to_string(),
            id: "critical".to_string(),
            value: String::new(),
        }],
    });
    state = state.reduce(SearchModeAction::ApplyDefault(SearchDefaults(vec![
        check.checked_entry(),
    ])));
    match state {
        SearchMode::Simple(p) => assert_eq!(p.filters[0].value, "true"),
        _ => panic!("mode must stay simple"),
    }
}

#[test]
fn is_checked_reads_the_addressed_field() {
    let search = catalogue();
    let check = match &search.categories[0].options[0] {
        SearchOption::Check(c) => c.clone(),
        _ => panic!("first option is the checkbox"),
    };
    let mut params = DynamicSearchParameters::default();
    assert!(!check.is_checked(&params));
    params.add_filter(DefaultEntry {
        category: "severity".to_string(),
        id: "critical".to_string(),
        value: "true".to_string(),
    });
    assert!(check.is_checked(&params));
    params.set_filter(&DefaultEntry {
        category: "severity".to_string(),
        id: "critical".to_string(),
        value: "false".to_string(),
    });
    assert!(!check.is_checked(&params));
    assert_eq!(
        params.get_filter(&"severity".to_string(), &"critical".to_string()),
        Some(&"false".to_string())
    );
    assert_eq!(params.get_filter(&"no".to_string(), &"field".to_string()), None);
}

#[test]
fn selecting_a_choice_builds_its_entry() {
    let search = catalogue();
    let select = match &search.categories[0].options[2] {
        SearchOption::Select(s) => s.clone(),
        _ => panic!("third option is the radio group"),
    };
    let entry = select.options[0].selected_entry();
    assert_eq!(entry.category, "severity");
    assert_eq!(entry.id, "level");
    assert_eq!(entry.value, "any");
}
