use spog::params::DynamicSearchParameters;
use spog::search::{
    DefaultEntry, Order, SearchDefaults, SearchMode, SearchModeAction, SimpleProperties,
};
use spog::text::split_spaces;

fn entry(category: &str, id: &str, value: &str) -> DefaultEntry {
    DefaultEntry {
        category: category.to_string(),
        id: id.to_string(),
        value: value.to_string(),
    }
}

fn params_with_fields() -> DynamicSearchParameters {
    DynamicSearchParameters {
        terms: vec!["foo".to_string(), "bar".to_string()],
        sort: None,
        filters: vec![entry("severity", "critical", ""), entry("status", "fixed", "")],
    }
}

#[test]
fn set_complex_then_set_simple_discards_in_turn() {
    let state: SearchMode<DynamicSearchParameters> = SearchMode::default();
    let state = state.reduce(SearchModeAction::SetComplex("a AND b".to_string()));
    assert_eq!(state, SearchMode::Complex("a AND b".to_string()));
    let replacement = params_with_fields();
    let state = state.reduce(SearchModeAction::SetSimple(replacement.clone()));
    // The structured query is the one just given, not the one that
    // existed before the switch to complex mode.
    assert_eq!(state, SearchMode::Simple(replacement));
}

#[test]
fn apply_default_on_complex_is_a_no_op() {
    let state: SearchMode<DynamicSearchParameters> =
        SearchMode::Complex("is:fixed".to_string());
    let defaults = SearchDefaults(vec![entry("severity", "critical", "true")]);
    let after = state
        .clone()
        .reduce(SearchModeAction::ApplyDefault(defaults));
    assert_eq!(after, state);
}

#[test]
fn clear_keeps_the_mode() {
    let simple = SearchMode::Simple(params_with_fields());
    assert_eq!(
        simple.reduce(SearchModeAction::Clear),
        SearchMode::Simple(DynamicSearchParameters::default())
    );
    let complex: SearchMode<DynamicSearchParameters> =
        SearchMode::Complex("anything".to_string());
    assert_eq!(
        complex.reduce(SearchModeAction::Clear),
        SearchMode::Complex(String::new())
    );
}

#[test]
fn applying_defaults_twice_equals_once() {
    let defaults = SearchDefaults(vec![
        entry("severity", "critical", "true"),
        entry("status", "fixed", "false"),
        entry("unknown", "field", "x"),
    ]);
    let mut once = params_with_fields();
    once.apply_defaults(defaults.clone());
    let mut twice = params_with_fields();
    twice.apply_defaults(defaults.clone());
    twice.apply_defaults(defaults);
    assert_eq!(once, twice);
}

#[test]
fn defaults_are_additive_and_ignore_unknown_fields() {
    let mut p = params_with_fields();
    p.apply_defaults(SearchDefaults(vec![
        entry("severity", "critical", "true"),
        entry("no-such", "field", "value"),
    ]));
    // The addressed field is set, the other one untouched, nothing added.
    assert_eq!(p.filters.len(), 2);
    assert_eq!(p.filters[0].value, "true");
    assert_eq!(p.filters[1].value, "");
    // The terms are untouched.
    assert_eq!(p.terms, vec!["foo".to_string(), "bar".to_string()]);
}

#[test]
fn set_terms_splits_in_simple_mode() {
    let state = SearchMode::Simple(params_with_fields());
    let state = state.reduce(SearchModeAction::SetTerms("one two".to_string()));
    match state {
        SearchMode::Simple(p) => {
            assert_eq!(p.terms, vec!["one".to_string(), "two".to_string()]);
            // Filters survive a term change.
            assert_eq!(p.filters.len(), 2);
        }
        _ => panic!("mode must stay simple"),
    }
}

#[test]
fn set_terms_replaces_the_string_in_complex_mode() {
    let state: SearchMode<DynamicSearchParameters> = SearchMode::Complex("old".to_string());
    let state = state.reduce(SearchModeAction::SetTerms("new text".to_string()));
    assert_eq!(state, SearchMode::Complex("new text".to_string()));
}

#[test]
fn set_simple_terms_is_verbatim_and_ignored_in_complex_mode() {
    let terms = vec!["kept as one".to_string()];
    let state = SearchMode::Simple(DynamicSearchParameters::default());
    match state.reduce(SearchModeAction::SetSimpleTerms(terms.clone())) {
        SearchMode::Simple(p) => assert_eq!(p.terms, terms),
        _ => panic!("mode must stay simple"),
    }
    let complex: SearchMode<DynamicSearchParameters> = SearchMode::Complex("q".to_string());
    let after = complex.reduce(SearchModeAction::SetSimpleTerms(terms));
    assert_eq!(after, SearchMode::Complex("q".to_string()));
}

#[test]
fn set_simple_sort_sets_the_sort_field() {
    let state = SearchMode::Simple(DynamicSearchParameters::default());
    let state = state.reduce(SearchModeAction::SetSimpleSort((
        "severity".to_string(),
        Order::Descending,
    )));
    match state {
        SearchMode::Simple(p) => {
            assert_eq!(p.sort, Some(("severity".to_string(), Order::Descending)))
        }
        _ => panic!("mode must stay simple"),
    }
}

#[test]
fn as_str_returns_the_literal_text_in_complex_mode() {
    let state: SearchMode<DynamicSearchParameters> =
        SearchMode::Complex("cve:CVE-1 AND is:fixed".to_string());
    assert_eq!(state.as_str(&()), "cve:CVE-1 AND is:fixed");
}

#[test]
fn as_str_compiles_the_structured_query() {
    let mut p = params_with_fields();
    p.sort = Some(("score".to_string(), Order::Ascending));
    p.apply_defaults(SearchDefaults(vec![entry("severity", "critical", "high")]));
    let state = SearchMode::Simple(p);
    // Terms, then set filter fields, then the sort specification; the
    // unset "status" field contributes nothing.
    assert_eq!(state.as_str(&()), "foo bar critical:high sort:score");
}

#[test]
fn as_str_descending_sort_is_marked() {
    let p = DynamicSearchParameters {
        terms: Vec::new(),
        sort: Some(("score".to_string(), Order::Descending)),
        filters: Vec::new(),
    };
    assert_eq!(SearchMode::Simple(p).as_str(&()), "-sort:score");
}

#[test]
fn set_simple_terms_from_complex_starts_from_the_default() {
    let complex: SearchMode<DynamicSearchParameters> =
        SearchMode::Complex("raw".to_string());
    let state = complex.set_simple_terms(vec!["a".to_string()]);
    match state {
        SearchMode::Simple(p) => {
            assert_eq!(p.terms, vec!["a".to_string()]);
            assert!(p.filters.is_empty());
            assert_eq!(p.sort, None);
        }
        _ => panic!("mode must become simple"),
    }
}

#[test]
fn is_simple_and_map_bool_follow_the_mode() {
    let simple = SearchMode::Simple(params_with_fields());
    assert!(simple.is_simple());
    assert!(simple.map_bool(|p| p.terms.len() == 2));
    let complex: SearchMode<DynamicSearchParameters> = SearchMode::Complex("q".to_string());
    assert!(!complex.is_simple());
    assert!(!complex.map_bool(|_| true));
}

#[test]
fn apply_defaults_through_the_defaults_type() {
    let defaults = SearchDefaults(vec![entry("severity", "critical", "low")]);
    let mut state = SearchMode::Simple(params_with_fields());
    defaults.apply_defaults(&mut state);
    match state {
        SearchMode::Simple(p) => assert_eq!(p.filters[0].value, "low"),
        _ => panic!("mode must stay simple"),
    }
}

#[test]
fn set_filter_updates_matching_fields_only() {
    let mut p = params_with_fields();
    p.set_filter(&entry("severity", "critical", "yes"));
    assert_eq!(p.filters[0].value, "yes");
    assert_eq!(p.filters[1].value, "");
    p.set_filter(&entry("nobody", "home", "x"));
    assert_eq!(p.filters.len(), 2);
    assert_eq!(p.filters[0].value, "yes");
}

#[test]
fn add_filter_appends_a_field() {
    let mut p = DynamicSearchParameters::default();
    p.add_filter(entry("severity", "critical", ""));
    assert_eq!(p.filters.len(), 1);
    assert_eq!(p.terms().len(), 0);
}

#[test]
fn later_entries_of_one_batch_win() {
    let defaults = SearchDefaults(vec![
        entry("severity", "critical", "first"),
        entry("severity", "critical", "second"),
    ]);
    let mut p = params_with_fields();
    p.apply_defaults(defaults);
    assert_eq!(p.filters[0].value, "second");
}

#[test]
fn set_simple_terms_in_simple_mode_keeps_the_rest() {
    let state = SearchMode::Simple(params_with_fields());
    match state.set_simple_terms(vec!["only".to_string()]) {
        SearchMode::Simple(p) => {
            assert_eq!(p.terms, vec!["only".to_string()]);
            assert_eq!(p.filters.len(), 2);
        }
        _ => panic!("mode must stay simple"),
    }
}

#[test]
fn split_spaces_keeps_empty_pieces() {
    assert_eq!(split_spaces("a b"), vec!["a".to_string(), "b".to_string()]);
    assert_eq!(split_spaces(""), vec![String::new()]);
    assert_eq!(
        split_spaces("a  b"),
        vec!["a".to_string(), String::new(), "b".to_string()]
    );
    assert_eq!(split_spaces("solo"), vec!["solo".to_string()]);
}
