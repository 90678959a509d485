//! The catalogue of filter controls a search page offers.
//!
//! Each control names the structured-query field it drives by its
//! `(category, id)` address, so toggling a checkbox or choosing a radio
//! option is one default entry applied to the query. Labels are plain
//! text; how a control is drawn is not this crate's business.

use vstd::prelude::*;

verus! {

use crate::params::DynamicSearchParameters;
use crate::params::filter_value;
use crate::search::DefaultEntry;

/// One checkbox: toggles the addressed field between `on_value` and
/// unset.
#[derive(Debug, Clone, PartialEq, Eq)]
pub struct SearchOptionCheck {
    pub label: String,
    pub category: String,
    pub id: String,
    pub on_value: String,
}

/// One choice of a radio group: forces the addressed field to `value`.
#[derive(Debug, Clone, PartialEq, Eq)]
pub struct SearchOptionSelectItem {
    pub label: String,
    pub category: String,
    pub id: String,
    pub value: String,
}

/// One radio group: its choices, in display order.
#[derive(Debug, Clone, PartialEq, Eq)]
pub struct SearchOptionSelect {
    pub options: Vec<SearchOptionSelectItem>,
}

/// One control of a category's list.
#[derive(Debug, Clone, PartialEq, Eq)]
pub enum SearchOption {
    Check(SearchOptionCheck),
    Select(SearchOptionSelect),
    Divider,
}

impl SearchOption {
    /// A checkbox control driving the field at `(category, id)`.
    pub fn new_check(label: String, category: String, id: String, on_value: String) -> (r: Self)
        ensures
            r == SearchOption::Check(SearchOptionCheck { label, category, id, on_value }),
    {
        SearchOption::Check(SearchOptionCheck { label, category, id, on_value })
    }
}

impl SearchOptionCheck {
    /// The default entry that switches this checkbox on.
    pub fn checked_entry(&self) -> (r: DefaultEntry)
        ensures
            r@.category == self.category@,
            r@.id == self.id@,
            r@.value == self.on_value@,
    {
        DefaultEntry {
            category: clone_string(&self.category),
            id: clone_string(&self.id),
            value: clone_string(&self.on_value),
        }
    }
}

impl SearchOptionCheck {
    /// Whether the structured query holds this checkbox's field at its
    /// on-value.
    pub fn is_checked(&self, params: &DynamicSearchParameters) -> (r: bool)
        ensures
            r == (filter_value(params@.filters, self.category@, self.id@) == Some(
                self.on_value@,
            )),
    {
        match params.get_filter(&self.category, &self.id) {
            Some(v) => *v == self.on_value,
            None => false,
        }
    }
}

impl SearchOptionSelectItem {
    /// The default entry that selects this choice.
    pub fn selected_entry(&self) -> (r: DefaultEntry)
        ensures
            r@.category == self.category@,
            r@.id == self.id@,
            r@.value == self.value@,
    {
        DefaultEntry {
            category: clone_string(&self.category),
            id: clone_string(&self.id),
            value: clone_string(&self.value),
        }
    }
}

/// A titled group of controls.
#[derive(Debug, Clone, PartialEq, Eq)]
pub struct SearchCategory {
    pub title: String,
    pub options: Vec<SearchOption>,
}

/// A whole search page's catalogue of filter controls.
#[derive(Debug, Clone, PartialEq, Eq)]
pub struct Search {
    pub categories: Vec<SearchCategory>,
}

impl Search {
    /// The category titles, in display order.
    pub fn category_labels(&self) -> (r: Vec<String>)
        ensures
            r@.map_values(|t: String| t@) == self.categories@.map_values(
                |c: SearchCategory| c.title@,
            ),
    {
        let ghost titles = self.categories@.map_values(|c: SearchCategory| c.title@);
        let mut r: Vec<String> = Vec::new();
        let mut i: usize = 0;
        while i < self.categories.len()
            invariant
                i <= self.categories@.len(),
                titles == self.categories@.map_values(|c: SearchCategory| c.title@),
                titles.len() == self.categories@.len(),
                r@.map_values(|t: String| t@) == titles.take(i as int),
            decreases self.categories@.len() - i,
        {
            let t = clone_string(&self.categories[i].title);
            let ghost tg = t;
            let ghost before = r@;
            r.push(t);
            proof {
                assert(before.push(tg).map_values(|x: String| x@) =~= before.map_values(
                    |x: String| x@,
                ).push(tg@));
                assert(before.map_values(|x: String| x@).push(tg@) =~= titles.take(i + 1));
            }
            i = i + 1;
        }
        proof {
            assert(titles.take(self.categories@.len() as int) =~= titles);
        }
        r
    }
}

/// A copy of a label or field address.
fn clone_string(s: &String) -> (r: String)
    ensures
        r == *s,
{
    s.clone()
}

} // verus!
