//! The dual-mode query model.
//!
//! A client keeps one [`SearchMode`] value per session: either a
//! structured query ("simple" mode, driven by filter toggles) or a
//! free-form query string ("complex" mode, typed in the index's own
//! grammar). Both compile to the one grammar the index accepts, so the
//! index never learns which mode a query came from. Every transition is
//! a pure function from old state to new state.

use vstd::prelude::*;

verus! {

use crate::params::DynamicSearchParameters;
use crate::params::ParamsView;
use crate::params::apply_entries;
use crate::params::lemma_apply_entries_idempotent;
use crate::params::params_default;
use crate::text::split_spaces;
use crate::text::split_spaces_spec;

/// Direction of a sort specification.
#[derive(Debug, Clone, Copy, PartialEq, Eq)]
pub enum Order {
    Ascending,
    Descending,
}

/// One default selection: the structured filter field named by
/// `(category, id)` should be forced to `value`.
#[derive(Debug, Clone, PartialEq, Eq)]
pub struct DefaultEntry {
    pub category: String,
    pub id: String,
    pub value: String,
}

/// The mathematical content of a [`DefaultEntry`].
#[verifier::ext_equal]
pub struct EntryView {
    pub category: Seq<char>,
    pub id: Seq<char>,
    pub value: Seq<char>,
}

impl View for DefaultEntry {
    type V = EntryView;

    open spec fn view(&self) -> EntryView {
        EntryView { category: self.category@, id: self.id@, value: self.value@ }
    }
}

/// An ordered batch of default selections, applied front to back.
#[derive(Debug, Clone, PartialEq, Eq)]
pub struct SearchDefaults(pub Vec<DefaultEntry>);

impl View for SearchDefaults {
    type V = Seq<EntryView>;

    open spec fn view(&self) -> Seq<EntryView> {
        self.0@.map_values(|e: DefaultEntry| e@)
    }
}

/// A structured query that can compile itself into the index's query
/// grammar. The compiled text is a pure function of the query's content
/// and the given context.
pub trait ToFilterExpression: View {
    type Context;

    /// The exact text the query compiles to.
    spec fn spec_filter_expression(v: Self::V, context: &Self::Context) -> Seq<char>;

    fn to_filter_expression(&self, context: &Self::Context) -> (r: String)
        ensures
            r@ == Self::spec_filter_expression(self@, context),
    ;
}

/// What the state machine asks of a structured query: a default value,
/// term and sort assignment, and a defaults applier that is idempotent.
pub trait SimpleProperties: View + Sized {
    type Defaults;

    /// Content of the default (empty) structured query.
    spec fn spec_default() -> Self::V;

    /// The term list held by a query.
    spec fn spec_terms(v: Self::V) -> Seq<Seq<char>>;

    /// `v` with its term list replaced; nothing else may change.
    spec fn spec_with_terms(v: Self::V, terms: Seq<Seq<char>>) -> Self::V;

    /// `v` with its sort specification replaced.
    spec fn spec_with_sort(v: Self::V, field: Seq<char>, order: Order) -> Self::V;

    /// `v` after one batch of default selections.
    spec fn spec_with_defaults(v: Self::V, defaults: &Self::Defaults) -> Self::V;

    fn default_value() -> (r: Self)
        ensures
            r@ == Self::spec_default(),
    ;

    fn duplicate(&self) -> (r: Self)
        ensures
            r@ == self@,
    ;

    fn set_terms(&mut self, terms: Vec<String>)
        ensures
            final(self)@ == Self::spec_with_terms(
                old(self)@,
                terms@.map_values(|t: String| t@),
            ),
    ;

    fn set_sort_by(&mut self, field: String, order: Order)
        ensures
            final(self)@ == Self::spec_with_sort(old(self)@, field@, order),
    ;

    fn apply_defaults(&mut self, defaults: Self::Defaults)
        ensures
            final(self)@ == Self::spec_with_defaults(old(self)@, &defaults),
    ;

    /// The term list reflects the last assignment verbatim.
    proof fn with_terms_sets_terms(v: Self::V, terms: Seq<Seq<char>>)
        ensures
            Self::spec_terms(Self::spec_with_terms(v, terms)) == terms,
    ;

    /// Applying one batch of defaults twice changes nothing over once.
    proof fn defaults_idempotent(v: Self::V, defaults: &Self::Defaults)
        ensures
            Self::spec_with_defaults(Self::spec_with_defaults(v, defaults), defaults)
                == Self::spec_with_defaults(v, defaults),
    ;
}

/// A client's query: structured, or free-form in the index's grammar.
///
/// Exactly one variant is active; switching variants is explicit and
/// discards the other variant's content.
#[derive(Debug, Clone, PartialEq, Eq)]
pub enum SearchMode<T> {
    Complex(String),
    Simple(T),
}

/// The mathematical content of a [`SearchMode`].
pub enum SearchModeView<V> {
    Complex(Seq<char>),
    Simple(V),
}

impl<T: View> View for SearchMode<T> {
    type V = SearchModeView<T::V>;

    open spec fn view(&self) -> SearchModeView<T::V> {
        match self {
            SearchMode::Complex(s) => SearchModeView::Complex(s@),
            SearchMode::Simple(t) => SearchModeView::Simple(t@),
        }
    }
}

impl<T: ToFilterExpression + SimpleProperties> SearchMode<T> {
    pub fn is_simple(&self) -> (r: bool)
        ensures
            r == (self@ is Simple),
    {
        match self {
            SearchMode::Simple(_) => true,
            SearchMode::Complex(_) => false,
        }
    }

    /// Reads the structured query through `f`; `false` in complex mode.
    pub fn map_bool<F: FnOnce(&T) -> bool>(&self, f: F) -> (r: bool)
        requires
            self is Simple ==> f.requires((&self->Simple_0,)),
        ensures
            self is Simple ==> f.ensures((&self->Simple_0,), r),
            self is Complex ==> r == false,
    {
        match self {
            SearchMode::Simple(s) => f(s),
            SearchMode::Complex(_) => false,
        }
    }

    /// The one string the index receives: the literal text in complex
    /// mode, the compiled filter expression in simple mode.
    pub fn as_str(&self, context: &T::Context) -> (r: String)
        ensures
            r@ == match self@ {
                SearchModeView::Complex(s) => s,
                SearchModeView::Simple(v) => T::spec_filter_expression(v, context),
            },
    {
        match self {
            SearchMode::Complex(s) => s.clone(),
            SearchMode::Simple(s) => s.to_filter_expression(context),
        }
    }

    /// Forces simple mode and replaces the term list verbatim. A complex
    /// state is reset to the default structured query first.
    pub fn set_simple_terms(&self, new_terms: Vec<String>) -> (r: Self)
        ensures
            r@ == SearchModeView::<T::V>::Simple(
                T::spec_with_terms(
                    match self@ {
                        SearchModeView::Complex(_) => T::spec_default(),
                        SearchModeView::Simple(v) => v,
                    },
                    new_terms@.map_values(|t: String| t@),
                ),
            ),
    {
        let mut base = match self {
            SearchMode::Complex(_) => T::default_value(),
            SearchMode::Simple(t) => t.duplicate(),
        };
        base.set_terms(new_terms);
        SearchMode::Simple(base)
    }
}

impl<T: SimpleProperties> Default for SearchMode<T> {
    /// A fresh session starts in simple mode with the default query.
    fn default() -> (r: Self)
        ensures
            r@ == SearchModeView::<T::V>::Simple(T::spec_default()),
    {
        SearchMode::Simple(T::default_value())
    }
}

/// Everything a client can do to its query state.
pub enum SearchModeAction {
    /// Replace the query text: verbatim in complex mode, split on
    /// spaces into terms in simple mode.
    SetTerms(String),
    /// Replace the term list verbatim; ignored in complex mode.
    SetSimpleTerms(Vec<String>),
    /// Merge default selections; ignored in complex mode.
    ApplyDefault(SearchDefaults),
    /// Reset the content, keeping the mode.
    Clear,
    /// Switch to complex mode with the given text.
    SetComplex(String),
    /// Replace the sort specification; ignored in complex mode.
    SetSimpleSort((String, Order)),
    /// Switch to simple mode with the given structured query.
    SetSimple(DynamicSearchParameters),
}

/// The transition table of the query state machine.
pub open spec fn spec_reduce(
    state: SearchModeView<ParamsView>,
    action: &SearchModeAction,
) -> SearchModeView<ParamsView> {
    match action {
        SearchModeAction::SetTerms(s) => match state {
            SearchModeView::Complex(_) => SearchModeView::Complex(s@),
            SearchModeView::Simple(v) => SearchModeView::Simple(
                ParamsView { terms: split_spaces_spec(s@), ..v },
            ),
        },
        SearchModeAction::SetSimpleTerms(ts) => match state {
            SearchModeView::Complex(_) => state,
            SearchModeView::Simple(v) => SearchModeView::Simple(
                ParamsView { terms: ts@.map_values(|t: String| t@), ..v },
            ),
        },
        SearchModeAction::ApplyDefault(d) => match state {
            SearchModeView::Complex(_) => state,
            SearchModeView::Simple(v) => SearchModeView::Simple(
                ParamsView { filters: apply_entries(v.filters, d@), ..v },
            ),
        },
        SearchModeAction::Clear => match state {
            SearchModeView::Complex(_) => SearchModeView::Complex(Seq::<char>::empty()),
            SearchModeView::Simple(_) => SearchModeView::Simple(params_default()),
        },
        SearchModeAction::SetComplex(s) => SearchModeView::Complex(s@),
        SearchModeAction::SetSimpleSort(fo) => match state {
            SearchModeView::Complex(_) => state,
            SearchModeView::Simple(v) => SearchModeView::Simple(
                ParamsView { sort: Some((fo.0@, fo.1)), ..v },
            ),
        },
        SearchModeAction::SetSimple(p) => SearchModeView::Simple(p@),
    }
}

impl SearchMode<DynamicSearchParameters> {
    /// Performs one action; every transition is a pure function of the
    /// old state, and the mode only changes through `SetComplex` and
    /// `SetSimple`.
    pub fn reduce(self, action: SearchModeAction) -> (r: Self)
        ensures
            r@ == spec_reduce(self@, &action),
    {
        match action {
            SearchModeAction::SetTerms(s) => match self {
                SearchMode::Complex(_) => SearchMode::Complex(s),
                SearchMode::Simple(mut p) => {
                    let terms = split_spaces(s.as_str());
                    p.set_terms(terms);
                    SearchMode::Simple(p)
                },
            },
            SearchModeAction::SetSimpleTerms(ts) => match self {
                SearchMode::Complex(c) => SearchMode::Complex(c),
                SearchMode::Simple(mut p) => {
                    p.set_terms(ts);
                    SearchMode::Simple(p)
                },
            },
            SearchModeAction::ApplyDefault(d) => match self {
                SearchMode::Complex(c) => SearchMode::Complex(c),
                SearchMode::Simple(mut p) => {
                    p.apply_defaults(d);
                    SearchMode::Simple(p)
                },
            },
            SearchModeAction::Clear => match self {
                SearchMode::Complex(_) => SearchMode::Complex(String::new()),
                SearchMode::Simple(_) => SearchMode::Simple(DynamicSearchParameters::default()),
            },
            SearchModeAction::SetComplex(s) => SearchMode::Complex(s),
            SearchModeAction::SetSimpleSort(fo) => match self {
                SearchMode::Complex(c) => SearchMode::Complex(c),
                SearchMode::Simple(mut p) => {
                    let (field, order) = fo;
                    p.set_sort_by(field, order);
                    SearchMode::Simple(p)
                },
            },
            SearchModeAction::SetSimple(p) => SearchMode::Simple(p),
        }
    }
}

/// `ApplyDefault` leaves a complex state exactly as it was, whatever
/// the batch holds.
pub proof fn lemma_apply_default_complex_no_op(
    state: SearchModeView<ParamsView>,
    action: &SearchModeAction,
)
    requires
        action is ApplyDefault,
        state is Complex,
    ensures
        spec_reduce(state, action) == state,
{
}

/// `Clear` keeps the mode: a simple state resets to the default
/// structured query, a complex state to the empty string.
pub proof fn lemma_clear_keeps_mode(state: SearchModeView<ParamsView>, action: &SearchModeAction)
    requires
        action is Clear,
    ensures
        state is Simple ==> spec_reduce(state, action) == SearchModeView::<ParamsView>::Simple(
            params_default(),
        ),
        state is Complex ==> spec_reduce(state, action) == SearchModeView::<ParamsView>::Complex(
            Seq::<char>::empty(),
        ),
{
}

/// Merging the same batch of defaults a second time changes nothing:
/// one `ApplyDefault` settles the state, in either mode.
pub proof fn lemma_apply_default_idempotent(
    state: SearchModeView<ParamsView>,
    action: &SearchModeAction,
)
    requires
        action is ApplyDefault,
    ensures
        spec_reduce(spec_reduce(state, action), action) == spec_reduce(state, action),
{
    match state {
        SearchModeView::Complex(_) => (),
        SearchModeView::Simple(v) => {
            lemma_apply_entries_idempotent(v.filters, action->ApplyDefault_0@);
        },
    }
}

impl SearchDefaults {
    /// Merges the batch into a simple state; a complex state is left
    /// exactly as it was.
    pub fn apply_defaults<T: SimpleProperties<Defaults = SearchDefaults>>(
        self,
        state: &mut SearchMode<T>,
    )
        ensures
            old(state)@ is Simple ==> final(state)@ == SearchModeView::<T::V>::Simple(
                T::spec_with_defaults(old(state)@->Simple_0, &self),
            ),
            old(state)@ is Complex ==> final(state)@ == old(state)@,
    {
        match state {
            SearchMode::Simple(s) => s.apply_defaults(self),
            SearchMode::Complex(_) => (),
        }
    }
}

} // verus!
