//! The structured query behind simple mode.
//!
//! A [`DynamicSearchParameters`] value holds free-text terms, an
//! optional sort specification, and an open list of named filter fields,
//! each addressed by a `(category, id)` pair. The compiler turns that
//! content into one line of the index's query grammar; the defaults
//! applier forces named fields to configured values, touching nothing
//! else.

use vstd::prelude::*;

verus! {

use vstd::string::StrSliceExecFns;
use vstd::string::StringExecFns;
use vstd::pervasive::VecAdditionalExecFns;
use crate::search::DefaultEntry;
use crate::search::EntryView;
use crate::search::Order;
use crate::search::SearchDefaults;
use crate::search::SimpleProperties;
use crate::search::ToFilterExpression;
use crate::text::join_spaces;
use crate::text::join_spaces_spec;

/// The mathematical content of a [`DynamicSearchParameters`].
#[verifier::ext_equal]
pub struct ParamsView {
    pub terms: Seq<Seq<char>>,
    pub sort: Option<(Seq<char>, Order)>,
    pub filters: Seq<EntryView>,
}

/// Content of the default structured query: nothing set.
pub open spec fn params_default() -> ParamsView {
    ParamsView { terms: Seq::<Seq<char>>::empty(), sort: None, filters: Seq::<EntryView>::empty() }
}

/// Whether default `d` addresses field `e`.
pub open spec fn entry_key_matches(e: EntryView, d: EntryView) -> bool {
    e.category == d.category && e.id == d.id
}

/// Every field addressed by `d` is forced to `d.value`; the rest stay.
pub open spec fn set_entry(fs: Seq<EntryView>, d: EntryView) -> Seq<EntryView> {
    fs.map_values(
        |e: EntryView|
            if entry_key_matches(e, d) {
                EntryView { value: d.value, ..e }
            } else {
                e
            },
    )
}

/// The defaults of `ds` applied front to back.
pub open spec fn apply_entries(fs: Seq<EntryView>, ds: Seq<EntryView>) -> Seq<EntryView>
    decreases ds.len(),
{
    if ds.len() == 0 {
        fs
    } else {
        set_entry(apply_entries(fs, ds.drop_last()), ds.last())
    }
}

/// What one field becomes under the defaults of `ds`.
pub open spec fn applied_entry(e: EntryView, ds: Seq<EntryView>) -> EntryView
    decreases ds.len(),
{
    if ds.len() == 0 {
        e
    } else {
        let prev = applied_entry(e, ds.drop_last());
        if entry_key_matches(e, ds.last()) {
            EntryView { value: ds.last().value, ..prev }
        } else {
            prev
        }
    }
}

/// Applying defaults never renames a field.
proof fn lemma_applied_entry_key(e: EntryView, ds: Seq<EntryView>)
    ensures
        applied_entry(e, ds).category == e.category,
        applied_entry(e, ds).id == e.id,
    decreases ds.len(),
{
    if ds.len() > 0 {
        lemma_applied_entry_key(e, ds.drop_last());
    }
}

/// The batch acts on each field independently.
proof fn lemma_apply_entries_pointwise(fs: Seq<EntryView>, ds: Seq<EntryView>)
    ensures
        apply_entries(fs, ds).len() == fs.len(),
        forall|j: int|
            0 <= j < fs.len() ==> apply_entries(fs, ds)[j] == applied_entry(fs[j], ds),
    decreases ds.len(),
{
    if ds.len() > 0 {
        lemma_apply_entries_pointwise(fs, ds.drop_last());
        let prev = apply_entries(fs, ds.drop_last());
        let d = ds.last();
        assert forall|j: int| 0 <= j < fs.len() implies apply_entries(fs, ds)[j] == applied_entry(
            fs[j],
            ds,
        ) by {
            lemma_applied_entry_key(fs[j], ds.drop_last());
            assert(entry_key_matches(prev[j], d) == entry_key_matches(fs[j], d));
            if entry_key_matches(fs[j], d) {
                assert(apply_entries(fs, ds)[j] =~= applied_entry(fs[j], ds));
            }
        }
    }
}

/// One field settles after one pass: a second pass changes nothing.
proof fn lemma_applied_entry_idempotent(e: EntryView, ds: Seq<EntryView>)
    ensures
        applied_entry(applied_entry(e, ds), ds) == applied_entry(e, ds),
    decreases ds.len(),
{
    if ds.len() > 0 {
        let rest = ds.drop_last();
        let d = ds.last();
        let a = applied_entry(e, ds);
        lemma_applied_entry_key(e, ds);
        lemma_applied_entry_key(e, rest);
        lemma_applied_entry_key(a, rest);
        if entry_key_matches(e, d) {
            assert(entry_key_matches(a, d));
            assert(applied_entry(a, ds) =~= a);
        } else {
            assert(!entry_key_matches(a, d));
            lemma_applied_entry_idempotent(e, rest);
        }
    }
}

/// A field no default addresses comes through untouched.
proof fn lemma_applied_entry_untouched(e: EntryView, ds: Seq<EntryView>)
    requires
        forall|k: int| 0 <= k < ds.len() ==> !entry_key_matches(e, ds[k]),
    ensures
        applied_entry(e, ds) == e,
    decreases ds.len(),
{
    if ds.len() > 0 {
        assert(!entry_key_matches(e, ds[ds.len() - 1]));
        assert forall|k: int| 0 <= k < ds.drop_last().len() implies !entry_key_matches(
            e,
            ds.drop_last()[k],
        ) by {
            assert(ds.drop_last()[k] == ds[k]);
        }
        lemma_applied_entry_untouched(e, ds.drop_last());
    }
}

/// Applying the same batch twice leaves what one application produced.
pub proof fn lemma_apply_entries_idempotent(fs: Seq<EntryView>, ds: Seq<EntryView>)
    ensures
        apply_entries(apply_entries(fs, ds), ds) == apply_entries(fs, ds),
{
    let once = apply_entries(fs, ds);
    lemma_apply_entries_pointwise(fs, ds);
    lemma_apply_entries_pointwise(once, ds);
    assert forall|j: int| 0 <= j < fs.len() implies apply_entries(once, ds)[j] == once[j] by {
        lemma_applied_entry_idempotent(fs[j], ds);
    }
    assert(apply_entries(once, ds) =~= once);
}

/// The batch is additive: a field none of its entries address is left
/// exactly as it was.
pub proof fn lemma_apply_entries_additive(fs: Seq<EntryView>, ds: Seq<EntryView>, j: int)
    requires
        0 <= j < fs.len(),
        forall|k: int| 0 <= k < ds.len() ==> !entry_key_matches(fs[j], ds[k]),
    ensures
        apply_entries(fs, ds)[j] == fs[j],
{
    lemma_apply_entries_pointwise(fs, ds);
    lemma_applied_entry_untouched(fs[j], ds);
}

/// Reading a term list commutes with appending to it.
proof fn lemma_view_push_string(s: Seq<String>, e: String)
    ensures
        s.push(e).map_values(|t: String| t@) == s.map_values(|t: String| t@).push(e@),
{
    assert(s.push(e).map_values(|t: String| t@) =~= s.map_values(|t: String| t@).push(e@));
}

/// Reading a field list commutes with appending to it.
proof fn lemma_view_push_entry(s: Seq<DefaultEntry>, e: DefaultEntry)
    ensures
        s.push(e).map_values(|x: DefaultEntry| x@) == s.map_values(|x: DefaultEntry| x@).push(e@),
{
    assert(s.push(e).map_values(|x: DefaultEntry| x@) =~= s.map_values(
        |x: DefaultEntry| x@,
    ).push(e@));
}

/// The value of the first field addressed by `(category, id)`, if any.
pub open spec fn filter_value(
    fs: Seq<EntryView>,
    category: Seq<char>,
    id: Seq<char>,
) -> Option<Seq<char>>
    decreases fs.len(),
{
    if fs.len() == 0 {
        None
    } else if fs[0].category == category && fs[0].id == id {
        Some(fs[0].value)
    } else {
        filter_value(fs.drop_first(), category, id)
    }
}

/// The token a filter field contributes to the compiled query.
pub open spec fn entry_token(e: EntryView) -> Seq<char> {
    e.id + seq![':'] + e.value
}

/// The tokens of the filter fields, in field order; fields whose value
/// is empty are unset and contribute nothing.
pub open spec fn filter_tokens(fs: Seq<EntryView>) -> Seq<Seq<char>>
    decreases fs.len(),
{
    if fs.len() == 0 {
        Seq::<Seq<char>>::empty()
    } else {
        let rest = filter_tokens(fs.drop_last());
        if fs.last().value.len() == 0 {
            rest
        } else {
            rest.push(entry_token(fs.last()))
        }
    }
}

/// The token of a sort specification.
pub open spec fn sort_token(field: Seq<char>, order: Order) -> Seq<char> {
    match order {
        Order::Ascending => "sort:"@ + field,
        Order::Descending => "-sort:"@ + field,
    }
}

/// Every token of the compiled query, in order: terms, then filter
/// fields, then the sort specification.
pub open spec fn query_tokens(v: ParamsView) -> Seq<Seq<char>> {
    v.terms + filter_tokens(v.filters) + (match v.sort {
        None => Seq::<Seq<char>>::empty(),
        Some((f, o)) => seq![sort_token(f, o)],
    })
}

/// The compiled query: its tokens joined with single spaces.
pub open spec fn params_filter_expression(v: ParamsView) -> Seq<char> {
    join_spaces_spec(query_tokens(v))
}

/// A structured query: free-text terms, an optional sort, and named
/// filter fields addressed by `(category, id)`.
#[derive(Debug, Clone, PartialEq, Eq)]
pub struct DynamicSearchParameters {
    pub terms: Vec<String>,
    pub sort: Option<(String, Order)>,
    pub filters: Vec<DefaultEntry>,
}

impl View for DynamicSearchParameters {
    type V = ParamsView;

    open spec fn view(&self) -> ParamsView {
        ParamsView {
            terms: self.terms@.map_values(|t: String| t@),
            sort: match self.sort {
                Some((f, o)) => Some((f@, o)),
                None => None,
            },
            filters: self.filters@.map_values(|e: DefaultEntry| e@),
        }
    }
}

impl Default for DynamicSearchParameters {
    /// The default query: no terms, no sort, no filter fields.
    fn default() -> (r: Self)
        ensures
            r@ == params_default(),
    {
        let r = DynamicSearchParameters { terms: Vec::new(), sort: None, filters: Vec::new() };
        proof {
            assert(r@ =~= params_default());
        }
        r
    }
}

impl DynamicSearchParameters {
    /// The current term list.
    pub fn terms(&self) -> (r: &Vec<String>)
        ensures
            r@.map_values(|t: String| t@) == self@.terms,
    {
        &self.terms
    }

    /// Declares one more filter field (or a repeated selection of one);
    /// it is appended after the existing fields.
    pub fn add_filter(&mut self, entry: DefaultEntry)
        ensures
            final(self)@ == (ParamsView { filters: old(self)@.filters.push(entry@), ..old(self)@ }),
    {
        let ghost entry_view = entry@;
        self.filters.push(entry);
        proof {
            assert(self@.filters =~= old(self)@.filters.push(entry_view));
            assert(self@ =~= (ParamsView {
                filters: old(self)@.filters.push(entry_view),
                ..old(self)@
            }));
        }
    }

    /// Reads the field at `(category, id)`: the first matching field's
    /// value, or nothing when the query holds no such field.
    pub fn get_filter(&self, category: &String, id: &String) -> (r: Option<&String>)
        ensures
            match r {
                Some(v) => filter_value(self@.filters, category@, id@) == Some(v@),
                None => filter_value(self@.filters, category@, id@) is None,
            },
    {
        let ghost fs = self@.filters;
        let n = self.filters.len();
        let mut j: usize = 0;
        proof {
            assert(fs.skip(0) =~= fs);
        }
        while j < n
            invariant
                j <= n,
                n == self.filters@.len(),
                n == fs.len(),
                fs == self@.filters,
                filter_value(fs, category@, id@) == filter_value(
                    fs.skip(j as int),
                    category@,
                    id@,
                ),
            decreases n - j,
        {
            proof {
                assert(fs.skip(j as int)[0] == fs[j as int]);
                assert(fs.skip(j as int).drop_first() =~= fs.skip(j + 1));
            }
            if self.filters[j].category == *category && self.filters[j].id == *id {
                return Some(&self.filters[j].value);
            }
            j = j + 1;
        }
        None
    }

    /// Forces every field addressed by `entry` to its value.
    pub fn set_filter(&mut self, entry: &DefaultEntry)
        ensures
            final(self)@ == (ParamsView {
                filters: set_entry(old(self)@.filters, entry@),
                ..old(self)@
            }),
    {
        set_one_default(&mut self.filters, entry);
        proof {
            assert(self@ =~= (ParamsView {
                filters: set_entry(old(self)@.filters, entry@),
                ..old(self)@
            }));
        }
    }
}

/// Forces every field of `filters` addressed by `d` to `d.value`.
fn set_one_default(filters: &mut Vec<DefaultEntry>, d: &DefaultEntry)
    ensures
        final(filters)@.map_values(|e: DefaultEntry| e@) == set_entry(
            old(filters)@.map_values(|e: DefaultEntry| e@),
            d@,
        ),
{
    let ghost fs0 = old(filters)@.map_values(|e: DefaultEntry| e@);
    let n = filters.len();
    let mut j: usize = 0;
    while j < n
        invariant
            j <= n,
            n == filters@.len(),
            n == fs0.len(),
            forall|k: int| 0 <= k < j ==> filters@[k]@ == set_entry(fs0, d@)[k],
            forall|k: int| j <= k < n ==> filters@[k]@ == fs0[k],
        decreases n - j,
    {
        if filters[j].category == d.category && filters[j].id == d.id {
            let updated = DefaultEntry {
                category: filters[j].category.clone(),
                id: filters[j].id.clone(),
                value: d.value.clone(),
            };
            assert(updated@ =~= (EntryView { value: d@.value, ..fs0[j as int] }));
            filters.set(j, updated);
            assert(filters@[j as int]@ == set_entry(fs0, d@)[j as int]);
        } else {
            assert(filters@[j as int]@ == set_entry(fs0, d@)[j as int]);
        }
        j = j + 1;
    }
    proof {
        assert(filters@.map_values(|e: DefaultEntry| e@) =~= set_entry(fs0, d@));
    }
}

impl ToFilterExpression for DynamicSearchParameters {
    type Context = ();

    open spec fn spec_filter_expression(v: ParamsView, context: &()) -> Seq<char> {
        params_filter_expression(v)
    }

    fn to_filter_expression(&self, context: &()) -> (r: String)
        ensures
            r@ == params_filter_expression(self@),
    {
        let ghost v = self@;
        let mut tokens: Vec<String> = Vec::new();
        let mut i: usize = 0;
        while i < self.terms.len()
            invariant
                i <= self.terms@.len(),
                v == self@,
                v.terms.len() == self.terms@.len(),
                tokens@.map_values(|t: String| t@) == v.terms.take(i as int),
            decreases self.terms@.len() - i,
        {
            let t = self.terms[i].clone();
            let ghost tg = t;
            let ghost before = tokens@;
            tokens.push(t);
            proof {
                lemma_view_push_string(before, tg);
                assert(before.map_values(|x: String| x@).push(tg@) =~= v.terms.take(i + 1));
            }
            i = i + 1;
        }
        proof {
            assert(v.terms.take(self.terms@.len() as int) =~= v.terms);
        }
        let mut j: usize = 0;
        while j < self.filters.len()
            invariant
                j <= self.filters@.len(),
                v == self@,
                v.filters.len() == self.filters@.len(),
                tokens@.map_values(|t: String| t@) == v.terms + filter_tokens(
                    v.filters.take(j as int),
                ),
            decreases self.filters@.len() - j,
        {
            proof {
                assert(v.filters.take(j + 1).drop_last() =~= v.filters.take(j as int));
                assert(v.filters.take(j + 1).last() == v.filters[j as int]);
            }
            if !self.filters[j].value.as_str().is_empty() {
                let e = &self.filters[j];
                let tok = e.id.clone().concat(":").concat(e.value.as_str());
                proof {
                    reveal_strlit(":");
                    assert(":"@ =~= seq![':']);
                    assert(tok@ =~= entry_token(v.filters[j as int]));
                }
                let ghost tokg = tok;
                let ghost before = tokens@;
                tokens.push(tok);
                proof {
                    lemma_view_push_string(before, tokg);
                    assert(before.map_values(|x: String| x@).push(tokg@) =~= v.terms
                        + filter_tokens(v.filters.take(j + 1)));
                }
            } else {
                proof {
                    assert(tokens@.map_values(|t: String| t@) =~= v.terms + filter_tokens(
                        v.filters.take(j + 1),
                    ));
                }
            }
            j = j + 1;
        }
        proof {
            assert(v.filters.take(self.filters@.len() as int) =~= v.filters);
        }
        match &self.sort {
            None => (),
            Some((f, o)) => {
                let prefix: &str = match o {
                    Order::Ascending => "sort:",
                    Order::Descending => "-sort:",
                };
                let tok = prefix.to_owned().concat(f.as_str());
                assert(tok@ == sort_token(f@, *o));
                let ghost tokg = tok;
                let ghost before = tokens@;
                tokens.push(tok);
                proof {
                    lemma_view_push_string(before, tokg);
                }
            },
        }
        proof {
            assert(tokens@.map_values(|t: String| t@) =~= query_tokens(v));
        }
        join_spaces(&tokens)
    }
}

impl SimpleProperties for DynamicSearchParameters {
    type Defaults = SearchDefaults;

    open spec fn spec_default() -> ParamsView {
        params_default()
    }

    open spec fn spec_terms(v: ParamsView) -> Seq<Seq<char>> {
        v.terms
    }

    open spec fn spec_with_terms(v: ParamsView, terms: Seq<Seq<char>>) -> ParamsView {
        ParamsView { terms: terms, ..v }
    }

    open spec fn spec_with_sort(v: ParamsView, field: Seq<char>, order: Order) -> ParamsView {
        ParamsView { sort: Some((field, order)), ..v }
    }

    open spec fn spec_with_defaults(v: ParamsView, defaults: &SearchDefaults) -> ParamsView {
        ParamsView { filters: apply_entries(v.filters, defaults@), ..v }
    }

    fn default_value() -> (r: Self) {
        DynamicSearchParameters::default()
    }

    fn duplicate(&self) -> (r: Self) {
        let r = DynamicSearchParameters {
            terms: clone_strings(&self.terms),
            sort: match &self.sort {
                Some((f, o)) => Some((f.clone(), *o)),
                None => None,
            },
            filters: clone_entries(&self.filters),
        };
        proof {
            assert(r@ =~= self@);
        }
        r
    }

    fn set_terms(&mut self, terms: Vec<String>) {
        self.terms = terms;
        proof {
            assert(self@ =~= (ParamsView {
                terms: self.terms@.map_values(|t: String| t@),
                ..old(self)@
            }));
        }
    }

    fn set_sort_by(&mut self, field: String, order: Order) {
        let ghost field_view = field@;
        self.sort = Some((field, order));
        proof {
            assert(self@ =~= (ParamsView { sort: Some((field_view, order)), ..old(self)@ }));
        }
    }

    fn apply_defaults(&mut self, defaults: SearchDefaults) {
        let ghost ds = defaults@;
        let ghost fs0 = self@.filters;
        let entries = defaults.0;
        let mut i: usize = 0;
        while i < entries.len()
            invariant
                i <= entries@.len(),
                ds.len() == entries@.len(),
                forall|k: int| 0 <= k < ds.len() ==> ds[k] == entries@[k]@,
                self@.terms == old(self)@.terms,
                self@.sort == old(self)@.sort,
                self@.filters == apply_entries(fs0, ds.take(i as int)),
                fs0 == old(self)@.filters,
            decreases entries@.len() - i,
        {
            proof {
                assert(ds.take(i + 1).drop_last() =~= ds.take(i as int));
                assert(ds.take(i + 1).last() == ds[i as int]);
            }
            set_one_default(&mut self.filters, &entries[i]);
            i = i + 1;
        }
        proof {
            assert(ds.take(entries@.len() as int) =~= ds);
            assert(self@ =~= (ParamsView {
                filters: apply_entries(old(self)@.filters, ds),
                ..old(self)@
            }));
        }
    }

    proof fn with_terms_sets_terms(v: ParamsView, terms: Seq<Seq<char>>) {
    }

    proof fn defaults_idempotent(v: ParamsView, defaults: &SearchDefaults) {
        lemma_apply_entries_idempotent(v.filters, defaults@);
        assert(Self::spec_with_defaults(Self::spec_with_defaults(v, defaults), defaults)
            =~= Self::spec_with_defaults(v, defaults));
    }
}

/// Copies a term list; the copy reads the same.
fn clone_strings(v: &Vec<String>) -> (r: Vec<String>)
    ensures
        r@.map_values(|t: String| t@) == v@.map_values(|t: String| t@),
{
    let mut r: Vec<String> = Vec::new();
    let mut i: usize = 0;
    while i < v.len()
        invariant
            i <= v@.len(),
            r@.map_values(|t: String| t@) == v@.map_values(|t: String| t@).take(i as int),
        decreases v@.len() - i,
    {
        let t = v[i].clone();
        let ghost tg = t;
        let ghost before = r@;
        r.push(t);
        proof {
            lemma_view_push_string(before, tg);
            assert(before.map_values(|x: String| x@).push(tg@) =~= v@.map_values(
                |x: String| x@,
            ).take(i + 1));
        }
        i = i + 1;
    }
    proof {
        assert(v@.map_values(|t: String| t@).take(v@.len() as int) =~= v@.map_values(
            |t: String| t@,
        ));
    }
    r
}

/// Copies a filter field list; the copy reads the same.
fn clone_entries(v: &Vec<DefaultEntry>) -> (r: Vec<DefaultEntry>)
    ensures
        r@.map_values(|e: DefaultEntry| e@) == v@.map_values(|e: DefaultEntry| e@),
{
    let mut r: Vec<DefaultEntry> = Vec::new();
    let mut i: usize = 0;
    while i < v.len()
        invariant
            i <= v@.len(),
            r@.map_values(|e: DefaultEntry| e@) == v@.map_values(|e: DefaultEntry| e@).take(
                i as int,
            ),
        decreases v@.len() - i,
    {
        let e = DefaultEntry {
            category: v[i].category.clone(),
            id: v[i].id.clone(),
            value: v[i].value.clone(),
        };
        assert(e@ =~= v@.map_values(|x: DefaultEntry| x@)[i as int]);
        let ghost eg = e;
        let ghost before = r@;
        r.push(e);
        proof {
            lemma_view_push_entry(before, eg);
            assert(before.map_values(|x: DefaultEntry| x@).push(eg@) =~= v@.map_values(
                |x: DefaultEntry| x@,
            ).take(i + 1));
        }
        i = i + 1;
    }
    proof {
        assert(v@.map_values(|e: DefaultEntry| e@).take(v@.len() as int) =~= v@.map_values(
            |e: DefaultEntry| e@,
        ));
    }
    r
}

} // verus!
