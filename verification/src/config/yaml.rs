//! YAML documents as trees.

use crate::text::same;
use vstd::prelude::*;

verus! {

/// A value of a YAML document. A number is kept as its text, and a tag without the
/// exclamation mark before it.
#[derive(Debug)]
pub enum Yaml {
    Null,
    Bool(bool),
    Number(String),
    Text(String),
    Sequence(Vec<Yaml>),
    Mapping(Vec<Entry>),
    Tagged(String, Box<Yaml>),
}

/// An entry of a mapping.
#[derive(Debug)]
pub struct Entry {
    pub key: Yaml,
    pub value: Yaml,
}

/// A value of a YAML document, with its texts.
pub enum YamlView {
    Null,
    Bool(bool),
    Number(Seq<char>),
    Text(Seq<char>),
    Sequence(Seq<YamlView>),
    Mapping(Seq<EntryView>),
    Tagged(Seq<char>, Box<YamlView>),
}

/// An entry of a mapping, with its texts.
pub struct EntryView {
    pub key: YamlView,
    pub value: YamlView,
}

/// A value with its texts.
pub open spec fn yaml_view(y: Yaml) -> YamlView
    decreases y,
{
    match y {
        Yaml::Null => YamlView::Null,
        Yaml::Bool(b) => YamlView::Bool(b),
        Yaml::Number(t) => YamlView::Number(t@),
        Yaml::Text(t) => YamlView::Text(t@),
        Yaml::Sequence(v) => YamlView::Sequence(
            Seq::new(
                v@.len(),
                |i: int|
                    if 0 <= i < v@.len() {
                        yaml_view(v@[i])
                    } else {
                        YamlView::Null
                    },
            ),
        ),
        Yaml::Mapping(v) => YamlView::Mapping(
            Seq::new(
                v@.len(),
                |i: int|
                    if 0 <= i < v@.len() {
                        EntryView { key: yaml_view(v@[i].key), value: yaml_view(v@[i].value) }
                    } else {
                        EntryView { key: YamlView::Null, value: YamlView::Null }
                    },
            ),
        ),
        Yaml::Tagged(t, b) => YamlView::Tagged(t@, Box::new(yaml_view(*b))),
    }
}

impl View for Yaml {
    type V = YamlView;

    open spec fn view(&self) -> YamlView {
        yaml_view(*self)
    }
}

impl View for Entry {
    type V = EntryView;

    open spec fn view(&self) -> EntryView {
        EntryView { key: self.key@, value: self.value@ }
    }
}

/// The entries of a mapping, with their texts.
pub open spec fn entries_view(v: Seq<Entry>) -> Seq<EntryView> {
    Seq::new(v.len(), |i: int| v[i]@)
}

pub(crate) proof fn lemma_mapping_view(v: Vec<Entry>)
    ensures
        yaml_view(Yaml::Mapping(v)) == YamlView::Mapping(entries_view(v@)),
{
    let y = Yaml::Mapping(v);
    assert(yaml_view(y)->Mapping_0 =~= entries_view(v@));
}

// ---- equality ----

/// Whether two numbers are equal: zero has two texts, every other number one.
pub open spec fn same_number(a: Seq<char>, b: Seq<char>) -> bool {
    a == b || ((a == "0.0"@ || a == "-0.0"@) && (b == "0.0"@ || b == "-0.0"@))
}

/// Marks a place of the first of two mappings that are compared.
pub open spec fn first_place(i: int) -> bool {
    true
}

/// Marks a place of the second of two mappings that are compared.
pub open spec fn second_place(j: int) -> bool {
    true
}

/// Marks the place of the entry that another one is equal to.
pub open spec fn partner_place(j: int) -> bool {
    true
}

/// Whether two values are equal. The order of the entries of a mapping does not count.
pub open spec fn same_yaml(a: YamlView, b: YamlView) -> bool
    decreases a,
{
    match (a, b) {
        (YamlView::Null, YamlView::Null) => true,
        (YamlView::Bool(x), YamlView::Bool(y)) => x == y,
        (YamlView::Number(x), YamlView::Number(y)) => same_number(x, y),
        (YamlView::Text(x), YamlView::Text(y)) => x == y,
        (YamlView::Sequence(x), YamlView::Sequence(y)) => x.len() == y.len() && forall|i: int|
            0 <= i < x.len() ==> same_yaml(#[trigger] x[i], y[i]),
        (YamlView::Mapping(x), YamlView::Mapping(y)) => {
            &&& x.len() == y.len()
            &&& forall|i: int| #[trigger]
                first_place(i) && 0 <= i < x.len() ==> exists|j: int| #[trigger]
                    partner_place(j) && 0 <= j < y.len() && same_yaml(x[i].key, y[j].key)
                        && same_yaml(x[i].value, y[j].value)
            &&& forall|j: int| #[trigger]
                second_place(j) && 0 <= j < y.len() ==> exists|i: int| #[trigger]
                    partner_place(i) && 0 <= i < x.len() && same_yaml(x[i].key, y[j].key)
                        && same_yaml(x[i].value, y[j].value)
        },
        (YamlView::Tagged(s, x), YamlView::Tagged(t, y)) => s == t && same_yaml(*x, *y),
        _ => false,
    }
}

/// Whether two entries are equal.
pub open spec fn same_entry(a: EntryView, b: EntryView) -> bool {
    same_yaml(a.key, b.key) && same_yaml(a.value, b.value)
}

fn is_same_number(a: &String, b: &String) -> (r: bool)
    ensures
        r == same_number(a@, b@),
{
    same(a.as_str(), b.as_str()) || ((same(a.as_str(), "0.0") || same(a.as_str(), "-0.0")) && (same(
        b.as_str(),
        "0.0",
    ) || same(b.as_str(), "-0.0")))
}

fn is_same_sequence(x: &Vec<Yaml>, y: &Vec<Yaml>) -> (r: bool)
    ensures
        r == same_yaml(yaml_view(Yaml::Sequence(*x)), yaml_view(Yaml::Sequence(*y))),
    decreases x, 0nat,
{
    let ghost a = yaml_view(Yaml::Sequence(*x))->Sequence_0;
    let ghost b = yaml_view(Yaml::Sequence(*y))->Sequence_0;
    if x.len() != y.len() {
        return false;
    }
    let mut i: usize = 0;
    while i < x.len()
        invariant
            i <= x@.len() == y@.len(),
            a == yaml_view(Yaml::Sequence(*x))->Sequence_0,
            b == yaml_view(Yaml::Sequence(*y))->Sequence_0,
            forall|k: int| 0 <= k < i ==> same_yaml(#[trigger] a[k], b[k]),
        decreases x@.len() - i,
    {
        assert(a[i as int] == x@[i as int]@);
        assert(b[i as int] == y@[i as int]@);
        if !is_same(&x[i], &y[i]) {
            return false;
        }
        i += 1;
    }
    true
}

/// Whether an entry is among those of a mapping.
fn has_partner(e: &Entry, y: &Vec<Entry>) -> (r: bool)
    ensures
        r == exists|j: int| 0 <= j < y@.len() && same_entry(e@, #[trigger] entries_view(y@)[j]),
    decreases e, 0nat,
{
    let ghost b = entries_view(y@);
    let mut j: usize = 0;
    while j < y.len()
        invariant
            j <= y@.len(),
            b == entries_view(y@),
            forall|k: int| 0 <= k < j ==> !same_entry(e@, #[trigger] b[k]),
        decreases y@.len() - j,
    {
        assert(b[j as int] == y@[j as int]@);
        if is_same(&e.key, &y[j].key) {
            if is_same(&e.value, &y[j].value) {
                return true;
            }
        }
        j += 1;
    }
    false
}

/// Whether one of the entries of a mapping is this one.
fn is_partner(x: &Vec<Entry>, e: &Entry) -> (r: bool)
    ensures
        r == exists|i: int| 0 <= i < x@.len() && same_entry(#[trigger] entries_view(x@)[i], e@),
    decreases x, 0nat,
{
    let ghost a = entries_view(x@);
    let mut i: usize = 0;
    while i < x.len()
        invariant
            i <= x@.len(),
            a == entries_view(x@),
            forall|k: int| 0 <= k < i ==> !same_entry(#[trigger] a[k], e@),
        decreases x@.len() - i,
    {
        assert(a[i as int] == x@[i as int]@);
        if is_same(&x[i].key, &e.key) {
            if is_same(&x[i].value, &e.value) {
                return true;
            }
        }
        i += 1;
    }
    false
}

fn is_same_mapping(x: &Vec<Entry>, y: &Vec<Entry>) -> (r: bool)
    ensures
        r == same_yaml(yaml_view(Yaml::Mapping(*x)), yaml_view(Yaml::Mapping(*y))),
    decreases x, 1nat,
{
    let ghost a = entries_view(x@);
    let ghost b = entries_view(y@);
    proof {
        lemma_mapping_view(*x);
        lemma_mapping_view(*y);
    }
    if x.len() != y.len() {
        return false;
    }
    let mut i: usize = 0;
    while i < x.len()
        invariant
            i <= x@.len() == y@.len(),
            a == entries_view(x@),
            b == entries_view(y@),
            yaml_view(Yaml::Mapping(*x)) == YamlView::Mapping(a),
            yaml_view(Yaml::Mapping(*y)) == YamlView::Mapping(b),
            forall|k: int| #[trigger]
                first_place(k) && 0 <= k < i ==> exists|j: int| #[trigger]
                    partner_place(j) && 0 <= j < b.len() && same_yaml(a[k].key, b[j].key)
                        && same_yaml(a[k].value, b[j].value),
        decreases x@.len() - i,
    {
        assert(a[i as int] == x@[i as int]@);
        if !has_partner(&x[i], y) {
            assert(first_place(i as int));
            assert(forall|j: int| 0 <= j < b.len() ==> !same_entry(a[i as int], #[trigger] b[j]));
            return false;
        }
        proof {
            let j = choose|j: int|
                0 <= j < y@.len() && same_entry(x@[i as int]@, #[trigger] entries_view(y@)[j]);
            assert(partner_place(j));
        }
        i += 1;
    }
    let mut j: usize = 0;
    while j < y.len()
        invariant
            j <= y@.len() == x@.len(),
            a == entries_view(x@),
            b == entries_view(y@),
            yaml_view(Yaml::Mapping(*x)) == YamlView::Mapping(a),
            yaml_view(Yaml::Mapping(*y)) == YamlView::Mapping(b),
            forall|k: int| #[trigger]
                second_place(k) && 0 <= k < j ==> exists|i: int| #[trigger]
                    partner_place(i) && 0 <= i < a.len() && same_yaml(a[i].key, b[k].key)
                        && same_yaml(a[i].value, b[k].value),
        decreases y@.len() - j,
    {
        assert(b[j as int] == y@[j as int]@);
        if !is_partner(x, &y[j]) {
            assert(second_place(j as int));
            assert(forall|i: int| 0 <= i < a.len() ==> !same_entry(#[trigger] a[i], b[j as int]));
            return false;
        }
        proof {
            let i = choose|i: int|
                0 <= i < x@.len() && same_entry(#[trigger] entries_view(x@)[i], y@[j as int]@);
            assert(partner_place(i));
        }
        j += 1;
    }
    assert(same_yaml(YamlView::Mapping(a), YamlView::Mapping(b)));
    true
}

/// Whether two values are equal.
pub fn is_same(a: &Yaml, b: &Yaml) -> (r: bool)
    ensures
        r == same_yaml(a@, b@),
    decreases a, 0nat,
{
    match (a, b) {
        (Yaml::Null, Yaml::Null) => true,
        (Yaml::Bool(x), Yaml::Bool(y)) => *x == *y,
        (Yaml::Number(x), Yaml::Number(y)) => is_same_number(x, y),
        (Yaml::Text(x), Yaml::Text(y)) => same(x.as_str(), y.as_str()),
        (Yaml::Sequence(x), Yaml::Sequence(y)) => is_same_sequence(x, y),
        (Yaml::Mapping(x), Yaml::Mapping(y)) => is_same_mapping(x, y),
        (Yaml::Tagged(s, x), Yaml::Tagged(t, y)) => same(s.as_str(), t.as_str()) && is_same(x, y),
        _ => false,
    }
}

/// Every value is equal to itself.
pub proof fn law_same_yaml_is_reflexive(a: YamlView)
    ensures
        same_yaml(a, a),
    decreases a,
{
    match a {
        YamlView::Sequence(x) => {
            assert forall|i: int| 0 <= i < x.len() implies same_yaml(#[trigger] x[i], x[i]) by {
                law_same_yaml_is_reflexive(x[i]);
            }
            assert(same_yaml(YamlView::Sequence(x), YamlView::Sequence(x)));
        },
        YamlView::Mapping(x) => {
            assert forall|i: int| #[trigger]
                first_place(i) && 0 <= i < x.len() implies exists|j: int| #[trigger]
                partner_place(j) && 0 <= j < x.len() && same_yaml(x[i].key, x[j].key)
                    && same_yaml(x[i].value, x[j].value) by {
                law_same_yaml_is_reflexive(x[i].key);
                law_same_yaml_is_reflexive(x[i].value);
                assert(partner_place(i));
            }
            assert forall|j: int| #[trigger]
                second_place(j) && 0 <= j < x.len() implies exists|i: int| #[trigger]
                partner_place(i) && 0 <= i < x.len() && same_yaml(x[i].key, x[j].key)
                    && same_yaml(x[i].value, x[j].value) by {
                law_same_yaml_is_reflexive(x[j].key);
                law_same_yaml_is_reflexive(x[j].value);
                assert(partner_place(j));
            }
        },
        YamlView::Tagged(_, x) => law_same_yaml_is_reflexive(*x),
        _ => {},
    }
}

/// Equality goes both ways.
pub proof fn law_same_yaml_is_symmetric(a: YamlView, b: YamlView)
    requires
        same_yaml(a, b),
    ensures
        same_yaml(b, a),
    decreases a,
{
    match (a, b) {
        (YamlView::Sequence(x), YamlView::Sequence(y)) => {
            assert forall|i: int| 0 <= i < y.len() implies same_yaml(#[trigger] y[i], x[i]) by {
                assert(same_yaml(x[i], y[i]));
                law_same_yaml_is_symmetric(x[i], y[i]);
            }
        },
        (YamlView::Mapping(x), YamlView::Mapping(y)) => {
            assert forall|j: int| #[trigger]
                first_place(j) && 0 <= j < y.len() implies exists|i: int| #[trigger]
                partner_place(i) && 0 <= i < x.len() && same_yaml(y[j].key, x[i].key)
                    && same_yaml(y[j].value, x[i].value) by {
                assert(second_place(j));
                let i = choose|i: int| #[trigger]
                    partner_place(i) && 0 <= i < x.len() && same_yaml(x[i].key, y[j].key)
                        && same_yaml(x[i].value, y[j].value);
                law_same_yaml_is_symmetric(x[i].key, y[j].key);
                law_same_yaml_is_symmetric(x[i].value, y[j].value);
                assert(partner_place(i));
            }
            assert forall|i: int| #[trigger]
                second_place(i) && 0 <= i < x.len() implies exists|j: int| #[trigger]
                partner_place(j) && 0 <= j < y.len() && same_yaml(y[j].key, x[i].key)
                    && same_yaml(y[j].value, x[i].value) by {
                assert(first_place(i));
                let j = choose|j: int| #[trigger]
                    partner_place(j) && 0 <= j < y.len() && same_yaml(x[i].key, y[j].key)
                        && same_yaml(x[i].value, y[j].value);
                law_same_yaml_is_symmetric(x[i].key, y[j].key);
                law_same_yaml_is_symmetric(x[i].value, y[j].value);
                assert(partner_place(j));
            }
        },
        (YamlView::Tagged(_, x), YamlView::Tagged(_, y)) => law_same_yaml_is_symmetric(*x, *y),
        _ => {},
    }
}

/// What is equal to the same value is equal.
pub proof fn law_same_yaml_is_transitive(a: YamlView, b: YamlView, c: YamlView)
    requires
        same_yaml(a, b),
        same_yaml(b, c),
    ensures
        same_yaml(a, c),
    decreases a,
{
    match (a, b, c) {
        (YamlView::Sequence(x), YamlView::Sequence(y), YamlView::Sequence(z)) => {
            assert forall|i: int| 0 <= i < x.len() implies same_yaml(#[trigger] x[i], z[i]) by {
                assert(same_yaml(x[i], y[i]));
                assert(same_yaml(y[i], z[i]));
                law_same_yaml_is_transitive(x[i], y[i], z[i]);
            }
        },
        (YamlView::Mapping(x), YamlView::Mapping(y), YamlView::Mapping(z)) => {
            assert forall|i: int| #[trigger]
                first_place(i) && 0 <= i < x.len() implies exists|k: int| #[trigger]
                partner_place(k) && 0 <= k < z.len() && same_yaml(x[i].key, z[k].key)
                    && same_yaml(x[i].value, z[k].value) by {
                let j = choose|j: int| #[trigger]
                    partner_place(j) && 0 <= j < y.len() && same_yaml(x[i].key, y[j].key)
                        && same_yaml(x[i].value, y[j].value);
                assert(first_place(j));
                let k = choose|k: int| #[trigger]
                    partner_place(k) && 0 <= k < z.len() && same_yaml(y[j].key, z[k].key)
                        && same_yaml(y[j].value, z[k].value);
                law_same_yaml_is_transitive(x[i].key, y[j].key, z[k].key);
                law_same_yaml_is_transitive(x[i].value, y[j].value, z[k].value);
                assert(partner_place(k));
            }
            assert forall|k: int| #[trigger]
                second_place(k) && 0 <= k < z.len() implies exists|i: int| #[trigger]
                partner_place(i) && 0 <= i < x.len() && same_yaml(x[i].key, z[k].key)
                    && same_yaml(x[i].value, z[k].value) by {
                let j = choose|j: int| #[trigger]
                    partner_place(j) && 0 <= j < y.len() && same_yaml(y[j].key, z[k].key)
                        && same_yaml(y[j].value, z[k].value);
                assert(second_place(j));
                let i = choose|i: int| #[trigger]
                    partner_place(i) && 0 <= i < x.len() && same_yaml(x[i].key, y[j].key)
                        && same_yaml(x[i].value, y[j].value);
                law_same_yaml_is_transitive(x[i].key, y[j].key, z[k].key);
                law_same_yaml_is_transitive(x[i].value, y[j].value, z[k].value);
                assert(partner_place(i));
            }
        },
        (YamlView::Tagged(_, x), YamlView::Tagged(_, y), YamlView::Tagged(_, z)) => {
            law_same_yaml_is_transitive(*x, *y, *z);
        },
        _ => {},
    }
}

/// Equal scalars say the same, and values of different kinds are never equal.
pub proof fn law_equal_scalars_say_the_same(a: YamlView, b: YamlView, s: Seq<char>, t: Seq<char>)
    ensures
        same_yaml(YamlView::Text(s), YamlView::Text(t)) <==> s == t,
        same_yaml(YamlView::Bool(true), YamlView::Bool(false)) == false,
        !(YamlView::Number(s) is Text) && !same_yaml(YamlView::Number(s), YamlView::Text(t)),
        same_yaml(YamlView::Number(s), YamlView::Number(t)) && s != t ==> (s == "0.0"@ || s
            == "-0.0"@) && (t == "0.0"@ || t == "-0.0"@),
        same_yaml(a, b) ==> (a is Null <==> b is Null) && (a is Bool <==> b is Bool) && (a is Text
            <==> b is Text) && (a is Number <==> b is Number) && (a is Sequence <==> b is Sequence)
            && (a is Mapping <==> b is Mapping) && (a is Tagged <==> b is Tagged),
{
}

/// Equal sequences have equal values at every place.
pub proof fn law_equal_sequences_agree_everywhere(x: Seq<YamlView>, y: Seq<YamlView>, i: int)
    requires
        same_yaml(YamlView::Sequence(x), YamlView::Sequence(y)),
    ensures
        x.len() == y.len(),
        0 <= i < x.len() ==> same_yaml(x[i], y[i]),
{
}

/// Equal mappings have an equal entry for every entry, and the order does not count: a mapping
/// is equal to itself with two entries in each other's places.
pub proof fn law_order_of_entries_does_not_count(x: Seq<EntryView>, i: int, j: int)
    requires
        0 <= i < x.len(),
        0 <= j < x.len(),
    ensures
        same_yaml(YamlView::Mapping(x), YamlView::Mapping(x.update(i, x[j]).update(j, x[i]))),
{
    let y = x.update(i, x[j]).update(j, x[i]);
    assert forall|k: int| #[trigger]
        first_place(k) && 0 <= k < x.len() implies exists|l: int| #[trigger]
        partner_place(l) && 0 <= l < y.len() && same_yaml(x[k].key, y[l].key) && same_yaml(
            x[k].value,
            y[l].value,
        ) by {
        let l = if k == i {
            j
        } else if k == j {
            i
        } else {
            k
        };
        assert(y[l] == x[k]);
        law_same_yaml_is_reflexive(x[k].key);
        law_same_yaml_is_reflexive(x[k].value);
        assert(partner_place(l));
    }
    assert forall|l: int| #[trigger]
        second_place(l) && 0 <= l < y.len() implies exists|k: int| #[trigger]
        partner_place(k) && 0 <= k < x.len() && same_yaml(x[k].key, y[l].key) && same_yaml(
            x[k].value,
            y[l].value,
        ) by {
        let k = if l == i {
            j
        } else if l == j {
            i
        } else {
            l
        };
        assert(y[l] == x[k]);
        law_same_yaml_is_reflexive(x[k].key);
        law_same_yaml_is_reflexive(x[k].value);
        assert(partner_place(k));
    }
    assert(same_yaml(YamlView::Mapping(x), YamlView::Mapping(y)));
}

/// Equal mappings have as many entries.
pub proof fn law_equal_mappings_have_as_many_entries(x: Seq<EntryView>, y: Seq<EntryView>)
    requires
        same_yaml(YamlView::Mapping(x), YamlView::Mapping(y)),
    ensures
        x.len() == y.len(),
{
}

} // verus!
