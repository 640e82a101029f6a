//! A user's configuration laid over the one with all defaults.

use crate::config::yaml::{
    entries_view, is_same, law_same_yaml_is_symmetric, law_same_yaml_is_transitive,
    lemma_mapping_view, same_yaml, Entry, EntryView, Yaml, YamlView,
};
use serde_yaml::value::{Tag, TaggedValue};
use serde_yaml::Value;
use vstd::prelude::*;

verus! {

// ---- documents ----

/// The `Value` of serde_yaml.
#[verifier::external_type_specification]
#[verifier::external_body]
pub struct ExYamlValue(serde_yaml::Value);

/// A value of serde_yaml as a tree of this library, part by part. A number goes over
/// as its text, and a tag without the mark before it.
#[verifier::external_body]
fn tree_of(value: Value) -> Yaml {
    match value {
        Value::Null => Yaml::Null,
        Value::Bool(b) => Yaml::Bool(b),
        Value::Number(n) => Yaml::Number(n.to_string()),
        Value::String(s) => Yaml::Text(s),
        Value::Sequence(v) => Yaml::Sequence(v.into_iter().map(tree_of).collect()),
        Value::Mapping(m) => Yaml::Mapping(
            m.into_iter().map(|(k, v)| Entry { key: tree_of(k), value: tree_of(v) }).collect(),
        ),
        Value::Tagged(t) => Yaml::Tagged(
            t.tag.to_string().split_off(1),
            Box::new(tree_of(t.value)),
        ),
    }
}

/// A tree of this library as a value of serde_yaml, part by part. The text of a
/// number is read as a document of its own, and a tag gets its mark back.
#[verifier::external_body]
fn value_of(tree: Yaml) -> Value {
    match tree {
        Yaml::Null => Value::Null,
        Yaml::Bool(b) => Value::Bool(b),
        Yaml::Number(t) => serde_yaml::from_str(&t).unwrap_or_default(),
        Yaml::Text(s) => Value::String(s),
        Yaml::Sequence(v) => Value::Sequence(v.into_iter().map(value_of).collect()),
        Yaml::Mapping(m) => Value::Mapping(
            m.into_iter().map(|e| (value_of(e.key), value_of(e.value))).collect(),
        ),
        Yaml::Tagged(t, v) => Value::Tagged(
            Box::new(TaggedValue { tag: Tag::new(format!("!{t}")), value: value_of(*v) }),
        ),
    }
}

/// What `serde_yaml::from_str` makes of a text; the error is its text.
pub uninterp spec fn parsed_yaml(text: Seq<char>) -> Result<YamlView, Seq<char>>;

/// What `serde_yaml::to_string` makes of a value; the error is its text.
pub uninterp spec fn printed_yaml(value: YamlView) -> Result<Seq<char>, Seq<char>>;

/// A result of reading a document, with its texts.
pub open spec fn tree_result(r: Result<Yaml, String>) -> Result<YamlView, Seq<char>> {
    match r {
        Ok(y) => Ok(y@),
        Err(m) => Err(m@),
    }
}

/// A result of writing a document, with its texts.
pub open spec fn text_result(r: Result<String, String>) -> Result<Seq<char>, Seq<char>> {
    match r {
        Ok(t) => Ok(t@),
        Err(m) => Err(m@),
    }
}

/// Whether no two keys of a mapping are equal.
pub open spec fn distinct_keys(entries: Seq<EntryView>) -> bool {
    forall|i: int, j: int|
        0 <= i < j < entries.len() ==> !same_yaml(
            (#[trigger] entries[i]).key,
            (#[trigger] entries[j]).key,
        )
}

/// Whether no mapping that can be reached through mappings has two equal keys.
pub open spec fn well_formed(y: YamlView) -> bool
    decreases y,
{
    match y {
        YamlView::Mapping(entries) => distinct_keys(entries) && forall|i: int|
            0 <= i < entries.len() ==> well_formed((#[trigger] entries[i]).value),
        _ => true,
    }
}

/// `serde_yaml::from_str`: the value that a document holds, or the text of the error.
/// A document with two equal keys in one mapping is an error. What else a document is
/// is not stated.
#[verifier::external_body]
fn read_yaml(text: &str) -> (r: Result<Yaml, String>)
    ensures
        tree_result(r) == parsed_yaml(text@),
        r matches Ok(y) ==> well_formed(y@),
{
    match serde_yaml::from_str::<Value>(text) {
        Ok(value) => Ok(tree_of(value)),
        Err(e) => Err(e.to_string()),
    }
}

/// `serde_yaml::to_string`: a document that holds a value, or the text of the error. Its
/// shape is not stated.
#[verifier::external_body]
fn write_yaml(tree: Yaml) -> (r: Result<String, String>)
    ensures
        text_result(r) == printed_yaml(tree@),
{
    match serde_yaml::to_string(&value_of(tree)) {
        Ok(text) => Ok(text),
        Err(e) => Err(e.to_string()),
    }
}

/// Reads a document.
pub fn parse_yaml(text: &str) -> (r: Result<Yaml, String>)
    ensures
        tree_result(r) == parsed_yaml(text@),
        r matches Ok(y) ==> well_formed(y@),
{
    read_yaml(text)
}

// ---- merging ----

/// The place of the entry with a key; the number of entries where there is none.
pub open spec fn key_place(entries: Seq<EntryView>, key: YamlView) -> int
    decreases entries.len(),
{
    if entries.len() == 0 {
        0
    } else if key_place(entries.drop_last(), key) < entries.len() - 1 {
        key_place(entries.drop_last(), key)
    } else if same_yaml(entries.last().key, key) {
        entries.len() - 1
    } else {
        entries.len() as int
    }
}

/// The entries of `base` after those of `overlay` are laid over them, one by one: an
/// entry with the same key is taken out, its place taken by the last one, and what
/// both make goes to the end; an entry with another key is added at the end.
pub open spec fn merged_entries(base: Seq<EntryView>, overlay: Seq<EntryView>) -> Seq<EntryView>
    decreases overlay,
{
    if overlay.len() == 0 {
        base
    } else {
        let before = merged_entries(base, overlay.drop_last());
        let EntryView { key, value } = overlay.last();
        let i = key_place(before, key);
        if 0 <= i < before.len() {
            let both = match (before[i].value, value) {
                (YamlView::Mapping(b), YamlView::Mapping(o)) => YamlView::Mapping(
                    merged_entries(b, o),
                ),
                _ => value,
            };
            before.update(i, before.last()).drop_last().push(EntryView { key, value: both })
        } else {
            before.push(EntryView { key, value })
        }
    }
}

/// Two values merged: mappings entry by entry, and everything else as the overlay has it.
pub open spec fn merged(base: YamlView, overlay: YamlView) -> YamlView {
    match (base, overlay) {
        (YamlView::Mapping(b), YamlView::Mapping(o)) => YamlView::Mapping(merged_entries(b, o)),
        _ => overlay,
    }
}

/// Two documents merged. A document that says nothing at all omits every section, so the
/// base stays as it is; a null inside of a document is a value like any other.
pub open spec fn merged_document(base: YamlView, overlay: YamlView) -> YamlView {
    if overlay is Null {
        base
    } else {
        merged(base, overlay)
    }
}

fn find_key(entries: &Vec<Entry>, key: &Yaml) -> (r: usize)
    ensures
        r == key_place(entries_view(entries@), key@),
        r <= entries@.len(),
{
    let ghost all = entries_view(entries@);
    let mut i: usize = 0;
    while i < entries.len()
        invariant
            i <= entries@.len(),
            all == entries_view(entries@),
            key_place(all.take(i as int), key@) == i,
        decreases entries@.len() - i,
    {
        assert(all.take(i + 1).drop_last() =~= all.take(i as int));
        assert(all[i as int] == entries@[i as int]@);
        if is_same(&entries[i].key, key) {
            proof {
                lemma_place_in_longer(all, i + 1, key@);
            }
            return i;
        }
        i += 1;
    }
    assert(all.take(i as int) =~= all);
    i
}

proof fn lemma_place_in_longer(entries: Seq<EntryView>, n: int, key: YamlView)
    requires
        0 <= n <= entries.len(),
        key_place(entries.take(n), key) < n,
    ensures
        key_place(entries, key) == key_place(entries.take(n), key),
    decreases entries.len(),
{
    if n == entries.len() {
        assert(entries.take(n) =~= entries);
    } else {
        assert(entries.drop_last().take(n) =~= entries.take(n));
        lemma_place_in_longer(entries.drop_last(), n, key);
    }
}

/// Deep-merge two YAML values. `overlay` wins on conflicts.
///
/// - **Mappings**: recursively merged key-by-key; overlay keys win.
/// - **Sequences**: overlay replaces base entirely.
/// - **Scalars/nulls**: overlay wins.
pub fn deep_merge(base: Yaml, overlay: Yaml) -> (r: Yaml)
    ensures
        r@ == merged(base@, overlay@),
    decreases overlay,
{
    let ghost whole = overlay;
    match (base, overlay) {
        (Yaml::Mapping(base_map), Yaml::Mapping(overlay_map)) => {
            let ghost all = overlay_map@;
            let ghost start = entries_view(base_map@);
            proof {
                lemma_mapping_view(base_map);
                lemma_mapping_view(overlay_map);
            }
            let mut result = base_map;
            let mut rest = overlay_map;
            let ghost mut done: int = 0;
            while rest.len() > 0
                invariant
                    0 <= done <= all.len(),
                    rest@ == all.skip(done),
                    whole == overlay,
                    whole is Mapping,
                    whole->Mapping_0@ == all,
                    entries_view(result@) == merged_entries(start, entries_view(all).take(done)),
                decreases rest@.len(),
            {
                let entry = rest.remove(0);
                proof {
                    assert(entry == all[done]);
                    assert(rest@ =~= all.skip(done + 1));
                    let taken = entries_view(all).take(done + 1);
                    assert(taken.drop_last() =~= entries_view(all).take(done));
                    assert(taken.last() == entry@);
                    assert(decreases_to!(whole => whole->Mapping_0));
                    assert(decreases_to!(whole->Mapping_0 => whole->Mapping_0@));
                    assert(decreases_to!(whole->Mapping_0@ => whole->Mapping_0@[done]));
                    assert(decreases_to!(entry => entry.value));
                }
                let i: usize = find_key(&result, &entry.key);
                let ghost before = entries_view(result@);
                if i < result.len() {
                    let old_entry = result.swap_remove(i);
                    let Entry { key, value } = entry;
                    let value = deep_merge(old_entry.value, value);
                    result.push(Entry { key, value });
                    assert(entries_view(result@) =~= before.update(
                        i as int,
                        before.last(),
                    ).drop_last().push(
                        EntryView {
                            key: entry.key@,
                            value: merged(before[i as int].value, entry.value@),
                        },
                    ));
                } else {
                    result.push(entry);
                    assert(entries_view(result@) =~= before.push(entry@));
                }
                proof {
                    done = done + 1;
                }
            }
            proof {
                assert(entries_view(all).take(done) =~= entries_view(all));
                lemma_mapping_view(result);
            }
            Yaml::Mapping(result)
        },
        (_, overlay) => overlay,
    }
}

// ---- what merging keeps ----

/// The value under a key.
pub open spec fn lookup(entries: Seq<EntryView>, key: YamlView) -> Option<YamlView> {
    let i = key_place(entries, key);
    if 0 <= i < entries.len() {
        Some(entries[i].value)
    } else {
        None
    }
}

proof fn lemma_key_place(entries: Seq<EntryView>, key: YamlView)
    ensures
        0 <= key_place(entries, key) <= entries.len(),
        key_place(entries, key) < entries.len() ==> same_yaml(
            entries[key_place(entries, key)].key,
            key,
        ),
        forall|j: int|
            0 <= j < key_place(entries, key) ==> !same_yaml((#[trigger] entries[j]).key, key),
    decreases entries.len(),
{
    if entries.len() > 0 {
        let init = entries.drop_last();
        lemma_key_place(init, key);
        let p = key_place(entries, key);
        assert forall|j: int| 0 <= j < p implies !same_yaml((#[trigger] entries[j]).key, key) by {
            if j < init.len() {
                assert(init[j] == entries[j]);
            }
        }
        if p < init.len() {
            assert(init[p] == entries[p]);
        }
    }
}

proof fn lemma_place_of(entries: Seq<EntryView>, key: YamlView, j: int)
    requires
        distinct_keys(entries),
        0 <= j < entries.len(),
        same_yaml(entries[j].key, key),
    ensures
        key_place(entries, key) == j,
{
    lemma_key_place(entries, key);
    let p = key_place(entries, key);
    if p < j {
        law_same_yaml_is_symmetric(entries[j].key, key);
        law_same_yaml_is_transitive(entries[p].key, key, entries[j].key);
    }
}

proof fn lemma_no_place(entries: Seq<EntryView>, key: YamlView)
    requires
        forall|j: int| 0 <= j < entries.len() ==> !same_yaml((#[trigger] entries[j]).key, key),
    ensures
        key_place(entries, key) == entries.len(),
{
    lemma_key_place(entries, key);
}

/// What a key stands for after an entry is laid over a mapping.
proof fn lemma_step(before: Seq<EntryView>, entry: EntryView, both: YamlView, key: YamlView)
    requires
        distinct_keys(before),
    ensures
        ({
            let i = key_place(before, entry.key);
            let after = if 0 <= i < before.len() {
                before.update(i, before.last()).drop_last().push(
                    EntryView { key: entry.key, value: both },
                )
            } else {
                before.push(entry)
            };
            &&& distinct_keys(after)
            &&& lookup(after, key) == if same_yaml(entry.key, key) {
                if 0 <= i < before.len() {
                    Some(both)
                } else {
                    Some(entry.value)
                }
            } else {
                lookup(before, key)
            }
        }),
{
    let i = key_place(before, entry.key);
    lemma_key_place(before, entry.key);
    let after = if 0 <= i < before.len() {
        before.update(i, before.last()).drop_last().push(EntryView { key: entry.key, value: both })
    } else {
        before.push(entry)
    };
    let last = after.len() - 1;
    // No other entry has the key of the new one.
    assert forall|j: int| 0 <= j < last implies !same_yaml((#[trigger] after[j]).key, entry.key) by {
        let h = if j == i {
            before.len() - 1
        } else {
            j
        };
        assert(after[j] == before[h]);
        if same_yaml(before[h].key, entry.key) && i < before.len() {
            law_same_yaml_is_symmetric(before[i].key, entry.key);
            law_same_yaml_is_transitive(before[h].key, entry.key, before[i].key);
            law_same_yaml_is_symmetric(before[h].key, before[i].key);
        }
    }
    assert forall|j: int, k: int| 0 <= j < k < after.len() implies !same_yaml(
        (#[trigger] after[j]).key,
        (#[trigger] after[k]).key,
    ) by {
        if k < last {
            let h = if j == i {
                before.len() - 1
            } else {
                j
            };
            let m = if k == i {
                before.len() - 1
            } else {
                k
            };
            assert(after[j] == before[h]);
            assert(after[k] == before[m]);
            if h > m && same_yaml(before[h].key, before[m].key) {
                law_same_yaml_is_symmetric(before[h].key, before[m].key);
            }
        }
    }
    if same_yaml(entry.key, key) {
        lemma_place_of(after, key, last);
    } else {
        lemma_key_place(before, key);
        let p = key_place(before, key);
        if p < before.len() {
            // The entry with the key is still there, at its place or at that of the
            // one taken out.
            if p == i && i < before.len() {
                law_same_yaml_is_symmetric(before[i].key, entry.key);
                law_same_yaml_is_transitive(entry.key, before[i].key, key);
            }
            let q = if i < before.len() && p == before.len() - 1 {
                i
            } else {
                p
            };
            assert(after[q] == before[p]);
            lemma_place_of(after, key, q);
        } else {
            assert forall|j: int| 0 <= j < after.len() implies !same_yaml(
                (#[trigger] after[j]).key,
                key,
            ) by {
                if j < last {
                    let h = if j == i {
                        before.len() - 1
                    } else {
                        j
                    };
                    assert(after[j] == before[h]);
                }
            }
            lemma_no_place(after, key);
        }
    }
}

/// What a key stands for after a merge, given what it stood for in both mappings.
pub open spec fn merged_lookup(base: Option<YamlView>, overlay: Option<YamlView>) -> Option<
    YamlView,
> {
    match (base, overlay) {
        (Some(x), Some(y)) => Some(merged(x, y)),
        (None, Some(y)) => Some(y),
        (x, None) => x,
    }
}

/// Mappings are merged key by key: a key of both stands for what both values make, and
/// a key of one of them for what it stood for there. The result has no key twice.
pub proof fn law_merged_key_by_key(base: Seq<EntryView>, overlay: Seq<EntryView>, key: YamlView)
    requires
        distinct_keys(base),
        distinct_keys(overlay),
    ensures
        distinct_keys(merged_entries(base, overlay)),
        lookup(merged_entries(base, overlay), key) == merged_lookup(
            lookup(base, key),
            lookup(overlay, key),
        ),
    decreases overlay.len(),
{
    if overlay.len() == 0 {
        lemma_no_place(overlay, key);
    } else {
        let init = overlay.drop_last();
        let entry = overlay.last();
        assert forall|i: int, j: int| 0 <= i < j < init.len() implies !same_yaml(
            (#[trigger] init[i]).key,
            (#[trigger] init[j]).key,
        ) by {
            assert(init[i] == overlay[i] && init[j] == overlay[j]);
        }
        law_merged_key_by_key(base, init, key);
        let before = merged_entries(base, init);
        let i = key_place(before, entry.key);
        lemma_key_place(before, entry.key);
        let both = merged(before[i].value, entry.value);
        lemma_step(before, entry, both, key);
        if same_yaml(entry.key, key) {
            lemma_place_of(overlay, key, overlay.len() - 1);
            assert forall|j: int| 0 <= j < init.len() implies !same_yaml(
                (#[trigger] init[j]).key,
                key,
            ) by {
                if same_yaml(init[j].key, key) {
                    assert(init[j] == overlay[j]);
                    law_same_yaml_is_symmetric(entry.key, key);
                    law_same_yaml_is_transitive(init[j].key, key, entry.key);
                }
            }
            lemma_no_place(init, key);
            if i < before.len() {
                law_same_yaml_is_transitive(before[i].key, entry.key, key);
                lemma_place_of(before, key, i);
            } else {
                assert forall|j: int| 0 <= j < before.len() implies !same_yaml(
                    (#[trigger] before[j]).key,
                    key,
                ) by {
                    if same_yaml(before[j].key, key) {
                        law_same_yaml_is_symmetric(entry.key, key);
                        law_same_yaml_is_transitive(before[j].key, key, entry.key);
                    }
                }
                lemma_no_place(before, key);
            }
        } else {
            lemma_key_place(init, key);
            let p = key_place(init, key);
            if p < init.len() {
                assert(init[p] == overlay[p]);
                lemma_place_of(overlay, key, p);
            } else {
                assert forall|j: int| 0 <= j < overlay.len() implies !same_yaml(
                    (#[trigger] overlay[j]).key,
                    key,
                ) by {
                    if j < init.len() {
                        assert(init[j] == overlay[j]);
                    }
                }
                lemma_no_place(overlay, key);
            }
        }
    }
}

/// The value that is reached by following keys from mapping to mapping.
pub open spec fn follow(y: YamlView, path: Seq<YamlView>) -> Option<YamlView>
    decreases path.len(),
{
    if path.len() == 0 {
        Some(y)
    } else {
        match y {
            YamlView::Mapping(entries) => match lookup(entries, path[0]) {
                Some(v) => follow(v, path.skip(1)),
                None => None,
            },
            _ => None,
        }
    }
}

/// Whether a value has nothing to say about a path: on the way along it, a mapping
/// lacks the next key.
pub open spec fn is_silent(y: YamlView, path: Seq<YamlView>) -> bool
    decreases path.len(),
{
    path.len() > 0 && match y {
        YamlView::Mapping(entries) => match lookup(entries, path[0]) {
            Some(v) => is_silent(v, path.skip(1)),
            None => true,
        },
        _ => false,
    }
}

proof fn lemma_well_formed_value(entries: Seq<EntryView>, key: YamlView)
    requires
        well_formed(YamlView::Mapping(entries)),
    ensures
        lookup(entries, key) matches Some(v) ==> well_formed(v),
{
    lemma_key_place(entries, key);
}

/// Whether a document has nothing to say about a path: it is silent about it, or it is
/// empty.
pub open spec fn omits(document: YamlView, path: Seq<YamlView>) -> bool {
    document is Null || is_silent(document, path)
}

proof fn lemma_overlay_wins(base: YamlView, overlay: YamlView, path: Seq<YamlView>)
    requires
        well_formed(base),
        well_formed(overlay),
        follow(overlay, path) matches Some(v) && !(v is Mapping),
    ensures
        follow(merged(base, overlay), path) == follow(overlay, path),
    decreases path.len(),
{
    if path.len() > 0 {
        match (base, overlay) {
            (YamlView::Mapping(b), YamlView::Mapping(o)) => {
                law_merged_key_by_key(b, o, path[0]);
                lemma_well_formed_value(b, path[0]);
                lemma_well_formed_value(o, path[0]);
                if let Some(x) = lookup(b, path[0]) {
                    lemma_overlay_wins(x, lookup(o, path[0])->0, path.skip(1));
                }
            },
            _ => {},
        }
    }
}

/// The overlay wins: what it holds at a path is in the merged document at that path,
/// unless it is a mapping, which is merged in turn. Only an empty document holds nothing.
pub proof fn law_overlay_wins(base: YamlView, overlay: YamlView, path: Seq<YamlView>)
    requires
        well_formed(base),
        well_formed(overlay),
        !(overlay is Null),
        follow(overlay, path) matches Some(v) && !(v is Mapping),
    ensures
        follow(merged_document(base, overlay), path) == follow(overlay, path),
{
    lemma_overlay_wins(base, overlay, path);
}

proof fn lemma_base_fills_gaps(base: YamlView, overlay: YamlView, path: Seq<YamlView>)
    requires
        well_formed(base),
        well_formed(overlay),
        is_silent(overlay, path),
        follow(base, path) is Some,
    ensures
        follow(merged(base, overlay), path) == follow(base, path),
    decreases path.len(),
{
    match (base, overlay) {
        (YamlView::Mapping(b), YamlView::Mapping(o)) => {
            law_merged_key_by_key(b, o, path[0]);
            lemma_well_formed_value(b, path[0]);
            lemma_well_formed_value(o, path[0]);
            if let Some(y) = lookup(o, path[0]) {
                lemma_base_fills_gaps(lookup(b, path[0])->0, y, path.skip(1));
            }
        },
        _ => {},
    }
}

/// What the overlay omits is in the merged document as it is in the base.
pub proof fn law_base_fills_gaps(base: YamlView, overlay: YamlView, path: Seq<YamlView>)
    requires
        well_formed(base),
        well_formed(overlay),
        omits(overlay, path),
        follow(base, path) is Some,
    ensures
        follow(merged_document(base, overlay), path) == follow(base, path),
{
    if !(overlay is Null) {
        lemma_base_fills_gaps(base, overlay, path);
    }
}

/// An empty document as the overlay changes nothing, nor does an empty mapping where the
/// base is a mapping.
pub proof fn law_empty_overlay_gives_base(base: YamlView)
    ensures
        merged_document(base, YamlView::Null) == base,
        base is Mapping ==> merged_document(base, YamlView::Mapping(seq![])) == base,
{
}

// ---- the command ----

/// Why two configurations could not be merged.
#[derive(Debug)]
pub struct MergeError {
    /// What failed.
    pub context: &'static str,
    /// The text of the failure.
    pub source: String,
}

/// What the merge of two documents comes to, given what was read from each: the failed
/// step and the text of its failure, or the merged value.
pub open spec fn merged_documents(
    example: Result<YamlView, Seq<char>>,
    user: Result<YamlView, Seq<char>>,
) -> Result<YamlView, (Seq<char>, Seq<char>)> {
    match example {
        Err(m) => Err(("failed to parse embedded example config (this is a bug)"@, m)),
        Ok(base) => match user {
            Err(m) => Err(("failed to parse user config file"@, m)),
            Ok(overlay) => Ok(merged_document(base, overlay)),
        },
    }
}

/// Merges two documents, given what was read from each.
pub fn merge_documents(example: Result<Yaml, String>, user: Result<Yaml, String>) -> (r: Result<
    Yaml,
    MergeError,
>)
    ensures
        match (merged_documents(tree_result(example), tree_result(user)), r) {
            (Ok(v), Ok(y)) => y@ == v,
            (Err((c, m)), Err(e)) => e.context@ == c && e.source@ == m,
            _ => false,
        },
{
    match example {
        Err(source) => Err(
            MergeError {
                context: "failed to parse embedded example config (this is a bug)",
                source,
            },
        ),
        Ok(base) => match user {
            Err(source) => Err(MergeError { context: "failed to parse user config file", source }),
            Ok(Yaml::Null) => Ok(base),
            Ok(overlay) => Ok(deep_merge(base, overlay)),
        },
    }
}

/// What the merge of two documents comes to, as a document.
pub open spec fn merged_text(example: Seq<char>, user: Seq<char>) -> Result<
    Seq<char>,
    (Seq<char>, Seq<char>),
> {
    match merged_documents(parsed_yaml(example), parsed_yaml(user)) {
        Err(e) => Err(e),
        Ok(v) => match printed_yaml(v) {
            Ok(t) => Ok(t),
            Err(m) => Err(("failed to serialize merged config"@, m)),
        },
    }
}

/// Merge the example config with a user-provided config string.
///
/// The user config is the overlay: every value present in it wins over the example
/// default. Sections the user omits are filled from the example config; a file that is
/// empty or holds nothing but comments omits them all.
pub fn merge_with_example(example: &str, user_config: &str) -> (r: Result<String, MergeError>)
    ensures
        match (merged_text(example@, user_config@), r) {
            (Ok(t), Ok(x)) => x@ == t,
            (Err((c, m)), Err(e)) => e.context@ == c && e.source@ == m,
            _ => false,
        },
{
    match merge_documents(read_yaml(example), read_yaml(user_config)) {
        Err(e) => Err(e),
        Ok(y) => match write_yaml(y) {
            Ok(t) => Ok(t),
            Err(source) => Err(MergeError { context: "failed to serialize merged config", source }),
        },
    }
}

/// A configuration that can be read is merged; one that cannot be read is an error with the
/// text of the failure, which tells whose it is. The example is looked at first.
pub proof fn law_unreadable_documents_are_told(
    example: Result<YamlView, Seq<char>>,
    user: Result<YamlView, Seq<char>>,
)
    ensures
        merged_documents(example, user) is Ok <==> example is Ok && user is Ok,
        example matches Err(m) ==> (merged_documents(example, user) matches Err((c, t)) && t == m && c
            == "failed to parse embedded example config (this is a bug)"@),
        example is Ok ==> (user matches Err(m) ==> (merged_documents(example, user) matches Err(
            (c, t),
        ) && t == m && c == "failed to parse user config file"@)),
        example matches Ok(b) ==> (user matches Ok(o) ==> (merged_documents(example, user) matches Ok(
            v,
        ) && v == merged_document(b, o))),
{
}

/// What is written is the merged document, whole; that it cannot be written is an error of its
/// own.
pub proof fn law_merged_document_is_written(example: Seq<char>, user: Seq<char>)
    ensures
        match merged_documents(parsed_yaml(example), parsed_yaml(user)) {
            Ok(v) => match printed_yaml(v) {
                Ok(t) => merged_text(example, user) == Ok::<Seq<char>, (Seq<char>, Seq<char>)>(t),
                Err(m) => merged_text(example, user) matches Err((c, t)) && t == m && c
                    == "failed to serialize merged config"@,
            },
            Err(e) => merged_text(example, user) == Err::<Seq<char>, (Seq<char>, Seq<char>)>(e),
        },
        parsed_yaml(user) == Ok::<YamlView, Seq<char>>(YamlView::Null) && parsed_yaml(example) is Ok
            && printed_yaml(parsed_yaml(example)->Ok_0) is Ok ==> merged_text(example, user) == Ok::<
            Seq<char>,
            (Seq<char>, Seq<char>),
        >(printed_yaml(parsed_yaml(example)->Ok_0)->Ok_0),
{
}

/// A path of one key leads to the value under that key, and a value is silent about a key that
/// it lacks.
pub proof fn law_paths_lead_from_key_to_key(entries: Seq<EntryView>, key: YamlView, rest: Seq<YamlView>)
    ensures
        follow(YamlView::Mapping(entries), seq![key] + rest) == match lookup(entries, key) {
            Some(v) => follow(v, rest),
            None => None,
        },
        is_silent(YamlView::Mapping(entries), seq![key] + rest) <==> match lookup(entries, key) {
            Some(v) => is_silent(v, rest),
            None => true,
        },
{
    assert((seq![key] + rest).skip(1) =~= rest);
    assert((seq![key] + rest)[0] == key);
}

} // verus!
