//! Property lists, as the `plist` crate reads and writes them.
//!
//! The values stay the crate's own. What they hold is named by
//! [`plist_shape`] and [`dict_entries`]; the functions below are the only
//! way in which the rest of the library touches them.

use vstd::prelude::*;

verus! {

/// What a property list value holds, as far as unit files use it.
pub enum PlistModel {
    String(Seq<char>),
    Boolean(bool),
    Array(Seq<PlistModel>),
    /// The entries in the dictionary's order.
    Dictionary(Seq<(Seq<char>, PlistModel)>),
    /// A date, a number, raw data or an identifier.
    Other,
}

/// Entries of a dictionary: key and value.
pub type Entries = Seq<(Seq<char>, PlistModel)>;

/// The value type of the `plist` crate.
#[verifier::external_type_specification]
#[verifier::external_body]
pub struct ExValue(plist::Value);

/// The dictionary type of the `plist` crate.
#[verifier::external_type_specification]
#[verifier::external_body]
pub struct ExDictionary(plist::Dictionary);

/// What a value holds.
pub uninterp spec fn plist_shape(v: plist::Value) -> PlistModel;

/// The entries of a dictionary, in its order.
pub uninterp spec fn dict_entries(d: plist::Dictionary) -> Entries;

/// The value that the `plist` crate reads from a document, where it
/// reads one.
pub uninterp spec fn plist_decoded(bytes: Seq<u8>) -> Option<PlistModel>;

/// The XML document that the `plist` crate writes for a value, or the
/// text of its error where it writes none.
pub uninterp spec fn plist_xml(value: PlistModel) -> Result<Seq<u8>, Seq<char>>;

/// What each of a list of values holds.
pub open spec fn shapes(items: Seq<plist::Value>) -> Seq<PlistModel> {
    items.map_values(|x: plist::Value| plist_shape(x))
}

/// What each of a list of keyed values holds.
pub open spec fn entry_shapes(items: Seq<(String, plist::Value)>) -> Entries {
    items.map_values(|e: (String, plist::Value)| (e.0@, plist_shape(e.1)))
}

/// Index of the first entry with the given key; the number of entries
/// where there is none.
pub open spec fn key_index(entries: Entries, key: Seq<char>) -> nat
    decreases entries.len(),
{
    if entries.len() == 0 || entries[0].0 == key {
        0
    } else {
        1 + key_index(entries.drop_first(), key)
    }
}

/// The value stored under a key.
pub open spec fn lookup(entries: Entries, key: Seq<char>) -> Option<PlistModel> {
    let i = key_index(entries, key);
    if i < entries.len() {
        Some(entries[i as int].1)
    } else {
        None
    }
}

/// The entries after storing a value under a key: an entry with that key
/// keeps its place and takes the value, otherwise a new entry comes
/// last.
pub open spec fn inserted(entries: Entries, key: Seq<char>, value: PlistModel) -> Entries {
    let i = key_index(entries, key);
    if i < entries.len() {
        entries.update(i as int, (key, value))
    } else {
        entries.push((key, value))
    }
}

/// A string or a boolean.
pub open spec fn is_scalar(m: PlistModel) -> bool {
    m is String || m is Boolean
}

/// A string, a boolean, or an array or dictionary of those.
pub open spec fn is_flat(m: PlistModel) -> bool {
    match m {
        PlistModel::String(_) => true,
        PlistModel::Boolean(_) => true,
        PlistModel::Array(items) => forall|i: int|
            0 <= i < items.len() ==> is_scalar(#[trigger] items[i]),
        PlistModel::Dictionary(entries) => forall|i: int|
            0 <= i < entries.len() ==> is_scalar((#[trigger] entries[i]).1),
        PlistModel::Other => false,
    }
}

/// Every value of the entries is flat.
pub open spec fn flat_entries(entries: Entries) -> bool {
    forall|i: int| 0 <= i < entries.len() ==> is_flat((#[trigger] entries[i]).1)
}

/// Every value of the entries is a string or a boolean.
pub open spec fn scalar_entries(entries: Entries) -> bool {
    forall|i: int| 0 <= i < entries.len() ==> is_scalar((#[trigger] entries[i]).1)
}

/// A dictionary of flat values: what a unit file is written from. Such a
/// value holds nothing that [`PlistModel`] leaves out.
pub open spec fn renderable(m: PlistModel) -> bool {
    m matches PlistModel::Dictionary(entries) && flat_entries(entries)
}

/// Where [`key_index`] points: at the first entry with the key.
pub proof fn lemma_key_index(entries: Entries, key: Seq<char>)
    ensures
        key_index(entries, key) <= entries.len(),
        forall|j: int| 0 <= j < key_index(entries, key) ==> (#[trigger] entries[j]).0 != key,
        key_index(entries, key) < entries.len() ==> entries[key_index(entries, key) as int].0
            == key,
    decreases entries.len(),
{
    if entries.len() > 0 && entries[0].0 != key {
        let rest = entries.drop_first();
        lemma_key_index(rest, key);
        assert forall|j: int| 0 <= j < key_index(entries, key) implies (#[trigger] entries[j]).0
            != key by {
            if j > 0 {
                assert(rest[j - 1] == entries[j]);
            }
        }
    }
}

/// An index that holds the key and has no such entry before it is the
/// key's index.
pub proof fn lemma_key_index_is(entries: Entries, key: Seq<char>, i: int)
    requires
        0 <= i <= entries.len(),
        forall|j: int| 0 <= j < i ==> (#[trigger] entries[j]).0 != key,
        i < entries.len() ==> entries[i].0 == key,
    ensures
        key_index(entries, key) == i,
{
    lemma_key_index(entries, key);
    let k = key_index(entries, key) as int;
    if k < i {
        assert(entries[k].0 == key);
    } else if i < k {
        assert(entries[i].0 == key);
    }
}

/// A stored value is found under its key, and the other keys keep their
/// values.
pub proof fn lemma_lookup_inserted(
    entries: Entries,
    key: Seq<char>,
    value: PlistModel,
    other: Seq<char>,
)
    ensures
        lookup(inserted(entries, key, value), key) == Some(value),
        other != key ==> lookup(inserted(entries, key, value), other) == lookup(entries, other),
        inserted(entries, key, value).len() >= entries.len(),
{
    lemma_key_index(entries, key);
    lemma_key_index(entries, other);
    let after = inserted(entries, key, value);
    let i = key_index(entries, key) as int;
    assert forall|j: int| 0 <= j < i implies (#[trigger] after[j]).0 != key by {
        assert(after[j] == entries[j]);
    }
    lemma_key_index_is(after, key, i);
    if other != key {
        let k = key_index(entries, other) as int;
        assert forall|j: int| 0 <= j < k implies (#[trigger] after[j]).0 != other by {
            if j < entries.len() {
                if j != i {
                    assert(after[j] == entries[j]);
                }
            }
        }
        if k < entries.len() {
            assert(k != i);
            assert(after[k] == entries[k]);
            lemma_key_index_is(after, other, k);
        } else {
            assert forall|j: int| 0 <= j < after.len() implies (#[trigger] after[j]).0
                != other by {
                if j < entries.len() && j != i {
                    assert(after[j] == entries[j]);
                }
            }
            lemma_key_index_is(after, other, after.len() as int);
        }
    }
}

/// Reads a property list document. Trusted: `plist::from_bytes` returns
/// the value that [`plist_decoded`] names, and fails where it names none.
#[verifier::external_body]
pub(crate) fn value_from_bytes(bytes: &[u8]) -> (r: Option<plist::Value>)
    ensures
        match r {
            Some(v) => plist_decoded(bytes@) == Some(plist_shape(v)),
            None => plist_decoded(bytes@) is None,
        },
{
    plist::from_bytes::<plist::Value>(bytes).ok()
}

/// Writes a value as an XML document. Trusted: `plist::to_writer_xml`
/// writes the document that [`plist_xml`] names, which depends on nothing
/// but what the value holds; where it writes none, the name gives the
/// text of its error.
#[verifier::external_body]
pub(crate) fn value_to_xml(v: &plist::Value) -> (r: Result<Vec<u8>, String>)
    requires
        renderable(plist_shape(*v)),
    ensures
        match r {
            Ok(bytes) => plist_xml(plist_shape(*v)) == Ok::<Seq<u8>, Seq<char>>(bytes@),
            Err(reason) => plist_xml(plist_shape(*v)) == Err::<Seq<u8>, Seq<char>>(reason@),
        },
{
    let mut out: Vec<u8> = Vec::new();
    match plist::to_writer_xml(&mut out, v) {
        Ok(()) => Ok(out),
        Err(e) => Err(e.to_string()),
    }
}

/// Trusted: `Value::as_dictionary` hands out the dictionary of a
/// dictionary value, and nothing for any other value.
#[verifier::external_body]
pub(crate) fn value_as_dictionary(v: &plist::Value) -> (r: Option<&plist::Dictionary>)
    ensures
        match r {
            Some(d) => plist_shape(*v) == PlistModel::Dictionary(dict_entries(*d)),
            None => !(plist_shape(*v) is Dictionary),
        },
{
    v.as_dictionary()
}

/// Trusted: `Value::as_array` hands out the items of an array value, and
/// nothing for any other value.
#[verifier::external_body]
pub(crate) fn value_as_array(v: &plist::Value) -> (r: Option<&Vec<plist::Value>>)
    ensures
        match r {
            Some(items) => plist_shape(*v) == PlistModel::Array(shapes(items@)),
            None => !(plist_shape(*v) is Array),
        },
{
    v.as_array()
}

/// Trusted: `Value::as_string` hands out the text of a string value, and
/// nothing for any other value.
#[verifier::external_body]
pub(crate) fn value_as_string(v: &plist::Value) -> (r: Option<String>)
    ensures
        match r {
            Some(s) => plist_shape(*v) == PlistModel::String(s@),
            None => !(plist_shape(*v) is String),
        },
{
    v.as_string().map(String::from)
}

/// Trusted: `Value::as_boolean` hands out the flag of a boolean value,
/// and nothing for any other value.
#[verifier::external_body]
pub(crate) fn value_as_boolean(v: &plist::Value) -> (r: Option<bool>)
    ensures
        match r {
            Some(b) => plist_shape(*v) == PlistModel::Boolean(b),
            None => !(plist_shape(*v) is Boolean),
        },
{
    v.as_boolean()
}

/// Trusted: `Dictionary::get` finds the value stored under a key.
#[verifier::external_body]
pub(crate) fn dict_get<'a>(d: &'a plist::Dictionary, key: &str) -> (r: Option<&'a plist::Value>)
    ensures
        match r {
            Some(v) => lookup(dict_entries(*d), key@) == Some(plist_shape(*v)),
            None => lookup(dict_entries(*d), key@) is None,
        },
{
    d.get(key)
}

/// Trusted: `Dictionary::iter` walks the entries in the dictionary's
/// order. Each entry is handed out as a copy.
#[verifier::external_body]
pub(crate) fn dict_items(d: &plist::Dictionary) -> (r: Vec<(String, plist::Value)>)
    ensures
        entry_shapes(r@) == dict_entries(*d),
{
    d.iter().map(|(k, v)| (k.clone(), v.clone())).collect()
}

/// Trusted: `Dictionary::new` makes a dictionary without entries.
#[verifier::external_body]
pub(crate) fn dict_new() -> (r: plist::Dictionary)
    ensures
        dict_entries(r) == Seq::<(Seq<char>, PlistModel)>::empty(),
{
    plist::Dictionary::new()
}

/// Trusted: `Dictionary::insert` stores a value under a key as
/// [`inserted`] says.
#[verifier::external_body]
pub(crate) fn dict_insert(d: &mut plist::Dictionary, key: String, value: plist::Value)
    ensures
        dict_entries(*final(d)) == inserted(dict_entries(*old(d)), key@, plist_shape(value)),
{
    d.insert(key, value);
}

/// Trusted: the variant `Value::String` holds the given text.
#[verifier::external_body]
pub(crate) fn string_value(s: String) -> (r: plist::Value)
    ensures
        plist_shape(r) == PlistModel::String(s@),
{
    plist::Value::String(s)
}

/// Trusted: the variant `Value::Boolean` holds the given flag.
#[verifier::external_body]
pub(crate) fn boolean_value(b: bool) -> (r: plist::Value)
    ensures
        plist_shape(r) == PlistModel::Boolean(b),
{
    plist::Value::Boolean(b)
}

/// Trusted: the variant `Value::Array` holds the given items.
#[verifier::external_body]
pub(crate) fn array_value(items: Vec<plist::Value>) -> (r: plist::Value)
    ensures
        plist_shape(r) == PlistModel::Array(shapes(items@)),
{
    plist::Value::Array(items)
}

/// Trusted: the variant `Value::Dictionary` holds the given dictionary.
#[verifier::external_body]
pub(crate) fn dictionary_value(d: plist::Dictionary) -> (r: plist::Value)
    ensures
        plist_shape(r) == PlistModel::Dictionary(dict_entries(d)),
{
    plist::Value::Dictionary(d)
}

} // verus!
