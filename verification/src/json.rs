//! JSON documents as the identity provider sends them, read through
//! `serde_json`.

use crate::string_map::lemma_entries_unique;
use crate::string_map::lemma_put_sorted;
use crate::string_map::lookup;
use crate::string_map::strictly_sorted;
use crate::string_map::Entries;
use crate::string_map::StringMap;
use vstd::prelude::*;

verus! {

/// A JSON document of `serde_json`. Its inside is read through the functions
/// of this module only.
#[verifier::external_type_specification]
#[verifier::external_body]
pub struct ExValue(serde_json::Value);

/// What a JSON document holds.
pub enum Json {
    Null,
    Bool(bool),
    /// An integer between the least `i64` and the greatest `u64`.
    Integer(int),
    /// Any other number.
    Fraction,
    Text(Seq<char>),
    Array(Seq<Json>),
    Object(Map<Seq<char>, Json>),
}

impl Json {
    /// The member `key` of an object; nothing for a missing key and for what
    /// is no object.
    pub open spec fn member(self, key: Seq<char>) -> Option<Json> {
        match self {
            Json::Object(members) => if members.dom().contains(key) {
                Some(members[key])
            } else {
                None
            },
            _ => None,
        }
    }

    /// The text of a string.
    pub open spec fn text(self) -> Option<Seq<char>> {
        match self {
            Json::Text(s) => Some(s),
            _ => None,
        }
    }

    /// The integer, where it fits an `i64`.
    pub open spec fn signed(self) -> Option<i64> {
        match self {
            Json::Integer(n) => if i64::MIN <= n <= i64::MAX {
                Some(n as i64)
            } else {
                None
            },
            _ => None,
        }
    }

    /// The integer, where it fits a `u64`.
    pub open spec fn unsigned(self) -> Option<u64> {
        match self {
            Json::Integer(n) => if 0 <= n <= u64::MAX {
                Some(n as u64)
            } else {
                None
            },
            _ => None,
        }
    }

    /// The items of an array.
    pub open spec fn items(self) -> Option<Seq<Json>> {
        match self {
            Json::Array(items) => Some(items),
            _ => None,
        }
    }

    /// The keys of an object.
    pub open spec fn keys(self) -> Option<Set<Seq<char>>> {
        match self {
            Json::Object(members) => Some(members.dom()),
            _ => None,
        }
    }
}

/// What `value` holds.
pub uninterp spec fn json_of(value: serde_json::Value) -> Json;

/// The document that `serde_json::from_str` reads from `text`, if `text` is
/// one.
pub uninterp spec fn parsed(text: Seq<char>) -> Option<Json>;

/// The JSON string that `serde_json` writes for a text: the text in
/// double quotes, with what JSON cannot hold as it is escaped.
pub uninterp spec fn json_text(text: Seq<char>) -> Seq<char>;

/// `serde_json::Value::to_string` writes a JSON string for a text.
#[verifier::external_body]
pub(crate) fn quote(text: &str) -> (r: String)
    ensures
        r@ == json_text(text@),
{
    serde_json::Value::String(text.to_string()).to_string()
}

/// What each of `values` holds.
pub open spec fn each_json_of(values: Seq<serde_json::Value>) -> Seq<Json> {
    Seq::new(values.len(), |i: int| json_of(values[i]))
}

/// `serde_json::from_str` reads one JSON document from the whole of `text`,
/// and fails where `text` is no such document.
#[verifier::external_body]
pub(crate) fn parse(text: &str) -> (r: Option<serde_json::Value>)
    ensures
        r is Some <==> parsed(text@) is Some,
        r matches Some(v) ==> parsed(text@) == Some(json_of(v)),
{
    serde_json::from_str::<serde_json::Value>(text).ok()
}

/// `Value::is_null` tells whether the document is `null`.
#[verifier::external_body]
pub(crate) fn is_null(value: &serde_json::Value) -> (r: bool)
    ensures
        r == (json_of(*value) is Null),
{
    value.is_null()
}

/// `Value::get` with a string finds the member of an object under that key;
/// it finds nothing under a missing key, nor in what is no object.
#[verifier::external_body]
pub(crate) fn member<'a>(value: &'a serde_json::Value, key: &str) -> (r: Option<
    &'a serde_json::Value,
>)
    ensures
        r is Some <==> json_of(*value).member(key@) is Some,
        r matches Some(m) ==> json_of(*value).member(key@) == Some(json_of(*m)),
{
    value.get(key)
}

/// `Value::as_str` hands out the text of a string, and nothing for any other
/// document.
#[verifier::external_body]
pub(crate) fn as_text<'a>(value: &'a serde_json::Value) -> (r: Option<&'a str>)
    ensures
        r is Some <==> json_of(*value).text() is Some,
        r matches Some(s) ==> json_of(*value).text() == Some(s@),
{
    value.as_str()
}

/// `Value::as_i64` hands out an integer that fits an `i64`, and nothing for a
/// larger integer, a fraction or any other document.
#[verifier::external_body]
pub(crate) fn as_signed(value: &serde_json::Value) -> (r: Option<i64>)
    ensures
        r == json_of(*value).signed(),
{
    value.as_i64()
}

/// `Value::as_u64` hands out an integer that is not negative, and nothing for
/// a negative integer, a fraction or any other document.
#[verifier::external_body]
pub(crate) fn as_unsigned(value: &serde_json::Value) -> (r: Option<u64>)
    ensures
        r == json_of(*value).unsigned(),
{
    value.as_u64()
}

/// `Value::as_array` hands out the items of an array in their order, and
/// nothing for any other document.
#[verifier::external_body]
pub(crate) fn as_items<'a>(value: &'a serde_json::Value) -> (r: Option<&'a Vec<serde_json::Value>>)
    ensures
        r is Some <==> json_of(*value).items() is Some,
        r matches Some(items) ==> json_of(*value).items() == Some(each_json_of(items@)),
{
    value.as_array()
}

/// `Value::as_object` hands out the members of an object, and nothing for
/// any other document; `Map::keys` walks their keys, each once. The order of
/// the walk is left open.
#[verifier::external_body]
pub(crate) fn keys(value: &serde_json::Value) -> (r: Option<Vec<String>>)
    ensures
        r is Some <==> json_of(*value).keys() is Some,
        r matches Some(keys) ==> keys.deep_view().no_duplicates() && json_of(*value).keys() == Some(
            keys.deep_view().to_set(),
        ),
{
    value.as_object().map(|members| members.keys().cloned().collect())
}

/// Whether the member `key` of `document` is there to be read: it is neither
/// missing nor `null`.
pub open spec fn present(document: Json, key: Seq<char>) -> bool {
    document.member(key) is Some && !(document.member(key)->0 is Null)
}

/// The optional text under `key`: the outer `None` says that the member is
/// of another type.
pub open spec fn optional_text(document: Json, key: Seq<char>) -> Option<Option<Seq<char>>> {
    if !present(document, key) {
        Some(None)
    } else {
        match document.member(key)->0.text() {
            Some(s) => Some(Some(s)),
            None => None,
        }
    }
}

/// The optional integer under `key`.
pub open spec fn optional_signed(document: Json, key: Seq<char>) -> Option<Option<i64>> {
    if !present(document, key) {
        Some(None)
    } else {
        match document.member(key)->0.signed() {
            Some(n) => Some(Some(n)),
            None => None,
        }
    }
}

/// The texts of `items`, where each of them is a string.
pub open spec fn texts_of(items: Seq<Json>) -> Option<Seq<Seq<char>>> {
    if forall|i: int| 0 <= i < items.len() ==> (#[trigger] items[i]).text() is Some {
        Some(Seq::new(items.len(), |i: int| items[i].text()->0))
    } else {
        None
    }
}

/// The optional list of texts under `key`.
pub open spec fn optional_list(document: Json, key: Seq<char>) -> Option<Option<Seq<Seq<char>>>> {
    if !present(document, key) {
        Some(None)
    } else {
        match document.member(key)->0.items() {
            Some(items) => match texts_of(items) {
                Some(texts) => Some(Some(texts)),
                None => None,
            },
            None => None,
        }
    }
}

/// Reads the optional string under `key`.
pub fn read_text(document: &serde_json::Value, key: &str) -> (r: Option<Option<String>>)
    ensures
        r.deep_view() == optional_text(json_of(*document), key@),
{
    match member(document, key) {
        None => Some(None),
        Some(value) => {
            if is_null(value) {
                Some(None)
            } else {
                match as_text(value) {
                    Some(s) => Some(Some(s.to_owned())),
                    None => None,
                }
            }
        },
    }
}

/// Reads the optional integer under `key`.
pub fn read_signed(document: &serde_json::Value, key: &str) -> (r: Option<Option<i64>>)
    ensures
        r == optional_signed(json_of(*document), key@),
{
    match member(document, key) {
        None => Some(None),
        Some(value) => {
            if is_null(value) {
                Some(None)
            } else {
                match as_signed(value) {
                    Some(n) => Some(Some(n)),
                    None => None,
                }
            }
        },
    }
}

/// Reads an array of strings.
pub fn read_texts(items: &Vec<serde_json::Value>) -> (r: Option<Vec<String>>)
    ensures
        r.deep_view() == texts_of(each_json_of(items@)),
{
    let ghost all = each_json_of(items@);
    let mut out: Vec<String> = Vec::new();
    let mut i: usize = 0;
    while i < items.len()
        invariant
            i <= items.len(),
            all == each_json_of(items@),
            out.deep_view().len() == i,
            forall|j: int| 0 <= j < i ==> (#[trigger] all[j]).text() == Some(out.deep_view()[j]),
        decreases items.len() - i,
    {
        match as_text(&items[i]) {
            None => {
                assert(all[i as int].text() is None);
                return None;
            },
            Some(s) => {
                let ghost before = out.deep_view();
                let owned = s.to_owned();
                out.push(owned);
                assert(out.deep_view() =~= before.push(owned@));
            },
        }
        i = i + 1;
    }
    assert(out.deep_view() =~= Seq::new(all.len(), |i: int| all[i].text()->0));
    Some(out)
}

/// Reads the optional array of strings under `key`.
pub fn read_list(document: &serde_json::Value, key: &str) -> (r: Option<Option<Vec<String>>>)
    ensures
        r.deep_view() == optional_list(json_of(*document), key@),
{
    match member(document, key) {
        None => Some(None),
        Some(value) => {
            if is_null(value) {
                Some(None)
            } else {
                match as_items(value) {
                    Some(items) => match read_texts(items) {
                        Some(texts) => Some(Some(texts)),
                        None => None,
                    },
                    None => None,
                }
            }
        },
    }
}

/// The text under `key`, which has to be there.
pub open spec fn required_text(document: Json, key: Seq<char>) -> Option<Seq<char>> {
    match document.member(key) {
        Some(value) => value.text(),
        None => None,
    }
}

/// Reads the string under `key`, which has to be there.
pub fn read_required_text(document: &serde_json::Value, key: &str) -> (r: Option<String>)
    ensures
        r.deep_view() == required_text(json_of(*document), key@),
{
    match member(document, key) {
        None => None,
        Some(value) => match as_text(value) {
            Some(s) => Some(s.to_owned()),
            None => None,
        },
    }
}

/// Whether every member of the object is a string.
pub open spec fn all_text(members: Map<Seq<char>, Json>) -> bool {
    forall|key: Seq<char>| #[trigger] members.dom().contains(key) ==> members[key].text() is Some
}

/// The entries are those of the object `members`, ordered by key.
pub open spec fn table_of(members: Map<Seq<char>, Json>, entries: Entries) -> bool {
    &&& strictly_sorted(entries)
    &&& forall|key: Seq<char>| #[trigger]
        lookup(entries, key) == (if members.dom().contains(key) {
            members[key].text()
        } else {
            None
        })
}

/// The members of an object of strings as a map ordered by key.
pub open spec fn sorted_table(members: Map<Seq<char>, Json>) -> Entries {
    choose|entries: Entries| table_of(members, entries)
}

/// The optional map of texts under `key`: the outer `None` says that the
/// member is no object, or that one of its members is no string.
pub open spec fn optional_table(document: Json, key: Seq<char>) -> Option<Option<Entries>> {
    if !present(document, key) {
        Some(None)
    } else {
        match document.member(key)->0 {
            Json::Object(members) => if all_text(members) {
                Some(Some(sorted_table(members)))
            } else {
                None
            },
            _ => None,
        }
    }
}

/// What an optional optional map holds.
pub open spec fn read_table_view(r: Option<Option<StringMap>>) -> Option<Option<Entries>> {
    match r {
        None => None,
        Some(None) => Some(None),
        Some(Some(t)) => Some(Some(t@)),
    }
}

/// Reads the members of an object of strings into a map.
pub fn read_members(object: &serde_json::Value) -> (r: Option<StringMap>)
    requires
        json_of(*object) is Object,
    ensures
        r is Some <==> all_text(json_of(*object)->Object_0),
        r matches Some(t) ==> t@ == sorted_table(json_of(*object)->Object_0),
{
    let ghost members = json_of(*object)->Object_0;
    let names = match keys(object) {
        Some(names) => names,
        None => {
            assert(false);
            return None;
        },
    };
    let mut table = StringMap::new();
    let mut i: usize = 0;
    while i < names.len()
        invariant
            i <= names.len(),
            json_of(*object) == Json::Object(members),
            names.deep_view().no_duplicates(),
            names.deep_view().to_set() == members.dom(),
            table.wf(),
            strictly_sorted(table@),
            forall|j: int| 0 <= j < i ==> members[#[trigger] names.deep_view()[j]].text() is Some,
            forall|key: Seq<char>| #[trigger]
                lookup(table@, key) == (if exists|j: int|
                    0 <= j < i && names.deep_view()[j] == key {
                    members[key].text()
                } else {
                    None
                }),
        decreases names.len() - i,
    {
        let name = names[i].clone();
        assert(name@ == names.deep_view()[i as int]);
        assert(names.deep_view().to_set().contains(name@));
        let value = match member(object, name.as_str()) {
            Some(value) => value,
            None => {
                assert(false);
                return None;
            },
        };
        match as_text(value) {
            None => {
                assert(members.dom().contains(name@) && members[name@].text() is None);
                return None;
            },
            Some(s) => {
                let ghost before = table@;
                let owned = s.to_owned();
                proof {
                    lemma_put_sorted(before, name@, owned@);
                }
                table.insert(name, owned);
                assert forall|key: Seq<char>| #[trigger]
                    lookup(table@, key) == (if exists|j: int|
                        0 <= j < i + 1 && names.deep_view()[j] == key {
                        members[key].text()
                    } else {
                        None
                    }) by {
                    if key == name@ {
                        assert(names.deep_view()[i as int] == key);
                        assert(members[key] == json_of(*value));
                    } else {
                        assert(lookup(table@, key) == lookup(before, key));
                        if exists|j: int| 0 <= j < i + 1 && names.deep_view()[j] == key {
                            let j = choose|j: int| 0 <= j < i + 1 && names.deep_view()[j] == key;
                            assert(0 <= j < i && names.deep_view()[j] == key);
                        }
                        if exists|j: int| 0 <= j < i && names.deep_view()[j] == key {
                            let j = choose|j: int| 0 <= j < i && names.deep_view()[j] == key;
                            assert(0 <= j < i + 1 && names.deep_view()[j] == key);
                        }
                    }
                }
            },
        }
        i = i + 1;
    }
    assert forall|k: Seq<char>| #[trigger] members.dom().contains(k) implies members[k].text()
        is Some by {
        assert(names.deep_view().to_set().contains(k));
        let j = choose|j: int| 0 <= j < names.deep_view().len() && names.deep_view()[j] == k;
        assert(members[names.deep_view()[j]].text() is Some);
    }
    assert forall|key: Seq<char>| #[trigger]
        lookup(table@, key) == (if members.dom().contains(key) {
            members[key].text()
        } else {
            None
        }) by {
        if members.dom().contains(key) {
            assert(names.deep_view().to_set().contains(key));
            let j = choose|j: int| 0 <= j < names.deep_view().len() && names.deep_view()[j] == key;
            assert(0 <= j < i && names.deep_view()[j] == key);
        } else {
            if exists|j: int| 0 <= j < i && names.deep_view()[j] == key {
                let j = choose|j: int| 0 <= j < i && names.deep_view()[j] == key;
                assert(names.deep_view().to_set().contains(names.deep_view()[j]));
            }
        }
    }
    proof {
        assert(table_of(members, table@));
        lemma_entries_unique(table@, sorted_table(members));
    }
    Some(table)
}

/// Reads the optional object of strings under `key`.
pub fn read_table(document: &serde_json::Value, key: &str) -> (r: Option<Option<StringMap>>)
    ensures
        read_table_view(r) == optional_table(json_of(*document), key@),
{
    match member(document, key) {
        None => Some(None),
        Some(value) => {
            if is_null(value) {
                Some(None)
            } else {
                match keys(value) {
                    None => None,
                    Some(_) => match read_members(value) {
                        Some(table) => Some(Some(table)),
                        None => None,
                    },
                }
            }
        },
    }
}

/// The list of texts under `key`, which has to be there.
pub open spec fn required_list(document: Json, key: Seq<char>) -> Option<Seq<Seq<char>>> {
    match optional_list(document, key) {
        Some(Some(list)) => Some(list),
        _ => None,
    }
}

/// The map of texts under `key`, which has to be there.
pub open spec fn required_table(document: Json, key: Seq<char>) -> Option<Entries> {
    match optional_table(document, key) {
        Some(Some(table)) => Some(table),
        _ => None,
    }
}

/// What an optional map holds.
pub open spec fn map_view(table: Option<StringMap>) -> Option<Entries> {
    match table {
        Some(t) => Some(t@),
        None => None,
    }
}

/// Reads the array of strings under `key`, which has to be there.
pub fn read_required_list(document: &serde_json::Value, key: &str) -> (r: Option<Vec<String>>)
    ensures
        r.deep_view() == required_list(json_of(*document), key@),
{
    match read_list(document, key) {
        Some(Some(list)) => Some(list),
        _ => None,
    }
}

/// Reads the object of strings under `key`, which has to be there.
pub fn read_required_table(document: &serde_json::Value, key: &str) -> (r: Option<StringMap>)
    ensures
        map_view(r) == required_table(json_of(*document), key@),
{
    match read_table(document, key) {
        Some(Some(table)) => Some(table),
        _ => None,
    }
}

} // verus!
