//! A TOML document as the entry configuration reads it: strings, arrays and tables;
//! every other kind of value is `Other`.
use vstd::prelude::*;

verus! {

pub enum TomlValue {
    Str(String),
    Array(Vec<TomlValue>),
    /// The key-value pairs of a table; keys are distinct.
    Table(Vec<(String, TomlValue)>),
    Other,
}

/// Whether two strings hold the same text.
pub fn string_eq_str(a: &String, b: &str) -> (r: bool)
    ensures
        r == (a@ == b@),
{
    let b = b.to_owned();
    *a == b
}

/// The value under `key` among the pairs `t`: the first pair with that key.
pub open spec fn find_key(t: Seq<(String, TomlValue)>, key: Seq<char>) -> Option<TomlValue>
    decreases t.len(),
{
    if t.len() == 0 {
        None
    } else if t[0].0@ == key {
        Some(t[0].1)
    } else {
        find_key(t.drop_first(), key)
    }
}

/// Looking a key up finds the value of the first pair with that key, and nothing when
/// no pair has it.
pub proof fn lemma_find_key_first_match(t: Seq<(String, TomlValue)>, key: Seq<char>)
    ensures
        find_key(t, key) is None <==> forall|i: int| 0 <= i < t.len() ==> t[i].0@ != key,
        find_key(t, key) is Some ==> exists|i: int|
            0 <= i < t.len() && t[i].0@ == key && find_key(t, key) == Some(t[i].1) && forall|j: int|
                0 <= j < i ==> t[j].0@ != key,
    decreases t.len(),
{
    if t.len() > 0 {
        let u = t.drop_first();
        lemma_find_key_first_match(u, key);
        if t[0].0@ == key {
            assert(find_key(t, key) == Some(t[0].1));
        } else {
            assert forall|i: int| 1 <= i < t.len() implies t[i].0@ == u[i - 1].0@ by {}
            if find_key(u, key) is Some {
                let i = choose|i: int|
                    0 <= i < u.len() && u[i].0@ == key && find_key(u, key) == Some(u[i].1) && forall|j: int|
                        0 <= j < i ==> u[j].0@ != key;
                assert(t[i + 1] == u[i]);
                assert forall|j: int| 0 <= j < i + 1 implies t[j].0@ != key by {
                    if j > 0 {
                        assert(t[j] == u[j - 1]);
                    }
                }
            } else {
                assert forall|i: int| 0 <= i < t.len() implies t[i].0@ != key by {
                    if i > 0 {
                        assert(t[i] == u[i - 1]);
                    }
                }
            }
        }
    }
}

/// `v[key]`: the value under `key` when `v` is a table.
pub open spec fn field(v: TomlValue, key: Seq<char>) -> Option<TomlValue> {
    match v {
        TomlValue::Table(t) => find_key(t@, key),
        _ => None,
    }
}

/// The string under `key`, when there is one.
pub open spec fn field_str(v: TomlValue, key: Seq<char>) -> Option<Seq<char>> {
    match field(v, key) {
        Some(TomlValue::Str(s)) => Some(s@),
        _ => None,
    }
}

/// The strings of an array, in order, leaving out the items that are not strings.
pub open spec fn str_items(a: Seq<TomlValue>) -> Seq<Seq<char>>
    decreases a.len(),
{
    if a.len() == 0 {
        Seq::empty()
    } else {
        str_items(a.drop_last()) + match a.last() {
            TomlValue::Str(s) => seq![s@],
            _ => Seq::empty(),
        }
    }
}

/// The value under `key` in `v`.
pub fn get_field<'a>(v: &'a TomlValue, key: &str) -> (r: Option<&'a TomlValue>)
    ensures
        match r {
            Some(x) => field(*v, key@) == Some(*x),
            None => field(*v, key@) is None,
        },
{
    match v {
        TomlValue::Table(t) => {
            assert(*v == TomlValue::Table(*t));
            assert(t@.subrange(0, t@.len() as int) =~= t@);
            let mut i: usize = 0;
            while i < t.len()
                invariant
                    *v == TomlValue::Table(*t),
                    i <= t@.len(),
                    find_key(t@, key@) == find_key(t@.subrange(i as int, t@.len() as int), key@),
                decreases t@.len() - i,
            {
                let ghost rest = t@.subrange(i as int, t@.len() as int);
                assert(rest.drop_first() =~= t@.subrange(i + 1, t@.len() as int));
                assert(rest[0] == t@[i as int]);
                if string_eq_str(&t[i].0, key) {
                    return Some(&t[i].1);
                }
                i = i + 1;
            }
            assert(t@.subrange(i as int, t@.len() as int).len() == 0);
            None
        },
        _ => None,
    }
}

/// The string under `key` in `v`.
pub fn get_field_str<'a>(v: &'a TomlValue, key: &str) -> (r: Option<&'a String>)
    ensures
        match r {
            Some(s) => field_str(*v, key@) == Some(s@),
            None => field_str(*v, key@) is None,
        },
{
    match get_field(v, key) {
        Some(TomlValue::Str(s)) => Some(s),
        _ => None,
    }
}

/// The strings of the array under `key` (none when there is no array there).
pub fn get_str_items(v: &TomlValue, key: &str) -> (r: Vec<String>)
    ensures
        r@.map_values(|s: String| s@) == match field(*v, key@) {
            Some(TomlValue::Array(a)) => str_items(a@),
            _ => Seq::<Seq<char>>::empty(),
        },
{
    let mut out: Vec<String> = Vec::new();
    match get_field(v, key) {
        Some(TomlValue::Array(a)) => {
            let mut i: usize = 0;
            while i < a.len()
                invariant
                    i <= a@.len(),
                    out@.map_values(|s: String| s@) == str_items(a@.subrange(0, i as int)),
                decreases a@.len() - i,
            {
                let ghost before = out@;
                assert(a@.subrange(0, i + 1).drop_last() =~= a@.subrange(0, i as int));
                match &a[i] {
                    TomlValue::Str(s) => {
                        out.push(s.clone());
                        assert(out@.map_values(|s: String| s@) =~= before.map_values(|s: String| s@).push(s@));
                    },
                    _ => {},
                }
                i = i + 1;
            }
            assert(a@.subrange(0, a@.len() as int) =~= a@);
        },
        _ => {},
    }
    out
}

#[verifier::external_type_specification]
#[verifier::external_body]
pub struct ExTomlValue(toml::Value);

/// The document that the `toml` crate parses `text` to, as a [`TomlValue`] table;
/// nothing when the text is not a TOML document.
pub uninterp spec fn toml_document(text: Seq<char>) -> Option<TomlValue>;

/// `toml::Value` as the model keeps it: strings, arrays and tables, every other kind
/// of value as `Other`; a table's pairs come in the order the table keeps them.
#[verifier::external_body]
fn toml_model(v: &toml::Value) -> TomlValue {
    match v {
        toml::Value::String(s) => TomlValue::Str(s.clone()),
        toml::Value::Array(a) => TomlValue::Array(a.iter().map(toml_model).collect()),
        toml::Value::Table(t) => TomlValue::Table(t.iter().map(|(k, x)| (k.clone(), toml_model(x))).collect()),
        _ => TomlValue::Other,
    }
}

/// `toml::Table::from_str`: the document that `text` parses to, as a table, or nothing
/// when it is not a TOML document. The parse is a function of the text alone (its
/// nesting is bounded, so it always returns).
#[verifier::external_body]
pub(crate) fn parse_toml(text: &str) -> (r: Option<TomlValue>)
    ensures
        r == toml_document(text@),
        r matches Some(d) ==> d is Table,
{
    text.parse::<toml::Table>().ok().map(|t| toml_model(&toml::Value::Table(t)))
}

} // verus!
