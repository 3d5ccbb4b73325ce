use vstd::prelude::*;
use toml::de::Error as DeError;
use toml::ser::Error as SerError;

verus! {

#[verifier::external_type_specification]
#[verifier::external_body]
#[verifier::reject_recursive_types(K)]
#[verifier::reject_recursive_types(V)]
pub struct ExTomlMap<K, V>(toml::map::Map<K, V>);

#[verifier::external_type_specification]
#[verifier::external_body]
pub struct ExTomlValue(toml::Value);

#[verifier::external_type_specification]
#[verifier::external_body]
pub struct ExTomlDeError(DeError);

#[verifier::external_type_specification]
#[verifier::external_body]
pub struct ExTomlSerError(SerError);

/// The string-valued entries of a TOML table.
pub uninterp spec fn table_strings(t: toml::Table) -> Map<Seq<char>, Seq<char>>;

/// The keys of all entries of a TOML table, whatever their values.
pub uninterp spec fn table_keys(t: toml::Table) -> Set<Seq<char>>;

/// The string-valued entries of the table that a TOML document parses to, if it parses.
pub uninterp spec fn toml_strings_of(text: Seq<char>) -> Option<Map<Seq<char>, Seq<char>>>;

/// The TOML document that `toml::to_string` writes for a table of string entries.
pub uninterp spec fn toml_text_of(entries: Map<Seq<char>, Seq<char>>) -> Seq<char>;

/// A table with no entries.
pub open spec fn no_entries() -> Map<Seq<char>, Seq<char>> {
    Map::empty()
}

/// The keys of a table with no entries.
pub open spec fn no_keys() -> Set<Seq<char>> {
    Set::empty()
}

/// Relies on `toml::Table::from_str` (that is, `toml::from_str`): the parse of a
/// document depends on its text alone.
#[verifier::external_body]
pub(crate) fn parse_table(text: &str) -> (r: Result<toml::Table, DeError>)
    ensures
        match r {
            Ok(t) => toml_strings_of(text@) == Some(table_strings(t)),
            Err(_) => toml_strings_of(text@) is None,
        },
{
    text.parse::<toml::Table>()
}

/// Relies on `toml::map::Map::new`: the new table has no entries.
#[verifier::external_body]
pub(crate) fn table_new() -> (r: toml::Table)
    ensures
        table_strings(r) == no_entries(),
        table_keys(r) == no_keys(),
{
    toml::Table::new()
}

/// Relies on `toml::map::Map::insert`: the entry for `k` is set to the string
/// `v`, replacing any earlier one.
#[verifier::external_body]
pub(crate) fn table_insert_text(t: &mut toml::Table, k: String, v: String)
    ensures
        table_strings(*final(t)) == table_strings(*old(t)).insert(k@, v@),
        table_keys(*final(t)) == table_keys(*old(t)).insert(k@),
{
    t.insert(k, toml::Value::String(v));
}

/// Relies on `toml::map::Map::get`: the entry for `k`, when it holds a string.
#[verifier::external_body]
pub(crate) fn table_get_text(t: &toml::Table, k: &str) -> (r: Option<String>)
    ensures
        match r {
            Some(s) => table_strings(*t).contains_key(k@) && table_strings(*t)[k@] == s@,
            None => !table_strings(*t).contains_key(k@),
        },
{
    match t.get(k) {
        Some(toml::Value::String(s)) => Some(s.clone()),
        _ => None,
    }
}

/// Relies on `toml::to_string` on a table whose entries are all strings: it
/// does not fail there, and the document depends on those entries alone.
#[verifier::external_body]
pub(crate) fn table_to_text(t: &toml::Table) -> (r: Result<String, SerError>)
    requires
        table_keys(*t) == table_strings(*t).dom(),
    ensures
        r is Ok,
        r matches Ok(s) ==> s@ == toml_text_of(table_strings(*t)),
{
    toml::to_string(t)
}

} // verus!
