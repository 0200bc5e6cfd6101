//! The upstream provider's answer: certificate-log entries as JSON values,
//! and the raw hostnames read from them.

use crate::working_set::raw_names;
use vstd::prelude::*;
use vstd::string::StringExecFns;

verus! {

/// The member of a certificate-log entry that holds the hostname.
pub const NAME_FIELD: &'static str = "name_value";

pub const QUERY_PREFIX: &'static str = "https://crt.sh/?q=%25.";

pub const QUERY_SUFFIX: &'static str = "&output=json";

/// `serde_json::Value`, carried through as an opaque value.
#[verifier::external_type_specification]
#[verifier::external_body]
pub struct ExJsonValue(serde_json::Value);

/// The members of a JSON object whose values are strings, by key. A value
/// that is no object has none.
pub uninterp spec fn string_members(value: serde_json::Value) -> Map<Seq<char>, Seq<char>>;

/// Reads the member `key` of `value` as a string, by `serde_json`'s
/// `value[key]` followed by `Value::as_str`. Indexing by a string yields null
/// unless `value` is an object that holds `key`, and `as_str` yields a string
/// only for a JSON string: so the result is the member if it is among the
/// string members of `value`, and `None` if not. Neither call panics.
#[verifier::external_body]
fn string_member(value: &serde_json::Value, key: &str) -> (text: Option<String>)
    ensures
        string_members(*value).contains_key(key@) ==> text is Some && text->Some_0@
            == string_members(*value)[key@],
        !string_members(*value).contains_key(key@) ==> text is None,
{
    value[key].as_str().map(String::from)
}

/// Why the provider's answer yields no hostname list.
#[derive(Clone, Copy, Debug, PartialEq, Eq, Structural)]
pub enum ProviderError {
    /// The entry at this position has no hostname.
    MissingName { entry: usize },
}

/// The hostname that a certificate-log entry holds, if it holds one.
pub open spec fn name_field(entry: serde_json::Value) -> Option<Seq<char>> {
    if string_members(entry).contains_key(NAME_FIELD@) {
        Some(string_members(entry)[NAME_FIELD@])
    } else {
        None
    }
}

/// The hostname of each entry, in order.
pub open spec fn name_fields(entries: Seq<serde_json::Value>) -> Seq<Option<Seq<char>>> {
    entries.map_values(|entry: serde_json::Value| name_field(entry))
}

/// The views of optional strings, in order.
pub open spec fn field_views(fields: Seq<Option<String>>) -> Seq<Option<Seq<char>>> {
    fields.map_values(
        |field: Option<String>|
            match field {
                Some(name) => Some(name@),
                None => None,
            },
    )
}

/// Whether `outcome` is what the fields of the entries amount to: every
/// name in order if each entry has one, and otherwise the position of the
/// first entry that has none.
pub open spec fn is_collection_of(
    fields: Seq<Option<Seq<char>>>,
    outcome: Result<Seq<Seq<char>>, ProviderError>,
) -> bool {
    match outcome {
        Ok(names) => {
            &&& names.len() == fields.len()
            &&& forall|i: int| 0 <= i < fields.len() ==> fields[i] == Some(names[i])
        },
        Err(ProviderError::MissingName { entry }) => {
            &&& entry < fields.len()
            &&& fields[entry as int] is None
            &&& forall|i: int| 0 <= i < entry ==> fields[i] is Some
        },
    }
}

/// The view of a hostname list or of the error in its place.
pub open spec fn outcome_view(outcome: Result<Vec<String>, ProviderError>) -> Result<
    Seq<Seq<char>>,
    ProviderError,
> {
    match outcome {
        Ok(names) => Ok(raw_names(names@)),
        Err(error) => Err(error),
    }
}

/// Collects the hostnames from the name fields of the entries. One entry
/// without a name fails the whole list.
pub fn collect_names(fields: &Vec<Option<String>>) -> (outcome: Result<Vec<String>, ProviderError>)
    ensures
        is_collection_of(field_views(fields@), outcome_view(outcome)),
{
    let mut names: Vec<String> = Vec::new();
    let mut i: usize = 0;
    while i < fields.len()
        invariant
            i <= fields.len(),
            names.len() == i,
            forall|j: int| 0 <= j < i ==> field_views(fields@)[j] == Some(raw_names(names@)[j]),
        decreases fields.len() - i,
    {
        match &fields[i] {
            Some(name) => {
                names.push(name.clone());
            },
            None => {
                return Err(ProviderError::MissingName { entry: i });
            },
        }
        i += 1;
    }
    Ok(names)
}

/// Reads the raw hostnames from the provider's entries: the string under
/// `NAME_FIELD` of each entry, in order, duplicates and all.
pub fn raw_hostnames(entries: &Vec<serde_json::Value>) -> (outcome: Result<
    Vec<String>,
    ProviderError,
>)
    ensures
        is_collection_of(name_fields(entries@), outcome_view(outcome)),
{
    let mut fields: Vec<Option<String>> = Vec::new();
    let mut i: usize = 0;
    while i < entries.len()
        invariant
            i <= entries.len(),
            fields.len() == i,
            forall|j: int| 0 <= j < i ==> field_views(fields@)[j] == name_fields(entries@)[j],
        decreases entries.len() - i,
    {
        fields.push(string_member(&entries[i], NAME_FIELD));
        i += 1;
    }
    assert(field_views(fields@) =~= name_fields(entries@));
    collect_names(&fields)
}

/// The text of the query address for `domain`.
pub open spec fn query_url_spec(domain: Seq<char>) -> Seq<char> {
    QUERY_PREFIX@ + domain + QUERY_SUFFIX@
}

/// The address at which the certificate log is asked for the hostnames
/// under `domain`.
pub fn query_url(domain: &str) -> (url: String)
    ensures
        url@ == query_url_spec(domain@),
{
    let mut url = String::from_str(QUERY_PREFIX);
    url.append(domain);
    url.append(QUERY_SUFFIX);
    url
}

} // verus!
