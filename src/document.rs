use vstd::prelude::*;

verus! {

/// Key/value pairs, each string read as its characters.
pub open spec fn pairs_view(v: Seq<(String, String)>) -> Seq<(Seq<char>, Seq<char>)> {
    v.map_values(|p: (String, String)| (p.0@, p.1@))
}

/// Parsed entries, each key with its value's text where the value is a string.
pub open spec fn entries_view(v: Seq<(String, Option<String>)>) -> Seq<(Seq<char>, Option<Seq<char>>)> {
    v.map_values(
        |e: (String, Option<String>)|
            (
                e.0@,
                match e.1 {
                    Some(s) => Some(s@),
                    None => None,
                },
            ),
    )
}

/// No key occurs twice among the pairs.
pub open spec fn keys_distinct(s: Seq<(Seq<char>, Seq<char>)>) -> bool {
    forall|i: int, j: int| 0 <= i < s.len() && 0 <= j < s.len() && i != j ==> s[i].0 != s[j].0
}

/// No key occurs twice among the parsed entries.
pub open spec fn entry_keys_distinct(s: Seq<(Seq<char>, Option<Seq<char>>)>) -> bool {
    forall|i: int, j: int| 0 <= i < s.len() && 0 <= j < s.len() && i != j ==> s[i].0 != s[j].0
}

/// Every parsed value is a string: the document is a flat string mapping.
pub open spec fn is_flat(s: Seq<(Seq<char>, Option<Seq<char>>)>) -> bool {
    forall|i: int| 0 <= i < s.len() ==> (#[trigger] s[i]).1 is Some
}

/// The key/value pairs of parsed entries whose values are all strings.
pub open spec fn flat_pairs(s: Seq<(Seq<char>, Option<Seq<char>>)>) -> Seq<(Seq<char>, Seq<char>)> {
    s.map_values(|e: (Seq<char>, Option<Seq<char>>)| (e.0, e.1->0))
}

/// The entry at `i` is the first whose value is not a string.
pub open spec fn first_non_string(s: Seq<(Seq<char>, Option<Seq<char>>)>, i: int) -> bool {
    &&& 0 <= i < s.len()
    &&& s[i].1 is None
    &&& forall|j: int| 0 <= j < i ==> (#[trigger] s[j]).1 is Some
}

/// The entries that the JSON parser reads from `text` as an object, each key
/// with its value's text where that value is a JSON string; `None` where the
/// parser rejects the text as an object.
pub uninterp spec fn json_entries(text: Seq<char>) -> Option<Seq<(Seq<char>, Option<Seq<char>>)>>;

/// The entries that the YAML parser reads from `text` as a mapping with string
/// keys, each key with its value's text where that value is a YAML string;
/// `None` where the parser rejects the text as such a mapping.
pub uninterp spec fn yaml_entries(text: Seq<char>) -> Option<Seq<(Seq<char>, Option<Seq<char>>)>>;

#[verifier::external_type_specification]
#[verifier::external_body]
pub struct ExJsonError(serde_json::Error);

#[verifier::external_type_specification]
#[verifier::external_body]
pub struct ExYamlError(serde_yaml::Error);

/// Relies on `serde_json::from_str` into a `BTreeMap<String, serde_json::Value>`:
/// it succeeds or fails by the text alone, and the map holds each key once.
/// Each value is handed out as its text where it is `Value::String`.
#[verifier::external_body]
pub(crate) fn parse_json_object(text: &str) -> (r: Result<Vec<(String, Option<String>)>, serde_json::Error>)
    ensures
        r is Ok <==> json_entries(text@) is Some,
        r matches Ok(v) ==> entries_view(v@) == json_entries(text@)->0,
        r matches Ok(v) ==> entry_keys_distinct(entries_view(v@)),
{
    let m = serde_json::from_str::<std::collections::BTreeMap<String, serde_json::Value>>(text)?;
    Ok(m.into_iter().map(|(k, v)| match v {
        serde_json::Value::String(s) => (k, Some(s)),
        _ => (k, None),
    }).collect())
}

/// Relies on `serde_yaml::from_str` into a `BTreeMap<String, serde_yaml::Value>`:
/// it succeeds or fails by the text alone, and the map holds each key once.
/// Each value is handed out as its text where it is `Value::String`.
#[verifier::external_body]
pub(crate) fn parse_yaml_mapping(text: &str) -> (r: Result<Vec<(String, Option<String>)>, serde_yaml::Error>)
    ensures
        r is Ok <==> yaml_entries(text@) is Some,
        r matches Ok(v) ==> entries_view(v@) == yaml_entries(text@)->0,
        r matches Ok(v) ==> entry_keys_distinct(entries_view(v@)),
{
    let m = serde_yaml::from_str::<std::collections::BTreeMap<String, serde_yaml::Value>>(text)?;
    Ok(m.into_iter().map(|(k, v)| match v {
        serde_yaml::Value::String(s) => (k, Some(s)),
        _ => (k, None),
    }).collect())
}

/// The key/value pairs of parsed entries, where every value is a string; else
/// the key of the first entry whose value is not.
pub fn string_pairs(entries: &Vec<(String, Option<String>)>) -> (r: Result<Vec<(String, String)>, String>)
    ensures
        r is Ok <==> is_flat(entries_view(entries@)),
        r matches Ok(v) ==> pairs_view(v@) == flat_pairs(entries_view(entries@)),
        r matches Err(k) ==> exists|i: int|
            first_non_string(entries_view(entries@), i) && k@ == entries_view(entries@)[i].0,
{
    let ghost s = entries_view(entries@);
    let mut out: Vec<(String, String)> = Vec::new();
    let mut i: usize = 0;
    while i < entries.len()
        invariant
            s == entries_view(entries@),
            i <= entries.len(),
            out@.len() == i,
            forall|j: int| 0 <= j < i ==> (#[trigger] s[j]).1 is Some,
            pairs_view(out@) == flat_pairs(s).subrange(0, i as int),
        decreases entries.len() - i,
    {
        let key = entries[i].0.clone();
        match &entries[i].1 {
            Some(value) => {
                out.push((key, value.clone()));
                assert(pairs_view(out@) =~= flat_pairs(s).subrange(0, i + 1));
            },
            None => {
                assert(first_non_string(s, i as int));
                return Err(key);
            },
        }
        i = i + 1;
    }
    assert(flat_pairs(s).subrange(0, i as int) =~= flat_pairs(s));
    Ok(out)
}

} // verus!
