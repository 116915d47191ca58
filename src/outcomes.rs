use vstd::prelude::*;

use crate::config::{entries_map, entries_of, load_result, ErrorKind, ReadError};
use crate::document::{flat_pairs, is_flat, json_entries, keys_distinct, yaml_entries};
use crate::extension::{extension_of, format_of, Format};

verus! {

/// A list of pairs with distinct keys and the mapping it describes agree:
/// each pair is an entry of the mapping, and every key of the mapping comes
/// from some pair.
pub proof fn entries_map_agrees(s: Seq<(Seq<char>, Seq<char>)>)
    requires
        keys_distinct(s),
    ensures
        forall|i: int|
            0 <= i < s.len() ==> #[trigger] entries_map(s).contains_key(s[i].0) && entries_map(s)[s[i].0]
                == s[i].1,
        forall|k: Seq<char>|
            #[trigger] entries_map(s).contains_key(k) ==> exists|i: int| 0 <= i < s.len() && s[i].0 == k,
    decreases s.len(),
{
    if s.len() > 0 {
        let t = s.drop_last();
        assert(keys_distinct(t)) by {
            assert forall|i: int, j: int|
                0 <= i < t.len() && 0 <= j < t.len() && i != j implies t[i].0 != t[j].0 by {
                assert(s[i] == t[i] && s[j] == t[j]);
            }
        }
        entries_map_agrees(t);
        assert(entries_map(s) == entries_map(t).insert(s.last().0, s.last().1));
        assert forall|i: int| 0 <= i < s.len() implies #[trigger] entries_map(s).contains_key(s[i].0)
            && entries_map(s)[s[i].0] == s[i].1 by {
            if i < s.len() - 1 {
                assert(s[i] == t[i]);
                assert(entries_map(t).contains_key(t[i].0));
                assert(s[i].0 != s[s.len() - 1].0);
            }
        }
        assert forall|k: Seq<char>| #[trigger] entries_map(s).contains_key(k) implies exists|i: int|
            0 <= i < s.len() && s[i].0 == k by {
            if k != s.last().0 {
                assert(entries_map(t).contains_key(k));
                let i = choose|i: int| 0 <= i < t.len() && t[i].0 == k;
                assert(s[i] == t[i]);
            } else {
                assert(s[s.len() - 1].0 == k);
            }
        }
    }
}

/// A YAML file that the parser reads as a mapping whose values are all
/// strings loads as exactly the key/value pairs it holds.
pub proof fn yaml_mapping_loads(path: Seq<char>, contents: String)
    requires
        format_of(path) == Some(Format::Yaml),
        yaml_entries(contents@) is Some,
        is_flat(yaml_entries(contents@)->0),
    ensures
        load_result(path, Ok(contents)) == Ok::<_, ErrorKind>(flat_pairs(yaml_entries(contents@)->0)),
{
}

/// A JSON file that the parser reads as an object whose values are all
/// strings loads as exactly the key/value pairs it holds.
pub proof fn json_object_loads(path: Seq<char>, contents: String)
    requires
        format_of(path) == Some(Format::Json),
        json_entries(contents@) is Some,
        is_flat(json_entries(contents@)->0),
    ensures
        load_result(path, Ok(contents)) == Ok::<_, ErrorKind>(flat_pairs(json_entries(contents@)->0)),
{
}

/// A file that cannot be opened or read fails to load with an `Io` error.
pub proof fn unreadable_file_is_io_error(path: Seq<char>, err: ReadError)
    ensures
        load_result(path, Err(err)) == Err::<Seq<(Seq<char>, Seq<char>)>, _>(ErrorKind::Io),
{
}

/// A readable file whose name has the extension `txt`, or none, fails to load
/// with a `Value` error, whatever it holds.
pub proof fn unsupported_extension_is_value_error(path: Seq<char>, contents: String)
    requires
        extension_of(path) is None || extension_of(path) == Some(seq!['t', 'x', 't']),
    ensures
        load_result(path, Ok(contents)) == Err::<Seq<(Seq<char>, Seq<char>)>, _>(ErrorKind::Value),
{
    assert(seq!['t', 'x', 't'] != seq!['y', 'a', 'm', 'l']);
    assert(seq!['t', 'x', 't'] != seq!['j', 's', 'o', 'n']);
    assert(seq!['t', 'x', 't'][0] != seq!['y', 'm', 'l'][0]);
}

/// A readable file of a supported format whose text the parser rejects as a
/// mapping fails to load with a `Value` error.
pub proof fn rejected_text_is_value_error(path: Seq<char>, format: Format, contents: String)
    requires
        format_of(path) == Some(format),
        entries_of(format, contents@) is None,
    ensures
        load_result(path, Ok(contents)) == Err::<Seq<(Seq<char>, Seq<char>)>, _>(ErrorKind::Value),
{
}

/// A readable file of a supported format that the parser reads as a mapping
/// holding a value that is not a string (a nested mapping, a list, a number)
/// fails to load with a `Value` error.
pub proof fn non_string_value_is_value_error(path: Seq<char>, format: Format, contents: String, i: int)
    requires
        format_of(path) == Some(format),
        entries_of(format, contents@) is Some,
        0 <= i < entries_of(format, contents@)->0.len(),
        entries_of(format, contents@)->0[i].1 is None,
    ensures
        load_result(path, Ok(contents)) == Err::<Seq<(Seq<char>, Seq<char>)>, _>(ErrorKind::Value),
{
    assert(!is_flat(entries_of(format, contents@)->0));
}

} // verus!
