use vstd::prelude::*;

use crate::document::{
    entries_view, entry_keys_distinct, flat_pairs, is_flat, json_entries, keys_distinct,
    pairs_view, parse_json_object, parse_yaml_mapping, string_pairs, yaml_entries,
};
use crate::extension::{format_of, format_of_path, Format};

verus! {

/// Why the bytes of a configuration file could not be had: the file could not
/// be opened, or it was opened and could not be read as text. Each carries the
/// operating system's description of the cause.
#[derive(Debug)]
pub enum ReadError {
    Open(String),
    Read(String),
}

/// The two kinds of failure: the file could not be had (`Io`), or its name or
/// contents do not describe a flat string mapping (`Value`).
#[derive(Debug, Clone, Copy, PartialEq, Eq, Structural)]
pub enum ErrorKind {
    Io,
    Value,
}

/// A failed load: its kind and a message that names the file and the cause.
#[derive(Debug)]
pub struct ConfigError {
    pub kind: ErrorKind,
    pub message: String,
}

/// A loaded configuration: its top-level keys, each with its string value.
#[derive(Debug)]
pub struct Config {
    pub data: Vec<(String, String)>,
}

/// The mapping that a list of pairs describes; a later pair for a key
/// replaces an earlier one.
pub open spec fn entries_map(s: Seq<(Seq<char>, Seq<char>)>) -> Map<Seq<char>, Seq<char>>
    decreases s.len(),
{
    if s.len() == 0 {
        Map::empty()
    } else {
        entries_map(s.drop_last()).insert(s.last().0, s.last().1)
    }
}

impl View for Config {
    type V = Map<Seq<char>, Seq<char>>;

    open spec fn view(&self) -> Map<Seq<char>, Seq<char>> {
        entries_map(pairs_view(self.data@))
    }
}

impl Config {
    /// Each key occurs once.
    pub open spec fn wf(&self) -> bool {
        keys_distinct(pairs_view(self.data@))
    }
}

/// The entries that the parser of `format` reads from `text`, if it accepts it.
pub open spec fn entries_of(format: Format, text: Seq<char>) -> Option<Seq<(Seq<char>, Option<Seq<char>>)>> {
    match format {
        Format::Yaml => yaml_entries(text),
        Format::Json => json_entries(text),
    }
}

/// What loading the file at `path` gives, where reading it gave `read`: the
/// file's entries, or the kind of error.
pub open spec fn load_result(path: Seq<char>, read: Result<String, ReadError>) -> Result<
    Seq<(Seq<char>, Seq<char>)>,
    ErrorKind,
> {
    match read {
        Err(_) => Err(ErrorKind::Io),
        Ok(contents) => match format_of(path) {
            None => Err(ErrorKind::Value),
            Some(f) => match entries_of(f, contents@) {
                Some(es) => if is_flat(es) {
                    Ok(flat_pairs(es))
                } else {
                    Err(ErrorKind::Value)
                },
                None => Err(ErrorKind::Value),
            },
        },
    }
}

/// The message for a file that could not be opened.
pub open spec fn open_failure_message(path: Seq<char>, cause: Seq<char>) -> Seq<char> {
    "Failed to open file '"@ + path + "': "@ + cause
}

/// The message for a file that was opened and could not be read as text.
pub open spec fn read_failure_message(path: Seq<char>, cause: Seq<char>) -> Seq<char> {
    "Failed to read file '"@ + path + "': "@ + cause
}

/// The message for a text that the parser of `format` rejected, with its cause.
pub open spec fn parse_failure_message(format: Format, path: Seq<char>, cause: Seq<char>) -> Seq<char> {
    match format {
        Format::Yaml => "Failed to parse YAML file '"@ + path + "': "@ + cause,
        Format::Json => "Failed to parse JSON file '"@ + path + "': "@ + cause,
    }
}

/// The message for a path whose extension names no supported format.
pub open spec fn unsupported_format_message(path: Seq<char>) -> Seq<char> {
    "Unsupported configuration file format for file '"@ + path + "'"@
}

/// `msg` describes the failure to load `path` where reading it gave `read`:
/// it names the path and, but for an unsupported extension, the cause.
pub open spec fn describes_failure(path: Seq<char>, read: Result<String, ReadError>, msg: Seq<char>) -> bool {
    match read {
        Err(ReadError::Open(cause)) => msg == open_failure_message(path, cause@),
        Err(ReadError::Read(cause)) => msg == read_failure_message(path, cause@),
        Ok(_) => match format_of(path) {
            None => msg == unsupported_format_message(path),
            Some(f) => exists|cause: Seq<char>| msg == parse_failure_message(f, path, cause),
        },
    }
}

fn quoted_path(head: &str, path: &str, tail: &str) -> (r: String)
    ensures
        r@ == head@ + path@ + tail@,
{
    let mut m = String::from_str(head);
    m.append(path);
    m.append(tail);
    m
}

fn failure(kind: ErrorKind, head: &str, path: &str, cause: &str) -> (e: ConfigError)
    ensures
        e.kind == kind,
        e.message@ == head@ + path@ + "': "@ + cause@,
{
    let mut message = quoted_path(head, path, "': ");
    message.append(cause);
    ConfigError { kind, message }
}

fn parse_failure(format: Format, path: &str, cause: &str) -> (e: ConfigError)
    ensures
        e.kind == ErrorKind::Value,
        e.message@ == parse_failure_message(format, path@, cause@),
{
    match format {
        Format::Yaml => failure(ErrorKind::Value, "Failed to parse YAML file '", path, cause),
        Format::Json => failure(ErrorKind::Value, "Failed to parse JSON file '", path, cause),
    }
}

/// The configuration of parsed entries whose values are all strings; else a
/// `Value` error that names the first key whose value is not.
fn flat_config(format: Format, path: &str, entries: &Vec<(String, Option<String>)>) -> (r: Result<
    Config,
    ConfigError,
>)
    requires
        entry_keys_distinct(entries_view(entries@)),
    ensures
        match r {
            Ok(c) => is_flat(entries_view(entries@)) && pairs_view(c.data@) == flat_pairs(
                entries_view(entries@),
            ) && c.wf(),
            Err(e) => !is_flat(entries_view(entries@)) && e.kind == ErrorKind::Value && exists|
                cause: Seq<char>,
            | e.message@ == parse_failure_message(format, path@, cause),
        },
{
    match string_pairs(entries) {
        Ok(data) => {
            let ghost s = entries_view(entries@);
            assert(data@.len() == pairs_view(data@).len() && flat_pairs(s).len() == s.len());
            assert forall|i: int, j: int|
                0 <= i < data@.len() && 0 <= j < data@.len() && i != j implies pairs_view(data@)[i].0
                != pairs_view(data@)[j].0 by {
                assert(flat_pairs(s)[i].0 == s[i].0);
                assert(flat_pairs(s)[j].0 == s[j].0);
            }
            Ok(Config { data })
        },
        Err(key) => {
            let cause = quoted_path("the value of key '", key.as_str(), "' is not a string");
            let e = parse_failure(format, path, cause.as_str());
            Err(e)
        },
    }
}

impl Config {
    /// Builds the configuration of the file at `file_path` from the outcome of
    /// reading it. A failed read is an `Io` error. Otherwise the extension
    /// picks the parser (`.yaml`/`.yml` or `.json`); any other extension, a
    /// text the parser rejects as a mapping, or a mapping with a value that is
    /// not a string, is a `Value` error.
    pub fn from_file(file_path: &str, read: Result<String, ReadError>) -> (r: Result<Config, ConfigError>)
        ensures
            match r {
                Ok(c) => load_result(file_path@, read) == Ok::<_, ErrorKind>(pairs_view(c.data@)) && c.wf(),
                Err(e) => load_result(file_path@, read) == Err::<Seq<(Seq<char>, Seq<char>)>, _>(e.kind)
                    && describes_failure(file_path@, read, e.message@),
            },
    {
        match read {
            Err(ReadError::Open(cause)) => Err(
                failure(ErrorKind::Io, "Failed to open file '", file_path, cause.as_str()),
            ),
            Err(ReadError::Read(cause)) => Err(
                failure(ErrorKind::Io, "Failed to read file '", file_path, cause.as_str()),
            ),
            Ok(contents) => match format_of_path(file_path) {
                None => {
                    let message = quoted_path(
                        "Unsupported configuration file format for file '",
                        file_path,
                        "'",
                    );
                    Err(ConfigError { kind: ErrorKind::Value, message })
                },
                Some(Format::Yaml) => match parse_yaml_mapping(contents.as_str()) {
                    Ok(entries) => flat_config(Format::Yaml, file_path, &entries),
                    Err(err) => {
                        let cause = err.to_string();
                        Err(parse_failure(Format::Yaml, file_path, cause.as_str()))
                    },
                },
                Some(Format::Json) => match parse_json_object(contents.as_str()) {
                    Ok(entries) => flat_config(Format::Json, file_path, &entries),
                    Err(err) => {
                        let cause = err.to_string();
                        Err(parse_failure(Format::Json, file_path, cause.as_str()))
                    },
                },
            },
        }
    }
}

/// The flat mapping of the file at `file_path`, from the outcome of reading
/// it: the entries of `Config::from_file`, or its error.
pub fn load(file_path: &str, read: Result<String, ReadError>) -> (r: Result<Vec<(String, String)>, ConfigError>)
    ensures
        match r {
            Ok(data) => load_result(file_path@, read) == Ok::<_, ErrorKind>(pairs_view(data@))
                && keys_distinct(pairs_view(data@)),
            Err(e) => load_result(file_path@, read) == Err::<Seq<(Seq<char>, Seq<char>)>, _>(e.kind)
                && describes_failure(file_path@, read, e.message@),
        },
{
    let config = Config::from_file(file_path, read)?;
    Ok(config.data)
}

} // verus!
