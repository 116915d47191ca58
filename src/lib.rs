//! Loads a flat string-to-string configuration from YAML or JSON text,
//! choosing the format by the file's extension.

mod config;
mod document;
mod extension;
mod outcomes;

pub use config::{
    describes_failure, entries_map, entries_of, load, load_result, open_failure_message,
    parse_failure_message, read_failure_message, unsupported_format_message, Config,
    ConfigError, ErrorKind, ReadError,
};
pub use document::{
    entries_view, entry_keys_distinct, first_non_string, flat_pairs, is_flat, json_entries,
    keys_distinct, pairs_view, string_pairs, yaml_entries,
};
pub use extension::{
    dot_opens_extension, extension_of, format_of, format_of_extension, format_of_path,
    Format,
};
pub use outcomes::{
    entries_map_agrees, json_object_loads, non_string_value_is_value_error,
    rejected_text_is_value_error,
    unreadable_file_is_io_error, unsupported_extension_is_value_error, yaml_mapping_loads,
};
