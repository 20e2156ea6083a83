use vstd::prelude::*;

verus! {

use crate::front_matter::{classify_value, MetaValue, SchemaError};

/// serde_yaml's dynamically typed document value; opaque to verification.
#[verifier::external_type_specification]
#[verifier::external_body]
pub struct ExYamlValue(serde_yaml::Value);

/// serde_yaml's parse error; opaque to verification.
#[verifier::external_type_specification]
#[verifier::external_body]
pub struct ExYamlError(serde_yaml::Error);

/// The two ways a block's text can fail to be a metadata mapping at all:
/// serde_yaml rejects it, or its top level is not a mapping.
pub enum YamlBlockError {
    Syntax,
    NotAMapping,
}

/// What reading a metadata block's text as YAML yields: one of the two
/// failures above, or the top-level mapping's entries in stored order, each
/// key as a string when it is one, each value reduced to the shape the
/// metadata schema distinguishes.  serde_yaml computes this from the text
/// alone.
pub uninterp spec fn yaml_meta_entries(text: Seq<char>) -> Result<
    Seq<(Option<String>, MetaValue)>,
    YamlBlockError,
>;

/// Relies on serde_yaml::from_str for serde_yaml::Value, Value::as_mapping
/// and Mapping::iter: parses the text (rejecting, among others, mappings
/// that repeat a key), demands a top-level mapping, and hands its entries
/// back in stored order.  The result is `yaml_meta_entries` of the text; the
/// syntax error keeps serde_yaml's error value.
#[verifier::external_body]
pub fn yaml_block_entries(text: &str) -> (r: Result<
    Vec<(Option<String>, MetaValue)>,
    SchemaError,
>)
    ensures
        (match yaml_meta_entries(text@) {
            Ok(es) => r matches Ok(v) && v@ == es,
            Err(YamlBlockError::Syntax) => r matches Err(e) && e is Syntax,
            Err(YamlBlockError::NotAMapping) => r == Err::<
                Vec<(Option<String>, MetaValue)>,
                SchemaError,
            >(SchemaError::NotAMapping),
        }),
{
    let doc: serde_yaml::Value = match serde_yaml::from_str(text) {
        Ok(d) => d,
        Err(e) => return Err(SchemaError::Syntax(e)),
    };
    let mapping = match doc.as_mapping() {
        Some(m) => m,
        None => return Err(SchemaError::NotAMapping),
    };
    Ok(mapping.iter().map(|(k, v)| (yaml_as_string(k), classify_value(v))).collect())
}

/// Relies on serde_yaml::Value::as_str: Some exactly when the value is a
/// string, holding that string.
#[verifier::external_body]
pub fn yaml_as_string(v: &serde_yaml::Value) -> Option<String> {
    v.as_str().map(|s| s.to_owned())
}

/// Relies on serde_yaml::Value::as_sequence: Some exactly when the value is
/// a sequence, holding its items.
#[verifier::external_body]
pub fn yaml_sequence_items(v: &serde_yaml::Value) -> Option<Vec<serde_yaml::Value>> {
    v.as_sequence().map(|items| items.to_vec())
}

} // verus!
