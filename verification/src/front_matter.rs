use vstd::prelude::*;

verus! {

use vstd::utf8::{valid_utf8, decode_utf8};

use vstd::string::StringExecFns;

use crate::file::{spec_split, File, Split, SplitModel};
use crate::text::{str_from_bytes, str_eq};
use crate::yaml::{yaml_block_entries, yaml_as_string, yaml_sequence_items};
use crate::yaml::{yaml_meta_entries, YamlBlockError};

/// The default for an absent `title` field: the empty string.
pub fn empty_string() -> (r: String)
    ensures
        r@ == Seq::<char>::empty(),
{
    String::new()
}

/// The default for an absent `tags` field: no tags.
pub fn empty_vec() -> (r: Vec<String>)
    ensures
        r@.len() == 0,
{
    Vec::with_capacity(0)
}

/// The typed metadata of a document: the recognized front matter fields.
#[derive(Debug)]
pub struct FrontMatter {
    pub title: String,
    pub tags: Vec<String>,
}

/// Failure to locate a delimited metadata block in the input.
#[derive(Debug)]
pub struct FrontMatterExtractError {
    pub description: String,
}

/// Why a well-delimited metadata block failed to parse against the schema.
#[derive(Debug)]
pub enum SchemaError {
    /// The block is not valid UTF-8 text.
    NotUtf8,
    /// serde_yaml rejected the block.
    Syntax(serde_yaml::Error),
    /// The block's top level is not a mapping.
    NotAMapping,
    /// The `title` field is present but not a string.
    TitleNotAString,
    /// The `tags` field is present but not a sequence.
    TagsNotASequence,
    /// The `tags` field is a sequence holding a non-string item.
    TagNotAString,
}

/// A failure to turn bytes into front matter: either no delimited block was
/// found, or the block's content does not fit the metadata schema.  The two
/// kinds stay distinguishable for callers.
#[derive(Debug)]
pub enum FrontMatterError {
    Extract(FrontMatterExtractError),
    Parse(SchemaError),
}

pub open spec fn spec_no_start_msg() -> Seq<char> {
    "No starting front matter delimiter found"@
}

pub open spec fn spec_no_end_msg() -> Seq<char> {
    "No ending front matter delimiter found"@
}

/// A metadata value reduced to the shapes the schema distinguishes.
pub enum MetaValue {
    /// A string.
    Text(String),
    /// A sequence whose items are all strings.
    TextList(Vec<String>),
    /// A sequence holding at least one non-string item.
    MixedList,
    /// Anything else: number, boolean, null, nested mapping.
    Other,
}

pub open spec fn spec_entry_is(key: Option<String>, name: Seq<char>) -> bool {
    key matches Some(k) && k@ == name
}

/// How the schema is filled from a mapping's entries, scanned in order with
/// accumulators holding the fields so far (their defaults to begin with):
/// a `title` entry must be a string, a `tags` entry a sequence of strings,
/// a later entry overwrites an earlier one, and every other key is ignored.
pub open spec fn spec_fill_schema(
    entries: Seq<(Option<String>, MetaValue)>,
    title: Seq<char>,
    tags: Seq<Seq<char>>,
) -> Result<(Seq<char>, Seq<Seq<char>>), SchemaError>
    decreases entries.len(),
{
    if entries.len() == 0 {
        Ok((title, tags))
    } else {
        let e = entries[0];
        let rest = entries.drop_first();
        if spec_entry_is(e.0, "title"@) {
            match e.1 {
                MetaValue::Text(s) => spec_fill_schema(rest, s@, tags),
                _ => Err(SchemaError::TitleNotAString),
            }
        } else if spec_entry_is(e.0, "tags"@) {
            match e.1 {
                MetaValue::TextList(v) => spec_fill_schema(rest, title, v.deep_view()),
                MetaValue::MixedList => Err(SchemaError::TagNotAString),
                _ => Err(SchemaError::TagsNotASequence),
            }
        } else {
            spec_fill_schema(rest, title, tags)
        }
    }
}

/// Fills the metadata schema from a mapping's entries: `title` defaults to
/// the empty string and must be a string when present; `tags` defaults to the
/// empty list and must be a sequence of strings when present; unrecognized
/// keys are ignored; a recognized key of the wrong shape is a schema error.
#[verifier::loop_isolation(false)]
pub fn front_matter_of_entries(entries: Vec<(Option<String>, MetaValue)>) -> (r: Result<
    FrontMatter,
    SchemaError,
>)
    ensures
        ({
            let out = spec_fill_schema(entries@, Seq::empty(), Seq::empty());
            match r {
                Ok(fm) => out matches Ok(p) && fm.title@ == p.0 && fm.tags.deep_view() == p.1,
                Err(e) => out matches Err(e2) && e == e2,
            }
        }),
{
    let ghost given_entries = entries@;
    let mut entries = entries;
    let mut title = empty_string();
    let mut tags = empty_vec();
    proof {
        assert(title@ =~= Seq::<char>::empty());
        assert(tags.deep_view() =~= Seq::<Seq<char>>::empty());
    }
    loop
        invariant
            spec_fill_schema(given_entries, Seq::empty(), Seq::empty()) == spec_fill_schema(
                entries@,
                title@,
                tags.deep_view(),
            ),
        decreases entries@.len(),
    {
        if entries.len() == 0 {
            proof {
                assert(spec_fill_schema(entries@, title@, tags.deep_view()) == Ok::<
                    (Seq<char>, Seq<Seq<char>>),
                    SchemaError,
                >((title@, tags.deep_view())));
            }
            return Ok(FrontMatter { title, tags });
        }
        let ghost before = entries@;
        let ghost t0 = title@;
        let ghost g0 = tags.deep_view();
        let (key, val) = entries.remove(0);
        proof {
            assert(entries@ =~= before.drop_first());
            assert(key == before[0].0 && val == before[0].1);
        }
        let is_title = match &key {
            Some(k) => str_eq(k.as_str(), "title"),
            None => false,
        };
        let is_tags = if is_title {
            false
        } else {
            match &key {
                Some(k) => str_eq(k.as_str(), "tags"),
                None => false,
            }
        };
        proof {
            assert(is_title == spec_entry_is(before[0].0, "title"@));
            assert(is_tags == (!is_title && spec_entry_is(before[0].0, "tags"@)));
        }
        if is_title {
            match val {
                MetaValue::Text(s) => {
                    title = s;
                    proof {
                        assert(spec_fill_schema(before, t0, g0) == spec_fill_schema(
                            entries@,
                            title@,
                            tags.deep_view(),
                        ));
                    }
                },
                _ => {
                    proof {
                        assert(spec_fill_schema(before, t0, g0) == Err::<
                            (Seq<char>, Seq<Seq<char>>),
                            SchemaError,
                        >(SchemaError::TitleNotAString));
                    }
                    return Err(SchemaError::TitleNotAString);
                },
            }
        } else if is_tags {
            match val {
                MetaValue::TextList(v) => {
                    tags = v;
                    proof {
                        assert(spec_fill_schema(before, t0, g0) == spec_fill_schema(
                            entries@,
                            title@,
                            tags.deep_view(),
                        ));
                    }
                },
                MetaValue::MixedList => {
                    proof {
                        assert(spec_fill_schema(before, t0, g0) == Err::<
                            (Seq<char>, Seq<Seq<char>>),
                            SchemaError,
                        >(SchemaError::TagNotAString));
                    }
                    return Err(SchemaError::TagNotAString);
                },
                _ => {
                    proof {
                        assert(spec_fill_schema(before, t0, g0) == Err::<
                            (Seq<char>, Seq<Seq<char>>),
                            SchemaError,
                        >(SchemaError::TagsNotASequence));
                    }
                    return Err(SchemaError::TagsNotASequence);
                },
            }
        } else {
            proof {
                assert(spec_fill_schema(before, t0, g0) == spec_fill_schema(
                    entries@,
                    title@,
                    tags.deep_view(),
                ));
            }
        }
    }
}

/// The schema fill fails only on a recognized key of the wrong shape.
proof fn lemma_fill_schema_err_kinds(
    entries: Seq<(Option<String>, MetaValue)>,
    title: Seq<char>,
    tags: Seq<Seq<char>>,
)
    ensures
        spec_fill_schema(entries, title, tags) matches Err(e) ==> (e is TitleNotAString
            || e is TagsNotASequence || e is TagNotAString),
    decreases entries.len(),
{
    if entries.len() > 0 {
        let e = entries[0];
        let rest = entries.drop_first();
        if spec_entry_is(e.0, "title"@) {
            if let MetaValue::Text(s) = e.1 {
                lemma_fill_schema_err_kinds(rest, s@, tags);
            }
        } else if spec_entry_is(e.0, "tags"@) {
            if let MetaValue::TextList(v) = e.1 {
                lemma_fill_schema_err_kinds(rest, title, v.deep_view());
            }
        } else {
            lemma_fill_schema_err_kinds(rest, title, tags);
        }
    }
}

/// Reduces a yaml value to the shape the schema distinguishes.
pub(crate) fn classify_value(v: &serde_yaml::Value) -> MetaValue {
    match yaml_as_string(v) {
        Some(s) => MetaValue::Text(s),
        None => match yaml_sequence_items(v) {
            Some(items) => {
                let mut texts: Vec<String> = Vec::new();
                let mut i: usize = 0;
                while i < items.len()
                    decreases items.len() - i,
                {
                    match yaml_as_string(&items[i]) {
                        Some(s) => texts.push(s),
                        None => {
                            return MetaValue::MixedList;
                        },
                    }
                    i += 1;
                }
                MetaValue::TextList(texts)
            },
            None => MetaValue::Other,
        },
    }
}

/// What parsing a metadata block's bytes must yield.  The block must be
/// UTF-8 text; its YAML reading is the named outcome `yaml_meta_entries`;
/// a mapping is filled against the schema by `spec_fill_schema`, so success
/// is owed exactly when the text is a mapping that fits the schema, and the
/// result's title and tags are the filled fields.
pub open spec fn spec_block_result(block: Seq<u8>, r: Result<FrontMatter, SchemaError>) -> bool {
    &&& (!valid_utf8(block) ==> r == Err::<FrontMatter, SchemaError>(SchemaError::NotUtf8))
    &&& ((r matches Err(e) && e is NotUtf8) ==> !valid_utf8(block))
    &&& (valid_utf8(block) ==> (match yaml_meta_entries(decode_utf8(block)) {
        Err(YamlBlockError::Syntax) => r matches Err(e) && e is Syntax,
        Err(YamlBlockError::NotAMapping) => r == Err::<FrontMatter, SchemaError>(
            SchemaError::NotAMapping,
        ),
        Ok(es) => (match spec_fill_schema(es, Seq::empty(), Seq::empty()) {
            Ok(p) => r matches Ok(fm) && fm.title@ == p.0 && fm.tags.deep_view() == p.1,
            Err(e) => r == Err::<FrontMatter, SchemaError>(e),
        }),
    }))
}

/// Parses the raw bytes of a metadata block (delimiter lines excluded)
/// against the schema.
pub(crate) fn front_matter_of_block(block: &[u8]) -> (r: Result<FrontMatter, SchemaError>)
    ensures
        spec_block_result(block@, r),
{
    let text = match str_from_bytes(block) {
        Some(t) => t,
        None => {
            return Err(SchemaError::NotUtf8);
        },
    };
    let entries = match yaml_block_entries(text) {
        Ok(v) => v,
        Err(e) => {
            return Err(e);
        },
    };
    proof {
        lemma_fill_schema_err_kinds(entries@, Seq::empty(), Seq::empty());
    }
    front_matter_of_entries(entries)
}

impl FrontMatter {
    /// Extracts the delimited metadata block from a file's bytes and parses
    /// it against the schema.  A missing opening or closing delimiter is an
    /// extraction error with a message saying which; a block that does not
    /// fit the schema is a parse error.
    pub fn build(utf8: &[u8]) -> (r: Result<FrontMatter, FrontMatterError>)
        ensures
            ({
                let s = utf8@;
                match spec_split(s) {
                    SplitModel::NoFrontMatter => r matches Err(FrontMatterError::Extract(e))
                        && e.description@ == spec_no_start_msg(),
                    SplitModel::NoClosingDelimiter => r matches Err(FrontMatterError::Extract(e))
                        && e.description@ == spec_no_end_msg(),
                    SplitModel::FrontMatter { meta, body } => {
                        &&& !(r matches Err(FrontMatterError::Extract(_)))
                        &&& (r matches Ok(fm) ==> spec_block_result(
                            meta,
                            Ok::<FrontMatter, SchemaError>(fm),
                        ))
                        &&& (r matches Err(FrontMatterError::Parse(p)) ==> spec_block_result(
                            meta,
                            Err::<FrontMatter, SchemaError>(p),
                        ))
                    },
                }
            }),
    {
        match File::split(utf8) {
            Split::NoFrontMatter => Err(
                FrontMatterError::Extract(
                    FrontMatterExtractError {
                        description: String::from_str("No starting front matter delimiter found"),
                    },
                ),
            ),
            Split::NoClosingDelimiter => Err(
                FrontMatterError::Extract(
                    FrontMatterExtractError {
                        description: String::from_str("No ending front matter delimiter found"),
                    },
                ),
            ),
            Split::FrontMatter { meta_start, meta_end, body_start: _ } => {
                let block = vstd::slice::slice_subrange(utf8, meta_start, meta_end);
                match front_matter_of_block(block) {
                    Ok(fm) => Ok(fm),
                    Err(e) => Err(FrontMatterError::Parse(e)),
                }
            },
        }
    }
}

} // verus!
