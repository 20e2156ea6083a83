use vstd::prelude::*;

verus! {

use vstd::utf8::{valid_utf8, decode_utf8};

use crate::front_matter::{
    FrontMatter,
    FrontMatterError,
    FrontMatterExtractError,
    SchemaError,
    front_matter_of_block,
    spec_block_result,
    spec_no_end_msg,
};
use crate::text::str_from_bytes;

/// The newline byte that terminates a line.
pub const NL: u8 = 10;

/// The dash byte of the `---` delimiter token.
pub const DASH: u8 = 45;

/// A delimiter line starts at `i`: the three bytes `---` followed by a
/// newline or by the end of the input.
pub open spec fn spec_is_delim_at(s: Seq<u8>, i: int) -> bool {
    &&& 0 <= i
    &&& i + 3 <= s.len()
    &&& s[i] == DASH
    &&& s[i + 1] == DASH
    &&& s[i + 2] == DASH
    &&& (i + 3 == s.len() || s[i + 3] == NL)
}

/// Where the delimiter scan starts: a single leading blank line is tolerated
/// and skipped.
pub open spec fn spec_scan_start(s: Seq<u8>) -> int {
    if s.len() > 0 && s[0] == NL {
        1
    } else {
        0
    }
}

/// Whether the input opens with a metadata delimiter line.
pub open spec fn spec_has_open(s: Seq<u8>) -> bool {
    spec_is_delim_at(s, spec_scan_start(s))
}

/// The first position of the metadata content, just past the opening
/// delimiter line.  Exceeds `s.len()` when the opening delimiter line is the
/// very end of the input, in which case no closing delimiter can follow.
pub open spec fn spec_meta_start(s: Seq<u8>) -> int {
    spec_scan_start(s) + 4
}

/// The position just past the newline that ends the line beginning at or
/// running through `j`, or the end of the input when no newline follows.
pub open spec fn spec_skip_line(s: Seq<u8>, j: int) -> int
    decreases s.len() - j,
{
    if j < 0 {
        0
    } else if j >= s.len() {
        s.len() as int
    } else if s[j] == NL {
        j + 1
    } else {
        spec_skip_line(s, j + 1)
    }
}

pub proof fn lemma_skip_line_bounds(s: Seq<u8>, j: int)
    requires
        0 <= j <= s.len(),
    ensures
        j <= spec_skip_line(s, j) <= s.len(),
        j < s.len() ==> j + 1 <= spec_skip_line(s, j),
    decreases s.len() - j,
{
    if j < s.len() && s[j] != NL {
        lemma_skip_line_bounds(s, j + 1);
    }
}

/// `spec_skip_line` lands just past the first newline at or after `j`, or at
/// the end of the input when the rest holds no newline.
pub proof fn lemma_skip_line_char(s: Seq<u8>, j: int)
    requires
        0 <= j <= s.len(),
    ensures
        ({
            let e = spec_skip_line(s, j);
            &&& j <= e <= s.len()
            &&& (e == s.len() && forall|m: int| j <= m < s.len() ==> s[m] != NL) || (j + 1 <= e
                && s[e - 1] == NL && forall|m: int| j <= m < e - 1 ==> s[m] != NL)
        }),
    decreases s.len() - j,
{
    if j < s.len() && s[j] != NL {
        lemma_skip_line_char(s, j + 1);
    }
}

/// The first delimiter line at or after line start `j`, scanning line by
/// line.
pub open spec fn spec_find_close(s: Seq<u8>, j: int) -> Option<int>
    decreases s.len() - j,
    when true
    via spec_find_close_decreases
{
    if j < 0 {
        None
    } else if j >= s.len() {
        None
    } else if spec_is_delim_at(s, j) {
        Some(j)
    } else {
        spec_find_close(s, spec_skip_line(s, j))
    }
}

#[via_fn]
proof fn spec_find_close_decreases(s: Seq<u8>, j: int) {
    if 0 <= j && j < s.len() && !spec_is_delim_at(s, j) {
        lemma_skip_line_bounds(s, j);
    }
}

/// What splitting yields: no metadata block at all, a block and the body
/// that follows it, or an opening delimiter that is never closed.
#[verifier::ext_equal]
pub enum SplitModel {
    NoFrontMatter,
    FrontMatter { meta: Seq<u8>, body: Seq<u8> },
    NoClosingDelimiter,
}

/// The split of a file's bytes into a metadata block and a body, as a
/// mathematical function of the bytes alone.
pub open spec fn spec_split(s: Seq<u8>) -> SplitModel {
    if !spec_has_open(s) {
        SplitModel::NoFrontMatter
    } else {
        match spec_find_close(s, spec_meta_start(s)) {
            None => SplitModel::NoClosingDelimiter,
            Some(e) => SplitModel::FrontMatter {
                meta: s.subrange(spec_meta_start(s), e),
                body: s.subrange(spec_skip_line(s, e), s.len() as int),
            },
        }
    }
}

/// The outcome of `File::split`, carrying byte positions into the input:
/// the metadata block content is `[meta_start, meta_end)` and the body is
/// `[body_start, ..)`.
pub enum Split {
    NoFrontMatter,
    FrontMatter { meta_start: usize, meta_end: usize, body_start: usize },
    NoClosingDelimiter,
}

/// A parsed document file: its front matter, when a metadata block was
/// present, and its body text.
#[derive(Debug)]
pub struct File {
    pub front_matter: Option<FrontMatter>,
    pub body: String,
}

impl File {
    /// Splits a file's bytes at delimiter lines: after an optional single blank
    /// line, an opening `---` line starts the metadata block, which runs to the
    /// next `---` line; the body is everything after that.  Without an opening
    /// delimiter the whole input is body; without a closing one the file is
    /// malformed.
    pub fn split(utf8: &[u8]) -> (r: Split)
        ensures
            ({
                let s = utf8@;
                match r {
                    Split::NoFrontMatter => spec_split(s) is NoFrontMatter,
                    Split::NoClosingDelimiter => spec_split(s) is NoClosingDelimiter,
                    Split::FrontMatter { meta_start, meta_end, body_start } => {
                        &&& spec_split(s) matches SplitModel::FrontMatter { meta, body }
                            && meta == s.subrange(meta_start as int, meta_end as int) && body
                            == s.subrange(body_start as int, s.len() as int)
                        &&& meta_start == spec_meta_start(s)
                        &&& spec_find_close(s, spec_meta_start(s)) == Some(meta_end as int)
                        &&& body_start == spec_skip_line(s, meta_end as int)
                        &&& meta_start <= meta_end <= body_start <= s.len()
                    },
                }
            }),
    {
        let n = utf8.len();
        let scan_start: usize = if n > 0 && utf8[0] == NL {
            1
        } else {
            0
        };
        assert(scan_start == spec_scan_start(utf8@));
        let open = n - scan_start >= 3 && utf8[scan_start] == DASH && utf8[scan_start + 1] == DASH
            && utf8[scan_start + 2] == DASH && (scan_start + 3 == n || utf8[scan_start + 3] == NL);
        assert(open == spec_has_open(utf8@));
        if !open {
            return Split::NoFrontMatter;
        }
        let meta_start = scan_start + 4;
        let mut j = meta_start;
        loop
            invariant
                n == utf8@.len(),
                spec_has_open(utf8@),
                meta_start == spec_meta_start(utf8@),
                meta_start <= j <= n + 1,
                spec_find_close(utf8@, meta_start as int) == spec_find_close(utf8@, j as int),
            decreases n + 1 - j,
        {
            if j >= n {
                assert(spec_find_close(utf8@, j as int) is None);
                return Split::NoClosingDelimiter;
            }
            let is_delim = n - j >= 3 && utf8[j] == DASH && utf8[j + 1] == DASH && utf8[j + 2] == DASH
                && (j + 3 == n || utf8[j + 3] == NL);
            assert(is_delim == spec_is_delim_at(utf8@, j as int));
            if is_delim {
                let body_start = if n - j == 3 {
                    n
                } else {
                    j + 4
                };
                proof {
                    assert(spec_skip_line(utf8@, j as int) == spec_skip_line(utf8@, j + 1));
                    assert(spec_skip_line(utf8@, j + 1) == spec_skip_line(utf8@, j + 2));
                    assert(spec_skip_line(utf8@, j + 2) == spec_skip_line(utf8@, j + 3));
                    assert(spec_skip_line(utf8@, j + 3) == body_start);
                    lemma_skip_line_bounds(utf8@, j as int);
                }
                return Split::FrontMatter { meta_start, meta_end: j, body_start };
            }
            let ghost j0 = j as int;
            while j < n && utf8[j] != NL
                invariant
                    n == utf8@.len(),
                    j0 <= j <= n,
                    spec_skip_line(utf8@, j0) == spec_skip_line(utf8@, j as int),
                decreases n - j,
            {
                proof {
                    assert(spec_skip_line(utf8@, j as int) == spec_skip_line(utf8@, j + 1));
                }
                j += 1;
            }
            proof {
                lemma_skip_line_bounds(utf8@, j0);
            }
            if j < n {
                assert(spec_skip_line(utf8@, j as int) == j + 1);
                j += 1;
            }
            assert(j == spec_skip_line(utf8@, j0));
            assert(spec_find_close(utf8@, j0) == spec_find_close(utf8@, j as int));
        }
    }

    /// Parses a file's bytes: splits off the delimited metadata block, if
    /// any, and parses it against the schema.  A file without an opening
    /// delimiter is a valid document with no front matter; one whose opening
    /// delimiter is never closed is malformed; a block that does not fit the
    /// schema is a parse error of its own kind.
    pub fn parse_file(utf8: &[u8]) -> (r: Result<File, FrontMatterError>)
        ensures
            ({
                let s = utf8@;
                match spec_split(s) {
                    SplitModel::NoFrontMatter => {
                        &&& (valid_utf8(s) ==> (r matches Ok(f) && f.front_matter is None
                            && f.body@ == decode_utf8(s)))
                        &&& (!valid_utf8(s) ==> r == Err::<File, FrontMatterError>(
                            FrontMatterError::Parse(SchemaError::NotUtf8),
                        ))
                    },
                    SplitModel::NoClosingDelimiter => r matches Err(FrontMatterError::Extract(e))
                        && e.description@ == spec_no_end_msg(),
                    SplitModel::FrontMatter { meta, body } => {
                        &&& !(r matches Err(FrontMatterError::Extract(_)))
                        &&& (r matches Ok(f) ==> (f.front_matter matches Some(fm)
                            && spec_block_result(meta, Ok::<FrontMatter, SchemaError>(fm))
                            && valid_utf8(body) && f.body@ == decode_utf8(body)))
                        &&& (r matches Err(FrontMatterError::Parse(p)) ==> (spec_block_result(
                            meta,
                            Err::<FrontMatter, SchemaError>(p),
                        ) || (p is NotUtf8 && !valid_utf8(body))))
                    },
                }
            }),
    {
        match Self::split(utf8) {
            Split::NoFrontMatter => {
                match str_from_bytes(utf8) {
                    Some(t) => Ok(File { front_matter: None, body: t.to_owned() }),
                    None => Err(FrontMatterError::Parse(SchemaError::NotUtf8)),
                }
            },
            Split::NoClosingDelimiter => Err(
                FrontMatterError::Extract(
                    FrontMatterExtractError {
                        description: String::from_str("No ending front matter delimiter found"),
                    },
                ),
            ),
            Split::FrontMatter { meta_start, meta_end, body_start } => {
                let block = vstd::slice::slice_subrange(utf8, meta_start, meta_end);
                let fm = match front_matter_of_block(block) {
                    Ok(fm) => fm,
                    Err(e) => {
                        return Err(FrontMatterError::Parse(e));
                    },
                };
                let body_bytes = vstd::slice::slice_subrange(utf8, body_start, utf8.len());
                match str_from_bytes(body_bytes) {
                    Some(t) => Ok(File { front_matter: Some(fm), body: t.to_owned() }),
                    None => Err(FrontMatterError::Parse(SchemaError::NotUtf8)),
                }
            },
        }
    }
}

/// Every position of `spec_find_close` is a delimiter line at or after the
/// scan position.
pub proof fn lemma_find_close_props(s: Seq<u8>, j: int)
    requires
        0 <= j,
    ensures
        spec_find_close(s, j) matches Some(e) ==> j <= e < s.len() && spec_is_delim_at(s, e),
    decreases s.len() - j,
{
    if j < s.len() && !spec_is_delim_at(s, j) {
        lemma_skip_line_bounds(s, j);
        lemma_find_close_props(s, spec_skip_line(s, j));
    }
}

/// An input with no delimiter line anywhere — at no line start does `---`
/// stand alone — is split as having no front matter at all, never as a block
/// missing its closing delimiter.
pub proof fn lemma_no_delimiter_line_means_no_front_matter(s: Seq<u8>)
    requires
        forall|j: int| 0 <= j <= s.len() && (j == 0 || s[j - 1] == NL) ==> !spec_is_delim_at(s, j),
    ensures
        spec_split(s) is NoFrontMatter,
{
    let c = spec_scan_start(s);
    assert(c == 0 || s[c - 1] == NL);
    assert(!spec_is_delim_at(s, c));
}

/// An opening delimiter that is never closed is reported as exactly that,
/// never as metadata.
pub proof fn lemma_unclosed_block_is_reported(s: Seq<u8>)
    requires
        spec_has_open(s),
        spec_find_close(s, spec_meta_start(s)) is None,
    ensures
        spec_split(s) is NoClosingDelimiter,
{
}

proof fn lemma_skip_line_shift(s: Seq<u8>, j: int)
    requires
        s.len() > 0,
        0 <= j,
    ensures
        spec_skip_line(s, j + 1) == spec_skip_line(s.drop_first(), j) + 1,
    decreases s.len() - j,
{
    let t = s.drop_first();
    if j >= t.len() {
    } else if t[j] == NL {
    } else {
        lemma_skip_line_shift(s, j + 1);
    }
}

proof fn lemma_find_close_shift(s: Seq<u8>, j: int)
    requires
        s.len() > 0,
        0 <= j,
    ensures
        spec_find_close(s, j + 1) == match spec_find_close(s.drop_first(), j) {
            Some(e) => Some(e + 1),
            None => None,
        },
    decreases s.len() - j,
{
    let t = s.drop_first();
    assert(spec_is_delim_at(s, j + 1) == spec_is_delim_at(t, j));
    if j >= t.len() {
    } else if spec_is_delim_at(t, j) {
    } else {
        lemma_skip_line_shift(s, j);
        lemma_skip_line_bounds(t, j);
        lemma_find_close_shift(s, spec_skip_line(t, j));
    }
}

/// Tolerating the leading blank line changes nothing: a file that begins
/// with a single blank line followed by an opening delimiter splits into the
/// same metadata block and the same body as the file without that blank
/// line.
pub proof fn lemma_leading_blank_line_tolerated(s: Seq<u8>)
    requires
        s.len() > 0,
        s[0] == NL,
        spec_is_delim_at(s.drop_first(), 0),
    ensures
        spec_split(s) == spec_split(s.drop_first()),
{
    let t = s.drop_first();
    assert(spec_scan_start(s) == 1);
    assert(spec_is_delim_at(s, 1) == spec_is_delim_at(t, 0));
    assert(spec_has_open(s));
    assert(t[0] == DASH);
    assert(spec_scan_start(t) == 0);
    assert(spec_has_open(t));
    lemma_find_close_shift(s, 4);
    match spec_find_close(t, 4) {
        None => {
            assert(spec_split(s) is NoClosingDelimiter);
            assert(spec_split(t) is NoClosingDelimiter);
        },
        Some(e) => {
            lemma_find_close_props(t, 4);
            lemma_skip_line_shift(s, e);
            lemma_skip_line_bounds(t, e);
            assert(s.subrange(5, e + 1) =~= t.subrange(4, e));
            assert(s.subrange(spec_skip_line(t, e) + 1, s.len() as int) =~= t.subrange(
                spec_skip_line(t, e),
                t.len() as int,
            ));
            assert(spec_split(s) =~= spec_split(t));
        },
    }
}

proof fn lemma_skip_line_hits(s: Seq<u8>, j: int, k: int)
    requires
        0 <= j <= k < s.len(),
        s[k] == NL,
        forall|m: int| j <= m < k ==> s[m] != NL,
    ensures
        spec_skip_line(s, j) == k + 1,
    decreases k - j,
{
    if j < k {
        lemma_skip_line_hits(s, j + 1, k);
    }
}

/// Scanning line by line from line start `j` finds the delimiter line at
/// `e` when no line start between them carries one.
proof fn lemma_find_close_reaches(s: Seq<u8>, j: int, e: int)
    requires
        0 <= j <= e,
        spec_is_delim_at(s, e),
        j == e || s[e - 1] == NL,
        forall|k: int| j <= k < e && (k == j || s[k - 1] == NL) ==> !spec_is_delim_at(s, k),
    ensures
        spec_find_close(s, j) == Some(e),
    decreases e - j,
{
    if j < e {
        assert(!spec_is_delim_at(s, j));
        assert(e < s.len());
        lemma_skip_line_char(s, j);
        let j2 = spec_skip_line(s, j);
        assert(j2 <= e) by {
            if j2 > e {
                assert(s[e - 1] == NL);
            }
        }
        assert(j2 >= j + 1 && s[j2 - 1] == NL) by {
            if j2 == s.len() && forall|m: int| j <= m < s.len() ==> s[m] != NL {
                assert(s[e - 1] == NL);
            }
        }
        lemma_find_close_reaches(s, j2, e);
    }
}

/// The delimiter line as bytes: `---` and a newline.
pub open spec fn spec_delim_line() -> Seq<u8> {
    seq![DASH, DASH, DASH, NL]
}

/// Round trip: a file assembled as an opening delimiter line, serialized
/// metadata lines (each ending in a newline, none a delimiter line), a
/// closing delimiter line and a body splits back into exactly that metadata
/// block and that body, byte for byte.
pub proof fn lemma_round_trip(meta: Seq<u8>, body: Seq<u8>)
    requires
        meta.len() == 0 || meta[meta.len() - 1] == NL,
        forall|k: int|
            0 <= k < meta.len() && (k == 0 || meta[k - 1] == NL) ==> !spec_is_delim_at(meta, k),
    ensures
        spec_split(spec_delim_line() + meta + spec_delim_line() + body) == (SplitModel::FrontMatter {
            meta,
            body,
        }),
{
    let s = spec_delim_line() + meta + spec_delim_line() + body;
    let c = 4 + meta.len() as int;
    assert(s.len() == 8 + meta.len() + body.len());
    assert(s[0] == DASH && s[1] == DASH && s[2] == DASH && s[3] == NL);
    assert(forall|m: int| 0 <= m < meta.len() ==> s[4 + m] == meta[m]);
    assert(s[c] == DASH && s[c + 1] == DASH && s[c + 2] == DASH && s[c + 3] == NL);
    assert(forall|m: int| 0 <= m < body.len() ==> s[c + 4 + m] == body[m]);
    assert(spec_scan_start(s) == 0);
    assert(spec_is_delim_at(s, 0));
    assert(spec_has_open(s));
    assert(spec_meta_start(s) == 4);
    assert(spec_is_delim_at(s, c));
    assert forall|k: int| 4 <= k < c && (k == 4 || s[k - 1] == NL) implies !spec_is_delim_at(
        s,
        k,
    ) by {
        if spec_is_delim_at(s, k) {
            let mk = k - 4;
            assert(meta.len() > 0);
            assert(meta[meta.len() - 1] == NL);
            assert(s[k] == meta[mk] && meta[mk] == DASH);
            if mk + 1 < meta.len() {
                assert(s[k + 1] == meta[mk + 1] && meta[mk + 1] == DASH);
            }
            if mk + 2 < meta.len() {
                assert(s[k + 2] == meta[mk + 2] && meta[mk + 2] == DASH);
            }
            // the three dashes cannot run into the closing delimiter, since
            // the metadata ends with a newline
            assert(mk + 1 != meta.len() && mk + 2 != meta.len() && mk + 3 != meta.len());
            assert(mk + 3 < meta.len());
            assert(s[k + 3] == meta[mk + 3]);
            assert(s[k + 3] == NL);
            assert(spec_is_delim_at(meta, mk));
            assert(mk == 0 || meta[mk - 1] == NL);
            assert(false);
        }
    }
    assert(c == 4 || s[c - 1] == NL);
    lemma_find_close_reaches(s, 4, c);
    lemma_skip_line_hits(s, c, c + 3);
    assert(s.subrange(4, c) =~= meta);
    assert(s.subrange(c + 4, s.len() as int) =~= body);
    assert(spec_split(s) =~= SplitModel::FrontMatter { meta, body });
}

} // verus!
