use vstd::prelude::*;

verus! {

use vstd::string::StringExecFns;
use vstd::utf8::{valid_utf8, decode_utf8};

use crate::file::{File, spec_split, SplitModel};
use crate::front_matter::{spec_block_result, FrontMatter, FrontMatterError, SchemaError};
use crate::store::Store;
use crate::utils::{read_dir, read_file_raw, ResolveError};

/// A document served to callers: its body text and its metadata.
#[derive(Debug)]
pub struct Post {
    pub content: String,
    pub meta: PostMetaData,
}

/// The metadata carried by a post: the recognized fields of its front
/// matter, with their defaults when the document has none.
#[derive(Debug)]
pub struct PostMetaData {
    pub title: String,
    pub tags: Vec<String>,
}

/// A listing query: the language, and the half-open index range
/// `[from, to)` of the listing to return.
#[derive(Debug)]
pub struct PostQueryBuilder {
    pub language: String,
    pub from: u32,
    pub to: u32,
}

/// A single-document query, by identifier.
pub struct PostSingleBuilder {
    pub id: String,
}

/// Why a query failed: the document is absent, the snapshot could not be
/// read, or a document is malformed.
#[derive(Debug)]
pub enum QueryError {
    /// The identifier does not resolve to a document.
    NotFound,
    /// The snapshot could not be read, for the reason carried.
    Store(ResolveError),
    /// A document failed to parse.
    Document(FrontMatterError),
}

impl From<FrontMatter> for PostMetaData {
    fn from(front_matter: FrontMatter) -> (r: Self) {
        PostMetaData { title: front_matter.title, tags: front_matter.tags }
    }
}

impl vstd::std_specs::convert::FromSpecImpl<FrontMatter> for PostMetaData {
    open spec fn obeys_from_spec() -> bool {
        true
    }

    open spec fn from_spec(front_matter: FrontMatter) -> Self {
        PostMetaData { title: front_matter.title, tags: front_matter.tags }
    }
}

impl From<File> for Post {
    fn from(file: File) -> (r: Self) {
        Post::of_file(file)
    }
}

impl vstd::std_specs::convert::FromSpecImpl<File> for Post {
    open spec fn obeys_from_spec() -> bool {
        false
    }

    open spec fn from_spec(file: File) -> Self {
        vstd::pervasive::arbitrary()
    }
}

impl Post {
    /// Composes a post from a parsed file: the body becomes the content,
    /// and the front matter's fields the metadata; a file without front
    /// matter gets the default metadata, an empty title and no tags.
    pub fn of_file(file: File) -> (r: Post)
        ensures
            r.content == file.body,
            file.front_matter matches Some(f) ==> (r.meta.title == f.title && r.meta.tags
                == f.tags),
            file.front_matter is None ==> (r.meta.title@.len() == 0 && r.meta.tags@.len() == 0),
    {
        let meta: PostMetaData = match file.front_matter {
            Some(f) => PostMetaData::from(f),
            None => PostMetaData { title: String::new(), tags: Vec::new() },
        };
        Post { content: file.body, meta }
    }

    /// Begins a listing query with the defaults: language `en`, the first
    /// five documents.
    pub fn list_posts() -> (r: PostQueryBuilder)
        ensures
            r.language@ == "en"@,
            r.from == 0u32,
            r.to == 5u32,
    {
        PostQueryBuilder { language: String::from_str("en"), from: 0, to: 5 }
    }

    /// Begins a single-document query for the given identifier.
    pub fn find(id: &str) -> (r: PostSingleBuilder)
        ensures
            r.id@ == id@,
    {
        PostSingleBuilder { id: String::from_str(id) }
    }

    /// Translates an identifier to its storage path:
    /// `_posts/{identifier}.{configured extension}`.
    fn translate_id_to_filepath(file_name: &str, store: &Store) -> (r: String)
        ensures
            r@ == "_posts/"@ + file_name@ + "."@ + store.config.resolve_extension@,
    {
        let mut out = String::from_str("_posts/");
        out.append(file_name);
        out.append(".");
        out.append(store.config.resolve_extension.as_str());
        out
    }

    /// Resolves one document by identifier: translates it to its storage
    /// path, reads that file from the store's branch and parses it.  A path
    /// that does not resolve is NotFound — never a defaulted document.
    pub fn query_one(single_builder: &PostSingleBuilder, store: &Store) -> (r: Result<
        Post,
        QueryError,
    >)
        ensures
            !(r matches Err(QueryError::Store(se)) && se == ResolveError::NoSuchPath),
    {
        let file_path = Self::translate_id_to_filepath(single_builder.id.as_str(), store);
        post_of_fetch(read_file_raw(&store.repo, file_path.as_str(), store.branch().as_str()))
    }

    /// Lists documents under the posts directory: takes the page
    /// `[from, to)` of the listing, in listing order, and resolves and
    /// parses each path on it, failing fast on the first malformed
    /// document.
    pub fn query_list(query_builder: &PostQueryBuilder, store: &Store) -> (r: Result<
        Vec<Post>,
        QueryError,
    >)
        ensures
            r matches Ok(posts) ==> posts@.len() <= (if query_builder.from <= query_builder.to {
                query_builder.to - query_builder.from
            } else {
                0
            }),
    {
        let files = match read_dir(&store.repo, store.branch().as_str(), Some("_posts")) {
            Ok(v) => v,
            Err(e) => {
                return Err(QueryError::Store(e));
            },
        };
        let page = slice_page(files, query_builder.from, query_builder.to);
        posts_of_paths(store, page)
    }
}

/// The half-open page `[from, to)` of a listing, clamped to its length.
pub open spec fn spec_page<T>(items: Seq<T>, from: int, to: int) -> Seq<T> {
    let lo = if from <= items.len() {
        from
    } else {
        items.len() as int
    };
    let hi = if to <= items.len() {
        to
    } else {
        items.len() as int
    };
    if lo <= hi {
        items.subrange(lo, hi)
    } else {
        Seq::empty()
    }
}

/// Takes the page `[from, to)` of the listing, clamped to its length.
pub fn slice_page(items: Vec<String>, from: u32, to: u32) -> (r: Vec<String>)
    ensures
        r@ == spec_page(items@, from as int, to as int),
{
    let n = items.len();
    let lo: usize = if (from as usize) <= n {
        from as usize
    } else {
        n
    };
    let hi: usize = if (to as usize) <= n {
        to as usize
    } else {
        n
    };
    let mut out: Vec<String> = Vec::new();
    if lo >= hi {
        proof {
            if spec_page(items@, from as int, to as int).len() > 0 {
                assert(items@.subrange(lo as int, hi as int).len() > 0);
            }
            assert(out@ =~= spec_page(items@, from as int, to as int));
        }
        return out;
    }
    let mut i = lo;
    while i < hi
        invariant
            lo <= i <= hi <= n,
            n == items@.len(),
            out@ =~= items@.subrange(lo as int, i as int),
        decreases hi - i,
    {
        out.push(items[i].clone());
        proof {
            assert(out@ =~= items@.subrange(lo as int, i + 1));
        }
        i = i + 1;
    }
    proof {
        assert(out@ =~= spec_page(items@, from as int, to as int));
    }
    out
}

/// Turns a fetch outcome into a document: a missing path is NotFound, any
/// other resolution failure keeps its kind, and the bytes of a found file
/// are split and parsed exactly as `File::parse_file` does, with defaulted
/// metadata when no block is present.
pub fn post_of_fetch(fetch: Result<Vec<u8>, ResolveError>) -> (r: Result<Post, QueryError>)
    ensures
        fetch is Ok ==> (r is Ok || r matches Err(QueryError::Document(_))),
        (match fetch {
            Err(e) => r == (if e == ResolveError::NoSuchPath {
                Err::<Post, QueryError>(QueryError::NotFound)
            } else {
                Err::<Post, QueryError>(QueryError::Store(e))
            }),
            Ok(bytes) => ({
                let s = bytes@;
                match spec_split(s) {
                    SplitModel::NoFrontMatter => {
                        &&& (valid_utf8(s) ==> (r matches Ok(p) && p.content@ == decode_utf8(s)
                            && p.meta.title@.len() == 0 && p.meta.tags@.len() == 0))
                        &&& (!valid_utf8(s) ==> r is Err)
                    },
                    SplitModel::NoClosingDelimiter => r matches Err(QueryError::Document(
                        FrontMatterError::Extract(_),
                    )),
                    SplitModel::FrontMatter { meta, body } => {
                        &&& !(r matches Err(QueryError::Document(FrontMatterError::Extract(_))))
                        &&& (r matches Ok(p) ==> (valid_utf8(body) && p.content@ == decode_utf8(
                            body,
                        ) && spec_block_result(
                            meta,
                            Ok::<FrontMatter, SchemaError>(
                                (FrontMatter { title: p.meta.title, tags: p.meta.tags }),
                            ),
                        )))
                        &&& (r matches Err(QueryError::Document(FrontMatterError::Parse(pe)))
                            ==> (spec_block_result(meta, Err::<FrontMatter, SchemaError>(pe)) || (
                        pe is NotUtf8 && !valid_utf8(body))))
                    },
                }
            }),
        }),
{
    let bytes = match fetch {
        Ok(b) => b,
        Err(e) => {
            return match e {
                ResolveError::NoSuchPath => Err(QueryError::NotFound),
                _ => Err(QueryError::Store(e)),
            };
        },
    };
    match File::parse_file(bytes.as_slice()) {
        Ok(file) => Ok(Post::of_file(file)),
        Err(e) => Err(QueryError::Document(e)),
    }
}

/// Resolves and parses each listed path, in order, failing fast on the
/// first one that cannot be fetched or parsed.  An empty listing is an
/// empty result, never an error.
pub fn posts_of_paths(store: &Store, paths: Vec<String>) -> (r: Result<Vec<Post>, QueryError>)
    ensures
        paths@.len() == 0 ==> (r matches Ok(posts) && posts@.len() == 0),
        r matches Ok(posts) ==> posts@.len() == paths@.len(),
{
    let mut posts: Vec<Post> = Vec::new();
    let mut i: usize = 0;
    while i < paths.len()
        invariant
            i <= paths@.len(),
            posts@.len() == i,
        decreases paths@.len() - i,
    {
        let fetch = read_file_raw(&store.repo, paths[i].as_str(), store.branch().as_str());
        match post_of_fetch(fetch) {
            Ok(p) => posts.push(p),
            Err(e) => {
                return Err(e);
            },
        }
        i = i + 1;
    }
    Ok(posts)
}

impl PostSingleBuilder {
    /// Runs the single-document query against the given store.
    pub fn execute(&self, store: &Store) -> (r: Result<Post, QueryError>)
        ensures
            !(r matches Err(QueryError::Store(se)) && se == ResolveError::NoSuchPath),
    {
        Post::query_one(&self, store)
    }
}

impl PostQueryBuilder {
    /// Runs the listing query against the given store.
    pub fn execute(&self, store: &Store) -> (r: Result<Vec<Post>, QueryError>)
        ensures
            r matches Ok(posts) ==> posts@.len() <= (if self.from <= self.to {
                self.to - self.from
            } else {
                0
            }),
    {
        Post::query_list(&self, &store)
    }

    /// Sets the listing range to `[from, to)`.
    pub fn offset(self, from: u32, to: u32) -> (r: Self)
        ensures
            r.from == from,
            r.to == to,
            r.language == self.language,
    {
        let mut this = self;
        this.from = from;
        this.to = to;
        this
    }

    /// Widens the listing range to everything.
    pub fn all(self) -> (r: Self)
        ensures
            r.from == 0u32,
            r.to == u32::MAX,
            r.language == self.language,
    {
        let mut this = self;
        this.from = 0;
        this.to = u32::MAX;
        this
    }
}

} // verus!
