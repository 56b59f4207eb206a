//! The fixed, serializable record a report tree is projected into, and the
//! build-time constants that every record carries.

use vstd::prelude::*;

verus! {

/// Build provenance, constructed once at process start and passed by
/// reference into every projection: a short source-revision hash and the
/// documentation base URL of this build.
#[derive(Debug)]
pub struct BuildInfo {
    pub git_hash: String,
    pub docs_url: String,
}

#[verifier::ext_equal]
pub ghost struct BuildInfoV {
    pub git_hash: Seq<char>,
    pub docs_url: Seq<char>,
}

impl View for BuildInfo {
    type V = BuildInfoV;

    open spec fn view(&self) -> BuildInfoV {
        BuildInfoV { git_hash: self.git_hash@, docs_url: self.docs_url@ }
    }
}

impl BuildInfo {
    pub fn new(git_hash: &str, docs_url: &str) -> (r: BuildInfo)
        ensures
            r@ == (BuildInfoV { git_hash: git_hash@, docs_url: docs_url@ }),
    {
        BuildInfo { git_hash: git_hash.to_owned(), docs_url: docs_url.to_owned() }
    }
}

impl Clone for BuildInfo {
    fn clone(&self) -> (r: Self)
        ensures
            r@ == self@,
    {
        BuildInfo { git_hash: self.git_hash.clone(), docs_url: self.docs_url.clone() }
    }
}

/// One flattened history entry: a single attachment message.
#[derive(Debug)]
pub struct ErrorFrame {
    pub message: String,
}

impl View for ErrorFrame {
    type V = Seq<char>;

    open spec fn view(&self) -> Seq<char> {
        self.message@
    }
}

/// The sequence of views of a sequence of history frames.
pub open spec fn frames(s: Seq<ErrorFrame>) -> Seq<Seq<char>> {
    s.map_values(|f: ErrorFrame| f@)
}

/// The view of an optional string field.
pub open spec fn opt_str(o: Option<String>) -> Option<Seq<char>> {
    match o {
        Some(s) => Some(s@),
        None => None,
    }
}

/// The machine-readable record an error is projected into for API responses
/// and structured logs.
#[derive(Debug)]
pub struct ApiError {
    pub git_hash: String,
    pub docs_url: String,
    pub correlation_id: String,
    pub title: String,
    pub code: Option<String>,
    pub help: Option<String>,
    pub history: Vec<ErrorFrame>,
}

#[verifier::ext_equal]
pub ghost struct ApiErrorV {
    pub git_hash: Seq<char>,
    pub docs_url: Seq<char>,
    pub correlation_id: Seq<char>,
    pub title: Seq<char>,
    pub code: Option<Seq<char>>,
    pub help: Option<Seq<char>>,
    pub history: Seq<Seq<char>>,
}

impl View for ApiError {
    type V = ApiErrorV;

    open spec fn view(&self) -> ApiErrorV {
        ApiErrorV {
            git_hash: self.git_hash@,
            docs_url: self.docs_url@,
            correlation_id: self.correlation_id@,
            title: self.title@,
            code: opt_str(self.code),
            help: opt_str(self.help),
            history: frames(self.history@),
        }
    }
}

/// The URL-safe correlation-id alphabet: ASCII letters, digits, `_` and `-`.
pub open spec fn url_safe_char(c: char) -> bool {
    ('a' <= c && c <= 'z') || ('A' <= c && c <= 'Z') || ('0' <= c && c <= '9') || c == '_' || c
        == '-'
}

/// Relies on `nanoid::format` with nanoid's URL-safe alphabet (ASCII
/// letters, digits, `_` and `-`): it returns a freshly generated random
/// identifier of exactly `size` characters, all drawn from that alphabet.
/// A zero size is excluded: the generation loop draws a byte budget of
/// `8 * size / 5` per round and would never finish filling the id.
/// Nothing more is assumed of the result: it depends on a secure random
/// source, so two calls on the same input may differ.
#[verifier::external_body]
pub(crate) fn random_url_safe_id(size: usize) -> (r: String)
    requires
        1 <= size,
    ensures
        r@.len() == size as nat,
        forall|i: int| 0 <= i < r@.len() ==> url_safe_char(#[trigger] r@[i]),
{
    nanoid::format(nanoid::rngs::default, &nanoid::alphabet::SAFE, size)
}

/// Generate a fresh correlation id: 8 characters, URL-safe alphabet, high
/// entropy, not derived from any error content.
pub fn new_correlation_id() -> (r: String)
    ensures
        r@.len() == 8,
        forall|i: int| 0 <= i < r@.len() ==> url_safe_char(#[trigger] r@[i]),
{
    random_url_safe_id(8)
}

} // verus!
