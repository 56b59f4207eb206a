//! Concrete error-context value types: the diagnostic metadata a failure may
//! carry (source snippet, labeled span, machine code, help text) and the
//! library's own error contexts.

use vstd::prelude::*;

use crate::text::{dec_str, u64_to_string};

verus! {

/// A byte-offset range into a source snippet.
#[derive(Clone, Copy, PartialEq, Eq, Structural, Debug)]
pub struct SourceSpan {
    pub offset: usize,
    pub length: usize,
}

impl SourceSpan {
    pub fn new(offset: usize, length: usize) -> (r: SourceSpan)
        ensures
            r.offset == offset && r.length == length,
    {
        SourceSpan { offset, length }
    }
}

/// A named source-text blob, used for snippet rendering.
#[derive(Debug)]
pub struct NamedSource {
    pub name: String,
    pub text: String,
}

#[verifier::ext_equal]
pub ghost struct NamedSourceV {
    pub name: Seq<char>,
    pub text: Seq<char>,
}

impl View for NamedSource {
    type V = NamedSourceV;

    open spec fn view(&self) -> NamedSourceV {
        NamedSourceV { name: self.name@, text: self.text@ }
    }
}

impl NamedSource {
    pub fn new(name: &str, text: &str) -> (r: NamedSource)
        ensures
            r@.name == name@ && r@.text == text@,
    {
        NamedSource { name: name.to_owned(), text: text.to_owned() }
    }
}

impl Clone for NamedSource {
    fn clone(&self) -> (r: Self)
        ensures
            r == *self,
    {
        NamedSource { name: self.name.clone(), text: self.text.clone() }
    }
}

/// A caption attached to a span of a source snippet.
#[derive(Debug)]
pub struct LabeledSpan {
    pub span: SourceSpan,
    pub label: String,
}

#[verifier::ext_equal]
pub ghost struct LabeledSpanV {
    pub span: SourceSpan,
    pub label: Seq<char>,
}

impl View for LabeledSpan {
    type V = LabeledSpanV;

    open spec fn view(&self) -> LabeledSpanV {
        LabeledSpanV { span: self.span, label: self.label@ }
    }
}

/// Advisory severity levels of the diagnostic capability set.
#[derive(Clone, Copy, PartialEq, Eq, Structural, Debug)]
pub enum Severity {
    Advice,
    Warning,
    Error,
}

/// The library's own domain failure cases.
#[derive(Debug)]
pub enum LibError {
    ConfigParseError { path: String, src: NamedSource, span: SourceSpan },
    NetworkError { timeout: u64 },
}

#[verifier::ext_equal]
pub ghost enum LibErrorV {
    Config { path: Seq<char>, src: NamedSourceV, span: SourceSpan },
    Network { timeout: u64 },
}

impl View for LibError {
    type V = LibErrorV;

    open spec fn view(&self) -> LibErrorV {
        match self {
            LibError::ConfigParseError { path, src, span } => LibErrorV::Config {
                path: path@,
                src: src@,
                span: *span,
            },
            LibError::NetworkError { timeout } => LibErrorV::Network { timeout: *timeout },
        }
    }
}

impl Clone for LibError {
    fn clone(&self) -> (r: Self)
        ensures
            r@ == self@,
    {
        match self {
            LibError::ConfigParseError { path, src, span } => LibError::ConfigParseError {
                path: path.clone(),
                src: src.clone(),
                span: *span,
            },
            LibError::NetworkError { timeout } => LibError::NetworkError { timeout: *timeout },
        }
    }
}

/// The display message of a `LibError`.
pub open spec fn lib_error_message(e: LibErrorV) -> Seq<char> {
    match e {
        LibErrorV::Config { path, .. } => "Failed to parse config at "@ + path,
        LibErrorV::Network { timeout } => "Network timeout after "@ + dec_str(timeout as nat)
            + "s"@,
    }
}

/// The machine code of a `LibError`, when it has one.
pub open spec fn lib_error_code(e: LibErrorV) -> Option<Seq<char>> {
    match e {
        LibErrorV::Config { .. } => Some("config::invalid_format"@),
        LibErrorV::Network { .. } => None,
    }
}

/// The help text of a `LibError`, when it has one.
pub open spec fn lib_error_help(e: LibErrorV) -> Option<Seq<char>> {
    match e {
        LibErrorV::Config { .. } => Some("Ensure the configuration file is valid JSON."@),
        LibErrorV::Network { .. } => None,
    }
}

impl LibError {
    /// The human-readable display text of this failure.
    pub fn message(&self) -> (r: String)
        ensures
            r@ == lib_error_message(self@),
    {
        match self {
            LibError::ConfigParseError { path, .. } => {
                String::from_str("Failed to parse config at ").concat(path.as_str())
            },
            LibError::NetworkError { timeout } => {
                String::from_str("Network timeout after ").concat(
                    u64_to_string(*timeout).as_str(),
                ).concat("s")
            },
        }
    }

    /// The stable machine code of this failure, when it has one.
    pub fn code(&self) -> (r: Option<String>)
        ensures
            (r matches Some(s) ==> lib_error_code(self@) == Some(s@)),
            (r is None <==> lib_error_code(self@) is None),
    {
        match self {
            LibError::ConfigParseError { .. } => Some(
                String::from_str("config::invalid_format"),
            ),
            LibError::NetworkError { .. } => None,
        }
    }

    /// The remediation help text of this failure, when it has one.
    pub fn help(&self) -> (r: Option<String>)
        ensures
            (r matches Some(s) ==> lib_error_help(self@) == Some(s@)),
            (r is None <==> lib_error_help(self@) is None),
    {
        match self {
            LibError::ConfigParseError { .. } => Some(
                String::from_str("Ensure the configuration file is valid JSON."),
            ),
            LibError::NetworkError { .. } => None,
        }
    }

    /// The source snippet of this failure, when it carries one.
    pub fn source_code(&self) -> (r: Option<&NamedSource>)
        ensures
            (r matches Some(s) ==> self@ matches LibErrorV::Config { src, .. } && src == s@),
            (r is None <==> self@ is Network),
    {
        match self {
            LibError::ConfigParseError { src, .. } => Some(src),
            LibError::NetworkError { .. } => None,
        }
    }

    /// The labeled spans of this failure, when it carries a snippet.
    pub fn labels(&self) -> (r: Option<Vec<LabeledSpan>>)
        ensures
            (r matches Some(l) ==> self@ matches LibErrorV::Config { span, .. } && l@.len() == 1
                && l@[0]@ == (LabeledSpanV { span, label: "syntax error here"@ })),
            (r is None <==> self@ is Network),
    {
        match self {
            LibError::ConfigParseError { span, .. } => {
                let mut l: Vec<LabeledSpan> = Vec::new();
                l.push(LabeledSpan { span: *span, label: String::from_str("syntax error here") });
                Some(l)
            },
            LibError::NetworkError { .. } => None,
        }
    }
}

} // verus!
