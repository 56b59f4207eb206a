//! The type-erased error context: a tagged union over the context types this
//! library knows, plus an opaque form carrying only a runtime type tag. Each
//! concrete context type embeds into the union and can be recovered from it
//! by a safe, failure-returning downcast.

use vstd::prelude::*;

use crate::experiments::{ExperimentError, ParseExperimentError};
use crate::parsing::{ParseError, ParseErrorV};
use crate::types::{
    lib_error_code, lib_error_help, lib_error_message, LabeledSpan, LabeledSpanV, LibError,
    LibErrorV, NamedSource, NamedSourceV, Severity, SourceSpan,
};

verus! {

/// Categories of platform I/O failure that the library can branch on.
#[derive(Clone, Copy, PartialEq, Eq, Structural, Debug)]
pub enum IoErrorKind {
    NotFound,
    PermissionDenied,
    ConnectionRefused,
    TimedOut,
    Other,
}

/// A platform I/O failure lifted into the tree, retaining its original
/// message and category for downcast-based introspection.
#[derive(Debug)]
pub struct IoFailure {
    pub kind: IoErrorKind,
    pub message: String,
}

#[verifier::ext_equal]
pub ghost struct IoFailureV {
    pub kind: IoErrorKind,
    pub message: Seq<char>,
}

impl View for IoFailure {
    type V = IoFailureV;

    open spec fn view(&self) -> IoFailureV {
        IoFailureV { kind: self.kind, message: self.message@ }
    }
}

impl IoFailure {
    pub fn new(kind: IoErrorKind, message: &str) -> (r: IoFailure)
        ensures
            r@ == (IoFailureV { kind, message: message@ }),
    {
        IoFailure { kind, message: message.to_owned() }
    }
}

impl Clone for IoFailure {
    fn clone(&self) -> (r: Self)
        ensures
            r@ == self@,
    {
        IoFailure { kind: self.kind, message: self.message.clone() }
    }
}

/// A fully type-erased context: only a display message and a runtime type
/// tag remain, so downcasts to any known type fail safely.
#[derive(Debug)]
pub struct OpaqueContext {
    pub type_tag: String,
    pub message: String,
}

#[verifier::ext_equal]
pub ghost struct OpaqueContextV {
    pub type_tag: Seq<char>,
    pub message: Seq<char>,
}

impl View for OpaqueContext {
    type V = OpaqueContextV;

    open spec fn view(&self) -> OpaqueContextV {
        OpaqueContextV { type_tag: self.type_tag@, message: self.message@ }
    }
}

impl OpaqueContext {
    pub fn new(type_tag: &str, message: &str) -> (r: OpaqueContext)
        ensures
            r@ == (OpaqueContextV { type_tag: type_tag@, message: message@ }),
    {
        OpaqueContext { type_tag: type_tag.to_owned(), message: message.to_owned() }
    }
}

impl Clone for OpaqueContext {
    fn clone(&self) -> (r: Self)
        ensures
            r@ == self@,
    {
        OpaqueContext { type_tag: self.type_tag.clone(), message: self.message.clone() }
    }
}

/// The erased context stored at every interior node of a report tree.
#[derive(Debug)]
pub enum Context {
    Lib(LibError),
    Io(IoFailure),
    Experiment(ExperimentError),
    ParseExperiment(ParseExperimentError),
    Parse(ParseError),
    Opaque(OpaqueContext),
}

#[verifier::ext_equal]
pub ghost enum ContextV {
    Lib(LibErrorV),
    Io(IoFailureV),
    Experiment(ExperimentError),
    ParseExperiment(ParseExperimentError),
    Parse(ParseErrorV),
    Opaque(OpaqueContextV),
}

impl View for Context {
    type V = ContextV;

    open spec fn view(&self) -> ContextV {
        match self {
            Context::Lib(e) => ContextV::Lib(e@),
            Context::Io(e) => ContextV::Io(e@),
            Context::Experiment(e) => ContextV::Experiment(*e),
            Context::ParseExperiment(e) => ContextV::ParseExperiment(*e),
            Context::Parse(e) => ContextV::Parse(e@),
            Context::Opaque(e) => ContextV::Opaque(e@),
        }
    }
}

impl Clone for Context {
    fn clone(&self) -> (r: Self)
        ensures
            r@ == self@,
    {
        match self {
            Context::Lib(e) => Context::Lib(e.clone()),
            Context::Io(e) => Context::Io(e.clone()),
            Context::Experiment(e) => Context::Experiment(*e),
            Context::ParseExperiment(e) => Context::ParseExperiment(*e),
            Context::Parse(e) => Context::Parse(e.clone()),
            Context::Opaque(e) => Context::Opaque(e.clone()),
        }
    }
}

/// The display message of an erased context.
pub open spec fn ctx_message(c: ContextV) -> Seq<char> {
    match c {
        ContextV::Lib(e) => lib_error_message(e),
        ContextV::Io(e) => e.message,
        ContextV::Experiment(e) => e.message_spec(),
        ContextV::ParseExperiment(e) => e.message_spec(),
        ContextV::Parse(e) => crate::parsing::parse_error_message(e),
        ContextV::Opaque(e) => e.message,
    }
}

/// The machine code of an erased context, when its concrete type has one.
pub open spec fn ctx_code(c: ContextV) -> Option<Seq<char>> {
    match c {
        ContextV::Lib(e) => lib_error_code(e),
        _ => None,
    }
}

/// The help text of an erased context, when its concrete type has one.
pub open spec fn ctx_help(c: ContextV) -> Option<Seq<char>> {
    match c {
        ContextV::Lib(e) => lib_error_help(e),
        _ => None,
    }
}

/// The advisory severity of an erased context; none of the library's
/// contexts assigns one.
pub open spec fn ctx_severity(c: ContextV) -> Option<Severity> {
    None
}

/// The source snippet of an erased context, when its concrete type has one.
pub open spec fn ctx_source(c: ContextV) -> Option<NamedSourceV> {
    match c {
        ContextV::Lib(LibErrorV::Config { src, .. }) => Some(src),
        _ => None,
    }
}

/// The labeled spans of an erased context, when its concrete type has them.
pub open spec fn ctx_labels(c: ContextV) -> Option<Seq<LabeledSpanV>> {
    match c {
        ContextV::Lib(LibErrorV::Config { span, .. }) => Some(
            seq![LabeledSpanV { span, label: "syntax error here"@ }],
        ),
        _ => None,
    }
}

impl Context {
    /// The human-readable display text of this context.
    pub fn message(&self) -> (r: String)
        ensures
            r@ == ctx_message(self@),
    {
        match self {
            Context::Lib(e) => e.message(),
            Context::Io(e) => e.message.clone(),
            Context::Experiment(e) => e.message(),
            Context::ParseExperiment(e) => e.message(),
            Context::Parse(e) => e.message(),
            Context::Opaque(e) => e.message.clone(),
        }
    }

    /// The stable machine code of this context, when it has one.
    pub fn code(&self) -> (r: Option<String>)
        ensures
            (r matches Some(s) ==> ctx_code(self@) == Some(s@)),
            (r is None <==> ctx_code(self@) is None),
    {
        match self {
            Context::Lib(e) => e.code(),
            _ => None,
        }
    }

    /// The remediation help text of this context, when it has one.
    pub fn help(&self) -> (r: Option<String>)
        ensures
            (r matches Some(s) ==> ctx_help(self@) == Some(s@)),
            (r is None <==> ctx_help(self@) is None),
    {
        match self {
            Context::Lib(e) => e.help(),
            _ => None,
        }
    }

    /// The advisory severity of this context.
    pub fn severity(&self) -> (r: Option<Severity>)
        ensures
            r == ctx_severity(self@),
    {
        None
    }

    /// The source snippet of this context, when it carries one.
    pub fn source_code(&self) -> (r: Option<&NamedSource>)
        ensures
            (r matches Some(s) ==> ctx_source(self@) == Some(s@)),
            (r is None <==> ctx_source(self@) is None),
    {
        match self {
            Context::Lib(e) => e.source_code(),
            _ => None,
        }
    }

    /// The labeled spans of this context, when it carries them.
    pub fn labels(&self) -> (r: Option<Vec<LabeledSpan>>)
        ensures
            (r matches Some(l) ==> ctx_labels(self@) matches Some(lv) && l@.map_values(
                |x: LabeledSpan| x@,
            ) == lv),
            (r is None <==> ctx_labels(self@) is None),
    {
        match self {
            Context::Lib(e) => {
                let r = e.labels();
                proof {
                    if r is Some {
                        assert(r->0@.map_values(|x: LabeledSpan| x@) =~= ctx_labels(
                            self@,
                        )->0);
                    }
                }
                r
            },
            _ => None,
        }
    }
}

/// A context type that can be erased into a `Context` and recovered from one
/// by a safe, failure-returning downcast.
pub trait ContextType: Sized {
    /// What this value looks like once erased into the tagged union.
    spec fn embedded(self) -> ContextV;

    /// Erase this value into the tagged union.
    fn erase(self) -> (c: Context)
        ensures
            c@ == self.embedded(),
    ;

    /// Erase a copy of this value into the tagged union.
    fn to_context(&self) -> (c: Context)
        ensures
            c@ == self.embedded(),
    ;

    /// A copy of this value, typed, preserving its erased form.
    fn duplicate(&self) -> (c: Self)
        ensures
            c.embedded() == self.embedded(),
    ;

    /// Attempt to recover a value of this type from an erased context.
    fn extract(c: &Context) -> (r: Option<&Self>)
        ensures
            (r matches Some(v) ==> c@ == v.embedded()),
            (r is None ==> forall|m: Self| c@ != m.embedded()),
    ;

    /// Attempt to recover a value of this type from an erased context,
    /// returning the context unchanged on a type mismatch.
    fn extract_owned(c: Context) -> (r: Result<Self, Context>)
        ensures
            (r matches Ok(v) ==> c@ == v.embedded()),
            (r matches Err(c2) ==> c2@ == c@ && forall|m: Self| c@ != m.embedded()),
    ;
}

impl ContextType for LibError {
    open spec fn embedded(self) -> ContextV {
        ContextV::Lib(self@)
    }

    fn erase(self) -> (c: Context) {
        Context::Lib(self)
    }

    fn to_context(&self) -> (c: Context) {
        Context::Lib(self.clone())
    }

    fn duplicate(&self) -> (c: Self) {
        self.clone()
    }

    fn extract(c: &Context) -> (r: Option<&Self>) {
        match c {
            Context::Lib(e) => Some(e),
            _ => None,
        }
    }

    fn extract_owned(c: Context) -> (r: Result<Self, Context>) {
        match c {
            Context::Lib(e) => Ok(e),
            _ => Err(c),
        }
    }
}

impl ContextType for IoFailure {
    open spec fn embedded(self) -> ContextV {
        ContextV::Io(self@)
    }

    fn erase(self) -> (c: Context) {
        Context::Io(self)
    }

    fn to_context(&self) -> (c: Context) {
        Context::Io(self.clone())
    }

    fn duplicate(&self) -> (c: Self) {
        self.clone()
    }

    fn extract(c: &Context) -> (r: Option<&Self>) {
        match c {
            Context::Io(e) => Some(e),
            _ => None,
        }
    }

    fn extract_owned(c: Context) -> (r: Result<Self, Context>) {
        match c {
            Context::Io(e) => Ok(e),
            _ => Err(c),
        }
    }
}

impl ContextType for ExperimentError {
    open spec fn embedded(self) -> ContextV {
        ContextV::Experiment(self)
    }

    fn erase(self) -> (c: Context) {
        Context::Experiment(self)
    }

    fn to_context(&self) -> (c: Context) {
        Context::Experiment(*self)
    }

    fn duplicate(&self) -> (c: Self) {
        *self
    }

    fn extract(c: &Context) -> (r: Option<&Self>) {
        match c {
            Context::Experiment(e) => Some(e),
            _ => None,
        }
    }

    fn extract_owned(c: Context) -> (r: Result<Self, Context>) {
        match c {
            Context::Experiment(e) => Ok(e),
            _ => Err(c),
        }
    }
}

impl ContextType for ParseExperimentError {
    open spec fn embedded(self) -> ContextV {
        ContextV::ParseExperiment(self)
    }

    fn erase(self) -> (c: Context) {
        Context::ParseExperiment(self)
    }

    fn to_context(&self) -> (c: Context) {
        Context::ParseExperiment(*self)
    }

    fn duplicate(&self) -> (c: Self) {
        *self
    }

    fn extract(c: &Context) -> (r: Option<&Self>) {
        match c {
            Context::ParseExperiment(e) => Some(e),
            _ => None,
        }
    }

    fn extract_owned(c: Context) -> (r: Result<Self, Context>) {
        match c {
            Context::ParseExperiment(e) => Ok(e),
            _ => Err(c),
        }
    }
}

impl ContextType for ParseError {
    open spec fn embedded(self) -> ContextV {
        ContextV::Parse(self@)
    }

    fn erase(self) -> (c: Context) {
        Context::Parse(self)
    }

    fn to_context(&self) -> (c: Context) {
        Context::Parse(self.clone())
    }

    fn duplicate(&self) -> (c: Self) {
        self.clone()
    }

    fn extract(c: &Context) -> (r: Option<&Self>) {
        match c {
            Context::Parse(e) => Some(e),
            _ => None,
        }
    }

    fn extract_owned(c: Context) -> (r: Result<Self, Context>) {
        match c {
            Context::Parse(e) => Ok(e),
            _ => Err(c),
        }
    }
}

impl ContextType for OpaqueContext {
    open spec fn embedded(self) -> ContextV {
        ContextV::Opaque(self@)
    }

    fn erase(self) -> (c: Context) {
        Context::Opaque(self)
    }

    fn to_context(&self) -> (c: Context) {
        Context::Opaque(self.clone())
    }

    fn duplicate(&self) -> (c: Self) {
        self.clone()
    }

    fn extract(c: &Context) -> (r: Option<&Self>) {
        match c {
            Context::Opaque(e) => Some(e),
            _ => None,
        }
    }

    fn extract_owned(c: Context) -> (r: Result<Self, Context>) {
        match c {
            Context::Opaque(e) => Ok(e),
            _ => Err(c),
        }
    }
}

impl ContextType for Context {
    open spec fn embedded(self) -> ContextV {
        self@
    }

    fn erase(self) -> (c: Context) {
        self
    }

    fn to_context(&self) -> (c: Context) {
        self.clone()
    }

    fn duplicate(&self) -> (c: Self) {
        self.clone()
    }

    fn extract(c: &Context) -> (r: Option<&Self>) {
        Some(c)
    }

    fn extract_owned(c: Context) -> (r: Result<Self, Context>) {
        Ok(c)
    }
}

} // verus!
