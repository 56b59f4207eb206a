//! The report wrapper: exposes a report tree's root context through the
//! diagnostic capability set, projects the tree into an `ApiError` record,
//! and walks the tree for typed introspection.

use vstd::prelude::*;

use crate::api::{
    frames, new_correlation_id, opt_str, url_safe_char, ApiError, ApiErrorV, BuildInfo,
    BuildInfoV, ErrorFrame,
};
use crate::context::{
    ctx_code, ctx_help, ctx_labels, ctx_message, ctx_severity, ctx_source, Context, ContextType,
    ContextV, IoErrorKind,
};
use crate::report::{
    flat_attachments, history_of, lemma_flat_attachments_push, node_views, pre_order_entries,
    NodeV, Report, ReportNode,
};
use crate::types::{LabeledSpan, LibError, NamedSource, Severity, SourceSpan};

verus! {

/// A thin adapter exposing a report tree's root context through the
/// diagnostic capability set; it never descends into children.
#[derive(Debug)]
pub struct LibReport<E: ContextType>(pub Report<E>);

/// Result alias: consuming code pairs its own context type with a wrapped
/// report tree as the error.
pub type LibResult<T, E> = Result<T, LibReport<E>>;

impl<E: ContextType> LibReport<E> {
    /// A copy of the root context in erased form.
    fn root_context(&self) -> (c: Context)
        ensures
            c@ == self.0@.context,
    {
        self.0.current_context().to_context()
    }

    /// The root context's machine code, when it has one.
    pub fn code(&self) -> (r: Option<String>)
        ensures
            opt_str(r) == ctx_code(self.0@.context),
    {
        self.root_context().code()
    }

    /// The root context's advisory severity.
    pub fn severity(&self) -> (r: Option<Severity>)
        ensures
            r == ctx_severity(self.0@.context),
    {
        self.root_context().severity()
    }

    /// The root context's help text, when it has one.
    pub fn help(&self) -> (r: Option<String>)
        ensures
            opt_str(r) == ctx_help(self.0@.context),
    {
        self.root_context().help()
    }

    /// The root context's source snippet, when it carries one.
    pub fn source_code(&self) -> (r: Option<NamedSource>)
        ensures
            (r matches Some(s) ==> ctx_source(self.0@.context) == Some(s@)),
            (r is None <==> ctx_source(self.0@.context) is None),
    {
        let c = self.root_context();
        match c.source_code() {
            Some(s) => Some(s.clone()),
            None => None,
        }
    }

    /// The root context's labeled spans, when it carries them.
    pub fn labels(&self) -> (r: Option<Vec<LabeledSpan>>)
        ensures
            (r matches Some(l) ==> ctx_labels(self.0@.context) matches Some(lv)
                && l@.map_values(|x: LabeledSpan| x@) == lv),
            (r is None <==> ctx_labels(self.0@.context) is None),
    {
        self.root_context().labels()
    }

    /// The documentation URL for the root context's code: the build's
    /// documentation base followed by `/#` and the code. Present exactly
    /// when a code is present.
    pub fn url(&self, info: &BuildInfo) -> (r: Option<String>)
        ensures
            (ctx_code(self.0@.context) matches Some(c) ==> r matches Some(u) && u@
                == info@.docs_url + "/#"@ + c),
            (ctx_code(self.0@.context) is None ==> r is None),
    {
        match self.root_context().code() {
            Some(c) => Some(info.docs_url.clone().concat("/#").concat(c.as_str())),
            None => None,
        }
    }

    /// Related diagnostics beside this one; the capability set carries
    /// none.
    pub fn related(&self) -> (r: Option<Vec<ReportNode>>)
        ensures
            r is None,
    {
        None
    }

    /// A nested diagnostic underlying this one; the wrapper exposes the
    /// tree through `iter_reports` instead.
    pub fn diagnostic_source(&self) -> (r: Option<ReportNode>)
        ensures
            r is None,
    {
        None
    }

    /// The root context's display text, verbatim: the wrapper is
    /// transparent for human-readable output.
    pub fn display_message(&self) -> (r: String)
        ensures
            r@ == ctx_message(self.0@.context),
    {
        self.root_context().message()
    }
}

/// What the projection promises: build provenance copied from the build
/// constants, title, code and help taken strictly from the root context, the
/// whole tree's flattened attachment history, and a fresh 8-character
/// URL-safe correlation id.
pub open spec fn api_error_matches(a: ApiErrorV, n: NodeV, b: BuildInfoV) -> bool {
    &&& a.git_hash == b.git_hash
    &&& a.docs_url == b.docs_url
    &&& a.title == ctx_message(n.context)
    &&& a.code == ctx_code(n.context)
    &&& a.help == ctx_help(n.context)
    &&& a.history == history_of(n)
    &&& a.correlation_id.len() == 8
    &&& (forall|i: int|
        0 <= i < a.correlation_id.len() ==> url_safe_char(#[trigger] a.correlation_id[i]))
}

/// Conversion of a wrapped report tree into the fixed `ApiError` record.
pub trait ReportExt {
    /// The model of the wrapped report tree.
    spec fn report_model(&self) -> NodeV;

    /// Project the wrapped tree into an `ApiError`: traverse the tree in
    /// pre-order, flatten every node's attachments into one ordered history,
    /// take title, code and help from the root context alone, and stamp the
    /// record with the build constants and a fresh correlation id. This is
    /// the pure projection; emitting the record to a structured log sink is
    /// a separate step around the library, and a sink failure never touches
    /// the returned record.
    fn to_api_error(&self, info: &BuildInfo) -> (r: ApiError)
        ensures
            api_error_matches(r@, self.report_model(), info@),
    ;
}

impl<E: ContextType> ReportExt for LibReport<E> {
    open spec fn report_model(&self) -> NodeV {
        self.0@
    }

    fn to_api_error(&self, info: &BuildInfo) -> (r: ApiError) {
        let nodes = self.0.iter_reports();
        let ghost nvs = node_views(nodes@);
        let mut history: Vec<ErrorFrame> = Vec::new();
        let mut i: usize = 0;
        while i < nodes.len()
            invariant
                0 <= i <= nodes.len(),
                nvs == node_views(nodes@),
                nvs == pre_order_entries(self.0@),
                frames(history@) == flat_attachments(nvs.take(i as int)),
            decreases nodes.len() - i,
        {
            let atts = nodes[i].attachments();
            let ghost entry = nvs[i as int];
            let mut j: usize = 0;
            while j < atts.len()
                invariant
                    0 <= j <= atts.len(),
                    entry.attachments == crate::text::strs(atts@),
                    frames(history@) == flat_attachments(nvs.take(i as int))
                        + entry.attachments.take(j as int),
                decreases atts.len() - j,
            {
                let ghost before = history@;
                history.push(ErrorFrame { message: atts[j].clone() });
                proof {
                    assert(frames(history@) =~= frames(before).push(atts@[j as int]@));
                    assert(entry.attachments.take(j + 1) =~= entry.attachments.take(
                        j as int,
                    ).push(entry.attachments[j as int]));
                    assert(frames(history@) =~= flat_attachments(nvs.take(i as int))
                        + entry.attachments.take(j + 1));
                }
                j = j + 1;
            }
            proof {
                assert(entry.attachments.take(atts@.len() as int) =~= entry.attachments);
                assert(nvs.take(i + 1) =~= nvs.take(i as int).push(entry));
                lemma_flat_attachments_push(nvs.take(i as int), entry);
            }
            i = i + 1;
        }
        proof {
            assert(nvs.take(nodes@.len() as int) =~= nvs);
        }
        let root = self.root_context();
        let title = root.message();
        let code = root.code();
        let help = root.help();
        ApiError {
            git_hash: info.git_hash.clone(),
            docs_url: info.docs_url.clone(),
            correlation_id: new_correlation_id(),
            title,
            code,
            help,
            history,
        }
    }
}

/// Whether a node's context is a platform "not found" I/O failure.
pub open spec fn is_not_found(c: ContextV) -> bool {
    c matches ContextV::Io(f) && f.kind == IoErrorKind::NotFound
}

/// How many entries of a pre-order enumeration carry a "not found" I/O
/// failure as their context.
pub open spec fn count_not_found(s: Seq<crate::report::ReportNodeV>) -> nat
    decreases s,
{
    if s.len() == 0 {
        0nat
    } else {
        (if is_not_found(s[0].context) {
            1nat
        } else {
            0nat
        }) + count_not_found(s.drop_first())
    }
}

proof fn lemma_count_not_found_push(s: Seq<crate::report::ReportNodeV>, x: crate::report::ReportNodeV)
    ensures
        count_not_found(s.push(x)) == count_not_found(s) + (if is_not_found(x.context) {
            1nat
        } else {
            0nat
        }),
    decreases s,
{
    if s.len() == 0 {
        assert(s.push(x).drop_first() =~= Seq::<crate::report::ReportNodeV>::empty());
        assert(s.push(x)[0] == x);
        assert(count_not_found(s.push(x)) == (if is_not_found(x.context) {
            1nat
        } else {
            0nat
        }) + count_not_found(s.push(x).drop_first()));
    } else {
        assert(s.push(x).drop_first() =~= s.drop_first().push(x));
        assert(s.push(x)[0] == s[0]);
        lemma_count_not_found_push(s.drop_first(), x);
    }
}

/// Walk every node of the tree in pre-order and react to the contexts whose
/// concrete type is a platform I/O failure: count the nodes whose failure is
/// a "not found" condition, so the caller can branch on it. Non-matching
/// nodes are skipped; this never fails, whatever the tree's shape.
pub fn handle_error_logic<E: ContextType>(report: &LibReport<E>) -> (n: usize)
    ensures
        n as nat == count_not_found(pre_order_entries(report.0@)),
{
    let nodes = report.0.iter_reports();
    let ghost nvs = node_views(nodes@);
    let mut count: usize = 0;
    let mut i: usize = 0;
    while i < nodes.len()
        invariant
            0 <= i <= nodes.len(),
            count <= i,
            nvs == node_views(nodes@),
            nvs == pre_order_entries(report.0@),
            count as nat == count_not_found(nvs.take(i as int)),
        decreases nodes.len() - i,
    {
        let hit = match nodes[i].current_context() {
            Context::Io(f) => f.kind == IoErrorKind::NotFound,
            _ => false,
        };
        proof {
            assert(nvs.take(i + 1) =~= nvs.take(i as int).push(nvs[i as int]));
            lemma_count_not_found_push(nvs.take(i as int), nvs[i as int]);
        }
        if hit {
            count = count + 1;
        }
        i = i + 1;
    }
    proof {
        assert(nvs.take(nodes@.len() as int) =~= nvs);
    }
    count
}

/// Build the demonstration failure: a config-parse error at `config.json`
/// with its source snippet and span, annotated with one attachment.
pub fn perform_task() -> (r: LibResult<(), LibError>)
    ensures
        r matches Err(rep) && rep.0@ == (NodeV {
            context: ContextV::Lib(
                crate::types::LibErrorV::Config {
                    path: "config.json"@,
                    src: crate::types::NamedSourceV {
                        name: "config.json"@,
                        text: "{ \"key\": !!invalid }"@,
                    },
                    span: SourceSpan { offset: 10, length: 9 },
                },
            ),
            attachments: seq!["The application cannot proceed without a valid config."@],
            children: Seq::<NodeV>::empty(),
        }),
{
    let err = LibError::ConfigParseError {
        path: String::from_str("config.json"),
        src: NamedSource::new("config.json", "{ \"key\": !!invalid }"),
        span: SourceSpan::new(10, 9),
    };
    let rep = Report::new(err).attach("The application cannot proceed without a valid config.");
    proof {
        assert(Seq::<Seq<char>>::empty().push(
            "The application cannot proceed without a valid config."@,
        ) =~= seq!["The application cannot proceed without a valid config."@]);
    }
    Err(LibReport(rep))
}

} // verus!
