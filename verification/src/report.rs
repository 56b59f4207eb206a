//! The report tree: an immutable tree of error contexts, free-text
//! attachments and child subtrees. Enrichment never mutates a node in place;
//! it always yields a new node, so prior handles stay observably unchanged.

use std::sync::Arc;

use vstd::prelude::*;

use crate::context::{Context, ContextType, ContextV};
use crate::text::{clone_strings, strs};

verus! {

/// One node of a report tree with its context erased; children are stored in
/// this form so that one tree can mix context types freely.
#[derive(Debug)]
pub(crate) struct DynNode {
    pub context: Context,
    pub attachments: Vec<String>,
    pub children: Vec<DynNode>,
}

/// The mathematical model of one report-tree node.
#[verifier::ext_equal]
pub ghost struct NodeV {
    pub context: ContextV,
    pub attachments: Seq<Seq<char>>,
    pub children: Seq<NodeV>,
}

pub(crate) open spec fn dyn_node_view(n: DynNode) -> NodeV
    decreases n,
{
    NodeV {
        context: n.context@,
        attachments: strs(n.attachments@),
        children: dyn_nodes_view(n.children@),
    }
}

pub(crate) open spec fn dyn_nodes_view(s: Seq<DynNode>) -> Seq<NodeV>
    decreases s,
{
    if s.len() == 0 {
        Seq::empty()
    } else {
        seq![dyn_node_view(s[0])] + dyn_nodes_view(s.drop_first())
    }
}

proof fn lemma_dyn_nodes_view_index(s: Seq<DynNode>, i: int)
    requires
        0 <= i < s.len(),
    ensures
        dyn_nodes_view(s).len() == s.len(),
        dyn_nodes_view(s)[i] == dyn_node_view(s[i]),
    decreases s,
{
    lemma_dyn_nodes_view_len(s);
    if i > 0 {
        lemma_dyn_nodes_view_index(s.drop_first(), i - 1);
    }
}

proof fn lemma_dyn_nodes_view_len(s: Seq<DynNode>)
    ensures
        dyn_nodes_view(s).len() == s.len(),
    decreases s,
{
    if s.len() > 0 {
        lemma_dyn_nodes_view_len(s.drop_first());
    }
}

proof fn lemma_dyn_nodes_view_push(s: Seq<DynNode>, x: DynNode)
    ensures
        dyn_nodes_view(s.push(x)) == dyn_nodes_view(s).push(dyn_node_view(x)),
    decreases s,
{
    if s.len() == 0 {
        assert(s.push(x).drop_first() =~= Seq::<DynNode>::empty());
        assert(s.push(x)[0] == x);
        assert(dyn_nodes_view(s.push(x)) == seq![dyn_node_view(x)] + dyn_nodes_view(
            s.push(x).drop_first(),
        ));
        assert(dyn_nodes_view(s.push(x)) =~= dyn_nodes_view(s).push(dyn_node_view(x)));
    } else {
        assert(s.push(x).drop_first() =~= s.drop_first().push(x));
        assert(s.push(x)[0] == s[0]);
        lemma_dyn_nodes_view_push(s.drop_first(), x);
        assert(dyn_nodes_view(s.push(x)) =~= dyn_nodes_view(s).push(dyn_node_view(x)));
    }
}

/// What one yielded node exposes: its own context and attachment list.
#[verifier::ext_equal]
pub ghost struct ReportNodeV {
    pub context: ContextV,
    pub attachments: Seq<Seq<char>>,
}

/// One node yielded by `iter_reports`: the node's context together with the
/// node's own attachment list.
#[derive(Debug)]
pub struct ReportNode {
    context: Context,
    attachments: Vec<String>,
}

impl View for ReportNode {
    type V = ReportNodeV;

    closed spec fn view(&self) -> ReportNodeV {
        ReportNodeV { context: self.context@, attachments: strs(self.attachments@) }
    }
}

impl ReportNode {
    /// Read access to this node's context.
    pub fn current_context(&self) -> (r: &Context)
        ensures
            r@ == self@.context,
    {
        &self.context
    }

    /// Read access to this node's own attachment list.
    pub fn attachments(&self) -> (r: &Vec<String>)
        ensures
            strs(r@) == self@.attachments,
    {
        &self.attachments
    }

    /// Attempt to recover a concrete context type from this node's possibly
    /// erased context; returns nothing on a type mismatch and never panics.
    pub fn downcast_current_context<T: ContextType>(&self) -> (r: Option<&T>)
        ensures
            (r matches Some(v) ==> self@.context == v.embedded()),
            (r is None ==> forall|m: T| self@.context != m.embedded()),
    {
        T::extract(&self.context)
    }
}

/// The sequence of views of a sequence of yielded nodes.
pub open spec fn node_views(s: Seq<ReportNode>) -> Seq<ReportNodeV> {
    s.map_values(|x: ReportNode| x@)
}

/// What a node of the tree contributes to the pre-order enumeration.
pub open spec fn entry_of(n: NodeV) -> ReportNodeV {
    ReportNodeV { context: n.context, attachments: n.attachments }
}

/// The pre-order, depth-first enumeration of every node of a tree: the root
/// first, then each child's full subtree in child-list order.
pub open spec fn pre_order_entries(n: NodeV) -> Seq<ReportNodeV>
    decreases n,
{
    seq![entry_of(n)] + entries_of_seq(n.children)
}

pub open spec fn entries_of_seq(s: Seq<NodeV>) -> Seq<ReportNodeV>
    decreases s,
{
    if s.len() == 0 {
        Seq::empty()
    } else {
        pre_order_entries(s[0]) + entries_of_seq(s.drop_first())
    }
}

/// The number of nodes of a tree.
pub open spec fn node_count(n: NodeV) -> nat
    decreases n,
{
    1 + count_of_seq(n.children)
}

pub open spec fn count_of_seq(s: Seq<NodeV>) -> nat
    decreases s,
{
    if s.len() == 0 {
        0nat
    } else {
        node_count(s[0]) + count_of_seq(s.drop_first())
    }
}

/// Law: the pre-order enumeration visits every node of the tree exactly
/// once — its length is the tree's node count — and the first node yielded
/// is the root itself.
pub proof fn lemma_pre_order_covers_tree(n: NodeV)
    ensures
        pre_order_entries(n).len() == node_count(n),
        pre_order_entries(n)[0] == entry_of(n),
    decreases n,
{
    lemma_entries_of_seq_len(n.children);
}

proof fn lemma_entries_of_seq_len(s: Seq<NodeV>)
    ensures
        entries_of_seq(s).len() == count_of_seq(s),
    decreases s,
{
    if s.len() > 0 {
        lemma_pre_order_covers_tree(s[0]);
        lemma_entries_of_seq_len(s.drop_first());
    }
}

proof fn lemma_entries_of_seq_push(s: Seq<NodeV>, x: NodeV)
    ensures
        entries_of_seq(s.push(x)) == entries_of_seq(s) + pre_order_entries(x),
    decreases s,
{
    if s.len() == 0 {
        assert(s.push(x).drop_first() =~= Seq::<NodeV>::empty());
        assert(s.push(x)[0] == x);
        assert(entries_of_seq(s.push(x)) == pre_order_entries(x) + entries_of_seq(
            s.push(x).drop_first(),
        ));
        assert(entries_of_seq(s.push(x)) =~= entries_of_seq(s) + pre_order_entries(x));
    } else {
        assert(s.push(x).drop_first() =~= s.drop_first().push(x));
        assert(s.push(x)[0] == s[0]);
        lemma_entries_of_seq_push(s.drop_first(), x);
        assert(entries_of_seq(s.push(x)) =~= entries_of_seq(s) + pre_order_entries(x));
    }
}

/// The attachment lists of a pre-order enumeration, flattened into one
/// ordered sequence; which node each message came from is discarded.
pub open spec fn flat_attachments(s: Seq<ReportNodeV>) -> Seq<Seq<char>>
    decreases s,
{
    if s.len() == 0 {
        Seq::empty()
    } else {
        s[0].attachments + flat_attachments(s.drop_first())
    }
}

/// The flattened attachment history of a whole tree: the root node's
/// attachments first, then each child subtree's attachments in child order.
pub open spec fn history_of(n: NodeV) -> Seq<Seq<char>> {
    flat_attachments(pre_order_entries(n))
}

pub(crate) proof fn lemma_flat_attachments_push(s: Seq<ReportNodeV>, x: ReportNodeV)
    ensures
        flat_attachments(s.push(x)) == flat_attachments(s) + x.attachments,
    decreases s,
{
    if s.len() == 0 {
        assert(s.push(x).drop_first() =~= Seq::<ReportNodeV>::empty());
        assert(s.push(x)[0] == x);
        assert(flat_attachments(s.push(x)) == x.attachments + flat_attachments(
            s.push(x).drop_first(),
        ));
        assert(flat_attachments(s.push(x)) =~= flat_attachments(s) + x.attachments);
    } else {
        assert(s.push(x).drop_first() =~= s.drop_first().push(x));
        assert(s.push(x)[0] == s[0]);
        lemma_flat_attachments_push(s.drop_first(), x);
        assert(flat_attachments(s.push(x)) =~= flat_attachments(s) + x.attachments);
    }
}

/// Law: a new attachment only appends — the original attachment list stays
/// a prefix of the enriched node's list, the new message is its last
/// element, and the node's context and children are untouched.
pub proof fn lemma_attach_appends_only(n: NodeV, m: Seq<char>)
    ensures
        ({
            let n2 = NodeV { attachments: n.attachments.push(m), ..n };
            n2.attachments.take(n.attachments.len() as int) == n.attachments
                && n2.attachments.last() == m && n2.attachments.len() == n.attachments.len() + 1
                && n2.context == n.context && n2.children == n.children
        }),
{
    let n2 = NodeV { attachments: n.attachments.push(m), ..n };
    assert(n2.attachments.take(n.attachments.len() as int) =~= n.attachments);
}

/// An immutable report tree whose root context has the concrete type `E`;
/// child subtrees may carry contexts of any other type in erased form.
#[derive(Debug)]
pub struct Report<E> {
    context: E,
    attachments: Vec<String>,
    children: Vec<DynNode>,
}

impl<E: ContextType> View for Report<E> {
    type V = NodeV;

    closed spec fn view(&self) -> NodeV {
        NodeV {
            context: self.context.embedded(),
            attachments: strs(self.attachments@),
            children: dyn_nodes_view(self.children@),
        }
    }
}

impl<E: ContextType> Report<E> {
    /// Build a single-node tree: no attachments, no children.
    pub fn new(context: E) -> (r: Report<E>)
        ensures
            r@ == (NodeV {
                context: context.embedded(),
                attachments: Seq::<Seq<char>>::empty(),
                children: Seq::<NodeV>::empty(),
            }),
    {
        let r = Report { context, attachments: Vec::new(), children: Vec::new() };
        proof {
            assert(strs(Seq::<String>::empty()) =~= Seq::<Seq<char>>::empty());
        }
        r
    }

    /// A new tree identical to this one except that `message` is appended to
    /// the root's attachment list; prior attachments and children are kept
    /// unchanged and unmoved.
    pub fn attach(self, message: &str) -> (r: Report<E>)
        ensures
            r@ == (NodeV { attachments: self@.attachments.push(message@), ..self@ }),
    {
        let ghost before = self@;
        let mut s = self;
        s.attachments.push(message.to_owned());
        proof {
            assert(strs(s.attachments@) =~= before.attachments.push(message@));
        }
        s
    }

    /// A new tree identical to this one except that `child` is appended to
    /// the root's child list. The child's context type is independent of the
    /// parent's.
    pub fn with_child<C: ContextType>(self, child: Report<C>) -> (r: Report<E>)
        ensures
            r@ == (NodeV { children: self@.children.push(child@), ..self@ }),
    {
        let ghost before = self@;
        let ghost childv = child@;
        let node = child.into_node();
        let mut s = self;
        proof {
            lemma_dyn_nodes_view_push(s.children@, node);
        }
        s.children.push(node);
        s
    }

    /// Read access to the root node's context; never descends into children.
    pub fn current_context(&self) -> (r: &E)
        ensures
            r.embedded() == self@.context,
    {
        &self.context
    }

    /// Read access to the root node's own attachment list.
    pub fn attachments(&self) -> (r: &Vec<String>)
        ensures
            strs(r@) == self@.attachments,
    {
        &self.attachments
    }

    /// Erase the root context's concrete type, so the tree can be stored
    /// alongside heterogeneously typed trees.
    pub fn into_dynamic(self) -> (r: Report<Context>)
        ensures
            r@ == self@,
    {
        let Report { context, attachments, children } = self;
        Report { context: context.erase(), attachments, children }
    }

    /// Attempt to recover the concrete root context type of a tree; on a
    /// type mismatch the original tree is returned unchanged.
    pub fn downcast_report<T: ContextType>(self) -> (r: Result<Report<T>, Report<Context>>)
        ensures
            (r matches Ok(t) ==> t@ == self@),
            (r matches Err(d) ==> d@ == self@ && forall|m: T| self@.context != m.embedded()),
    {
        let Report { context, attachments, children } = self;
        match T::extract_owned(context.erase()) {
            Ok(t) => Ok(Report { context: t, attachments, children }),
            Err(c) => Err(Report { context: c, attachments, children }),
        }
    }

    /// Enumerate every node of the tree, root first, then each child's full
    /// subtree in child-list order (pre-order depth-first). The result is a
    /// finite, restartable enumeration.
    pub fn iter_reports(&self) -> (r: Vec<ReportNode>)
        ensures
            node_views(r@) == pre_order_entries(self@),
    {
        let mut out: Vec<ReportNode> = Vec::new();
        out.push(
            ReportNode {
                context: self.context.to_context(),
                attachments: clone_strings(&self.attachments),
            },
        );
        proof {
            assert(node_views(out@) =~= seq![entry_of(self@)]);
        }
        let mut i: usize = 0;
        while i < self.children.len()
            invariant
                0 <= i <= self.children.len(),
                node_views(out@) == seq![entry_of(self@)] + entries_of_seq(
                    self@.children.take(i as int),
                ),
            decreases self.children.len() - i,
        {
            proof {
                lemma_dyn_nodes_view_len(self.children@);
                lemma_dyn_nodes_view_index(self.children@, i as int);
                assert(self@.children.take(i + 1) =~= self@.children.take(i as int).push(
                    self@.children[i as int],
                ));
                lemma_entries_of_seq_push(
                    self@.children.take(i as int),
                    self@.children[i as int],
                );
            }
            collect_nodes(&self.children[i], &mut out);
            i = i + 1;
        }
        proof {
            lemma_dyn_nodes_view_len(self.children@);
            assert(self@.children.take(self.children@.len() as int) =~= self@.children);
        }
        out
    }

    fn into_node(self) -> (r: DynNode)
        ensures
            dyn_node_view(r) == self@,
    {
        let Report { context, attachments, children } = self;
        DynNode { context: context.erase(), attachments, children }
    }
}

fn collect_nodes(n: &DynNode, out: &mut Vec<ReportNode>)
    ensures
        node_views(final(out)@) == node_views(old(out)@) + pre_order_entries(dyn_node_view(*n)),
    decreases *n,
{
    out.push(
        ReportNode { context: n.context.clone(), attachments: clone_strings(&n.attachments) },
    );
    proof {
        assert(node_views(out@) =~= node_views(old(out)@) + seq![
            entry_of(dyn_node_view(*n)),
        ]);
    }
    let ghost nv = dyn_node_view(*n);
    let mut i: usize = 0;
    while i < n.children.len()
        invariant
            0 <= i <= n.children.len(),
            nv == dyn_node_view(*n),
            node_views(out@) == node_views(old(out)@) + seq![entry_of(nv)] + entries_of_seq(
                nv.children.take(i as int),
            ),
        decreases n.children.len() - i,
    {
        proof {
            lemma_dyn_nodes_view_len(n.children@);
            lemma_dyn_nodes_view_index(n.children@, i as int);
            assert(nv.children.take(i + 1) =~= nv.children.take(i as int).push(
                nv.children[i as int],
            ));
            lemma_entries_of_seq_push(nv.children.take(i as int), nv.children[i as int]);
            assert(decreases_to!(*n => n.children@[i as int]));
        }
        collect_nodes(&n.children[i], out);
        i = i + 1;
    }
    proof {
        lemma_dyn_nodes_view_len(n.children@);
        assert(nv.children.take(n.children@.len() as int) =~= nv.children);
        assert(node_views(out@) =~= node_views(old(out)@) + pre_order_entries(nv));
    }
}

fn clone_dyn_node(n: &DynNode) -> (r: DynNode)
    ensures
        dyn_node_view(r) == dyn_node_view(*n),
    decreases *n,
{
    let context = n.context.clone();
    let attachments = clone_strings(&n.attachments);
    let mut children: Vec<DynNode> = Vec::new();
    let mut i: usize = 0;
    while i < n.children.len()
        invariant
            0 <= i <= n.children.len(),
            dyn_nodes_view(children@) == dyn_nodes_view(n.children@).take(i as int),
        decreases n.children.len() - i,
    {
        proof {
            lemma_dyn_nodes_view_len(n.children@);
            lemma_dyn_nodes_view_index(n.children@, i as int);
            assert(decreases_to!(*n => n.children@[i as int]));
        }
        let child = clone_dyn_node(&n.children[i]);
        proof {
            lemma_dyn_nodes_view_push(children@, child);
            assert(dyn_nodes_view(n.children@).take(i + 1) =~= dyn_nodes_view(
                n.children@,
            ).take(i as int).push(dyn_nodes_view(n.children@)[i as int]));
        }
        children.push(child);
        i = i + 1;
    }
    proof {
        lemma_dyn_nodes_view_len(n.children@);
        assert(dyn_nodes_view(n.children@).take(n.children@.len() as int) =~= dyn_nodes_view(
            n.children@,
        ));
    }
    let r = DynNode { context, attachments, children };
    proof {
        assert(dyn_node_view(r) =~= dyn_node_view(*n));
    }
    r
}

impl<E: ContextType> Clone for Report<E> {
    /// A deep copy: the clone models the same tree, so a caller can retain
    /// one handle unchanged while enriching the other.
    fn clone(&self) -> (r: Self)
        ensures
            r@ == self@,
    {
        let context = self.context.duplicate();
        let attachments = clone_strings(&self.attachments);
        let mut children: Vec<DynNode> = Vec::new();
        let mut i: usize = 0;
        while i < self.children.len()
            invariant
                0 <= i <= self.children.len(),
                dyn_nodes_view(children@) == dyn_nodes_view(self.children@).take(i as int),
            decreases self.children.len() - i,
        {
            proof {
                lemma_dyn_nodes_view_len(self.children@);
                lemma_dyn_nodes_view_index(self.children@, i as int);
            }
            let child = clone_dyn_node(&self.children[i]);
            proof {
                lemma_dyn_nodes_view_push(children@, child);
                assert(dyn_nodes_view(self.children@).take(i + 1) =~= dyn_nodes_view(
                    self.children@,
                ).take(i as int).push(dyn_nodes_view(self.children@)[i as int]));
            }
            children.push(child);
            i = i + 1;
        }
        proof {
            lemma_dyn_nodes_view_len(self.children@);
            assert(dyn_nodes_view(self.children@).take(self.children@.len() as int)
                =~= dyn_nodes_view(self.children@));
        }
        let r = Report { context, attachments, children };
        proof {
            assert(r@ =~= self@);
        }
        r
    }
}

/// A report tree in shared, thread-safe, reference-counted form: every
/// handle reads the same immutable structure, so independent threads can
/// consume it concurrently without locking.
pub struct SharedReport<E> {
    inner: Arc<Report<E>>,
}

impl<E: ContextType> View for SharedReport<E> {
    type V = NodeV;

    closed spec fn view(&self) -> NodeV {
        (*self.inner)@
    }
}

/// Relies on `Arc::clone`: a new handle to the same shared allocation.
#[verifier::external_body]
fn clone_arc<T>(a: &Arc<T>) -> (r: Arc<T>)
    ensures
        r == *a,
{
    Arc::clone(a)
}

impl<E: ContextType> SharedReport<E> {
    /// Read access to the shared tree.
    pub fn report(&self) -> (r: &Report<E>)
        ensures
            r@ == self@,
    {
        &*self.inner
    }

    /// A new handle to the same shared tree.
    pub fn duplicate(&self) -> (r: SharedReport<E>)
        ensures
            r@ == self@,
    {
        SharedReport { inner: clone_arc(&self.inner) }
    }
}

impl<E: ContextType> Report<E> {
    /// Convert this tree into shared, reference-counted form for concurrent
    /// read access from multiple threads.
    pub fn into_cloneable(self) -> (r: SharedReport<E>)
        ensures
            r@ == self@,
    {
        SharedReport { inner: Arc::new(self) }
    }
}

} // verus!
