//! The report tree: a branch per visited object, a leaf per reported
//! property, nested as the walk recursed, and its serialization to
//! indented text.
use crate::render::push_char;
use vstd::prelude::*;
use vstd::string::*;

verus! {

/// One node of the report: a leaf line of text, or a labeled branch with
/// nested children.
#[derive(Debug)]
pub enum Node {
    Leaf(String),
    Branch(Branch),
}

/// A branch of the report: its label line and its children in emission
/// order — the object's own leaves first, then one branch per descended
/// child.
#[derive(Debug)]
pub struct Branch {
    pub label: String,
    pub children: Vec<Node>,
}

/// The mathematical shape of a report node: what the contracts speak of.
pub enum ReportNode {
    Leaf(Seq<char>),
    Branch(Seq<char>, Seq<ReportNode>),
}

/// The `ReportNode` a built node stands for.
pub open spec fn node_view(n: Node) -> ReportNode
    decreases n, 0nat,
{
    match n {
        Node::Leaf(t) => ReportNode::Leaf(t@),
        Node::Branch(b) => {
            proof {
                assert(decreases_to!(n => n->Branch_0.children@));
            }
            ReportNode::Branch(b.label@, nodes_view_from(b.children@, 0))
        },
    }
}

/// The `ReportNode`s the nodes of `ns` from index `i` on stand for.
pub open spec fn nodes_view_from(ns: Seq<Node>, i: int) -> Seq<ReportNode>
    decreases ns, ns.len() - i + 1,
{
    if i < 0 || i >= ns.len() {
        Seq::<ReportNode>::empty()
    } else {
        seq![node_view(ns[i])] + nodes_view_from(ns, i + 1)
    }
}

/// The `ReportNode`s a sequence of built nodes stands for.
pub open spec fn nodes_view(ns: Seq<Node>) -> Seq<ReportNode> {
    nodes_view_from(ns, 0)
}

/// A view of a node sequence has one view per node, in order.
pub proof fn lemma_nodes_view_from(ns: Seq<Node>, i: int)
    requires
        0 <= i <= ns.len(),
    ensures
        nodes_view_from(ns, i).len() == ns.len() - i,
        forall|k: int|
            0 <= k < ns.len() - i ==> nodes_view_from(ns, i)[k] == node_view(ns[i + k]),
    decreases ns.len() - i,
{
    if i < ns.len() {
        lemma_nodes_view_from(ns, i + 1);
    }
}

/// A view of a node sequence has one view per node, in order.
pub proof fn lemma_nodes_view(ns: Seq<Node>)
    ensures
        nodes_view(ns).len() == ns.len(),
        forall|k: int| 0 <= k < ns.len() ==> nodes_view(ns)[k] == node_view(ns[k]),
{
    lemma_nodes_view_from(ns, 0);
}

/// The two spaces one nesting level adds before a line.
pub open spec fn spec_indent_step() -> Seq<char> {
    seq![' ', ' ']
}

/// The serialized text of `n`: its own line behind `ind`, then, for a
/// branch, each child serialized behind two more spaces.
pub open spec fn spec_render_node(n: ReportNode, ind: Seq<char>) -> Seq<char>
    decreases n, 0nat,
{
    match n {
        ReportNode::Leaf(t) => ind + t + seq!['\n'],
        ReportNode::Branch(label, children) => ind + label + seq!['\n'] + spec_render_nodes(
            children,
            ind + spec_indent_step(),
            0,
        ),
    }
}

/// The serialized text of the nodes of `ns` from index `i` on, in order.
pub open spec fn spec_render_nodes(ns: Seq<ReportNode>, ind: Seq<char>, i: int) -> Seq<char>
    decreases ns, ns.len() - i,
{
    if i < 0 || i >= ns.len() {
        Seq::<char>::empty()
    } else {
        spec_render_node(ns[i], ind) + spec_render_nodes(ns, ind, i + 1)
    }
}

/// Appends the serialized text of `n`, each of its lines behind `ind`.
pub fn render_node(out: &mut String, n: &Node, ind: &String)
    ensures
        final(out)@ == old(out)@ + spec_render_node(node_view(*n), ind@),
    decreases *n,
{
    match n {
        Node::Leaf(t) => {
            out.append(ind.as_str());
            out.append(t.as_str());
            push_char(out, '\n');
            assert(out@ =~= old(out)@ + spec_render_node(node_view(*n), ind@));
        },
        Node::Branch(b) => {
            out.append(ind.as_str());
            out.append(b.label.as_str());
            push_char(out, '\n');
            let mut deeper: String = ind.clone();
            deeper.append("  ");
            proof {
                reveal_strlit("  ");
                assert(deeper@ =~= ind@ + spec_indent_step());
            }
            let ghost views = nodes_view(b.children@);
            proof {
                lemma_nodes_view(b.children@);
                assert(out@ + spec_render_nodes(views, deeper@, 0) =~= old(out)@
                    + spec_render_node(node_view(*n), ind@));
            }
            let n_children: usize = b.children.len();
            let mut i: usize = 0;
            while i < n_children
                invariant
                    *n == Node::Branch(*b),
                    views == nodes_view(b.children@),
                    n_children == b.children@.len(),
                    i <= n_children,
                    deeper@ == ind@ + spec_indent_step(),
                    out@ + spec_render_nodes(views, deeper@, i as int) == old(out)@
                        + spec_render_node(node_view(*n), ind@),
                decreases n_children - i,
            {
                proof {
                    assert(*n == Node::Branch(*b));
                    assert(decreases_to!(*n => n->Branch_0.children@[i as int]));
                    assert(n->Branch_0.children@[i as int] == b.children@[i as int]);
                }
                render_node(out, &b.children[i], &deeper);
                proof {
                    lemma_nodes_view(b.children@);
                    assert(views[i as int] == node_view(b.children@[i as int]));
                    assert((out@ + spec_render_node(views[i as int], deeper@))
                        + spec_render_nodes(views, deeper@, i as int + 1) =~= out@
                        + (spec_render_node(views[i as int], deeper@) + spec_render_nodes(
                        views,
                        deeper@,
                        i as int + 1,
                    )));
                }
                i += 1;
            }
            proof {
                assert(out@ + spec_render_nodes(views, deeper@, n_children as int) =~= out@);
            }
        },
    }
}

/// The serialized text of a whole report: every top-level node in order,
/// unindented.
pub open spec fn spec_render_report(roots: Seq<ReportNode>) -> Seq<char> {
    spec_render_nodes(roots, Seq::<char>::empty(), 0)
}

/// Serializes a whole report to its indented text.
pub fn render_report(roots: &Vec<Node>) -> (r: String)
    ensures
        r@ == spec_render_report(nodes_view(roots@)),
{
    let mut out = String::new();
    let ind = String::new();
    let ghost views = nodes_view(roots@);
    proof {
        lemma_nodes_view(roots@);
        assert(out@ + spec_render_nodes(views, Seq::<char>::empty(), 0) =~= spec_render_report(
            views,
        ));
    }
    let n: usize = roots.len();
    let mut i: usize = 0;
    while i < n
        invariant
            views == nodes_view(roots@),
            n == roots@.len(),
            i <= n,
            ind@ == Seq::<char>::empty(),
            out@ + spec_render_nodes(views, Seq::<char>::empty(), i as int) == spec_render_report(
                views,
            ),
        decreases n - i,
    {
        render_node(&mut out, &roots[i], &ind);
        proof {
            lemma_nodes_view(roots@);
            assert(views[i as int] == node_view(roots@[i as int]));
            assert((out@ + spec_render_node(views[i as int], Seq::<char>::empty()))
                + spec_render_nodes(views, Seq::<char>::empty(), i as int + 1) =~= out@
                + (spec_render_node(views[i as int], Seq::<char>::empty()) + spec_render_nodes(
                views,
                Seq::<char>::empty(),
                i as int + 1,
            )));
        }
        i += 1;
    }
    proof {
        assert(out@ + spec_render_nodes(views, Seq::<char>::empty(), n as int) =~= out@);
    }
    out
}

/// One still-open branch of a builder: its label and the children gathered
/// so far.
pub struct OpenBranch {
    pub label: String,
    pub children: Vec<Node>,
}

/// The incremental report builder the walk appends to. Opening a branch
/// makes it the insertion target for subsequent leaves and branches until
/// it is closed, at which point the enclosing branch becomes current again:
/// a strict stack discipline matching the walk's recursion.
pub struct TreeBuilder {
    /// Completed top-level nodes, in emission order.
    pub roots: Vec<Node>,
    /// The open branches, outermost first.
    pub stack: Vec<OpenBranch>,
}

impl TreeBuilder {
    /// A fresh builder: nothing emitted, no branch open.
    pub fn new() -> (r: TreeBuilder)
        ensures
            r.roots@ == Seq::<Node>::empty(),
            r.stack@ == Seq::<OpenBranch>::empty(),
    {
        TreeBuilder { roots: Vec::new(), stack: Vec::new() }
    }

    /// Opens a branch labeled `label`: until it is closed, everything
    /// emitted lands inside it.
    pub fn open_branch(&mut self, label: String)
        ensures
            final(self).roots@ == old(self).roots@,
            final(self).stack@.len() == old(self).stack@.len() + 1,
            final(self).stack@.subrange(0, old(self).stack@.len() as int) == old(self).stack@,
            final(self).stack@.last().label == label,
            final(self).stack@.last().children@ == Seq::<Node>::empty(),
    {
        self.stack.push(OpenBranch { label, children: Vec::new() });
        proof {
            assert(self.stack@.subrange(0, old(self).stack@.len() as int) =~= old(self).stack@);
        }
    }

    /// Emits one leaf line into the innermost open branch, or at top level
    /// when no branch is open.
    pub fn leaf(&mut self, text: String)
        ensures
            old(self).stack@.len() == 0 ==> {
                &&& final(self).stack@ == old(self).stack@
                &&& final(self).roots@ == old(self).roots@.push(Node::Leaf(text))
            },
            old(self).stack@.len() > 0 ==> {
                &&& final(self).roots@ == old(self).roots@
                &&& final(self).stack@.len() == old(self).stack@.len()
                &&& final(self).stack@.subrange(0, old(self).stack@.len() - 1)
                    == old(self).stack@.subrange(0, old(self).stack@.len() - 1)
                &&& final(self).stack@.last().label == old(self).stack@.last().label
                &&& final(self).stack@.last().children@
                    == old(self).stack@.last().children@.push(Node::Leaf(text))
            },
    {
        if self.stack.len() == 0 {
            self.roots.push(Node::Leaf(text));
        } else {
            let mut frame = self.stack.pop().unwrap();
            frame.children.push(Node::Leaf(text));
            self.stack.push(frame);
            proof {
                assert(self.stack@.subrange(0, old(self).stack@.len() - 1)
                    =~= old(self).stack@.subrange(0, old(self).stack@.len() - 1));
            }
        }
    }

    /// Closes the innermost open branch: it becomes one node of the
    /// enclosing branch, or a top-level node when it was outermost.
    pub fn close_branch(&mut self)
        requires
            old(self).stack@.len() > 0,
        ensures
            final(self).stack@.len() == old(self).stack@.len() - 1,
            ({
                let closed = old(self).stack@.last();
                let node = Node::Branch((Branch { label: closed.label, children: closed.children }));
                if old(self).stack@.len() == 1 {
                    final(self).roots@ == old(self).roots@.push(node) && final(self).stack@
                        == Seq::<OpenBranch>::empty()
                } else {
                    final(self).roots@ == old(self).roots@ && final(self).stack@.subrange(
                        0,
                        old(self).stack@.len() - 2,
                    ) == old(self).stack@.subrange(0, old(self).stack@.len() - 2)
                        && final(self).stack@.last().label
                        == old(self).stack@[old(self).stack@.len() - 2].label
                        && final(self).stack@.last().children@
                        == old(self).stack@[old(self).stack@.len() - 2].children@.push(node)
                }
            }),
    {
        let closed = self.stack.pop().unwrap();
        let node = Node::Branch(Branch { label: closed.label, children: closed.children });
        if self.stack.len() == 0 {
            self.roots.push(node);
            proof {
                assert(self.stack@ =~= Seq::<OpenBranch>::empty());
            }
        } else {
            let mut frame = self.stack.pop().unwrap();
            frame.children.push(node);
            self.stack.push(frame);
            proof {
                assert(self.stack@.subrange(0, old(self).stack@.len() - 2)
                    =~= old(self).stack@.subrange(0, old(self).stack@.len() - 2));
            }
        }
    }

    /// Serializes everything gathered so far as indented text and resets
    /// the builder for the next pass. Every branch must have been closed.
    pub fn flush(&mut self) -> (r: String)
        requires
            old(self).stack@.len() == 0,
        ensures
            r@ == spec_render_report(nodes_view(old(self).roots@)),
            final(self).roots@ == Seq::<Node>::empty(),
            final(self).stack@ == Seq::<OpenBranch>::empty(),
    {
        let r = render_report(&self.roots);
        self.roots = Vec::new();
        self.stack = Vec::new();
        r
    }
}

} // verus!
