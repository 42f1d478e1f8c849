//! Trusted declarations: the few outside functions the library relies on,
//! with the contracts this crate assumes about them.

use vstd::prelude::*;

use crate::node::Kind;
use crate::node::Node;
use crate::node::flatten;
use crate::node::wf_node;

verus! {

/// The syntax tree of the typst parser.
#[verifier::external_type_specification]
#[verifier::external_body]
pub struct ExSyntaxNode(typst_syntax::SyntaxNode);

/// The tree that parsing a source text yields, carried over node for node
/// into this library's [`Node`]. Parsing is a pure function of the text, so
/// the result may be named.
pub uninterp spec fn parse_of(s: Seq<char>) -> Node;

/// Relies on `typst_syntax::parse`: it parses the text as top-level markup,
/// deterministically. Its tree is a lossless concrete syntax tree — the
/// children of a node make it up without loss, nodes with children carry no
/// leaf text of their own, structured productions are inner nodes (or, in
/// recovery, placeholders without text) and so never carry text, and plain
/// tokens (keywords, brackets, punctuation, whitespace runs) are always
/// leaves — so the tree is well shaped and its texts concatenate back to
/// the input.
#[verifier::external_body]
pub(crate) fn parse_text(s: &str) -> (t: Node)
    ensures
        t == parse_of(s@),
        wf_node(t),
        flatten(t) == s@,
{
    node_of(&typst_syntax::parse(s))
}

/// Relies on `typst_syntax::SyntaxNode`: `kind` is the node's grammar
/// production (whose debug form is the production's name), `leaf_text` its
/// own text (empty for inner nodes), and `children` its ordered children.
#[verifier::external_body]
fn node_of(n: &typst_syntax::SyntaxNode) -> Node {
    Node {
        kind: Kind::from_name(&format!("{:?}", n.kind())),
        text: n.leaf_text().as_str().to_owned(),
        children: n.children().map(node_of).collect(),
    }
}

/// Relies on std's `String::push`: appends exactly the given character to
/// the end of the string.
#[verifier::external_body]
pub(crate) fn string_push_char(s: &mut String, c: char)
    ensures
        final(s)@ == old(s)@.push(c),
{
    s.push(c);
}

} // verus!
