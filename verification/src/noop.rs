//! Proof that the no-op configuration reproduces its input.
//!
//! Under `Config::no_changes()` — no indentation, no spacing changes, no
//! line splits — every rendering rule reduces to emitting the node's text
//! verbatim and recursing, so rendering a tree is one big push of its
//! flattened text. Only the writer's coalescing marker may differ from a
//! plain push, and it never influences the emitted text at zero indent;
//! the proofs therefore compare writers on their observable fields.

use vstd::prelude::*;

use crate::config::Config;
use crate::node::Kind;
use crate::node::Node;
use crate::node::flatten;
use crate::node::flatten_seq;
use crate::node::is_expr;
use crate::node::is_grouping;
use crate::node::is_opening;
use crate::node::wf_node;
use crate::node::wf_seq;
use crate::render::anon_items;
use crate::render::args_items;
use crate::render::binary_items;
use crate::render::call_items;
use crate::render::closure_items;
use crate::render::cond_items;
use crate::render::cond_sep;
use crate::render::dict_items;
use crate::render::dispatches;
use crate::render::expr_anon_items;
use crate::render::let_items;
use crate::render::list_items;
use crate::render::markup_anon_items;
use crate::render::markup_items;
use crate::render::named_items;
use crate::render::params_items;
use crate::render::past_arg;
use crate::render::past_entry;
use crate::render::past_param;
use crate::render::render_anon_spec;
use crate::render::render_args_spec;
use crate::render::render_node_spec;
use crate::render::render_params_spec;
use crate::render::render_space_spec;
use crate::render::term_items;
use crate::writer::WriterV;
use crate::writer::lemma_writer_push_concat;
use crate::writer::writer_dec;
use crate::writer::writer_finish;
use crate::writer::writer_inc;
use crate::writer::writer_push;

verus! {

/// A writer in no-op shape: the no-op configuration and no indentation in
/// effect or pending.
pub open spec fn noopish(w: WriterV) -> bool {
    w.cfg == Config::no_changes_spec() && w.current == 0 && w.next == 0
}

/// Equality of everything the emitted text can depend on; the coalescing
/// marker is exempt.
pub open spec fn obs_eq(a: WriterV, b: WriterV) -> bool {
    a.value == b.value && a.line == b.line && a.current == b.current && a.next == b.next && a.cfg
        == b.cfg
}

/// Pushing text keeps a writer in no-op shape.
proof fn lemma_push_noopish(w: WriterV, s: Seq<char>)
    requires
        noopish(w),
    ensures
        noopish(writer_push(w, s)),
    decreases s.len(),
{
    if s.len() > 0 {
        lemma_push_noopish(crate::writer::writer_push_char(w, s[0]), s.drop_first());
    }
}

/// Pushing the same text onto observably equal writers gives observably
/// equal writers.
proof fn lemma_push_obs_cong(a: WriterV, b: WriterV, s: Seq<char>)
    requires
        obs_eq(a, b),
    ensures
        obs_eq(writer_push(a, s), writer_push(b, s)),
    decreases s.len(),
{
    if s.len() > 0 {
        lemma_push_obs_cong(
            crate::writer::writer_push_char(a, s[0]),
            crate::writer::writer_push_char(b, s[0]),
            s.drop_first(),
        );
    }
}

/// At zero indent, pushing appends to the text seen as one stream.
proof fn lemma_push_cat(w: WriterV, s: Seq<char>)
    requires
        noopish(w),
    ensures
        writer_push(w, s).value + writer_push(w, s).line =~= w.value + w.line + s,
    decreases s.len(),
{
    if s.len() == 0 {
        assert(w.value + w.line + s =~= w.value + w.line);
    } else {
        let w1 = crate::writer::writer_push_char(w, s[0]);
        lemma_push_noopish(w, s.take(1));
        if s[0] == '\n' {
            assert(crate::writer::spaces(0) =~= Seq::<char>::empty());
            assert(w1.value + w1.line =~= w.value + w.line + seq![s[0]]);
        } else {
            assert(w1.value + w1.line =~= w.value + w.line + seq![s[0]]);
        }
        assert(noopish(w1));
        lemma_push_cat(w1, s.drop_first());
        assert(w.value + w.line + seq![s[0]] + s.drop_first() =~= w.value + w.line + s);
    }
}

/// Text that ends with a line break leaves no pending line behind.
proof fn lemma_push_last_nl(w: WriterV, s: Seq<char>)
    requires
        noopish(w),
        s.len() > 0,
        s[s.len() - 1] == '\n',
    ensures
        writer_push(w, s).line.len() == 0,
    decreases s.len(),
{
    let w1 = crate::writer::writer_push_char(w, s[0]);
    if s.len() == 1 {
        assert(writer_push(w1, s.drop_first()) == w1);
    } else {
        assert(noopish(w1));
        assert(s.drop_first()[s.drop_first().len() - 1] == s[s.len() - 1]);
        lemma_push_last_nl(w1, s.drop_first());
    }
}

/// Raising the indentation is invisible when a level is zero spaces.
proof fn lemma_noop_inc(w: WriterV)
    requires
        noopish(w),
    ensures
        obs_eq(writer_inc(w), w),
{
}

/// Lowering the indentation is invisible when a level is zero spaces and
/// no indentation is pending.
proof fn lemma_noop_dec(w: WriterV)
    requires
        noopish(w),
    ensures
        obs_eq(writer_dec(w), w),
{
}

/// The flattened text of a leaf is its own text.
proof fn lemma_flatten_leaf(c: Node)
    requires
        c.children@.len() == 0,
    ensures
        flatten(c) == c.text@,
    decreases c,
{
    assert(flatten_seq(c.children@) =~= Seq::<char>::empty());
    assert(c.text@ + flatten_seq(c.children@) =~= c.text@);
}

/// The flattened text of siblings from `i` on starts with the text of the
/// `i`-th.
proof fn lemma_flatten_skip(s: Seq<Node>, i: int)
    requires
        0 <= i < s.len(),
    ensures
        flatten_seq(s.skip(i)) == flatten(s[i]) + flatten_seq(s.skip(i + 1)),
{
    assert(s.skip(i)[0] == s[i]);
    assert(s.skip(i).drop_first() =~= s.skip(i + 1));
}

/// Past the end there is nothing left to flatten.
proof fn lemma_flatten_skip_end(s: Seq<Node>)
    ensures
        flatten_seq(s.skip(s.len() as int)) == Seq::<char>::empty(),
{
    assert(s.skip(s.len() as int) =~= Seq::<Node>::empty());
}

/// Every tree of a well-shaped sequence is well shaped.
proof fn lemma_wf_seq_index(s: Seq<Node>, i: int)
    requires
        wf_seq(s),
        0 <= i < s.len(),
    ensures
        wf_node(s[i]),
    decreases i,
{
    if i > 0 {
        lemma_wf_seq_index(s.drop_first(), i - 1);
    }
}

/// The shared tail step of every items proof: once one child renders as a
/// push of its flattened text, the rest of the recursion composes into one
/// push of everything that remains.
proof fn lemma_chain(w: WriterV, w1: WriterV, s: Seq<Node>, i: int)
    requires
        noopish(w),
        0 <= i < s.len(),
        obs_eq(w1, writer_push(w, flatten(s[i]))),
    ensures
        noopish(w1),
        obs_eq(
            writer_push(w1, flatten_seq(s.skip(i + 1))),
            writer_push(w, flatten_seq(s.skip(i))),
        ),
{
    lemma_push_noopish(w, flatten(s[i]));
    lemma_push_obs_cong(w1, writer_push(w, flatten(s[i])), flatten_seq(s.skip(i + 1)));
    lemma_writer_push_concat(w, flatten(s[i]), flatten_seq(s.skip(i + 1)));
    lemma_flatten_skip(s, i);
}

/// A whitespace run renders verbatim.
proof fn lemma_noop_space(w: WriterV, n: Node)
    requires
        noopish(w),
        n.children@.len() == 0,
    ensures
        obs_eq(render_space_spec(w, n), writer_push(w, flatten(n))),
{
    lemma_flatten_leaf(n);
}

/// The anonymous fallback renders verbatim.
proof fn lemma_noop_anon(w: WriterV, n: Node)
    requires
        noopish(w),
        wf_node(n),
    ensures
        obs_eq(render_anon_spec(w, n), writer_push(w, flatten(n))),
    decreases n, 2int, 0int,
{
    if n.kind == Kind::Space {
        lemma_noop_space(w, n);
    } else if is_opening(n.kind) {
        lemma_flatten_leaf(n);
        lemma_push_noopish(w, n.text@);
        lemma_noop_inc(writer_push(w, n.text@));
    } else if is_grouping(n.kind) {
        lemma_flatten_leaf(n);
        lemma_noop_dec(w);
        lemma_push_obs_cong(writer_dec(w), w, n.text@);
    } else {
        lemma_push_noopish(w, n.text@);
        lemma_noop_anon_items(writer_push(w, n.text@), n.children@, 0);
        lemma_writer_push_concat(w, n.text@, flatten_seq(n.children@));
        assert(n.children@.skip(0) =~= n.children@);
    }
}

/// Children of an anonymous node render verbatim.
proof fn lemma_noop_anon_items(w: WriterV, s: Seq<Node>, i: int)
    requires
        noopish(w),
        wf_seq(s),
        0 <= i <= s.len(),
    ensures
        obs_eq(anon_items(w, s, i), writer_push(w, flatten_seq(s.skip(i)))),
    decreases s, 1int, s.len() - i,
{
    if i >= s.len() {
        lemma_flatten_skip_end(s);
    } else {
        lemma_wf_seq_index(s, i);
        lemma_noop_anon(w, s[i]);
        let w1 = render_anon_spec(w, s[i]);
        lemma_chain(w, w1, s, i);
        lemma_noop_anon_items(w1, s, i + 1);
    }
}

/// A container node's flattened text is its children's.
proof fn lemma_flatten_container(n: Node)
    requires
        n.text@ == Seq::<char>::empty(),
    ensures
        flatten(n) == flatten_seq(n.children@),
        flatten_seq(n.children@.skip(0)) == flatten(n),
    decreases n,
{
    assert(n.text@ + flatten_seq(n.children@) =~= flatten_seq(n.children@));
    assert(n.children@.skip(0) =~= n.children@);
}

/// Any node renders verbatim.
proof fn lemma_noop_node(w: WriterV, n: Node)
    requires
        noopish(w),
        wf_node(n),
    ensures
        obs_eq(render_node_spec(w, n), writer_push(w, flatten(n))),
    decreases n, 3int, 0int,
{
    match n.kind {
        Kind::Markup => {
            lemma_noop_markup_items(w, n.children@, 0);
            lemma_flatten_container(n);
        },
        Kind::Space => {
            lemma_noop_space(w, n);
        },
        Kind::Parbreak => {
            lemma_noop_anon(w, n);
        },
        Kind::ListItem | Kind::EnumItem => {
            lemma_noop_list_items(w, n.children@, 0);
            lemma_flatten_container(n);
        },
        Kind::TermItem => {
            lemma_noop_term_items(w, n.children@, 0);
            lemma_flatten_container(n);
        },
        Kind::Dict => {
            lemma_noop_dict_items(w, n.children@, 0);
            lemma_flatten_container(n);
        },
        Kind::Binary => {
            lemma_noop_binary_items(w, n.children@, 0);
            lemma_flatten_container(n);
        },
        Kind::FuncCall | Kind::SetRule => {
            lemma_noop_call_items(w, n.children@, 0);
            lemma_flatten_container(n);
        },
        Kind::Closure => {
            lemma_noop_closure_items(w, n.children@, 0);
            lemma_flatten_container(n);
        },
        Kind::LetBinding => {
            lemma_noop_let_items(w, n.children@, 0);
            lemma_flatten_container(n);
        },
        Kind::Conditional => {
            lemma_noop_cond_items(w, n.children@, 0);
            lemma_flatten_container(n);
        },
        Kind::Named => {
            lemma_noop_named_items(w, n.children@, 0);
            lemma_flatten_container(n);
        },
        Kind::Strong | Kind::Emph | Kind::Heading | Kind::ContentBlock => {
            lemma_noop_markup_anon_items(w, n.children@, 0);
            lemma_flatten_container(n);
        },
        Kind::Code | Kind::CodeBlock | Kind::Equation | Kind::Math | Kind::MathCall
            | Kind::MathDelimited | Kind::MathAttach | Kind::MathFrac | Kind::MathRoot
            | Kind::MathPrimes | Kind::MathFieldAccess | Kind::Parenthesized | Kind::Array
            | Kind::Unary | Kind::WhileLoop | Kind::ForLoop | Kind::Keyed | Kind::FuncReturn
            | Kind::ModuleInclude | Kind::ModuleImport | Kind::FieldAccess | Kind::Spread
            | Kind::DestructAssignment | Kind::Contextual | Kind::ShowRule | Kind::Ref => {
            lemma_noop_expr_anon_items(w, n.children@, 0);
            lemma_flatten_container(n);
        },
        _ => {
            lemma_noop_anon(w, n);
        },
    }
}

/// A leaf token renders as a push of its text.
proof fn lemma_token_push(w: WriterV, s: Seq<Node>, i: int)
    requires
        noopish(w),
        wf_seq(s),
        0 <= i < s.len(),
        s[i].children@.len() == 0,
    ensures
        obs_eq(writer_push(w, s[i].text@), writer_push(w, flatten(s[i]))),
{
    lemma_flatten_leaf(s[i]);
}

/// Expression-or-fallback children render verbatim.
proof fn lemma_noop_expr_anon_items(w: WriterV, s: Seq<Node>, i: int)
    requires
        noopish(w),
        wf_seq(s),
        0 <= i <= s.len(),
    ensures
        obs_eq(expr_anon_items(w, s, i), writer_push(w, flatten_seq(s.skip(i)))),
    decreases s, 1int, s.len() - i,
{
    if i >= s.len() {
        lemma_flatten_skip_end(s);
    } else {
        lemma_wf_seq_index(s, i);
        let w1 = if dispatches(s[i].kind) {
            lemma_noop_node(w, s[i]);
            render_node_spec(w, s[i])
        } else {
            lemma_noop_anon(w, s[i]);
            render_anon_spec(w, s[i])
        };
        lemma_chain(w, w1, s, i);
        lemma_noop_expr_anon_items(w1, s, i + 1);
    }
}

/// Markup-or-fallback children render verbatim.
proof fn lemma_noop_markup_anon_items(w: WriterV, s: Seq<Node>, i: int)
    requires
        noopish(w),
        wf_seq(s),
        0 <= i <= s.len(),
    ensures
        obs_eq(markup_anon_items(w, s, i), writer_push(w, flatten_seq(s.skip(i)))),
    decreases s, 1int, s.len() - i,
{
    if i >= s.len() {
        lemma_flatten_skip_end(s);
    } else {
        lemma_wf_seq_index(s, i);
        let w1 = if s[i].kind == Kind::Markup {
            lemma_noop_node(w, s[i]);
            render_node_spec(w, s[i])
        } else {
            lemma_noop_anon(w, s[i]);
            render_anon_spec(w, s[i])
        };
        lemma_chain(w, w1, s, i);
        lemma_noop_markup_anon_items(w1, s, i + 1);
    }
}

/// Top-level markup renders verbatim: the paragraph-break rewrites are
/// all behind the spacing switch.
proof fn lemma_noop_markup_items(w: WriterV, s: Seq<Node>, i: int)
    requires
        noopish(w),
        wf_seq(s),
        0 <= i <= s.len(),
    ensures
        obs_eq(markup_items(w, s, i), writer_push(w, flatten_seq(s.skip(i)))),
    decreases s, 1int, s.len() - i,
{
    if i >= s.len() {
        lemma_flatten_skip_end(s);
    } else {
        lemma_wf_seq_index(s, i);
        let w1 = if s[i].kind == Kind::Parbreak {
            lemma_noop_anon(w, s[i]);
            render_anon_spec(w, s[i])
        } else if is_expr(s[i].kind) {
            lemma_noop_node(w, s[i]);
            render_node_spec(w, s[i])
        } else {
            lemma_noop_anon(w, s[i]);
            render_anon_spec(w, s[i])
        };
        lemma_chain(w, w1, s, i);
        lemma_noop_markup_items(w1, s, i + 1);
    }
}

/// List and enumeration items render verbatim: the marker is emitted in
/// full and the zero-width indentation changes are invisible.
proof fn lemma_noop_list_items(w: WriterV, s: Seq<Node>, i: int)
    requires
        noopish(w),
        wf_seq(s),
        0 <= i <= s.len(),
    ensures
        obs_eq(list_items(w, s, i), writer_push(w, flatten_seq(s.skip(i)))),
    decreases s, 1int, s.len() - i,
{
    if i >= s.len() {
        lemma_flatten_skip_end(s);
        lemma_noop_dec(w);
    } else {
        lemma_wf_seq_index(s, i);
        let c = s[i];
        let w1 = if c.kind == Kind::ListMarker || c.kind == Kind::EnumMarker {
            lemma_noop_anon(w, c);
            lemma_push_noopish(w, flatten(c));
            lemma_noop_inc(render_anon_spec(w, c));
            writer_inc(render_anon_spec(w, c))
        } else {
            lemma_noop_anon(w, c);
            render_anon_spec(w, c)
        };
        lemma_chain(w, w1, s, i);
        lemma_noop_list_items(w1, s, i + 1);
    }
}

/// Term items render verbatim: the colon is re-emitted from its own text.
proof fn lemma_noop_term_items(w: WriterV, s: Seq<Node>, i: int)
    requires
        noopish(w),
        wf_seq(s),
        0 <= i <= s.len(),
    ensures
        obs_eq(term_items(w, s, i), writer_push(w, flatten_seq(s.skip(i)))),
    decreases s, 1int, s.len() - i,
{
    if i >= s.len() {
        lemma_flatten_skip_end(s);
        lemma_noop_dec(w);
    } else {
        lemma_wf_seq_index(s, i);
        let c = s[i];
        let w1 = if c.kind == Kind::TermMarker {
            lemma_noop_anon(w, c);
            lemma_push_noopish(w, flatten(c));
            lemma_noop_inc(render_anon_spec(w, c));
            writer_inc(render_anon_spec(w, c))
        } else if c.kind == Kind::Colon {
            lemma_token_push(w, s, i);
            writer_push(w, c.text@)
        } else {
            lemma_noop_anon(w, c);
            render_anon_spec(w, c)
        };
        lemma_chain(w, w1, s, i);
        lemma_noop_term_items(w1, s, i + 1);
    }
}

/// Dictionary entries render verbatim: commas and spaces are kept, no
/// separator is synthesized.
proof fn lemma_noop_dict_items(w: WriterV, s: Seq<Node>, i: int)
    requires
        noopish(w),
        wf_seq(s),
        0 <= i <= s.len(),
    ensures
        obs_eq(dict_items(w, s, i, false), writer_push(w, flatten_seq(s.skip(i)))),
    decreases s, 1int, s.len() - i,
{
    if i >= s.len() {
        lemma_flatten_skip_end(s);
    } else {
        lemma_wf_seq_index(s, i);
        let c = s[i];
        let w1 = if c.kind == Kind::Named || c.kind == Kind::Keyed || c.kind == Kind::Spread {
            lemma_noop_node(w, c);
            lemma_push_noopish(w, flatten(c));
            past_entry(render_node_spec(w, c), s, i, false)
        } else {
            lemma_noop_anon(w, c);
            render_anon_spec(w, c)
        };
        lemma_chain(w, w1, s, i);
        lemma_noop_dict_items(w1, s, i + 1);
    }
}

/// Binary operations render verbatim: no spaces are added around the
/// operator.
proof fn lemma_noop_binary_items(w: WriterV, s: Seq<Node>, i: int)
    requires
        noopish(w),
        wf_seq(s),
        0 <= i <= s.len(),
    ensures
        obs_eq(binary_items(w, s, i), writer_push(w, flatten_seq(s.skip(i)))),
    decreases s, 1int, s.len() - i,
{
    if i >= s.len() {
        lemma_flatten_skip_end(s);
    } else {
        lemma_wf_seq_index(s, i);
        let w1 = if is_expr(s[i].kind) {
            lemma_noop_node(w, s[i]);
            render_node_spec(w, s[i])
        } else {
            lemma_noop_anon(w, s[i]);
            render_anon_spec(w, s[i])
        };
        lemma_chain(w, w1, s, i);
        lemma_noop_binary_items(w1, s, i + 1);
    }
}

/// Calls and set rules render verbatim.
#[verifier::rlimit(50)]
proof fn lemma_noop_call_items(w: WriterV, s: Seq<Node>, i: int)
    requires
        noopish(w),
        wf_seq(s),
        0 <= i <= s.len(),
    ensures
        obs_eq(call_items(w, s, i), writer_push(w, flatten_seq(s.skip(i)))),
    decreases s, 1int, s.len() - i,
{
    if i >= s.len() {
        lemma_flatten_skip_end(s);
    } else {
        lemma_wf_seq_index(s, i);
        let c = s[i];
        let w1 = if is_expr(c.kind) {
            lemma_noop_node(w, c);
            render_node_spec(w, c)
        } else if c.kind == Kind::Args {
            lemma_noop_args_node(w, c);
            render_args_spec(w, c)
        } else {
            lemma_noop_anon(w, c);
            render_anon_spec(w, c)
        };
        lemma_chain(w, w1, s, i);
        lemma_noop_call_items(w1, s, i + 1);
    }
}

/// An argument list renders verbatim.
#[verifier::rlimit(50)]
proof fn lemma_noop_args_node(w: WriterV, n: Node)
    requires
        noopish(w),
        wf_node(n),
        n.kind == Kind::Args,
    ensures
        obs_eq(render_args_spec(w, n), writer_push(w, flatten(n))),
    decreases n, 2int, 0int,
{
    lemma_noop_args_items(w, n.children@, 0, false);
    lemma_flatten_container(n);
}

/// The pieces of an argument list render verbatim: parentheses, commas
/// and spaces are all kept.
proof fn lemma_noop_args_items(w: WriterV, s: Seq<Node>, i: int, inp: bool)
    requires
        noopish(w),
        wf_seq(s),
        0 <= i <= s.len(),
    ensures
        obs_eq(args_items(w, s, i, false, inp), writer_push(w, flatten_seq(s.skip(i)))),
    decreases s, 1int, s.len() - i,
{
    if i >= s.len() {
        lemma_flatten_skip_end(s);
    } else {
        lemma_wf_seq_index(s, i);
        let c = s[i];
        if is_expr(c.kind) || c.kind == Kind::Named || c.kind == Kind::Spread {
            lemma_noop_node(w, c);
            lemma_push_noopish(w, flatten(c));
            let w1 = past_arg(render_node_spec(w, c), s, i, false, inp);
            lemma_chain(w, w1, s, i);
            lemma_noop_args_items(w1, s, i + 1, inp);
        } else if c.kind == Kind::LeftParen {
            lemma_noop_anon(w, c);
            let w1 = render_anon_spec(w, c);
            lemma_chain(w, w1, s, i);
            lemma_noop_args_items(w1, s, i + 1, true);
        } else if c.kind == Kind::RightParen {
            lemma_noop_anon(w, c);
            let w1 = render_anon_spec(w, c);
            lemma_chain(w, w1, s, i);
            lemma_noop_args_items(w1, s, i + 1, false);
        } else {
            lemma_noop_anon(w, c);
            let w1 = render_anon_spec(w, c);
            lemma_chain(w, w1, s, i);
            lemma_noop_args_items(w1, s, i + 1, inp);
        }
    }
}

/// A parameter list renders verbatim.
#[verifier::rlimit(50)]
proof fn lemma_noop_params_node(w: WriterV, n: Node)
    requires
        noopish(w),
        wf_node(n),
        n.kind == Kind::Params,
    ensures
        obs_eq(render_params_spec(w, n), writer_push(w, flatten(n))),
    decreases n, 2int, 0int,
{
    lemma_noop_params_items(w, n.children@, 0);
    lemma_flatten_container(n);
}

/// The pieces of a parameter list render verbatim.
proof fn lemma_noop_params_items(w: WriterV, s: Seq<Node>, i: int)
    requires
        noopish(w),
        wf_seq(s),
        0 <= i <= s.len(),
    ensures
        obs_eq(params_items(w, s, i, false), writer_push(w, flatten_seq(s.skip(i)))),
    decreases s, 1int, s.len() - i,
{
    if i >= s.len() {
        lemma_flatten_skip_end(s);
    } else {
        lemma_wf_seq_index(s, i);
        let c = s[i];
        let w1 = if is_expr(c.kind) || c.kind == Kind::Named || c.kind == Kind::Spread || c.kind
            == Kind::Underscore || c.kind == Kind::Destructuring {
            lemma_noop_node(w, c);
            lemma_push_noopish(w, flatten(c));
            past_param(render_node_spec(w, c), s, i, false)
        } else {
            lemma_noop_anon(w, c);
            render_anon_spec(w, c)
        };
        lemma_chain(w, w1, s, i);
        lemma_noop_params_items(w1, s, i + 1);
    }
}

/// Closures render verbatim: the arrow or equals sign is re-emitted from
/// its own text, with no spaces added.
proof fn lemma_noop_closure_items(w: WriterV, s: Seq<Node>, i: int)
    requires
        noopish(w),
        wf_seq(s),
        0 <= i <= s.len(),
    ensures
        obs_eq(closure_items(w, s, i), writer_push(w, flatten_seq(s.skip(i)))),
    decreases s, 1int, s.len() - i,
{
    if i >= s.len() {
        lemma_flatten_skip_end(s);
    } else {
        lemma_wf_seq_index(s, i);
        let c = s[i];
        let w1 = if is_expr(c.kind) {
            lemma_noop_node(w, c);
            render_node_spec(w, c)
        } else if c.kind == Kind::Params {
            lemma_noop_params_node(w, c);
            render_params_spec(w, c)
        } else if c.kind == Kind::Arrow || c.kind == Kind::Eq {
            lemma_token_push(w, s, i);
            writer_push(w, c.text@)
        } else {
            lemma_noop_anon(w, c);
            render_anon_spec(w, c)
        };
        lemma_chain(w, w1, s, i);
        lemma_noop_closure_items(w1, s, i + 1);
    }
}

/// Let bindings render verbatim: `let` and `=` are re-emitted from their
/// own text.
proof fn lemma_noop_let_items(w: WriterV, s: Seq<Node>, i: int)
    requires
        noopish(w),
        wf_seq(s),
        0 <= i <= s.len(),
    ensures
        obs_eq(let_items(w, s, i), writer_push(w, flatten_seq(s.skip(i)))),
    decreases s, 1int, s.len() - i,
{
    if i >= s.len() {
        lemma_flatten_skip_end(s);
    } else {
        lemma_wf_seq_index(s, i);
        let c = s[i];
        let w1 = if is_expr(c.kind) || c.kind == Kind::Underscore || c.kind == Kind::Destructuring {
            lemma_noop_node(w, c);
            render_node_spec(w, c)
        } else if c.kind == Kind::Eq || c.kind == Kind::Let {
            lemma_token_push(w, s, i);
            writer_push(w, c.text@)
        } else {
            lemma_noop_anon(w, c);
            render_anon_spec(w, c)
        };
        lemma_chain(w, w1, s, i);
        lemma_noop_let_items(w1, s, i + 1);
    }
}

/// Conditionals render verbatim: no separator is emitted and `else` is
/// re-emitted from its own text.
proof fn lemma_noop_cond_items(w: WriterV, s: Seq<Node>, i: int)
    requires
        noopish(w),
        wf_seq(s),
        0 <= i <= s.len(),
    ensures
        obs_eq(cond_items(w, s, i), writer_push(w, flatten_seq(s.skip(i)))),
    decreases s, 1int, s.len() - i,
{
    if i >= s.len() {
        lemma_flatten_skip_end(s);
    } else {
        lemma_wf_seq_index(s, i);
        let c = s[i];
        assert(cond_sep(w, s, i) == w);
        let w1 = if is_expr(c.kind) {
            lemma_noop_node(w, c);
            render_node_spec(w, c)
        } else if c.kind == Kind::Else {
            lemma_token_push(w, s, i);
            writer_push(w, c.text@)
        } else {
            lemma_noop_anon(w, c);
            render_anon_spec(w, c)
        };
        lemma_chain(w, w1, s, i);
        lemma_noop_cond_items(w1, s, i + 1);
    }
}

/// Named entries render verbatim: the colon is re-emitted from its own
/// text.
proof fn lemma_noop_named_items(w: WriterV, s: Seq<Node>, i: int)
    requires
        noopish(w),
        wf_seq(s),
        0 <= i <= s.len(),
    ensures
        obs_eq(named_items(w, s, i), writer_push(w, flatten_seq(s.skip(i)))),
    decreases s, 1int, s.len() - i,
{
    if i >= s.len() {
        lemma_flatten_skip_end(s);
    } else {
        lemma_wf_seq_index(s, i);
        let c = s[i];
        let w1 = if is_expr(c.kind) {
            lemma_noop_node(w, c);
            render_node_spec(w, c)
        } else if c.kind == Kind::Colon {
            lemma_token_push(w, s, i);
            writer_push(w, c.text@)
        } else {
            lemma_noop_anon(w, c);
            render_anon_spec(w, c)
        };
        lemma_chain(w, w1, s, i);
        lemma_noop_named_items(w1, s, i + 1);
    }
}

/// The whole no-op rendering law: under the no-op configuration, rendering
/// a well-shaped tree from a fresh writer yields exactly the tree's
/// flattened source text, provided that text ends with a line terminator
/// (or is empty) so that finishing the writer has nothing left to flush.
pub proof fn lemma_noop_rendered(t: Node)
    requires
        wf_node(t),
        flatten(t).len() == 0 || flatten(t)[flatten(t).len() - 1] == '\n',
    ensures
        crate::render::rendered(t, Config::no_changes_spec()) == flatten(t),
{
    let cfg = Config::no_changes_spec();
    let w0 = crate::writer::writer_init(cfg);
    lemma_noop_node(w0, t);
    let wr = render_node_spec(w0, t);
    let wp = writer_push(w0, flatten(t));
    lemma_push_cat(w0, flatten(t));
    if flatten(t).len() == 0 {
        assert(wp == w0);
        assert(writer_finish(wr) =~= flatten(t));
    } else {
        lemma_push_last_nl(w0, flatten(t));
        assert(wr.line.len() == 0);
        assert(wr.value =~= flatten(t));
    }
}

} // verus!

