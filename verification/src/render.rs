//! The tree-walking renderer.
//!
//! For every syntax-node kind this module decides which writer primitives
//! run, in what order and with what spacing, guided by the configuration
//! and by structural hints taken from the original tree (whether a group
//! already spanned several lines, whether the author already typed a
//! space). The whole policy is first stated as pure functions over the
//! writer's abstract state; the executable renderer is proved to follow
//! them step for step.

use vstd::prelude::*;
use vstd::string::StrSliceExecFns;

use crate::node::Kind;
use crate::node::Node;
use crate::node::is_binop;
use crate::node::is_expr;
use crate::node::is_grouping;
use crate::node::is_opening;
use crate::node::is_trivia;
use crate::writer::Writer;
use crate::writer::WriterV;
use crate::writer::writer_close;
use crate::writer::writer_dec;
use crate::writer::writer_flush;
use crate::writer::writer_inc;
use crate::writer::writer_open;
use crate::writer::writer_parbreak;
use crate::writer::writer_push;
use crate::writer::writer_space;

verus! {

/// Whether `c` occurs in `s`.
pub open spec fn contains_char(s: Seq<char>, c: char) -> bool {
    exists|i: int| 0 <= i < s.len() && s[i] == c
}

/// Whether `s` contains a blank line: two newlines in a row.
pub open spec fn has_blank(s: Seq<char>) -> bool {
    exists|i: int| 0 <= i && i + 1 < s.len() && #[trigger] s[i] == '\n' && s[i + 1] == '\n'
}

/// Whether `s` ends with a space character.
pub open spec fn ends_with_space(s: Seq<char>) -> bool {
    s.len() > 0 && s[s.len() - 1] == ' '
}

/// Whether `s` starts with a space character.
pub open spec fn starts_with_space(s: Seq<char>) -> bool {
    s.len() > 0 && s[0] == ' '
}

/// Whether any direct child is a whitespace run containing a line break:
/// the structural hint that the author already split the group.
pub open spec fn any_space_nl(s: Seq<Node>) -> bool {
    exists|i: int|
        0 <= i < s.len() && s[i].kind == Kind::Space && contains_char(s[i].text@, '\n')
}

/// Whether anything meaningful follows index `j` in an argument list:
/// neither trivia, nor brackets, nor a trailing content block or colon.
pub open spec fn has_next_arg(s: Seq<Node>, j: int) -> bool {
    exists|k: int|
        j <= k < s.len() && !is_trivia(s[k].kind) && !is_grouping(s[k].kind)
            && s[k].kind != Kind::ContentBlock && s[k].kind != Kind::Colon
}

/// Whether anything meaningful follows index `j` in a parameter list.
pub open spec fn has_next_param(s: Seq<Node>, j: int) -> bool {
    exists|k: int| j <= k < s.len() && !is_trivia(s[k].kind) && !is_grouping(s[k].kind)
}

/// Whether anything meaningful follows index `j` in a dictionary:
/// neither trivia, nor brackets, nor a content block or comma.
pub open spec fn has_next_entry(s: Seq<Node>, j: int) -> bool {
    exists|k: int|
        j <= k < s.len() && !is_trivia(s[k].kind) && !is_grouping(s[k].kind)
            && s[k].kind != Kind::ContentBlock && s[k].kind != Kind::Comma
}

/// Unicode whitespace, as `trim` removes it at the ends of comment lines.
pub open spec fn is_ws(c: char) -> bool {
    c == ' ' || c == '\t' || c == '\n' || c == '\r' || c == '\x0b' || c == '\x0c'
        || c == '\u{85}' || c == '\u{a0}' || c == '\u{1680}'
        || ('\u{2000}' <= c && c <= '\u{200a}') || c == '\u{2028}' || c == '\u{2029}'
        || c == '\u{202f}' || c == '\u{205f}' || c == '\u{3000}'
}

/// The number of leading whitespace characters of `s`.
pub open spec fn lead_ws(s: Seq<char>) -> nat
    decreases s.len(),
{
    if s.len() == 0 {
        0
    } else if is_ws(s[0]) {
        1 + lead_ws(s.drop_first())
    } else {
        0
    }
}

/// The number of trailing whitespace characters of `s`.
pub open spec fn trail_ws(s: Seq<char>) -> nat
    decreases s.len(),
{
    if s.len() == 0 {
        0
    } else if is_ws(s.last()) {
        1 + trail_ws(s.drop_last())
    } else {
        0
    }
}

/// `s` with leading and trailing whitespace removed.
pub open spec fn trimmed(s: Seq<char>) -> Seq<char> {
    if lead_ws(s) == s.len() {
        Seq::empty()
    } else {
        s.subrange(lead_ws(s) as int, s.len() - trail_ws(s))
    }
}

/// The index of the first newline in `s`, or its length if there is none.
pub open spec fn first_nl(s: Seq<char>) -> nat
    decreases s.len(),
{
    if s.len() == 0 {
        0
    } else if s[0] == '\n' {
        0
    } else {
        1 + first_nl(s.drop_first())
    }
}

/// One re-indented line of a multi-line block comment: the line is trimmed,
/// given one leading space when it starts with `*` (so continuation stars
/// align under the opening `/*`), emitted, and terminated.
pub open spec fn bc_line(w: WriterV, l: Seq<char>) -> WriterV {
    let w1 = if l.len() > 0 && l[0] == '*' && w.cfg.spacing {
        writer_push(w, " "@)
    } else {
        w
    };
    soft_break(writer_push(w1, l))
}

/// A multi-line block comment, line by line; a final line terminator
/// contributes no extra empty line.
pub open spec fn bc_lines(w: WriterV, t: Seq<char>) -> WriterV
    decreases t.len(),
{
    let j = first_nl(t) as int;
    let w1 = bc_line(w, trimmed(t.take(j)));
    if j >= t.len() {
        w1
    } else {
        let rest = t.skip(j + 1);
        if rest.len() == 0 {
            w1
        } else {
            bc_lines(w1, rest)
        }
    }
}

/// A line break that only takes effect when the pending line has
/// content: the renderer's way of forcing a break without stacking empty
/// lines when one was just emitted.
pub open spec fn soft_break(w: WriterV) -> WriterV {
    if w.line.len() == 0 {
        w
    } else {
        writer_flush(w)
    }
}

/// Kinds that take the per-kind rendering rules when they occur as
/// children of an expression context.
pub open spec fn dispatches(k: Kind) -> bool {
    is_expr(k) || k == Kind::Code
}

/// A whitespace run. With spacing normalization on, a run with a blank
/// line becomes a paragraph break, a run with a newline becomes a line
/// break, and anything else collapses to one space; with it off, the run
/// is emitted verbatim.
pub open spec fn render_space_spec(w: WriterV, n: Node) -> WriterV {
    if w.cfg.spacing {
        if has_blank(n.text@) {
            writer_parbreak(w)
        } else if contains_char(n.text@, '\n') {
            soft_break(w)
        } else {
            writer_space(w)
        }
    } else {
        writer_push(w, n.text@)
    }
}

/// The space or line break emitted before a branch of a conditional: the
/// original line break is kept when the author split the branches and
/// multi-line mode allows it, otherwise a single space.
pub open spec fn cond_sep(w: WriterV, s: Seq<Node>, i: int) -> WriterV {
    if w.cfg.multiline && i > 0 && s[i - 1].kind == Kind::Space && contains_char(
        s[i - 1].text@,
        '\n',
    ) {
        soft_break(w)
    } else if w.cfg.spacing {
        writer_push(w, " "@)
    } else {
        w
    }
}

/// The comma after a rendered argument: in multi-line mode a trailing
/// comma and a line break; otherwise, under spacing normalization, a
/// comma (and a space) only if anything meaningful follows; verbatim
/// otherwise. Applies only between the parentheses of the call.
pub open spec fn past_arg(w: WriterV, s: Seq<Node>, i: int, ml: bool, inp: bool) -> WriterV {
    if inp {
        if ml {
            soft_break(writer_push(w, ","@))
        } else if w.cfg.spacing && has_next_arg(s, i + 1) {
            writer_push(writer_push(w, ","@), " "@)
        } else {
            w
        }
    } else {
        w
    }
}

/// The comma after a dictionary entry; like [`past_arg`] but never
/// conditional on parentheses.
pub open spec fn past_entry(w: WriterV, s: Seq<Node>, i: int, ml: bool) -> WriterV {
    if ml {
        soft_break(writer_push(w, ","@))
    } else if w.cfg.spacing && has_next_entry(s, i + 1) {
        writer_push(writer_push(w, ","@), " "@)
    } else {
        w
    }
}

/// The comma after a parameter; like [`past_arg`] with the parameter
/// list's weaker lookahead.
pub open spec fn past_param(w: WriterV, s: Seq<Node>, i: int, ml: bool) -> WriterV {
    if ml {
        soft_break(writer_push(w, ","@))
    } else if w.cfg.spacing && has_next_param(s, i + 1) {
        writer_push(writer_push(w, ","@), " "@)
    } else {
        w
    }
}

/// Dispatch for one node of the tree.
pub open spec fn render_node_spec(w: WriterV, n: Node) -> WriterV
    decreases n, 3int, 0int,
{
    match n.kind {
        Kind::Markup => markup_items(w, n.children@, 0),
        Kind::Space => render_space_spec(w, n),
        Kind::Parbreak => if w.cfg.spacing {
            writer_parbreak(w)
        } else {
            render_anon_spec(w, n)
        },
        Kind::ListItem | Kind::EnumItem => list_items(w, n.children@, 0),
        Kind::TermItem => term_items(w, n.children@, 0),
        Kind::Dict => dict_items(w, n.children@, 0, w.cfg.multiline && any_space_nl(n.children@)),
        Kind::Binary => binary_items(w, n.children@, 0),
        Kind::FuncCall | Kind::SetRule => call_items(w, n.children@, 0),
        Kind::Closure => closure_items(w, n.children@, 0),
        Kind::LetBinding => let_items(w, n.children@, 0),
        Kind::Conditional => cond_items(w, n.children@, 0),
        Kind::Named => named_items(w, n.children@, 0),
        Kind::Strong | Kind::Emph | Kind::Heading | Kind::ContentBlock => markup_anon_items(
            w,
            n.children@,
            0,
        ),
        Kind::Code | Kind::CodeBlock | Kind::Equation | Kind::Math | Kind::MathCall
            | Kind::MathDelimited | Kind::MathAttach | Kind::MathFrac | Kind::MathRoot
            | Kind::MathPrimes | Kind::MathFieldAccess | Kind::Parenthesized | Kind::Array
            | Kind::Unary | Kind::WhileLoop | Kind::ForLoop | Kind::Keyed | Kind::FuncReturn
            | Kind::ModuleInclude | Kind::ModuleImport | Kind::FieldAccess | Kind::Spread
            | Kind::DestructAssignment | Kind::Contextual | Kind::ShowRule | Kind::Ref => expr_anon_items(
            w,
            n.children@,
            0,
        ),
        _ => render_anon_spec(w, n),
    }
}

/// The anonymous fallback: whitespace collapses, brackets open and close
/// indented groups, comments are re-indented, and any other node is its
/// text followed by its children, unchanged.
pub open spec fn render_anon_spec(w: WriterV, n: Node) -> WriterV
    decreases n, 2int, 0int,
{
    if n.kind == Kind::Space {
        render_space_spec(w, n)
    } else if is_opening(n.kind) {
        writer_open(w, n.text@)
    } else if is_grouping(n.kind) {
        writer_close(w, n.text@)
    } else if w.cfg.spacing && n.kind == Kind::LineComment {
        let w1 = writer_push(w, n.text@);
        if w.cfg.multiline {
            soft_break(w1)
        } else {
            w1
        }
    } else if w.cfg.spacing && n.kind == Kind::BlockComment {
        if contains_char(n.text@, '\n') {
            bc_lines(w, n.text@)
        } else {
            writer_push(w, n.text@)
        }
    } else {
        anon_items(writer_push(w, n.text@), n.children@, 0)
    }
}

/// Children of an anonymous node, all through the fallback.
pub open spec fn anon_items(w: WriterV, s: Seq<Node>, i: int) -> WriterV
    decreases s, 1int, s.len() - i,
{
    if i < 0 || i >= s.len() {
        w
    } else {
        anon_items(render_anon_spec(w, s[i]), s, i + 1)
    }
}

/// Children rendered through the expression rules where they are
/// expressions, through the fallback otherwise.
pub open spec fn expr_anon_items(w: WriterV, s: Seq<Node>, i: int) -> WriterV
    decreases s, 1int, s.len() - i,
{
    if i < 0 || i >= s.len() {
        w
    } else {
        let w1 = if dispatches(s[i].kind) {
            render_node_spec(w, s[i])
        } else {
            render_anon_spec(w, s[i])
        };
        expr_anon_items(w1, s, i + 1)
    }
}

/// Children of markup containers: nested markup recurses, the rest falls
/// back.
pub open spec fn markup_anon_items(w: WriterV, s: Seq<Node>, i: int) -> WriterV
    decreases s, 1int, s.len() - i,
{
    if i < 0 || i >= s.len() {
        w
    } else {
        let w1 = if s[i].kind == Kind::Markup {
            render_node_spec(w, s[i])
        } else {
            render_anon_spec(w, s[i])
        };
        markup_anon_items(w1, s, i + 1)
    }
}

/// Top-level markup. A paragraph break between two pieces of content
/// stays a paragraph break; one at the very start or end of the markup
/// collapses to a single line break (under spacing normalization).
pub open spec fn markup_items(w: WriterV, s: Seq<Node>, i: int) -> WriterV
    decreases s, 1int, s.len() - i,
{
    if i < 0 || i >= s.len() {
        w
    } else {
        let c = s[i];
        let w1 = if c.kind == Kind::Parbreak {
            if w.cfg.spacing {
                if 0 < i && i + 1 < s.len() {
                    writer_parbreak(w)
                } else {
                    soft_break(w)
                }
            } else {
                render_anon_spec(w, c)
            }
        } else if is_expr(c.kind) {
            render_node_spec(w, c)
        } else {
            render_anon_spec(w, c)
        };
        markup_items(w1, s, i + 1)
    }
}

/// A list or enumeration item: the marker, one space, and the body one
/// indentation level deeper so wrapped lines align under the marker.
pub open spec fn list_items(w: WriterV, s: Seq<Node>, i: int) -> WriterV
    decreases s, 1int, s.len() - i,
{
    if i < 0 || i >= s.len() {
        writer_dec(w)
    } else {
        let c = s[i];
        let w1 = if c.kind == Kind::ListMarker || c.kind == Kind::EnumMarker {
            let wa = render_anon_spec(w, c);
            let wb = if w.cfg.spacing {
                writer_space(wa)
            } else {
                wa
            };
            writer_inc(wb)
        } else if w.cfg.spacing && c.kind == Kind::Space {
            w
        } else {
            render_anon_spec(w, c)
        };
        list_items(w1, s, i + 1)
    }
}

/// A term-list item: like a list item, with the colon after the term
/// followed by one space.
pub open spec fn term_items(w: WriterV, s: Seq<Node>, i: int) -> WriterV
    decreases s, 1int, s.len() - i,
{
    if i < 0 || i >= s.len() {
        writer_dec(w)
    } else {
        let c = s[i];
        let w1 = if c.kind == Kind::TermMarker {
            let wa = render_anon_spec(w, c);
            let wb = if w.cfg.spacing {
                writer_space(wa)
            } else {
                wa
            };
            writer_inc(wb)
        } else if c.kind == Kind::Colon {
            let wa = writer_push(w, c.text@);
            if w.cfg.spacing {
                writer_space(wa)
            } else {
                wa
            }
        } else if w.cfg.spacing && c.kind == Kind::Space {
            w
        } else {
            render_anon_spec(w, c)
        };
        term_items(w1, s, i + 1)
    }
}

/// A dictionary literal: entries with their separating commas, exploded
/// one per line when the author already split the dictionary.
pub open spec fn dict_items(w: WriterV, s: Seq<Node>, i: int, ml: bool) -> WriterV
    decreases s, 1int, s.len() - i,
{
    if i < 0 || i >= s.len() {
        w
    } else {
        let c = s[i];
        let w1 = if c.kind == Kind::Named || c.kind == Kind::Keyed || c.kind == Kind::Spread {
            past_entry(render_node_spec(w, c), s, i, ml)
        } else if ml && c.kind == Kind::LeftParen {
            soft_break(writer_open(w, c.text@))
        } else if (w.cfg.spacing || ml) && (c.kind == Kind::Comma || c.kind == Kind::Space) {
            w
        } else {
            render_anon_spec(w, c)
        };
        dict_items(w1, s, i + 1, ml)
    }
}

/// A binary operation: one space on each side of the operator under
/// spacing normalization.
pub open spec fn binary_items(w: WriterV, s: Seq<Node>, i: int) -> WriterV
    decreases s, 1int, s.len() - i,
{
    if i < 0 || i >= s.len() {
        w
    } else {
        let c = s[i];
        let w1 = if is_expr(c.kind) {
            render_node_spec(w, c)
        } else if w.cfg.spacing && is_binop(c.kind) {
            writer_push(writer_push(writer_push(w, " "@), c.text@), " "@)
        } else if w.cfg.spacing && c.kind == Kind::Space {
            w
        } else {
            render_anon_spec(w, c)
        };
        binary_items(w1, s, i + 1)
    }
}

/// A function call or set rule: the callee, then the argument list.
pub open spec fn call_items(w: WriterV, s: Seq<Node>, i: int) -> WriterV
    decreases s, 1int, s.len() - i,
{
    if i < 0 || i >= s.len() {
        w
    } else {
        let c = s[i];
        let w1 = if is_expr(c.kind) {
            render_node_spec(w, c)
        } else if c.kind == Kind::Args {
            render_args_spec(w, c)
        } else {
            render_anon_spec(w, c)
        };
        call_items(w1, s, i + 1)
    }
}

/// An argument list node.
pub open spec fn render_args_spec(w: WriterV, n: Node) -> WriterV
    decreases n, 2int, 0int,
{
    args_items(w, n.children@, 0, w.cfg.multiline && any_space_nl(n.children@), false)
}

/// The pieces of an argument list; `inp` tracks whether rendering is
/// between the parentheses, where separating commas belong.
pub open spec fn args_items(w: WriterV, s: Seq<Node>, i: int, ml: bool, inp: bool) -> WriterV
    decreases s, 1int, s.len() - i,
{
    if i < 0 || i >= s.len() {
        w
    } else {
        let c = s[i];
        if is_expr(c.kind) || c.kind == Kind::Named || c.kind == Kind::Spread {
            args_items(past_arg(render_node_spec(w, c), s, i, ml, inp), s, i + 1, ml, inp)
        } else if c.kind == Kind::LeftParen {
            let w1 = if ml {
                soft_break(writer_open(w, c.text@))
            } else {
                render_anon_spec(w, c)
            };
            args_items(w1, s, i + 1, ml, true)
        } else if c.kind == Kind::RightParen {
            args_items(render_anon_spec(w, c), s, i + 1, ml, false)
        } else if (w.cfg.spacing || ml) && (c.kind == Kind::Comma || c.kind == Kind::Space) {
            args_items(w, s, i + 1, ml, inp)
        } else {
            args_items(render_anon_spec(w, c), s, i + 1, ml, inp)
        }
    }
}

/// A parameter list node.
pub open spec fn render_params_spec(w: WriterV, n: Node) -> WriterV
    decreases n, 2int, 0int,
{
    params_items(w, n.children@, 0, w.cfg.multiline && any_space_nl(n.children@))
}

/// The pieces of a parameter list.
pub open spec fn params_items(w: WriterV, s: Seq<Node>, i: int, ml: bool) -> WriterV
    decreases s, 1int, s.len() - i,
{
    if i < 0 || i >= s.len() {
        w
    } else {
        let c = s[i];
        let w1 = if is_expr(c.kind) || c.kind == Kind::Named || c.kind == Kind::Spread || c.kind
            == Kind::Underscore || c.kind == Kind::Destructuring {
            past_param(render_node_spec(w, c), s, i, ml)
        } else if ml && c.kind == Kind::LeftParen {
            soft_break(writer_open(w, c.text@))
        } else if (w.cfg.spacing || ml) && (c.kind == Kind::Comma || c.kind == Kind::Space) {
            w
        } else {
            render_anon_spec(w, c)
        };
        params_items(w1, s, i + 1, ml)
    }
}

/// A closure: parameters through the parameter rules, one space around
/// the arrow or the equals sign of a named function.
pub open spec fn closure_items(w: WriterV, s: Seq<Node>, i: int) -> WriterV
    decreases s, 1int, s.len() - i,
{
    if i < 0 || i >= s.len() {
        w
    } else {
        let c = s[i];
        let w1 = if is_expr(c.kind) {
            render_node_spec(w, c)
        } else if c.kind == Kind::Params {
            render_params_spec(w, c)
        } else if c.kind == Kind::Arrow || c.kind == Kind::Eq {
            let wa = if w.cfg.spacing {
                writer_space(w)
            } else {
                w
            };
            let wb = writer_push(wa, c.text@);
            if w.cfg.spacing {
                writer_space(wb)
            } else {
                wb
            }
        } else if w.cfg.spacing && c.kind == Kind::Space {
            w
        } else {
            render_anon_spec(w, c)
        };
        closure_items(w1, s, i + 1)
    }
}

/// A let binding: `let`, the bound pattern, and one space around `=`
/// unless the author already typed one right there.
pub open spec fn let_items(w: WriterV, s: Seq<Node>, i: int) -> WriterV
    decreases s, 1int, s.len() - i,
{
    if i < 0 || i >= s.len() {
        w
    } else {
        let c = s[i];
        let w1 = if is_expr(c.kind) || c.kind == Kind::Underscore || c.kind == Kind::Destructuring {
            render_node_spec(w, c)
        } else if c.kind == Kind::Eq {
            let before = i > 0 && s[i - 1].kind != Kind::Space && ends_with_space(s[i - 1].text@);
            let after = i + 1 < s.len() && s[i + 1].kind != Kind::Space && starts_with_space(
                s[i + 1].text@,
            );
            let wa = if w.cfg.spacing && !before {
                writer_push(w, " "@)
            } else {
                w
            };
            let wb = writer_push(wa, c.text@);
            if w.cfg.spacing && !after {
                writer_push(wb, " "@)
            } else {
                wb
            }
        } else if c.kind == Kind::Let {
            let wa = writer_push(w, c.text@);
            if w.cfg.spacing {
                writer_push(wa, " "@)
            } else {
                wa
            }
        } else if w.cfg.spacing && c.kind == Kind::Space {
            w
        } else {
            render_anon_spec(w, c)
        };
        let_items(w1, s, i + 1)
    }
}

/// A conditional: branches separated by one space, or by the original
/// line break when the author split them and multi-line mode is on.
pub open spec fn cond_items(w: WriterV, s: Seq<Node>, i: int) -> WriterV
    decreases s, 1int, s.len() - i,
{
    if i < 0 || i >= s.len() {
        w
    } else {
        let c = s[i];
        let w1 = if is_expr(c.kind) {
            render_node_spec(cond_sep(w, s, i), c)
        } else if c.kind == Kind::Else {
            writer_push(cond_sep(w, s, i), c.text@)
        } else if (w.cfg.spacing || w.cfg.multiline) && c.kind == Kind::Space {
            w
        } else {
            render_anon_spec(w, c)
        };
        cond_items(w1, s, i + 1)
    }
}

/// A named entry or argument: the colon is followed by one space.
pub open spec fn named_items(w: WriterV, s: Seq<Node>, i: int) -> WriterV
    decreases s, 1int, s.len() - i,
{
    if i < 0 || i >= s.len() {
        w
    } else {
        let c = s[i];
        let w1 = if is_expr(c.kind) {
            render_node_spec(w, c)
        } else if c.kind == Kind::Colon {
            let wa = writer_push(w, c.text@);
            if w.cfg.spacing {
                writer_push(wa, " "@)
            } else {
                wa
            }
        } else if w.cfg.spacing && c.kind == Kind::Space {
            w
        } else {
            render_anon_spec(w, c)
        };
        named_items(w1, s, i + 1)
    }
}

/// Executable twin of [`is_expr`].
fn is_expr_k(k: Kind) -> (r: bool)
    ensures
        r == is_expr(k),
{
    matches!(
        k,
        Kind::Linebreak | Kind::Parbreak | Kind::Text | Kind::Escape | Kind::Shorthand
            | Kind::SmartQuote | Kind::Strong | Kind::Emph | Kind::Raw | Kind::Link
            | Kind::Label | Kind::Ref | Kind::Heading | Kind::ListItem | Kind::EnumItem
            | Kind::TermItem | Kind::Equation | Kind::Math | Kind::MathText | Kind::MathIdent
            | Kind::MathFieldAccess | Kind::MathShorthand | Kind::MathAlignPoint
            | Kind::MathCall | Kind::MathDelimited | Kind::MathAttach | Kind::MathPrimes
            | Kind::MathFrac | Kind::MathRoot | Kind::Ident | Kind::NoneKw | Kind::Auto
            | Kind::Bool | Kind::Int | Kind::Float | Kind::Numeric | Kind::Str
            | Kind::CodeBlock | Kind::ContentBlock | Kind::Parenthesized | Kind::Array
            | Kind::Dict | Kind::Unary | Kind::Binary | Kind::FieldAccess | Kind::FuncCall
            | Kind::Closure | Kind::LetBinding | Kind::DestructAssignment | Kind::SetRule
            | Kind::ShowRule | Kind::Contextual | Kind::Conditional | Kind::WhileLoop
            | Kind::ForLoop | Kind::ModuleImport | Kind::ModuleInclude | Kind::LoopBreak
            | Kind::LoopContinue | Kind::FuncReturn
    )
}

/// Executable twin of [`is_opening`].
fn is_opening_k(k: Kind) -> (r: bool)
    ensures
        r == is_opening(k),
{
    matches!(k, Kind::LeftBrace | Kind::LeftBracket | Kind::LeftParen)
}

/// Executable twin of [`is_grouping`].
fn is_grouping_k(k: Kind) -> (r: bool)
    ensures
        r == is_grouping(k),
{
    matches!(
        k,
        Kind::LeftBrace
            | Kind::RightBrace
            | Kind::LeftBracket
            | Kind::RightBracket
            | Kind::LeftParen
            | Kind::RightParen
    )
}

/// Executable twin of [`is_trivia`].
fn is_trivia_k(k: Kind) -> (r: bool)
    ensures
        r == is_trivia(k),
{
    matches!(
        k,
        Kind::Shebang | Kind::LineComment | Kind::BlockComment | Kind::Space | Kind::Parbreak
    )
}

/// Executable twin of [`is_binop`].
fn is_binop_k(k: Kind) -> (r: bool)
    ensures
        r == is_binop(k),
{
    matches!(
        k,
        Kind::Plus | Kind::Minus | Kind::Star | Kind::Slash | Kind::And | Kind::Or
            | Kind::EqEq | Kind::ExclEq | Kind::Lt | Kind::LtEq | Kind::Gt | Kind::GtEq
            | Kind::Eq | Kind::In | Kind::PlusEq | Kind::HyphEq | Kind::StarEq | Kind::SlashEq
    )
}

/// Executable twin of [`is_ws`].
fn is_ws_c(c: char) -> (r: bool)
    ensures
        r == is_ws(c),
{
    c == ' ' || c == '\t' || c == '\n' || c == '\r' || c == '\x0b' || c == '\x0c'
        || c == '\u{85}' || c == '\u{a0}' || c == '\u{1680}'
        || ('\u{2000}' <= c && c <= '\u{200a}') || c == '\u{2028}' || c == '\u{2029}'
        || c == '\u{202f}' || c == '\u{205f}' || c == '\u{3000}'
}

/// Force a line break unless one was just emitted; executable twin of
/// [`soft_break`].
fn break_soft(w: &mut Writer)
    ensures
        final(w)@ == soft_break(old(w)@),
{
    if !w.pending_empty() {
        w.newline();
    }
}

/// Whether `c` occurs in `s`; executable twin of [`contains_char`].
fn str_contains_char(s: &str, c: char) -> (r: bool)
    ensures
        r == contains_char(s@, c),
{
    let len = s.unicode_len();
    let mut i: usize = 0;
    while i < len
        invariant
            len == s@.len(),
            0 <= i <= len,
            forall|j: int| 0 <= j < i ==> s@[j] != c,
        decreases len - i,
    {
        if s.get_char(i) == c {
            return true;
        }
        i = i + 1;
    }
    false
}

/// Whether `s` contains a blank line; executable twin of [`has_blank`].
fn str_has_blank(s: &str) -> (r: bool)
    ensures
        r == has_blank(s@),
{
    let len = s.unicode_len();
    if len < 2 {
        return false;
    }
    let mut i: usize = 1;
    while i < len
        invariant
            len == s@.len(),
            1 <= i <= len,
            forall|j: int| 0 <= j && j + 1 < i ==> !(#[trigger] s@[j] == '\n' && s@[j + 1] == '\n'),
        decreases len - i,
    {
        if s.get_char(i - 1) == '\n' && s.get_char(i) == '\n' {
            return true;
        }
        i = i + 1;
    }
    false
}

/// Whether `s` ends with a space; executable twin of [`ends_with_space`].
fn str_ends_with_space(s: &str) -> (r: bool)
    ensures
        r == ends_with_space(s@),
{
    let len = s.unicode_len();
    len > 0 && s.get_char(len - 1) == ' '
}

/// Whether `s` starts with a space; executable twin of
/// [`starts_with_space`].
fn str_starts_with_space(s: &str) -> (r: bool)
    ensures
        r == starts_with_space(s@),
{
    let len = s.unicode_len();
    len > 0 && s.get_char(0) == ' '
}

/// Executable twin of [`any_space_nl`].
fn any_space_nl_v(s: &Vec<Node>) -> (r: bool)
    ensures
        r == any_space_nl(s@),
{
    let mut i: usize = 0;
    while i < s.len()
        invariant
            0 <= i <= s@.len(),
            forall|j: int|
                0 <= j < i ==> !(#[trigger] s@[j].kind == Kind::Space && contains_char(
                    s@[j].text@,
                    '\n',
                )),
        decreases s@.len() - i,
    {
        if s[i].kind == Kind::Space && str_contains_char(s[i].text.as_str(), '\n') {
            return true;
        }
        i = i + 1;
    }
    false
}

/// Executable twin of [`has_next_arg`].
fn has_next_arg_v(s: &Vec<Node>, j: usize) -> (r: bool)
    ensures
        r == has_next_arg(s@, j as int),
{
    let mut k: usize = j;
    while k < s.len()
        invariant
            j <= k,
            forall|m: int|
                j <= m < k && m < s@.len() ==> !(!is_trivia(#[trigger] s@[m].kind) && !is_grouping(
                    s@[m].kind,
                ) && s@[m].kind != Kind::ContentBlock && s@[m].kind != Kind::Colon),
        decreases s@.len() - k,
    {
        let kd = s[k].kind;
        if !is_trivia_k(kd) && !is_grouping_k(kd) && !(kd == Kind::ContentBlock) && !(kd
            == Kind::Colon) {
            return true;
        }
        k = k + 1;
    }
    false
}

/// Executable twin of [`has_next_param`].
fn has_next_param_v(s: &Vec<Node>, j: usize) -> (r: bool)
    ensures
        r == has_next_param(s@, j as int),
{
    let mut k: usize = j;
    while k < s.len()
        invariant
            j <= k,
            forall|m: int|
                j <= m < k && m < s@.len() ==> !(!is_trivia(#[trigger] s@[m].kind) && !is_grouping(
                    s@[m].kind,
                )),
        decreases s@.len() - k,
    {
        let kd = s[k].kind;
        if !is_trivia_k(kd) && !is_grouping_k(kd) {
            return true;
        }
        k = k + 1;
    }
    false
}

/// Executable twin of [`has_next_entry`].
fn has_next_entry_v(s: &Vec<Node>, j: usize) -> (r: bool)
    ensures
        r == has_next_entry(s@, j as int),
{
    let mut k: usize = j;
    while k < s.len()
        invariant
            j <= k,
            forall|m: int|
                j <= m < k && m < s@.len() ==> !(!is_trivia(#[trigger] s@[m].kind) && !is_grouping(
                    s@[m].kind,
                ) && s@[m].kind != Kind::ContentBlock && s@[m].kind != Kind::Comma),
        decreases s@.len() - k,
    {
        let kd = s[k].kind;
        if !is_trivia_k(kd) && !is_grouping_k(kd) && !(kd == Kind::ContentBlock) && !(kd
            == Kind::Comma) {
            return true;
        }
        k = k + 1;
    }
    false
}

/// The text a tree renders to under a configuration, starting from a
/// fresh writer.
pub open spec fn rendered(n: Node, cfg: crate::config::Config) -> Seq<char> {
    crate::writer::writer_finish(render_node_spec(crate::writer::writer_init(cfg), n))
}

/// Renderer that has the information for writing out.
pub struct Renderer {
    /// The writer that accumulates the rendered text.
    pub writer: Writer,
}

impl Renderer {
    /// Render the tree from the given node.
    pub fn render(&mut self, node: &Node)
        ensures
            final(self).writer@ == render_node_spec(old(self).writer@, *node),
    {
        render_node(&mut self.writer, node);
    }

    /// Get the rendered value.
    pub fn finish(self) -> (r: String)
        ensures
            r@ == crate::writer::writer_finish(self.writer@),
    {
        self.writer.finish()
    }
}

/// `first_nl` is exactly the scan that stops at the first newline.
proof fn lemma_first_nl_char(t: Seq<char>, k: int)
    requires
        0 <= k <= t.len(),
        forall|m: int| 0 <= m < k ==> t[m] != '\n',
        k == t.len() || t[k] == '\n',
    ensures
        first_nl(t) == k,
    decreases k,
{
    if k > 0 {
        lemma_first_nl_char(t.drop_first(), k - 1);
    }
}

/// `lead_ws` is exactly the scan that stops at the first character that is
/// not whitespace.
proof fn lemma_lead_ws_char(l: Seq<char>, k: int)
    requires
        0 <= k <= l.len(),
        forall|m: int| 0 <= m < k ==> is_ws(l[m]),
        k == l.len() || !is_ws(l[k]),
    ensures
        lead_ws(l) == k,
    decreases k,
{
    if k > 0 {
        lemma_lead_ws_char(l.drop_first(), k - 1);
    }
}

/// `trail_ws` is exactly the backwards scan that stops at the last
/// character that is not whitespace.
proof fn lemma_trail_ws_char(l: Seq<char>, k: int)
    requires
        0 <= k <= l.len(),
        forall|m: int| l.len() - k <= m < l.len() ==> is_ws(l[m]),
        k == l.len() || !is_ws(l[l.len() - k - 1]),
    ensures
        trail_ws(l) == k,
    decreases k,
{
    if k > 0 {
        assert(l.drop_last() =~= l.subrange(0, l.len() - 1));
        lemma_trail_ws_char(l.drop_last(), k - 1);
    }
}

/// The index of the first newline at or after `i`, or the length.
fn find_nl(s: &str, i: usize) -> (j: usize)
    requires
        i <= s@.len(),
    ensures
        i <= j <= s@.len(),
        forall|m: int| i <= m < j ==> s@[m] != '\n',
        j == s@.len() || s@[j as int] == '\n',
{
    let len = s.unicode_len();
    let mut j: usize = i;
    while j < len
        invariant
            i <= j <= len,
            len == s@.len(),
            forall|m: int| i <= m < j ==> s@[m] != '\n',
        decreases len - j,
    {
        if s.get_char(j) == '\n' {
            return j;
        }
        j = j + 1;
    }
    j
}

/// The lines of a multi-line block comment, from character `i` on;
/// follows [`bc_lines`].
fn render_bc_lines(w: &mut Writer, s: &str, i: usize)
    requires
        i <= s@.len(),
    ensures
        final(w)@ == bc_lines(old(w)@, s@.skip(i as int)),
    decreases s@.len() - i,
{
    let ghost t = s@.skip(i as int);
    let len = s.unicode_len();
    let j = find_nl(s, i);
    let mut a: usize = i;
    while a < j && is_ws_c(s.get_char(a))
        invariant
            i <= a <= j,
            j <= len,
            len == s@.len(),
            forall|m: int| i <= m < a ==> is_ws(s@[m]),
        decreases j - a,
    {
        a = a + 1;
    }
    let mut b: usize = j;
    while b > a && is_ws_c(s.get_char(b - 1))
        invariant
            a <= b <= j,
            j <= len,
            len == s@.len(),
            forall|m: int| b <= m < j ==> is_ws(s@[m]),
            a == j || !is_ws(s@[a as int]),
        decreases b - a,
    {
        b = b - 1;
    }
    proof {
        assert(t.take(j - i) =~= s@.subrange(i as int, j as int));
        lemma_first_nl_char(t, j - i);
        let l = s@.subrange(i as int, j as int);
        lemma_lead_ws_char(l, a - i);
        if a < j {
            lemma_trail_ws_char(l, j - b);
            assert(trimmed(l) =~= s@.subrange(a as int, b as int));
        } else {
            assert(trimmed(l) =~= Seq::<char>::empty());
        }
    }
    let spacing = w.config().spacing;
    if a < b {
        if s.get_char(a) == '*' && spacing {
            w.push(" ");
        }
        let line = s.substring_char(a, b);
        w.push(line);
        break_soft(w);
    } else {
        proof {
            assert(writer_push(w@, Seq::<char>::empty()) == w@);
            assert(writer_push(
                writer_push(w@, " "@),
                Seq::<char>::empty(),
            ) == writer_push(w@, " "@));
        }
        break_soft(w);
    }
    proof {
        assert(bc_line(old(w)@, trimmed(t.take(first_nl(t) as int))) == w@);
    }
    if j < len {
        if j + 1 < len {
            proof {
                assert(t.skip(j - i + 1) =~= s@.skip(j + 1));
            }
            render_bc_lines(w, s, j + 1);
        } else {
            proof {
                assert(t.skip(j - i + 1).len() == 0);
            }
        }
    }
}

/// Render one node; follows [`render_node_spec`].
pub(crate) fn render_node(w: &mut Writer, n: &Node)
    ensures
        final(w)@ == render_node_spec(old(w)@, *n),
    decreases *n, 3int, 0int,
{
    match n.kind {
        Kind::Markup => {
            render_markup_items(w, &n.children, 0);
        },
        Kind::Space => {
            render_space(w, n);
        },
        Kind::Parbreak => {
            if w.config().spacing {
                w.parbreak();
            } else {
                render_anon(w, n);
            }
        },
        Kind::ListItem | Kind::EnumItem => {
            render_list_items(w, &n.children, 0);
        },
        Kind::TermItem => {
            render_term_items(w, &n.children, 0);
        },
        Kind::Dict => {
            let ml = w.config().multiline && any_space_nl_v(&n.children);
            render_dict_items(w, &n.children, 0, ml);
        },
        Kind::Binary => {
            render_binary_items(w, &n.children, 0);
        },
        Kind::FuncCall | Kind::SetRule => {
            render_call_items(w, &n.children, 0);
        },
        Kind::Closure => {
            render_closure_items(w, &n.children, 0);
        },
        Kind::LetBinding => {
            render_let_items(w, &n.children, 0);
        },
        Kind::Conditional => {
            render_cond_items(w, &n.children, 0);
        },
        Kind::Named => {
            render_named_items(w, &n.children, 0);
        },
        Kind::Strong | Kind::Emph | Kind::Heading | Kind::ContentBlock => {
            render_markup_anon_items(w, &n.children, 0);
        },
        Kind::Code | Kind::CodeBlock | Kind::Equation | Kind::Math | Kind::MathCall
            | Kind::MathDelimited | Kind::MathAttach | Kind::MathFrac | Kind::MathRoot
            | Kind::MathPrimes | Kind::MathFieldAccess | Kind::Parenthesized | Kind::Array
            | Kind::Unary | Kind::WhileLoop | Kind::ForLoop | Kind::Keyed | Kind::FuncReturn
            | Kind::ModuleInclude | Kind::ModuleImport | Kind::FieldAccess | Kind::Spread
            | Kind::DestructAssignment | Kind::Contextual | Kind::ShowRule | Kind::Ref => {
            render_expr_anon_items(w, &n.children, 0);
        },
        _ => {
            render_anon(w, n);
        },
    }
}

/// Render a node through the anonymous fallback; follows
/// [`render_anon_spec`].
fn render_anon(w: &mut Writer, n: &Node)
    ensures
        final(w)@ == render_anon_spec(old(w)@, *n),
    decreases *n, 2int, 0int,
{
    let spacing = w.config().spacing;
    let multiline = w.config().multiline;
    if n.kind == Kind::Space {
        render_space(w, n);
    } else if is_opening_k(n.kind) {
        w.open_grouping(n.text.as_str());
    } else if is_grouping_k(n.kind) {
        w.close_grouping(n.text.as_str());
    } else if spacing && n.kind == Kind::LineComment {
        w.push(n.text.as_str());
        if multiline {
            break_soft(w);
        }
    } else if spacing && n.kind == Kind::BlockComment {
        if str_contains_char(n.text.as_str(), '\n') {
            render_bc_lines(w, n.text.as_str(), 0);
            proof {
                assert(n.text@.skip(0) =~= n.text@);
            }
        } else {
            w.push(n.text.as_str());
        }
    } else {
        w.push(n.text.as_str());
        render_anon_items(w, &n.children, 0);
    }
}

/// Render a whitespace run; follows [`render_space_spec`].
fn render_space(w: &mut Writer, n: &Node)
    ensures
        final(w)@ == render_space_spec(old(w)@, *n),
{
    if w.config().spacing {
        if str_has_blank(n.text.as_str()) {
            w.parbreak();
        } else if str_contains_char(n.text.as_str(), '\n') {
            break_soft(w);
        } else {
            w.space();
        }
    } else {
        w.push(n.text.as_str());
    }
}

/// Children through the fallback; follows [`anon_items`].
fn render_anon_items(w: &mut Writer, s: &Vec<Node>, i: usize)
    requires
        i <= s@.len(),
    ensures
        final(w)@ == anon_items(old(w)@, s@, i as int),
    decreases s@, 1int, s@.len() - i,
{
    if i >= s.len() {
        return ;
    }
    render_anon(w, &s[i]);
    render_anon_items(w, s, i + 1);
}

/// Children through expression rules or the fallback; follows
/// [`expr_anon_items`].
fn render_expr_anon_items(w: &mut Writer, s: &Vec<Node>, i: usize)
    requires
        i <= s@.len(),
    ensures
        final(w)@ == expr_anon_items(old(w)@, s@, i as int),
    decreases s@, 1int, s@.len() - i,
{
    if i >= s.len() {
        return ;
    }
    if is_expr_k(s[i].kind) || s[i].kind == Kind::Code {
        render_node(w, &s[i]);
    } else {
        render_anon(w, &s[i]);
    }
    render_expr_anon_items(w, s, i + 1);
}

/// Children of markup containers; follows [`markup_anon_items`].
fn render_markup_anon_items(w: &mut Writer, s: &Vec<Node>, i: usize)
    requires
        i <= s@.len(),
    ensures
        final(w)@ == markup_anon_items(old(w)@, s@, i as int),
    decreases s@, 1int, s@.len() - i,
{
    if i >= s.len() {
        return ;
    }
    if s[i].kind == Kind::Markup {
        render_node(w, &s[i]);
    } else {
        render_anon(w, &s[i]);
    }
    render_markup_anon_items(w, s, i + 1);
}

/// Top-level markup children; follows [`markup_items`].
fn render_markup_items(w: &mut Writer, s: &Vec<Node>, i: usize)
    requires
        i <= s@.len(),
    ensures
        final(w)@ == markup_items(old(w)@, s@, i as int),
    decreases s@, 1int, s@.len() - i,
{
    if i >= s.len() {
        return ;
    }
    let spacing = w.config().spacing;
    if s[i].kind == Kind::Parbreak {
        if spacing {
            if 0 < i && i + 1 < s.len() {
                w.parbreak();
            } else {
                break_soft(w);
            }
        } else {
            render_anon(w, &s[i]);
        }
    } else if is_expr_k(s[i].kind) {
        render_node(w, &s[i]);
    } else {
        render_anon(w, &s[i]);
    }
    render_markup_items(w, s, i + 1);
}

/// List and enumeration items; follows [`list_items`].
fn render_list_items(w: &mut Writer, s: &Vec<Node>, i: usize)
    requires
        i <= s@.len(),
    ensures
        final(w)@ == list_items(old(w)@, s@, i as int),
    decreases s@, 1int, s@.len() - i,
{
    if i >= s.len() {
        w.dec_indent();
        return ;
    }
    let spacing = w.config().spacing;
    if s[i].kind == Kind::ListMarker || s[i].kind == Kind::EnumMarker {
        render_anon(w, &s[i]);
        if spacing {
            w.space();
        }
        w.inc_indent();
    } else if spacing && s[i].kind == Kind::Space {
    } else {
        render_anon(w, &s[i]);
    }
    render_list_items(w, s, i + 1);
}

/// Term-list items; follows [`term_items`].
fn render_term_items(w: &mut Writer, s: &Vec<Node>, i: usize)
    requires
        i <= s@.len(),
    ensures
        final(w)@ == term_items(old(w)@, s@, i as int),
    decreases s@, 1int, s@.len() - i,
{
    if i >= s.len() {
        w.dec_indent();
        return ;
    }
    let spacing = w.config().spacing;
    if s[i].kind == Kind::TermMarker {
        render_anon(w, &s[i]);
        if spacing {
            w.space();
        }
        w.inc_indent();
    } else if s[i].kind == Kind::Colon {
        w.push(s[i].text.as_str());
        if spacing {
            w.space();
        }
    } else if spacing && s[i].kind == Kind::Space {
    } else {
        render_anon(w, &s[i]);
    }
    render_term_items(w, s, i + 1);
}

/// Dictionary entries; follows [`dict_items`].
fn render_dict_items(w: &mut Writer, s: &Vec<Node>, i: usize, ml: bool)
    requires
        i <= s@.len(),
    ensures
        final(w)@ == dict_items(old(w)@, s@, i as int, ml),
    decreases s@, 1int, s@.len() - i,
{
    if i >= s.len() {
        return ;
    }
    let spacing = w.config().spacing;
    if s[i].kind == Kind::Named || s[i].kind == Kind::Keyed || s[i].kind == Kind::Spread {
        render_node(w, &s[i]);
        if ml {
            w.push(",");
            break_soft(w);
        } else if w.config().spacing && has_next_entry_v(s, i + 1) {
            w.push(",");
            w.push(" ");
        }
    } else if ml && s[i].kind == Kind::LeftParen {
        w.open_grouping(s[i].text.as_str());
        break_soft(w);
    } else if (spacing || ml) && (s[i].kind == Kind::Comma || s[i].kind == Kind::Space) {
    } else {
        render_anon(w, &s[i]);
    }
    render_dict_items(w, s, i + 1, ml);
}

/// Binary operations; follows [`binary_items`].
fn render_binary_items(w: &mut Writer, s: &Vec<Node>, i: usize)
    requires
        i <= s@.len(),
    ensures
        final(w)@ == binary_items(old(w)@, s@, i as int),
    decreases s@, 1int, s@.len() - i,
{
    if i >= s.len() {
        return ;
    }
    let spacing = w.config().spacing;
    if is_expr_k(s[i].kind) {
        render_node(w, &s[i]);
    } else if spacing && is_binop_k(s[i].kind) {
        w.push(" ");
        w.push(s[i].text.as_str());
        w.push(" ");
    } else if spacing && s[i].kind == Kind::Space {
    } else {
        render_anon(w, &s[i]);
    }
    render_binary_items(w, s, i + 1);
}

/// Function calls and set rules; follows [`call_items`].
fn render_call_items(w: &mut Writer, s: &Vec<Node>, i: usize)
    requires
        i <= s@.len(),
    ensures
        final(w)@ == call_items(old(w)@, s@, i as int),
    decreases s@, 1int, s@.len() - i,
{
    if i >= s.len() {
        return ;
    }
    if is_expr_k(s[i].kind) {
        render_node(w, &s[i]);
    } else if s[i].kind == Kind::Args {
        render_args(w, &s[i]);
    } else {
        render_anon(w, &s[i]);
    }
    render_call_items(w, s, i + 1);
}

/// An argument list node; follows [`render_args_spec`].
#[verifier::rlimit(50)]
fn render_args(w: &mut Writer, n: &Node)
    ensures
        final(w)@ == render_args_spec(old(w)@, *n),
    decreases *n, 2int, 0int,
{
    let ml = w.config().multiline && any_space_nl_v(&n.children);
    render_args_items(w, &n.children, 0, ml, false);
}

/// The pieces of an argument list; follows [`args_items`].
fn render_args_items(w: &mut Writer, s: &Vec<Node>, i: usize, ml: bool, inp: bool)
    requires
        i <= s@.len(),
    ensures
        final(w)@ == args_items(old(w)@, s@, i as int, ml, inp),
    decreases s@, 1int, s@.len() - i,
{
    if i >= s.len() {
        return ;
    }
    let spacing = w.config().spacing;
    let kd = s[i].kind;
    if is_expr_k(kd) || kd == Kind::Named || kd == Kind::Spread {
        render_node(w, &s[i]);
        if inp {
            if ml {
                w.push(",");
                break_soft(w);
            } else if w.config().spacing && has_next_arg_v(s, i + 1) {
                w.push(",");
                w.push(" ");
            }
        }
        render_args_items(w, s, i + 1, ml, inp);
    } else if kd == Kind::LeftParen {
        if ml {
            w.open_grouping(s[i].text.as_str());
            break_soft(w);
        } else {
            render_anon(w, &s[i]);
        }
        render_args_items(w, s, i + 1, ml, true);
    } else if kd == Kind::RightParen {
        render_anon(w, &s[i]);
        render_args_items(w, s, i + 1, ml, false);
    } else if (spacing || ml) && (kd == Kind::Comma || kd == Kind::Space) {
        render_args_items(w, s, i + 1, ml, inp);
    } else {
        render_anon(w, &s[i]);
        render_args_items(w, s, i + 1, ml, inp);
    }
}

/// A parameter list node; follows [`render_params_spec`].
fn render_params(w: &mut Writer, n: &Node)
    ensures
        final(w)@ == render_params_spec(old(w)@, *n),
    decreases *n, 2int, 0int,
{
    let ml = w.config().multiline && any_space_nl_v(&n.children);
    render_params_items(w, &n.children, 0, ml);
}

/// The pieces of a parameter list; follows [`params_items`].
fn render_params_items(w: &mut Writer, s: &Vec<Node>, i: usize, ml: bool)
    requires
        i <= s@.len(),
    ensures
        final(w)@ == params_items(old(w)@, s@, i as int, ml),
    decreases s@, 1int, s@.len() - i,
{
    if i >= s.len() {
        return ;
    }
    let spacing = w.config().spacing;
    let kd = s[i].kind;
    if is_expr_k(kd) || kd == Kind::Named || kd == Kind::Spread || kd == Kind::Underscore || kd
        == Kind::Destructuring {
        render_node(w, &s[i]);
        if ml {
            w.push(",");
            break_soft(w);
        } else if w.config().spacing && has_next_param_v(s, i + 1) {
            w.push(",");
            w.push(" ");
        }
    } else if ml && kd == Kind::LeftParen {
        w.open_grouping(s[i].text.as_str());
        break_soft(w);
    } else if (spacing || ml) && (kd == Kind::Comma || kd == Kind::Space) {
    } else {
        render_anon(w, &s[i]);
    }
    render_params_items(w, s, i + 1, ml);
}

/// Closures and named functions; follows [`closure_items`].
fn render_closure_items(w: &mut Writer, s: &Vec<Node>, i: usize)
    requires
        i <= s@.len(),
    ensures
        final(w)@ == closure_items(old(w)@, s@, i as int),
    decreases s@, 1int, s@.len() - i,
{
    if i >= s.len() {
        return ;
    }
    let spacing = w.config().spacing;
    let kd = s[i].kind;
    if is_expr_k(kd) {
        render_node(w, &s[i]);
    } else if kd == Kind::Params {
        render_params(w, &s[i]);
    } else if kd == Kind::Arrow || kd == Kind::Eq {
        if spacing {
            w.space();
        }
        w.push(s[i].text.as_str());
        if spacing {
            w.space();
        }
    } else if spacing && kd == Kind::Space {
    } else {
        render_anon(w, &s[i]);
    }
    render_closure_items(w, s, i + 1);
}

/// Let bindings; follows [`let_items`].
fn render_let_items(w: &mut Writer, s: &Vec<Node>, i: usize)
    requires
        i <= s@.len(),
    ensures
        final(w)@ == let_items(old(w)@, s@, i as int),
    decreases s@, 1int, s@.len() - i,
{
    if i >= s.len() {
        return ;
    }
    let spacing = w.config().spacing;
    let kd = s[i].kind;
    if is_expr_k(kd) || kd == Kind::Underscore || kd == Kind::Destructuring {
        render_node(w, &s[i]);
    } else if kd == Kind::Eq {
        let before = i > 0 && s[i - 1].kind != Kind::Space && str_ends_with_space(
            s[i - 1].text.as_str(),
        );
        let after = i + 1 < s.len() && s[i + 1].kind != Kind::Space && str_starts_with_space(
            s[i + 1].text.as_str(),
        );
        if spacing && !before {
            w.push(" ");
        }
        w.push(s[i].text.as_str());
        if spacing && !after {
            w.push(" ");
        }
    } else if kd == Kind::Let {
        w.push(s[i].text.as_str());
        if spacing {
            w.push(" ");
        }
    } else if spacing && kd == Kind::Space {
    } else {
        render_anon(w, &s[i]);
    }
    render_let_items(w, s, i + 1);
}

/// Conditionals; follows [`cond_items`].
fn render_cond_items(w: &mut Writer, s: &Vec<Node>, i: usize)
    requires
        i <= s@.len(),
    ensures
        final(w)@ == cond_items(old(w)@, s@, i as int),
    decreases s@, 1int, s@.len() - i,
{
    if i >= s.len() {
        return ;
    }
    let spacing = w.config().spacing;
    let multiline = w.config().multiline;
    let kd = s[i].kind;
    if is_expr_k(kd) {
        render_cond_sep(w, s, i);
        render_node(w, &s[i]);
    } else if kd == Kind::Else {
        render_cond_sep(w, s, i);
        w.push(s[i].text.as_str());
    } else if (spacing || multiline) && kd == Kind::Space {
    } else {
        render_anon(w, &s[i]);
    }
    render_cond_items(w, s, i + 1);
}

/// The separator before a conditional branch; follows [`cond_sep`].
fn render_cond_sep(w: &mut Writer, s: &Vec<Node>, i: usize)
    requires
        i < s@.len(),
    ensures
        final(w)@ == cond_sep(old(w)@, s@, i as int),
{
    let multiline = w.config().multiline;
    if multiline && i > 0 && s[i - 1].kind == Kind::Space && str_contains_char(
        s[i - 1].text.as_str(),
        '\n',
    ) {
        break_soft(w);
    } else if w.config().spacing {
        w.push(" ");
    }
}

/// Named entries; follows [`named_items`].
fn render_named_items(w: &mut Writer, s: &Vec<Node>, i: usize)
    requires
        i <= s@.len(),
    ensures
        final(w)@ == named_items(old(w)@, s@, i as int),
    decreases s@, 1int, s@.len() - i,
{
    if i >= s.len() {
        return ;
    }
    let spacing = w.config().spacing;
    let kd = s[i].kind;
    if is_expr_k(kd) {
        render_node(w, &s[i]);
    } else if kd == Kind::Colon {
        w.push(s[i].text.as_str());
        if spacing {
            w.push(" ");
        }
    } else if spacing && kd == Kind::Space {
    } else {
        render_anon(w, &s[i]);
    }
    render_named_items(w, s, i + 1);
}

} // verus!
