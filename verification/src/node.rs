//! The library's model of a parsed syntax tree.
//!
//! A tree is a [`Node`]: a grammar production [`Kind`], the verbatim source
//! text of the node (empty for nodes that have children), and the ordered
//! child nodes. The renderer walks this structure; nothing in it is ever
//! mutated.

use vstd::prelude::*;
use vstd::string::StrSliceExecFns;

verus! {

/// The grammar production a node belongs to, covering markup, math and code.
///
/// `Unknown` stands for any production this library does not recognize; such
/// nodes are rendered verbatim by the anonymous fallback, so rendering is
/// total over the grammar.
#[derive(Clone, Copy, PartialEq, Eq, Structural, Debug)]
pub enum Kind {
    End,
    Error,
    Shebang,
    LineComment,
    BlockComment,
    Markup,
    Text,
    Space,
    Linebreak,
    Parbreak,
    Escape,
    Shorthand,
    SmartQuote,
    Strong,
    Emph,
    Raw,
    RawLang,
    RawDelim,
    RawTrimmed,
    Link,
    Label,
    Ref,
    RefMarker,
    Heading,
    HeadingMarker,
    ListItem,
    ListMarker,
    EnumItem,
    EnumMarker,
    TermItem,
    TermMarker,
    Equation,
    Math,
    MathText,
    MathIdent,
    MathFieldAccess,
    MathShorthand,
    MathAlignPoint,
    MathCall,
    MathArgs,
    MathDelimited,
    MathAttach,
    MathPrimes,
    MathFrac,
    MathRoot,
    Hash,
    LeftBrace,
    RightBrace,
    LeftBracket,
    RightBracket,
    LeftParen,
    RightParen,
    Comma,
    Semicolon,
    Colon,
    Star,
    Underscore,
    Dollar,
    Plus,
    Minus,
    Slash,
    Hat,
    Dot,
    Eq,
    EqEq,
    ExclEq,
    Lt,
    LtEq,
    Gt,
    GtEq,
    PlusEq,
    HyphEq,
    StarEq,
    SlashEq,
    Dots,
    Arrow,
    Root,
    Bang,
    Not,
    And,
    Or,
    NoneKw,
    Auto,
    Let,
    SetKw,
    Show,
    Context,
    If,
    Else,
    For,
    In,
    While,
    Break,
    Continue,
    Return,
    Import,
    Include,
    As,
    Code,
    Ident,
    Bool,
    Int,
    Float,
    Numeric,
    Str,
    CodeBlock,
    ContentBlock,
    Parenthesized,
    Array,
    Dict,
    Named,
    Keyed,
    Unary,
    Binary,
    FieldAccess,
    FuncCall,
    Args,
    Spread,
    Closure,
    Params,
    LetBinding,
    SetRule,
    ShowRule,
    Contextual,
    Conditional,
    WhileLoop,
    ForLoop,
    ModuleImport,
    ImportItems,
    ImportItemPath,
    RenamedImportItem,
    ModuleInclude,
    LoopBreak,
    LoopContinue,
    FuncReturn,
    Destructuring,
    DestructAssignment,
    Unknown,
}

/// A node of the syntax tree: its kind, its own source text (non-empty only
/// for leaves), and its children in source order.
pub struct Node {
    /// The grammar production of this node.
    pub kind: Kind,
    /// The node's own text. A node with children carries no text of its own;
    /// its text is the concatenation of its children's.
    pub text: String,
    /// The child nodes, in source order.
    pub children: Vec<Node>,
}

/// The source text a tree stands for: each node contributes its own text
/// followed by its children's, left to right.
pub open spec fn flatten(n: Node) -> Seq<char>
    decreases n,
{
    n.text@ + flatten_seq(n.children@)
}

/// The concatenated text of a sequence of sibling trees.
pub open spec fn flatten_seq(s: Seq<Node>) -> Seq<char>
    decreases s,
{
    if s.len() == 0 {
        Seq::empty()
    } else {
        flatten(s[0]) + flatten_seq(s.drop_first())
    }
}

/// Whether the tree contains a structural error node anywhere.
pub open spec fn has_error(n: Node) -> bool
    decreases n,
{
    n.kind == Kind::Error || has_error_seq(n.children@)
}

/// Whether any tree of the sequence contains an error node.
pub open spec fn has_error_seq(s: Seq<Node>) -> bool
    decreases s,
{
    if s.len() == 0 {
        false
    } else {
        has_error(s[0]) || has_error_seq(s.drop_first())
    }
}

/// Kinds that only ever occur as single leaf tokens in a parsed tree; the
/// renderer may re-emit them from their text alone.
pub open spec fn is_token_kind(k: Kind) -> bool {
    matches!(
        k,
        Kind::Space | Kind::Else | Kind::Let | Kind::Eq | Kind::Colon | Kind::Arrow
            | Kind::LeftBrace | Kind::RightBrace | Kind::LeftBracket | Kind::RightBracket
            | Kind::LeftParen | Kind::RightParen
    )
}

/// Kinds of grammar productions with structure of their own: the parser
/// emits them as inner nodes made up of their children (or, in recovery, as
/// placeholders without text), never as tokens carrying text.
pub open spec fn is_container_kind(k: Kind) -> bool {
    matches!(
        k,
        Kind::Markup | Kind::ListItem | Kind::EnumItem | Kind::TermItem | Kind::Dict
            | Kind::Binary | Kind::FuncCall | Kind::SetRule | Kind::Closure | Kind::LetBinding
            | Kind::Conditional | Kind::Named | Kind::Strong | Kind::Emph | Kind::Heading
            | Kind::ContentBlock | Kind::Code | Kind::CodeBlock | Kind::Equation | Kind::Math
            | Kind::MathCall | Kind::MathDelimited | Kind::MathAttach | Kind::MathFrac
            | Kind::MathRoot | Kind::MathPrimes | Kind::MathFieldAccess | Kind::Parenthesized
            | Kind::Array | Kind::Unary | Kind::WhileLoop | Kind::ForLoop | Kind::Keyed
            | Kind::FuncReturn | Kind::ModuleInclude | Kind::ModuleImport | Kind::FieldAccess
            | Kind::Spread | Kind::DestructAssignment | Kind::Contextual | Kind::ShowRule
            | Kind::Ref | Kind::Args | Kind::Params
    )
}

/// Shape invariant of trees produced by parsing: a node with children has no
/// text of its own, token kinds are always leaves, and structured
/// productions never carry token text.
pub open spec fn wf_node(n: Node) -> bool
    decreases n,
{
    (n.children@.len() > 0 ==> n.text@ == Seq::<char>::empty() && !is_token_kind(n.kind))
        && (is_container_kind(n.kind) ==> n.text@ == Seq::<char>::empty())
        && wf_seq(n.children@)
}

/// Shape invariant over a sequence of sibling trees.
pub open spec fn wf_seq(s: Seq<Node>) -> bool
    decreases s,
{
    if s.len() == 0 {
        true
    } else {
        wf_node(s[0]) && wf_seq(s.drop_first())
    }
}

/// Bracket, brace or parenthesis tokens, which route through the writer's
/// grouping operations so nested content is indented while the group is open.
pub open spec fn is_grouping(k: Kind) -> bool {
    matches!(
        k,
        Kind::LeftBrace
            | Kind::RightBrace
            | Kind::LeftBracket
            | Kind::RightBracket
            | Kind::LeftParen
            | Kind::RightParen
    )
}

/// Opening half of a grouping.
pub open spec fn is_opening(k: Kind) -> bool {
    matches!(k, Kind::LeftBrace | Kind::LeftBracket | Kind::LeftParen)
}

/// Comment and whitespace kinds, skipped when deciding whether anything
/// meaningful follows in a comma-separated group.
pub open spec fn is_trivia(k: Kind) -> bool {
    matches!(
        k,
        Kind::Shebang | Kind::LineComment | Kind::BlockComment | Kind::Space | Kind::Parbreak
    )
}

/// Tokens of binary operators, which get one space on each side when spacing
/// normalization is on.
pub open spec fn is_binop(k: Kind) -> bool {
    matches!(
        k,
        Kind::Plus
            | Kind::Minus
            | Kind::Star
            | Kind::Slash
            | Kind::And
            | Kind::Or
            | Kind::EqEq
            | Kind::ExclEq
            | Kind::Lt
            | Kind::LtEq
            | Kind::Gt
            | Kind::GtEq
            | Kind::Eq
            | Kind::In
            | Kind::PlusEq
            | Kind::HyphEq
            | Kind::StarEq
            | Kind::SlashEq
    )
}

/// Kinds that form expressions; children of these kinds are rendered through
/// the per-kind rules, everything else through the anonymous fallback.
/// Whitespace is deliberately not an expression here: it is intercepted by
/// the fallback so its collapsing rule applies everywhere.
pub open spec fn is_expr(k: Kind) -> bool {
    matches!(
        k,
        Kind::Linebreak | Kind::Parbreak | Kind::Text | Kind::Escape | Kind::Shorthand
            | Kind::SmartQuote | Kind::Strong | Kind::Emph | Kind::Raw | Kind::Link
            | Kind::Label | Kind::Ref | Kind::Heading | Kind::ListItem | Kind::EnumItem
            | Kind::TermItem | Kind::Equation | Kind::Math | Kind::MathText | Kind::MathIdent
            | Kind::MathFieldAccess | Kind::MathShorthand | Kind::MathAlignPoint
            | Kind::MathCall | Kind::MathDelimited | Kind::MathAttach | Kind::MathPrimes
            | Kind::MathFrac | Kind::MathRoot | Kind::Ident | Kind::NoneKw | Kind::Auto
            | Kind::Bool | Kind::Int | Kind::Float | Kind::Numeric | Kind::Str
            | Kind::CodeBlock | Kind::ContentBlock | Kind::Parenthesized | Kind::Array
            | Kind::Dict | Kind::Unary | Kind::Binary | Kind::FieldAccess | Kind::FuncCall
            | Kind::Closure | Kind::LetBinding | Kind::DestructAssignment | Kind::SetRule
            | Kind::ShowRule | Kind::Contextual | Kind::Conditional | Kind::WhileLoop
            | Kind::ForLoop | Kind::ModuleImport | Kind::ModuleInclude | Kind::LoopBreak
            | Kind::LoopContinue | Kind::FuncReturn
    )
}

impl Node {
    /// Build a leaf node.
    pub fn leaf(kind: Kind, text: String) -> (n: Node)
        ensures
            n.kind == kind,
            n.text == text,
            n.children@ == Seq::<Node>::empty(),
    {
        Node { kind, text, children: Vec::new() }
    }

    /// Build an inner node from its children.
    pub fn inner(kind: Kind, children: Vec<Node>) -> (n: Node)
        ensures
            n.kind == kind,
            n.text@ == Seq::<char>::empty(),
            n.children == children,
    {
        Node { kind, text: String::new(), children }
    }
}

impl Kind {
    /// The kind whose grammar name is `name`; `Unknown` for any other
    /// name, so the mapping is total.
    pub(crate) fn from_name(name: &str) -> Kind {
        if str_eq(name, "End") {
            Kind::End
        } else if str_eq(name, "Error") {
            Kind::Error
        } else if str_eq(name, "Shebang") {
            Kind::Shebang
        } else if str_eq(name, "LineComment") {
            Kind::LineComment
        } else if str_eq(name, "BlockComment") {
            Kind::BlockComment
        } else if str_eq(name, "Markup") {
            Kind::Markup
        } else if str_eq(name, "Text") {
            Kind::Text
        } else if str_eq(name, "Space") {
            Kind::Space
        } else if str_eq(name, "Linebreak") {
            Kind::Linebreak
        } else if str_eq(name, "Parbreak") {
            Kind::Parbreak
        } else if str_eq(name, "Escape") {
            Kind::Escape
        } else if str_eq(name, "Shorthand") {
            Kind::Shorthand
        } else if str_eq(name, "SmartQuote") {
            Kind::SmartQuote
        } else if str_eq(name, "Strong") {
            Kind::Strong
        } else if str_eq(name, "Emph") {
            Kind::Emph
        } else if str_eq(name, "Raw") {
            Kind::Raw
        } else if str_eq(name, "RawLang") {
            Kind::RawLang
        } else if str_eq(name, "RawDelim") {
            Kind::RawDelim
        } else if str_eq(name, "RawTrimmed") {
            Kind::RawTrimmed
        } else if str_eq(name, "Link") {
            Kind::Link
        } else if str_eq(name, "Label") {
            Kind::Label
        } else if str_eq(name, "Ref") {
            Kind::Ref
        } else if str_eq(name, "RefMarker") {
            Kind::RefMarker
        } else if str_eq(name, "Heading") {
            Kind::Heading
        } else if str_eq(name, "HeadingMarker") {
            Kind::HeadingMarker
        } else if str_eq(name, "ListItem") {
            Kind::ListItem
        } else if str_eq(name, "ListMarker") {
            Kind::ListMarker
        } else if str_eq(name, "EnumItem") {
            Kind::EnumItem
        } else if str_eq(name, "EnumMarker") {
            Kind::EnumMarker
        } else if str_eq(name, "TermItem") {
            Kind::TermItem
        } else if str_eq(name, "TermMarker") {
            Kind::TermMarker
        } else if str_eq(name, "Equation") {
            Kind::Equation
        } else if str_eq(name, "Math") {
            Kind::Math
        } else if str_eq(name, "MathText") {
            Kind::MathText
        } else if str_eq(name, "MathIdent") {
            Kind::MathIdent
        } else if str_eq(name, "MathFieldAccess") {
            Kind::MathFieldAccess
        } else if str_eq(name, "MathShorthand") {
            Kind::MathShorthand
        } else if str_eq(name, "MathAlignPoint") {
            Kind::MathAlignPoint
        } else if str_eq(name, "MathCall") {
            Kind::MathCall
        } else if str_eq(name, "MathArgs") {
            Kind::MathArgs
        } else if str_eq(name, "MathDelimited") {
            Kind::MathDelimited
        } else if str_eq(name, "MathAttach") {
            Kind::MathAttach
        } else if str_eq(name, "MathPrimes") {
            Kind::MathPrimes
        } else if str_eq(name, "MathFrac") {
            Kind::MathFrac
        } else if str_eq(name, "MathRoot") {
            Kind::MathRoot
        } else if str_eq(name, "Hash") {
            Kind::Hash
        } else if str_eq(name, "LeftBrace") {
            Kind::LeftBrace
        } else if str_eq(name, "RightBrace") {
            Kind::RightBrace
        } else if str_eq(name, "LeftBracket") {
            Kind::LeftBracket
        } else if str_eq(name, "RightBracket") {
            Kind::RightBracket
        } else if str_eq(name, "LeftParen") {
            Kind::LeftParen
        } else if str_eq(name, "RightParen") {
            Kind::RightParen
        } else if str_eq(name, "Comma") {
            Kind::Comma
        } else if str_eq(name, "Semicolon") {
            Kind::Semicolon
        } else if str_eq(name, "Colon") {
            Kind::Colon
        } else if str_eq(name, "Star") {
            Kind::Star
        } else if str_eq(name, "Underscore") {
            Kind::Underscore
        } else if str_eq(name, "Dollar") {
            Kind::Dollar
        } else if str_eq(name, "Plus") {
            Kind::Plus
        } else if str_eq(name, "Minus") {
            Kind::Minus
        } else if str_eq(name, "Slash") {
            Kind::Slash
        } else if str_eq(name, "Hat") {
            Kind::Hat
        } else if str_eq(name, "Dot") {
            Kind::Dot
        } else if str_eq(name, "Eq") {
            Kind::Eq
        } else if str_eq(name, "EqEq") {
            Kind::EqEq
        } else if str_eq(name, "ExclEq") {
            Kind::ExclEq
        } else if str_eq(name, "Lt") {
            Kind::Lt
        } else if str_eq(name, "LtEq") {
            Kind::LtEq
        } else if str_eq(name, "Gt") {
            Kind::Gt
        } else if str_eq(name, "GtEq") {
            Kind::GtEq
        } else if str_eq(name, "PlusEq") {
            Kind::PlusEq
        } else if str_eq(name, "HyphEq") {
            Kind::HyphEq
        } else if str_eq(name, "StarEq") {
            Kind::StarEq
        } else if str_eq(name, "SlashEq") {
            Kind::SlashEq
        } else if str_eq(name, "Dots") {
            Kind::Dots
        } else if str_eq(name, "Arrow") {
            Kind::Arrow
        } else if str_eq(name, "Root") {
            Kind::Root
        } else if str_eq(name, "Bang") {
            Kind::Bang
        } else if str_eq(name, "Not") {
            Kind::Not
        } else if str_eq(name, "And") {
            Kind::And
        } else if str_eq(name, "Or") {
            Kind::Or
        } else if str_eq(name, "None") {
            Kind::NoneKw
        } else if str_eq(name, "Auto") {
            Kind::Auto
        } else if str_eq(name, "Let") {
            Kind::Let
        } else if str_eq(name, "Set") {
            Kind::SetKw
        } else if str_eq(name, "Show") {
            Kind::Show
        } else if str_eq(name, "Context") {
            Kind::Context
        } else if str_eq(name, "If") {
            Kind::If
        } else if str_eq(name, "Else") {
            Kind::Else
        } else if str_eq(name, "For") {
            Kind::For
        } else if str_eq(name, "In") {
            Kind::In
        } else if str_eq(name, "While") {
            Kind::While
        } else if str_eq(name, "Break") {
            Kind::Break
        } else if str_eq(name, "Continue") {
            Kind::Continue
        } else if str_eq(name, "Return") {
            Kind::Return
        } else if str_eq(name, "Import") {
            Kind::Import
        } else if str_eq(name, "Include") {
            Kind::Include
        } else if str_eq(name, "As") {
            Kind::As
        } else if str_eq(name, "Code") {
            Kind::Code
        } else if str_eq(name, "Ident") {
            Kind::Ident
        } else if str_eq(name, "Bool") {
            Kind::Bool
        } else if str_eq(name, "Int") {
            Kind::Int
        } else if str_eq(name, "Float") {
            Kind::Float
        } else if str_eq(name, "Numeric") {
            Kind::Numeric
        } else if str_eq(name, "Str") {
            Kind::Str
        } else if str_eq(name, "CodeBlock") {
            Kind::CodeBlock
        } else if str_eq(name, "ContentBlock") {
            Kind::ContentBlock
        } else if str_eq(name, "Parenthesized") {
            Kind::Parenthesized
        } else if str_eq(name, "Array") {
            Kind::Array
        } else if str_eq(name, "Dict") {
            Kind::Dict
        } else if str_eq(name, "Named") {
            Kind::Named
        } else if str_eq(name, "Keyed") {
            Kind::Keyed
        } else if str_eq(name, "Unary") {
            Kind::Unary
        } else if str_eq(name, "Binary") {
            Kind::Binary
        } else if str_eq(name, "FieldAccess") {
            Kind::FieldAccess
        } else if str_eq(name, "FuncCall") {
            Kind::FuncCall
        } else if str_eq(name, "Args") {
            Kind::Args
        } else if str_eq(name, "Spread") {
            Kind::Spread
        } else if str_eq(name, "Closure") {
            Kind::Closure
        } else if str_eq(name, "Params") {
            Kind::Params
        } else if str_eq(name, "LetBinding") {
            Kind::LetBinding
        } else if str_eq(name, "SetRule") {
            Kind::SetRule
        } else if str_eq(name, "ShowRule") {
            Kind::ShowRule
        } else if str_eq(name, "Contextual") {
            Kind::Contextual
        } else if str_eq(name, "Conditional") {
            Kind::Conditional
        } else if str_eq(name, "WhileLoop") {
            Kind::WhileLoop
        } else if str_eq(name, "ForLoop") {
            Kind::ForLoop
        } else if str_eq(name, "ModuleImport") {
            Kind::ModuleImport
        } else if str_eq(name, "ImportItems") {
            Kind::ImportItems
        } else if str_eq(name, "ImportItemPath") {
            Kind::ImportItemPath
        } else if str_eq(name, "RenamedImportItem") {
            Kind::RenamedImportItem
        } else if str_eq(name, "ModuleInclude") {
            Kind::ModuleInclude
        } else if str_eq(name, "LoopBreak") {
            Kind::LoopBreak
        } else if str_eq(name, "LoopContinue") {
            Kind::LoopContinue
        } else if str_eq(name, "FuncReturn") {
            Kind::FuncReturn
        } else if str_eq(name, "Destructuring") {
            Kind::Destructuring
        } else if str_eq(name, "DestructAssignment") {
            Kind::DestructAssignment
        } else {
            Kind::Unknown
        }
    }
}

/// Character-wise string equality; avoids relying on any unspecified
/// library comparison.
pub(crate) fn str_eq(a: &str, b: &str) -> (r: bool)
    ensures
        r == (a@ == b@),
{
    let la = a.unicode_len();
    let lb = b.unicode_len();
    if la != lb {
        return false;
    }
    let mut i: usize = 0;
    while i < la
        invariant
            la == a@.len(),
            lb == b@.len(),
            la == lb,
            0 <= i <= la,
            forall|j: int| 0 <= j < i ==> a@[j] == b@[j],
        decreases la - i,
    {
        if a.get_char(i) != b.get_char(i) {
            return false;
        }
        i = i + 1;
    }
    proof {
        assert(a@ =~= b@);
    }
    true
}

/// Whether the tree contains an error node; the executable twin of
/// [`has_error`].
pub fn erroneous(n: &Node) -> (r: bool)
    ensures
        r == has_error(*n),
    decreases *n,
{
    if n.kind == Kind::Error {
        return true;
    }
    let mut i: usize = 0;
    while i < n.children.len()
        invariant
            0 <= i <= n.children@.len(),
            !has_error_seq(n.children@.take(i as int)),
            n.kind != Kind::Error,
        decreases n.children@.len() - i,
    {
        proof {
            assert(decreases_to!(*n => n.children@[i as int]));
        }
        if erroneous(&n.children[i]) {
            proof {
                lemma_has_error_seq_index(n.children@, i as int);
            }
            return true;
        }
        proof {
            lemma_has_error_seq_take_step(n.children@, i as int);
        }
        i = i + 1;
    }
    proof {
        assert(n.children@.take(n.children@.len() as int) =~= n.children@);
    }
    false
}

proof fn lemma_has_error_seq_index(s: Seq<Node>, i: int)
    requires
        0 <= i < s.len(),
        has_error(s[i]),
    ensures
        has_error_seq(s),
    decreases i,
{
    if i > 0 {
        lemma_has_error_seq_index(s.drop_first(), i - 1);
    }
}

proof fn lemma_has_error_seq_take_step(s: Seq<Node>, i: int)
    requires
        0 <= i < s.len(),
        !has_error_seq(s.take(i)),
        !has_error(s[i]),
    ensures
        !has_error_seq(s.take(i + 1)),
    decreases i,
{
    if i == 0 {
        assert(s.take(1)[0] == s[0]);
        assert(s.take(1).drop_first() =~= Seq::<Node>::empty());
        assert(!has_error_seq(Seq::<Node>::empty()));
        assert(!has_error_seq(s.take(1)));
    } else {
        assert(s.take(i).drop_first() =~= s.drop_first().take(i - 1));
        assert(s.take(i + 1).drop_first() =~= s.drop_first().take(i));
        assert(s.take(i + 1)[0] == s[0]);
        assert(s.take(i)[0] == s[0]);
        lemma_has_error_seq_take_step(s.drop_first(), i - 1);
    }
}

} // verus!
