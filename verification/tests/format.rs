use typstfmt::Config;
use typstfmt::FormatError;
#[test]
fn let_binding_spacing() {
    let out = typstfmt::format("#let x=4", Config::default()).unwrap();
    assert_eq!(out, "#let x = 4\n");
}
#[test]
fn code_block_statements_indented() {
    let out = typstfmt::format("#{\na()[]\nb()[]\n}", Config::default()).unwrap();
    assert_eq!(out, "#{\n  a()[]\n  b()[]\n}\n");
}
#[test]
fn compact_argument_list_stays_single_line() {
    let out = typstfmt::format("#let f(a,b,c) = {a+(b - c)}", Config::default()).unwrap();
    assert_eq!(out, "#let f(a, b, c) = {a + (b - c)}\n");
}
#[test]
fn split_argument_list_stays_multi_line() {
    let out = typstfmt::format("#let f(\na,\nb,\n) = a + b", Config::default()).unwrap();
    assert_eq!(out, "#let f(\n  a,\n  b,\n) = a + b\n");
}
#[test]
fn malformed_markup_is_stable() {
    let out = typstfmt::format("*h\n*h", Config::default()).unwrap();
    let again = typstfmt::format(&out, Config::default()).unwrap();
    assert_eq!(again, out);
}
#[test]
fn plain_text_spaces_collapse() {
    let out = typstfmt::format("hello   world", Config::default()).unwrap();
    assert_eq!(out, "hello world\n");
}
#[test]
fn paragraph_break_kept() {
    let out = typstfmt::format("a\n\nb", Config::default()).unwrap();
    assert_eq!(out, "a\n\nb\n");
}
#[test]
fn dict_entries_spaced() {
    let out = typstfmt::format("#(..t,p:p)", Config::default()).unwrap();
    assert_eq!(out, "#(..t, p: p)\n");
}
#[test]
fn erroneous_input_rejected() {
    assert_eq!(
        typstfmt::format("#f(", Config::default()),
        Err(FormatError::ErroneousInput)
    );
    assert_eq!(
        typstfmt::format("#{", Config::no_changes()),
        Err(FormatError::ErroneousInput)
    );
}
#[test]
fn idempotent_on_scenarios() {
    let snippets = [
        "#let x=4",
        "#{\na()[]\nb()[]\n}",
        "#let f(a,b,c) = {a+(b - c)}",
        "#let f(\na,\nb,\n) = a + b",
        "hello   world",
        "= heading\n- item one\n- item two\n",
        "#if false {} else if true {} else {}",
        "/ term: definition\n",
        "$x + y$\n",
        "// a line comment\n",
        "#set text(12pt)\n",
        "#show: it => it\n",
        "#import \"a.typ\": x, y\n",
        "#include \"ch.typ\"\n",
        "#for x in (1, 2) {x}\n",
        "#while false {continue}\n",
        "$a_1^2 + b/c$\n",
        "```rust\nlet x = 0;\n```\n",
        "\\# escaped\n",
        "= intro <here>\nsee @here\n",
        "#none #auto #true #1 #1.5 #2em #\"s\"\n",
        "#x.y(z)\n",
        "#let (a, b) = (1, 2)\n",
        "#context here\n",
        "#{\nlet a = 1; a + 1\n}\n",
        "- a\n  - nested\n+ b\n/ t: d\n",
        "#[*strong* _emph_]\n",
        "#(1, 2, 3).len()\n",
        "#let _ = 1\n",
        "#break\n",
        "#return 1\n",
        "l/*\n",
        "#(z*j)\n",
    ];
    for s in snippets {
        let out = typstfmt::format(s, Config::default()).unwrap();
        let again = typstfmt::format(&out, Config::default()).unwrap();
        assert_eq!(again, out, "input {:?}", s);
    }
}
#[test]
fn no_op_config_keeps_input() {
    let snippets = [
        "#f (  a  ,  b :   c,  ..d    ) = (a+b)\n",
        "#let    x       =      3\n",
        "#{\nlet a = 1\n\n\nlet b = 2\n}\n",
        "*strong*\nnormal\n_emph_\n\nnew para\n",
        "#if false{}else if true{}else{}\n",
        "#f(a, b,)\n",
        "0.\n",
        "=  \n",
        "-\n",
        "+\n",
        "/*\nkeep\n*/\n",
        "```n```\n",
        "#f(\na,\nb,\n)\n",
        "#``\n",
        "/ :\n",
        "#break\n",
        "xI#2.\n",
    ];
    for s in snippets {
        let out = typstfmt::format(s, Config::no_changes()).unwrap();
        assert_eq!(out, s, "input {:?}", s);
    }
}
#[test]
fn conditional_spacing_normalized() {
    let out = typstfmt::format(
        "#if          false        {}       else      if      true       {}   else   {}",
        Config::default(),
    )
    .unwrap();
    assert_eq!(out, "#if false {} else if true {} else {}\n");
}
#[test]
fn line_comment_kept() {
    let out = typstfmt::format("// a line comment", Config::default()).unwrap();
    assert_eq!(out, "// a line comment\n");
}
#[test]
fn heading_space_collapses() {
    let out = typstfmt::format("=  title", Config::default()).unwrap();
    assert_eq!(out, "= title\n");
}

#[test]
fn list_marker_spacing() {
    let out = typstfmt::format("-   a", Config::default()).unwrap();
    assert_eq!(out, "- a\n");
}

#[test]
fn term_colon_spacing() {
    let out = typstfmt::format("/ t:  d", Config::default()).unwrap();
    assert_eq!(out, "/ t: d\n");
}

#[test]
fn named_argument_spacing() {
    let out = typstfmt::format("#set text( size : 12pt )", Config::default()).unwrap();
    assert_eq!(out, "#set text(size: 12pt)\n");
}

#[test]
fn multi_line_call_keeps_split() {
    let out = typstfmt::format("#f(\n1,\n2,\n)", Config::default()).unwrap();
    assert_eq!(out, "#f(\n  1,\n  2,\n)\n");
}

#[test]
fn block_comment_stars_aligned() {
    let out = typstfmt::format("/*\nhi\n*/", Config::default()).unwrap();
    assert_eq!(out, "/*\nhi\n */\n");
    let again = typstfmt::format(&out, Config::default()).unwrap();
    assert_eq!(again, out);
}

#[test]
fn inline_block_comment_kept() {
    let out = typstfmt::format("#let f(/*inline comment*/a) = {}", Config::default()).unwrap();
    assert_eq!(out, "#let f(/*inline comment*/a) = {}\n");
}

#[test]
fn error_descriptions() {
    assert_eq!(
        FormatError::ErroneousInput.describe(),
        "The input contained errors, not formatting"
    );
    assert_eq!(
        FormatError::ProducedErroneousOutput.describe(),
        "An internal error produced an erroneous output"
    );
    assert_eq!(
        FormatError::FailedToFindFixedPoint.describe(),
        "Failed to find fixed point, reformat will not pass check"
    );
}
#[test]
fn default_config_values() {
    let c = Config::default();
    assert_eq!(c.indent, 2);
    assert!(c.spacing);
    assert!(c.multiline);
    let n = Config::no_changes();
    assert_eq!(n.indent, 0);
    assert!(!n.spacing);
    assert!(!n.multiline);
}
