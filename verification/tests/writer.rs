use typstfmt::Config;
use typstfmt::Writer;

#[test]
fn state_persistent() {
    let mut writer = Writer::default();
    writer.inc_indent();
    writer.newline();
    writer.push("Hello, World!");
    assert_eq!(writer.finish(), "\n  Hello, World!\n");
}

#[test]
fn complex() {
    let mut writer = Writer::default();
    let indent = writer.config().indent;
    writer.push("f(");
    writer.inc_indent();
    writer.newline();
    writer.push("a,");
    writer.newline();
    writer.push("b,");
    writer.newline();
    writer.dec_indent();
    writer.push(")");
    assert_eq!(
        writer.finish(),
        format!("f(\n{0}a,\n{0}b,\n)\n", " ".repeat(indent))
    );
}

#[test]
fn empty_finish_is_empty() {
    let writer = Writer::new(Config::default());
    assert_eq!(writer.finish(), "");
}

#[test]
fn space_never_starts_a_line() {
    let mut writer = Writer::new(Config::default());
    writer.space();
    writer.push("a");
    writer.newline();
    writer.space();
    writer.push("b");
    assert_eq!(writer.finish(), "a\nb\n");
}

#[test]
fn push_splits_on_newlines() {
    let mut writer = Writer::new(Config::default());
    writer.push("one\ntwo\n\nthree");
    assert_eq!(writer.finish(), "one\ntwo\n\nthree\n");
}

#[test]
fn push_raw_keeps_newlines_pending() {
    let mut writer = Writer::new(Config::default());
    writer.inc_indent();
    writer.newline();
    writer.push_raw("a\nb");
    assert_eq!(writer.finish(), "\n  a\nb\n");
}

#[test]
fn parbreak_emits_one_blank_line() {
    let mut writer = Writer::new(Config::default());
    writer.push("a");
    writer.parbreak();
    writer.push("b");
    assert_eq!(writer.finish(), "a\n\nb\n");
}

#[test]
fn coalesced_groups_indent_once() {
    let mut writer = Writer::new(Config::default());
    writer.open_grouping("{");
    writer.open_grouping("(");
    writer.newline();
    writer.push("x");
    writer.newline();
    writer.close_grouping(")");
    writer.close_grouping("}");
    assert_eq!(writer.finish(), "{(\n  x\n)}\n");
}

#[test]
fn dec_indent_saturates_at_zero() {
    let mut writer = Writer::new(Config::default());
    writer.push("a");
    writer.dec_indent();
    writer.newline();
    writer.push("b");
    assert_eq!(writer.finish(), "a\nb\n");
}

#[test]
fn indent_takes_effect_on_next_line_only() {
    let mut writer = Writer::new(Config { indent: 4, spacing: true, multiline: true });
    writer.push("head");
    writer.inc_indent();
    writer.newline();
    writer.push("body");
    assert_eq!(writer.finish(), "head\n    body\n");
}
