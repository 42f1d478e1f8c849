//! A formatter for typst markup: it parses the source, walks the syntax
//! tree, and re-emits a canonical, whitespace-normalized rendering that
//! preserves the meaning of the input.

use vstd::prelude::*;

mod config;
mod ext;
mod node;
mod noop;
mod render;
mod writer;

pub use config::Config;
pub use ext::parse_of;

use ext::parse_text;
pub use node::Kind;
pub use node::Node;
pub use node::erroneous;
pub use node::flatten;
pub use node::has_error;
pub use node::wf_node;
pub use render::Renderer;
pub use render::rendered;
pub use writer::Writer;

verus! {

/// Errors generated during formatting.
#[derive(Clone, Copy, PartialEq, Eq, Structural, Debug)]
pub enum FormatError {
    /// Invalid code was given; erroneous input is never formatted.
    ErroneousInput,
    /// The formatter produced an invalid output, which is not handed out.
    ProducedErroneousOutput,
    /// The formatter failed to find a fixed point: formatting the output
    /// again would change it.
    FailedToFindFixedPoint,
}

impl FormatError {
    /// A human-readable description of the error.
    pub fn describe(&self) -> (r: &'static str)
        ensures
            r@ == self.describe_spec(),
    {
        match self {
            FormatError::ErroneousInput => "The input contained errors, not formatting",
            FormatError::ProducedErroneousOutput => "An internal error produced an erroneous output",
            FormatError::FailedToFindFixedPoint => "Failed to find fixed point, reformat will not pass check",
        }
    }

    /// The description [`Self::describe`] returns.
    pub open spec fn describe_spec(&self) -> Seq<char> {
        match self {
            FormatError::ErroneousInput => "The input contained errors, not formatting"@,
            FormatError::ProducedErroneousOutput => "An internal error produced an erroneous output"@,
            FormatError::FailedToFindFixedPoint => "Failed to find fixed point, reformat will not pass check"@,
        }
    }
}

/// What formatting a source text returns: the canonical rendering of its
/// tree, provided the input parses cleanly, the output does too, and the
/// output is a fixed point of rendering; otherwise the first error in that
/// order.
pub open spec fn format_spec(s: Seq<char>, cfg: Config) -> Result<Seq<char>, FormatError> {
    let t = parse_of(s);
    if has_error(t) {
        Err(FormatError::ErroneousInput)
    } else {
        let out = rendered(t, cfg);
        let t2 = parse_of(out);
        if has_error(t2) {
            Err(FormatError::ProducedErroneousOutput)
        } else {
            let out2 = rendered(t2, cfg);
            if out2 != out {
                Err(FormatError::FailedToFindFixedPoint)
            } else {
                Ok(out)
            }
        }
    }
}

/// Whether an executable result agrees with [`format_spec`]'s answer.
pub open spec fn format_returns(r: Result<String, FormatError>, sp: Result<
    Seq<char>,
    FormatError,
>) -> bool {
    match (r, sp) {
        (Ok(out), Ok(o)) => out@ == o,
        (Err(e), Err(e2)) => e == e2,
        _ => false,
    }
}

/// Format some typst code.
///
/// The text is parsed and rejected if it contains any error node; the tree
/// is rendered; the rendering is parsed again and rejected if the formatter
/// produced erroneous output; and the re-parsed tree is rendered once more
/// to confirm the output is a fixed point.
pub fn format(input: &str, config: Config) -> (r: Result<String, FormatError>)
    ensures
        format_returns(r, format_spec(input@, config)),
        r == Err::<String, FormatError>(FormatError::ErroneousInput) <==> has_error(
            parse_of(input@),
        ),
        r matches Ok(out) ==> !has_error(parse_of(out@)) && rendered(parse_of(out@), config)
            == out@,
        config == Config::no_changes_spec() && !has_error(parse_of(input@)) && (input@.len() == 0
            || input@[input@.len() - 1] == '\n') ==> (r matches Ok(out) && out@ == input@),
{
    let init = parse_text(input);
    if erroneous(&init) {
        return Err(FormatError::ErroneousInput);
    }
    let writer = Writer::new(config);
    let mut renderer = Renderer { writer };
    renderer.render(&init);
    let output = renderer.finish();
    proof {
        if config == Config::no_changes_spec() && (input@.len() == 0 || input@[input@.len() - 1]
            == '\n') {
            crate::noop::lemma_noop_rendered(init);
        }
    }

    let reparsed = parse_text(output.as_str());
    if erroneous(&reparsed) {
        return Err(FormatError::ProducedErroneousOutput);
    }

    let writer2 = Writer::new(config);
    let mut renderer2 = Renderer { writer: writer2 };
    renderer2.render(&reparsed);
    let output2 = renderer2.finish();
    if !(output == output2) {
        return Err(FormatError::FailedToFindFixedPoint);
    }
    Ok(output)
}

/// Idempotence: whenever formatting succeeds, formatting the result again
/// succeeds and returns it unchanged, under the same configuration.
pub proof fn lemma_format_idempotent(s: Seq<char>, cfg: Config)
    ensures
        format_spec(s, cfg) matches Ok(out) ==> format_spec(out, cfg) == Ok::<
            Seq<char>,
            FormatError,
        >(out),
{
    match format_spec(s, cfg) {
        Ok(out) => {
            let t2 = parse_of(out);
            assert(!has_error(t2));
            assert(rendered(t2, cfg) == out);
        },
        Err(_) => {},
    }
}

} // verus!
