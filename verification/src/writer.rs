//! The stateful text-assembly engine.
//!
//! A [`Writer`] turns a sequence of primitive calls — emit text, emit a
//! space, break the line, open or close an indented group — into correctly
//! indented text. Lines are assembled in a pending buffer and moved to the
//! emitted buffer when a line break occurs; indentation changes take effect
//! on the next line, and repeated changes in the same direction within one
//! line are coalesced, so opening several groups on one line indents by a
//! single level.

use vstd::prelude::*;
use vstd::string::StrSliceExecFns;
use vstd::string::StringExecFns;

use crate::config::Config;
use crate::ext::string_push_char;

verus! {

/// The direction of the last indentation change since the last line break;
/// used to coalesce repeated changes in the same direction.
#[derive(Clone, Copy, PartialEq, Eq, Structural, Debug)]
pub enum LastChange {
    /// The last change raised the indentation.
    Inc,
    /// The last change lowered the indentation.
    Dec,
    /// No change since the last line break.
    Unset,
}

/// The abstract state of a [`Writer`]: the emitted text, the pending line,
/// the indentation in effect for the pending line and for the next one, the
/// coalescing marker, and the configuration.
pub ghost struct WriterV {
    /// Finalized text, each line already prefixed with its indentation.
    pub value: Seq<char>,
    /// The pending line, not yet terminated.
    pub line: Seq<char>,
    /// Spaces prefixed to the pending line when it is finalized.
    pub current: nat,
    /// Indentation that takes effect on the next line.
    pub next: nat,
    /// The coalescing marker.
    pub last: LastChange,
    /// The configuration the writer was created with.
    pub cfg: Config,
}

/// A run of `n` spaces.
pub open spec fn spaces(n: nat) -> Seq<char> {
    Seq::new(n, |i: int| ' ')
}

/// Addition clamped to the machine word, as the writer performs it.
pub open spec fn sat_add(a: nat, b: nat) -> nat {
    if a + b <= usize::MAX as nat {
        a + b
    } else {
        usize::MAX as nat
    }
}

/// Subtraction clamped to zero, as the writer performs it.
pub open spec fn sat_sub(a: nat, b: nat) -> nat {
    if a >= b {
        (a - b) as nat
    } else {
        0
    }
}

/// Finalize the pending line: prefix it with the current indentation (an
/// empty pending line is emitted bare), terminate it, and let the pending
/// indentation take effect.
pub open spec fn writer_flush(w: WriterV) -> WriterV {
    WriterV {
        value: if w.line.len() == 0 {
            w.value + seq!['\n']
        } else {
            w.value + spaces(w.current) + w.line + seq!['\n']
        },
        line: Seq::empty(),
        current: w.next,
        next: w.next,
        last: LastChange::Unset,
        cfg: w.cfg,
    }
}

/// Append one character: a newline finalizes the pending line, anything
/// else extends it.
pub open spec fn writer_push_char(w: WriterV, c: char) -> WriterV {
    if c == '\n' {
        writer_flush(w)
    } else {
        WriterV { line: w.line.push(c), ..w }
    }
}

/// Append text character by character, treating every newline in it as a
/// line break.
pub open spec fn writer_push(w: WriterV, s: Seq<char>) -> WriterV
    decreases s.len(),
{
    if s.len() == 0 {
        w
    } else {
        writer_push(writer_push_char(w, s[0]), s.drop_first())
    }
}

/// Append text to the pending line verbatim, without newline handling.
pub open spec fn writer_push_raw(w: WriterV, s: Seq<char>) -> WriterV {
    WriterV { line: w.line + s, ..w }
}

/// Append a single space, except at the start of a line.
pub open spec fn writer_space(w: WriterV) -> WriterV {
    if w.line.len() == 0 {
        w
    } else {
        WriterV { line: w.line.push(' '), ..w }
    }
}

/// Finalize the pending line.
pub open spec fn writer_newline(w: WriterV) -> WriterV {
    writer_flush(w)
}

/// Emit a blank separator line: finalize the pending line if it has
/// content, then finalize one empty line.
pub open spec fn writer_parbreak(w: WriterV) -> WriterV {
    if w.line.len() == 0 {
        writer_flush(w)
    } else {
        writer_flush(writer_flush(w))
    }
}

/// Raise the pending indentation by one level, unless the last change on
/// this line already raised it.
pub open spec fn writer_inc(w: WriterV) -> WriterV {
    if w.last != LastChange::Inc {
        WriterV { next: sat_add(w.next, w.cfg.indent as nat), last: LastChange::Inc, ..w }
    } else {
        w
    }
}

/// Lower the pending indentation by one level, unless the last change on
/// this line already lowered it; the current indentation drops immediately
/// so a bracket closed on its opening line is not over-indented.
pub open spec fn writer_dec(w: WriterV) -> WriterV {
    if w.last != LastChange::Dec {
        let nx = sat_sub(w.next, w.cfg.indent as nat);
        WriterV { next: nx, current: nx, last: LastChange::Dec, ..w }
    } else {
        w
    }
}

/// Emit an opening bracket and raise the indentation.
pub open spec fn writer_open(w: WriterV, s: Seq<char>) -> WriterV {
    writer_inc(writer_push(w, s))
}

/// Lower the indentation and emit a closing bracket.
pub open spec fn writer_close(w: WriterV, s: Seq<char>) -> WriterV {
    writer_push(writer_dec(w), s)
}

/// The final text: the emitted buffer, with the pending line flushed first
/// if it has content.
pub open spec fn writer_finish(w: WriterV) -> Seq<char> {
    if w.line.len() == 0 {
        w.value
    } else {
        writer_flush(w).value
    }
}

/// The state of a freshly created writer.
pub open spec fn writer_init(cfg: Config) -> WriterV {
    WriterV {
        value: Seq::empty(),
        line: Seq::empty(),
        current: 0,
        next: 0,
        last: LastChange::Unset,
        cfg,
    }
}

/// Pushing concatenated text is pushing one part after the other.
pub proof fn lemma_writer_push_concat(w: WriterV, a: Seq<char>, b: Seq<char>)
    ensures
        writer_push(w, a + b) == writer_push(writer_push(w, a), b),
    decreases a.len(),
{
    if a.len() == 0 {
        assert(a + b =~= b);
    } else {
        assert((a + b).drop_first() =~= a.drop_first() + b);
        assert((a + b)[0] == a[0]);
        lemma_writer_push_concat(writer_push_char(w, a[0]), a.drop_first(), b);
    }
}

/// A context object used to store state while formatting.
pub struct Writer {
    /// The text written so far.
    value: String,
    /// The config to use for formatting the text.
    config: Config,
    /// The pending line.
    line: String,
    /// The indentation of the pending line, in spaces.
    current_indent_level: usize,
    /// The indentation that takes effect on the next line, in spaces.
    next_indent_level: usize,
    /// The coalescing marker for indentation changes.
    last_indent: LastChange,
}

impl View for Writer {
    type V = WriterV;

    closed spec fn view(&self) -> WriterV {
        WriterV {
            value: self.value@,
            line: self.line@,
            current: self.current_indent_level as nat,
            next: self.next_indent_level as nat,
            last: self.last_indent,
            cfg: self.config,
        }
    }
}

impl Writer {
    /// Create a new writer with the given config.
    pub fn new(config: Config) -> (w: Self)
        ensures
            w@ == writer_init(config),
    {
        Writer {
            value: String::new(),
            config,
            line: String::new(),
            current_indent_level: 0,
            next_indent_level: 0,
            last_indent: LastChange::Unset,
        }
    }

    /// The configuration this writer formats under.
    pub fn config(&self) -> (c: &Config)
        ensures
            *c == self@.cfg,
    {
        &self.config
    }

    /// Whether the pending line is still empty.
    pub fn pending_empty(&self) -> (r: bool)
        ensures
            r == (self@.line.len() == 0),
    {
        self.line.as_str().is_empty()
    }

    /// The indentation to prefix to the pending line, as text.
    fn current_indent(&self) -> (s: String)
        ensures
            s@ == spaces(self@.current),
    {
        let mut s = String::new();
        let mut i: usize = 0;
        while i < self.current_indent_level
            invariant
                0 <= i <= self.current_indent_level,
                s@ =~= spaces(i as nat),
            decreases self.current_indent_level - i,
        {
            string_push_char(&mut s, ' ');
            assert(s@ =~= spaces((i + 1) as nat));
            i = i + 1;
        }
        s
    }

    /// Finalize the pending line into the emitted buffer.
    fn flush_line(&mut self)
        ensures
            final(self)@ == writer_flush(old(self)@),
    {
        if !self.line.as_str().is_empty() {
            let ind = self.current_indent();
            self.value.append(ind.as_str());
            self.value.append(self.line.as_str());
            self.line = String::new();
        }
        string_push_char(&mut self.value, '\n');
        self.current_indent_level = self.next_indent_level;
        self.last_indent = LastChange::Unset;
        proof {
            assert(self@.value =~= writer_flush(old(self)@).value);
            assert(self@.line =~= writer_flush(old(self)@).line);
        }
    }

    /// Appends the given text to the buffer; every newline in it finalizes
    /// the pending line.
    pub fn push(&mut self, s: &str)
        ensures
            final(self)@ == writer_push(old(self)@, s@),
    {
        let len = s.unicode_len();
        let mut i: usize = 0;
        proof {
            assert(s@.skip(0) =~= s@);
        }
        while i < len
            invariant
                len == s@.len(),
                0 <= i <= len,
                writer_push(self@, s@.skip(i as int)) == writer_push(old(self)@, s@),
            decreases len - i,
        {
            let ghost pre = self@;
            let c = s.get_char(i);
            if c == '\n' {
                self.flush_line();
            } else {
                string_push_char(&mut self.line, c);
            }
            proof {
                assert(self@ == writer_push_char(pre, s@[i as int]));
                assert(s@.skip(i as int).drop_first() =~= s@.skip(i as int + 1));
                assert(s@.skip(i as int)[0] == s@[i as int]);
                assert(writer_push(pre, s@.skip(i as int)) == writer_push(
                    self@,
                    s@.skip(i as int + 1),
                ));
            }
            i = i + 1;
        }
        proof {
            assert(s@.skip(len as int) =~= Seq::<char>::empty());
        }
    }

    /// Appends the given text to the pending line without interpreting
    /// newlines.
    pub fn push_raw(&mut self, s: &str)
        ensures
            final(self)@ == writer_push_raw(old(self)@, s@),
    {
        self.line.append(s);
    }

    /// Emit a blank separator line between two blocks of content.
    pub fn parbreak(&mut self)
        ensures
            final(self)@ == writer_parbreak(old(self)@),
    {
        if !self.line.as_str().is_empty() {
            self.flush_line();
        }
        self.flush_line();
    }

    /// Appends a single space, except at the start of a line.
    pub fn space(&mut self)
        ensures
            final(self)@ == writer_space(old(self)@),
    {
        if self.line.as_str().is_empty() {
            return ;
        }
        string_push_char(&mut self.line, ' ');
    }

    /// Finalizes the pending line; an empty pending line becomes an empty
    /// emitted line.
    pub fn newline(&mut self)
        ensures
            final(self)@ == writer_newline(old(self)@),
    {
        self.flush_line();
    }

    /// Increases the pending indentation by the amount in the config,
    /// unless the last change on this line already increased it.
    pub fn inc_indent(&mut self)
        ensures
            final(self)@ == writer_inc(old(self)@),
    {
        if self.last_indent != LastChange::Inc {
            self.next_indent_level = if self.next_indent_level <= usize::MAX - self.config.indent {
                self.next_indent_level + self.config.indent
            } else {
                usize::MAX
            };
            self.last_indent = LastChange::Inc;
        }
    }

    /// Decreases the pending indentation by the amount in the config,
    /// unless the last change on this line already decreased it; the
    /// current indentation drops immediately.
    pub fn dec_indent(&mut self)
        ensures
            final(self)@ == writer_dec(old(self)@),
    {
        if self.last_indent != LastChange::Dec {
            let nx = if self.next_indent_level >= self.config.indent {
                self.next_indent_level - self.config.indent
            } else {
                0
            };
            self.next_indent_level = nx;
            self.current_indent_level = nx;
            self.last_indent = LastChange::Dec;
        }
    }

    /// Emit an opening bracket and indent what follows one level deeper.
    pub fn open_grouping(&mut self, text: &str)
        ensures
            final(self)@ == writer_open(old(self)@, text@),
    {
        self.push(text);
        self.inc_indent();
    }

    /// Undo one level of indentation and emit a closing bracket.
    pub fn close_grouping(&mut self, text: &str)
        ensures
            final(self)@ == writer_close(old(self)@, text@),
    {
        self.dec_indent();
        self.push(text);
    }

    /// Get the written value, flushing the pending line if it has content.
    pub fn finish(self) -> (r: String)
        ensures
            r@ == writer_finish(self@),
    {
        let mut w = self;
        if !w.line.as_str().is_empty() {
            w.flush_line();
        }
        w.value
    }
}

impl Default for Writer {
    /// A writer with the default configuration.
    fn default() -> (w: Self)
        ensures
            w@ == writer_init(Config::default_spec()),
    {
        Writer::new(Config::default())
    }
}

} // verus!
