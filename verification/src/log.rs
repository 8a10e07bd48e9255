//! Indented, wrapped log output.
//!
//! The log state holds the stack of indentation levels, the width that lines are wrapped
//! to, and where output goes. Logging a message yields the lines to write; for a tool
//! server (MCP) the lines are kept in the state until they are collected.

use crate::text::{join, joined, strings_view};
use colored::Colorize;
use vstd::prelude::*;

verus! {

/// The escape sequence that starts text with the attribute codes `code`.
pub open spec fn style_start(code: Seq<char>) -> Seq<char> {
    seq!['\x1b', '['] + code + seq!['m']
}

/// The escape sequence that resets text attributes.
pub open spec fn style_reset() -> Seq<char> {
    seq!['\x1b', '[', '0', 'm']
}

/// `text` with `start` inserted after each reset sequence in it, the reset sequences taken
/// from the left (they cannot overlap).
pub open spec fn reinsert_after_resets(text: Seq<char>, start: Seq<char>) -> Seq<char>
    decreases text.len(),
{
    if text.len() == 0 {
        Seq::empty()
    } else if text.len() >= 4 && text.take(4) == style_reset() {
        style_reset() + start + reinsert_after_resets(text.skip(4), start)
    } else {
        seq![text[0]] + reinsert_after_resets(text.skip(1), start)
    }
}

/// `r` renders `text` with the attribute codes `code`, or plain where the terminal gets
/// no colors. A styled rendering starts the codes again after each reset sequence inside
/// the text, so that nested styled text keeps the outer style after its own.
pub open spec fn painted(r: Seq<char>, text: Seq<char>, code: Seq<char>) -> bool {
    r == text || r == style_start(code) + reinsert_after_resets(text, style_start(code))
        + style_reset()
}

/// Calls `text.green()` of the `colored` crate and renders it; whether colors are written
/// depends on the environment, so the contract states only the possible renderings.
#[verifier::external_body]
pub(crate) fn paint_green(text: &str) -> (res: String)
    ensures
        painted(res@, text@, "32"@),
{
    text.green().to_string()
}

/// Calls `text.yellow().bold()` of the `colored` crate and renders it, as `paint_green`.
#[verifier::external_body]
pub(crate) fn paint_yellow_bold(text: &str) -> (res: String)
    ensures
        painted(res@, text@, "1;33"@),
{
    text.yellow().bold().to_string()
}

/// Calls `text.red().bold()` of the `colored` crate and renders it, as `paint_green`.
#[verifier::external_body]
pub(crate) fn paint_red_bold(text: &str) -> (res: String)
    ensures
        painted(res@, text@, "1;31"@),
{
    text.red().bold().to_string()
}

/// Calls `text.bold()` of the `colored` crate and renders it, as `paint_green`.
#[verifier::external_body]
pub(crate) fn paint_bold(text: &str) -> (res: String)
    ensures
        painted(res@, text@, "1"@),
{
    text.bold().to_string()
}

/// Calls `text.bold().green()` of the `colored` crate and renders it, as `paint_green`.
#[verifier::external_body]
pub(crate) fn paint_bold_green(text: &str) -> (res: String)
    ensures
        painted(res@, text@, "1;32"@),
{
    text.bold().green().to_string()
}

/// Calls `text.cyan()` of the `colored` crate and renders it, as `paint_green`.
#[verifier::external_body]
pub(crate) fn paint_cyan(text: &str) -> (res: String)
    ensures
        painted(res@, text@, "36"@),
{
    text.cyan().to_string()
}

/// Calls `text.bold().blue()` of the `colored` crate and renders it, as `paint_green`.
#[verifier::external_body]
pub(crate) fn paint_bold_blue(text: &str) -> (res: String)
    ensures
        painted(res@, text@, "1;34"@),
{
    text.bold().blue().to_string()
}

/// Calls `text.bold().red().underline()` of the `colored` crate and renders it, as
/// `paint_green`.
#[verifier::external_body]
pub(crate) fn paint_error_highlight(text: &str) -> (res: String)
    ensures
        painted(res@, text@, "1;4;31"@),
{
    text.bold().red().underline().to_string()
}

/// The lines that `textwrap::wrap` makes of `text` at `width` columns, continuation lines
/// indented by `indent`, words never hyphenated.
pub uninterp spec fn textwrap_lines(text: Seq<char>, width: usize, indent: Seq<char>) -> Seq<
    Seq<char>,
>;

/// Calls `textwrap::wrap(text, Options::new(width).subsequent_indent(subsequent_indent)
/// .word_splitter(WordSplitter::NoHyphenation))`; the lines are tied to the arguments by
/// `textwrap_lines`.
#[verifier::external_body]
fn textwrap_wrap(text: &str, width: usize, subsequent_indent: &str) -> (res: Vec<String>)
    requires
        width > 0,
    ensures
        strings_view(res@) == textwrap_lines(text@, width, subsequent_indent@),
{
    textwrap::wrap(
        text,
        textwrap::Options::new(width).subsequent_indent(subsequent_indent).word_splitter(
            textwrap::WordSplitter::NoHyphenation,
        ),
    ).into_iter().map(|line| line.into_owned()).collect()
}

/// The indentation of the continuation lines of a wrapped message: five spaces, so that
/// they stand out from the lines of the next message.
pub open spec fn continuation_indent() -> Seq<char> {
    "     "@
}

/// The number of bytes of the UTF-8 encoding of `s`.
pub open spec fn byte_len(s: Seq<char>) -> int {
    vstd::utf8::encode_utf8(s).len() as int
}

/// Where log output goes.
#[derive(Debug)]
pub enum Output {
    Stdout,
    Stderr,
    /// Output is dropped.
    Discard,
    TracingDebug,
    /// Output is kept for the tool call of this name.
    Mcp { tool_name: String },
}

/// Columns kept free at the right edge of the terminal.
pub open spec fn wrap_padding() -> int {
    2
}

/// The indentation of the given levels: each level's custom prefix, or two spaces.
pub open spec fn indent_of(indents: Seq<Option<String>>) -> Seq<char>
    decreases indents.len(),
{
    if indents.len() == 0 {
        Seq::empty()
    } else {
        indent_of(indents.drop_last()) + match indents.last() {
            Some(p) => p@,
            None => "  "@,
        }
    }
}

/// The wrap width for a terminal of `terminal_width` columns and an indentation of
/// `indent_bytes` bytes.
pub open spec fn max_width_for(terminal_width: Option<usize>, indent_bytes: int) -> Option<usize> {
    match terminal_width {
        Some(w) => Some((w - wrap_padding() - indent_bytes) as usize),
        None => None,
    }
}

/// The lines a message is logged as: wrapped where it is longer than the width (in
/// bytes) and has no line break, its continuation lines indented by
/// `continuation_indent()`.
pub open spec fn message_lines(message: Seq<char>, width: Option<usize>) -> Seq<Seq<char>> {
    match width {
        Some(w) => if w > 0 && byte_len(message) > w && !message.contains('\n') {
            textwrap_lines(message, w, continuation_indent())
        } else {
            seq![message]
        },
        None => seq![message],
    }
}

/// Concatenation of lines, without separators.
pub open spec fn concat_lines(lines: Seq<Seq<char>>) -> Seq<char>
    decreases lines.len(),
{
    if lines.len() == 0 {
        Seq::empty()
    } else {
        concat_lines(lines.drop_last()) + lines.last()
    }
}

/// Each line prefixed by the indentation.
pub open spec fn indented(indent: Seq<char>, lines: Seq<Seq<char>>) -> Seq<Seq<char>> {
    lines.map_values(|l: Seq<char>| indent + l)
}

/// `new` and `out` are the state and the written lines after logging `message` in `old`.
pub open spec fn logged(old: LogState, new: LogState, out: Seq<Seq<char>>, message: Seq<char>) -> bool {
    &&& new.wf()
    &&& new.indents == old.indents
    &&& new.calculated_indent == old.calculated_indent
    &&& new.max_width == old.max_width
    &&& new.terminal_width == old.terminal_width
    &&& new.output == old.output
    &&& match old.output {
        Output::Mcp { .. } => out.len() == 0 && strings_view(new.tool_output@) == strings_view(
            old.tool_output@,
        ).push(old.calculated_indent@ + concat_lines(message_lines(message, old.max_width))),
        Output::Discard => out.len() == 0 && new.tool_output == old.tool_output,
        _ => out == indented(old.calculated_indent@, message_lines(message, old.max_width))
            && new.tool_output == old.tool_output,
    }
}

/// The state of the log.
pub struct LogState {
    pub indents: Vec<Option<String>>,
    pub calculated_indent: String,
    pub terminal_width: Option<usize>,
    pub max_width: Option<usize>,
    pub output: Output,
    /// Lines kept for the current tool call.
    pub tool_output: Vec<String>,
}

impl LogState {
    /// The derived fields agree with the indentation levels.
    pub open spec fn wf(&self) -> bool {
        &&& self.calculated_indent@ == indent_of(self.indents@)
        &&& self.max_width == max_width_for(self.terminal_width, byte_len(self.calculated_indent@))
        &&& self.terminal_width is Some ==> self.terminal_width->0 >= wrap_padding() + byte_len(
            self.calculated_indent@,
        )
    }

    /// Whether one more indentation level with `prefix` (two spaces where `None`) fits
    /// the terminal.
    pub open spec fn indent_fits(&self, prefix: Option<Seq<char>>) -> bool {
        self.terminal_width is Some ==> self.terminal_width->0 >= wrap_padding() + byte_len(
            self.calculated_indent@ + match prefix {
                Some(p) => p,
                None => "  "@,
            },
        )
    }

    /// A log to standard output without indentation, for a terminal of the given width.
    pub fn new(terminal_width: Option<usize>) -> (res: Self)
        requires
            terminal_width is Some ==> terminal_width->0 >= wrap_padding(),
        ensures
            res.wf(),
            res.indents@.len() == 0,
            res.terminal_width == terminal_width,
            res.output is Stdout,
            res.tool_output@.len() == 0,
    {
        let max_width = match terminal_width {
            Some(w) => Some(w - 2),
            None => None,
        };
        assert(indent_of(Seq::<Option<String>>::empty()) =~= Seq::<char>::empty());
        assert(vstd::utf8::encode_utf8(Seq::<char>::empty()) =~= Seq::<u8>::empty());
        LogState {
            indents: Vec::new(),
            calculated_indent: String::new(),
            terminal_width,
            max_width,
            output: Output::Stdout,
            tool_output: Vec::new(),
        }
    }

    /// Recomputes the indentation and the wrap width from the levels.
    fn regen_indent_prefix(&mut self)
        requires
            old(self).terminal_width is Some ==> old(self).terminal_width->0 >= wrap_padding()
                + byte_len(indent_of(old(self).indents@)),
        ensures
            final(self).wf(),
            final(self).indents == old(self).indents,
            final(self).terminal_width == old(self).terminal_width,
            final(self).output == old(self).output,
            final(self).tool_output == old(self).tool_output,
    {
        let mut indent = String::new();
        let mut i: usize = 0;
        assert(indent_of(self.indents@.take(0)) =~= Seq::<char>::empty());
        while i < self.indents.len()
            invariant
                i <= self.indents.len(),
                indent@ == indent_of(self.indents@.take(i as int)),
            decreases self.indents.len() - i,
        {
            assert(self.indents@.take(i + 1).drop_last() =~= self.indents@.take(i as int));
            match &self.indents[i] {
                Some(p) => indent.append(p.as_str()),
                None => indent.append("  "),
            }
            i = i + 1;
        }
        assert(self.indents@.take(self.indents.len() as int) =~= self.indents@);
        let len = indent.as_str().as_bytes().len();
        self.max_width = match self.terminal_width {
            Some(w) => Some(w - 2 - len),
            None => None,
        };
        self.calculated_indent = indent;
    }

    /// Adds an indentation level: `prefix`, or two spaces where `None`.
    pub fn inc_indent(&mut self, prefix: Option<&str>)
        requires
            old(self).wf(),
            old(self).indent_fits(
                match prefix {
                    Some(p) => Some(p@),
                    None => None,
                },
            ),
        ensures
            final(self).wf(),
            final(self).indents@.len() == old(self).indents@.len() + 1,
            final(self).indents@.drop_last() == old(self).indents@,
            match final(self).indents@.last() {
                Some(p) => prefix is Some && p@ == prefix->0@,
                None => prefix is None,
            },
            final(self).calculated_indent@ == old(self).calculated_indent@ + match prefix {
                Some(p) => p@,
                None => "  "@,
            },
            final(self).terminal_width == old(self).terminal_width,
            final(self).output == old(self).output,
            final(self).tool_output == old(self).tool_output,
    {
        let entry = match prefix {
            Some(p) => Some(p.to_string()),
            None => None,
        };
        self.indents.push(entry);
        assert(self.indents@.drop_last() =~= old(self).indents@);
        self.regen_indent_prefix();
    }

    /// Removes the innermost indentation level, if any.
    pub fn dec_indent(&mut self)
        requires
            old(self).wf(),
        ensures
            final(self).wf(),
            final(self).indents@ == if old(self).indents@.len() == 0 {
                old(self).indents@
            } else {
                old(self).indents@.drop_last()
            },
            final(self).terminal_width == old(self).terminal_width,
            final(self).output == old(self).output,
            final(self).tool_output == old(self).tool_output,
    {
        proof {
            if self.indents@.len() > 0 {
                lemma_indent_prefix_bytes(self.indents@);
            }
        }
        let _ = self.indents.pop();
        self.regen_indent_prefix();
    }

    /// Directs the output.
    pub fn set_output(&mut self, output: Output)
        ensures
            final(self).output == output,
            final(self).indents == old(self).indents,
            final(self).calculated_indent == old(self).calculated_indent,
            final(self).terminal_width == old(self).terminal_width,
            final(self).max_width == old(self).max_width,
            final(self).tool_output == old(self).tool_output,
    {
        self.output = output;
    }

    /// Keeps an indented line for the current tool call.
    pub fn store_mcp_tool_output(&mut self, indent: &str, line: &str)
        ensures
            strings_view(final(self).tool_output@) == strings_view(old(self).tool_output@).push(
                indent@ + line@,
            ),
            final(self).indents == old(self).indents,
            final(self).calculated_indent == old(self).calculated_indent,
            final(self).terminal_width == old(self).terminal_width,
            final(self).max_width == old(self).max_width,
            final(self).output == old(self).output,
    {
        let mut data = indent.to_string();
        data.append(line);
        let ghost before = self.tool_output@;
        self.tool_output.push(data);
        assert(strings_view(self.tool_output@) =~= strings_view(before).push(indent@ + line@));
    }

    /// Collects the lines kept for the tool call, joined by line breaks, and forgets them.
    pub fn get_mcp_tool_output(&mut self) -> (res: Vec<String>)
        ensures
            res@.len() == 1,
            res@[0]@ == joined(strings_view(old(self).tool_output@), "\n"@),
            final(self).tool_output@.len() == 0,
            final(self).indents == old(self).indents,
            final(self).calculated_indent == old(self).calculated_indent,
            final(self).terminal_width == old(self).terminal_width,
            final(self).max_width == old(self).max_width,
            final(self).output == old(self).output,
    {
        let output = join(&self.tool_output, "\n");
        self.tool_output = Vec::new();
        let mut res: Vec<String> = Vec::new();
        res.push(output);
        res
    }

    /// Logs a message: the lines to write to the output (indented, wrapped where it is
    /// too long); for a tool call the lines are kept instead, run together as one.
    pub fn logln(&mut self, message: &str) -> (res: Vec<String>)
        requires
            old(self).wf(),
        ensures
            logged(*old(self), *final(self), strings_view(res@), message@),
    {
        let lines = process_lines(message, self.max_width);
        match &self.output {
            Output::Mcp { .. } => {
                let mut all = String::new();
                let mut i: usize = 0;
                while i < lines.len()
                    invariant
                        i <= lines.len(),
                        all@ == concat_lines(strings_view(lines@).take(i as int)),
                    decreases lines.len() - i,
                {
                    assert(strings_view(lines@).take(i + 1).drop_last() =~= strings_view(lines@).take(
                        i as int,
                    ));
                    all.append(lines[i].as_str());
                    i = i + 1;
                }
                assert(strings_view(lines@).take(lines.len() as int) =~= strings_view(lines@));
                let indent = self.calculated_indent.clone();
                self.store_mcp_tool_output(indent.as_str(), all.as_str());
                Vec::new()
            },
            Output::Discard => Vec::new(),
            _ => {
                let mut res: Vec<String> = Vec::new();
                let mut i: usize = 0;
                while i < lines.len()
                    invariant
                        i <= lines.len(),
                        strings_view(res@) == indented(
                            self.calculated_indent@,
                            strings_view(lines@).take(i as int),
                        ),
                    decreases lines.len() - i,
                {
                    let ghost before = res@;
                    let mut l = self.calculated_indent.clone();
                    l.append(lines[i].as_str());
                    res.push(l);
                    assert(strings_view(res@) =~= strings_view(before).push(l@));
                    assert(indented(self.calculated_indent@, strings_view(lines@).take(i + 1))
                        =~= indented(
                        self.calculated_indent@,
                        strings_view(lines@).take(i as int),
                    ).push(self.calculated_indent@ + lines@[i as int]@));
                    i = i + 1;
                }
                assert(strings_view(lines@).take(lines.len() as int) =~= strings_view(lines@));
                res
            },
        }
    }
}

/// The bytes of an indentation shrink when its innermost level is removed.
proof fn lemma_indent_prefix_bytes(indents: Seq<Option<String>>)
    requires
        indents.len() > 0,
    ensures
        byte_len(indent_of(indents.drop_last())) <= byte_len(indent_of(indents)),
{
    let last = match indents.last() {
        Some(p) => p@,
        None => "  "@,
    };
    lemma_encode_utf8_concat(indent_of(indents.drop_last()), last);
}

/// The encoding of a concatenation is the concatenation of the encodings.
pub proof fn lemma_encode_utf8_concat(a: Seq<char>, b: Seq<char>)
    ensures
        vstd::utf8::encode_utf8(a + b) == vstd::utf8::encode_utf8(a) + vstd::utf8::encode_utf8(b),
    decreases a.len(),
{
    if a.len() == 0 {
        assert(a + b =~= b);
        assert(vstd::utf8::encode_utf8(a) =~= Seq::<u8>::empty());
        assert(Seq::<u8>::empty() + vstd::utf8::encode_utf8(b) =~= vstd::utf8::encode_utf8(b));
    } else {
        lemma_encode_utf8_concat(a.drop_first(), b);
        assert((a + b).drop_first() =~= a.drop_first() + b);
        assert((a + b)[0] == a[0]);
        assert(vstd::utf8::encode_utf8(a + b) =~= vstd::utf8::encode_scalar(a[0] as u32) + (
        vstd::utf8::encode_utf8(a.drop_first()) + vstd::utf8::encode_utf8(b)));
    }
}

/// The lines a message is logged as; see `message_lines`.
fn process_lines(message: &str, width: Option<usize>) -> (res: Vec<String>)
    ensures
        strings_view(res@) == message_lines(message@, width),
{
    let cs = crate::text::chars_of(message);
    let mut has_newline = false;
    let mut i: usize = 0;
    while i < cs.len()
        invariant
            i <= cs.len(),
            cs@ == message@,
            has_newline == cs@.take(i as int).contains('\n'),
        decreases cs.len() - i,
    {
        proof {
            crate::text::lemma_push_contains(cs@.take(i as int), cs@[i as int]);
        }
        assert(cs@.take(i + 1) =~= cs@.take(i as int).push(cs@[i as int]));
        if cs[i] == '\n' {
            has_newline = true;
        }
        i = i + 1;
    }
    assert(cs@.take(cs.len() as int) =~= cs@);
    let blen = message.as_bytes().len();
    match width {
        Some(w) => {
            if w > 0 && blen > w && !has_newline {
                return textwrap_wrap(message, w, "     ");
            }
        },
        None => {},
    }
    let mut res: Vec<String> = Vec::new();
    res.push(message.to_string());
    assert(strings_view(res@) =~= seq![message@]);
    res
}

/// Logs `message`.
pub fn logln(state: &mut LogState, message: &str) -> (res: Vec<String>)
    requires
        old(state).wf(),
    ensures
        logged(*old(state), *final(state), strings_view(res@), message@),
{
    state.logln(message)
}

fn join_action(painted_action: &str, subject: &str) -> (res: String)
    ensures
        res@ == painted_action@ + " "@ + subject@,
{
    let mut m = painted_action.to_string();
    m.append(" ");
    m.append(subject);
    m
}

/// Logs `<action> <subject>` with the action in green.
pub fn log_action(state: &mut LogState, action: &str, subject: &str) -> (res: Vec<String>)
    requires
        old(state).wf(),
    ensures
        exists|p: Seq<char>|
            painted(p, action@, "32"@) && logged(
                *old(state),
                *final(state),
                strings_view(res@),
                p + " "@ + subject@,
            ),
{
    let a = paint_green(action);
    let m = join_action(a.as_str(), subject);
    state.logln(m.as_str())
}

/// Logs `<action> <subject>` with the action in bold yellow.
pub fn log_warn_action(state: &mut LogState, action: &str, subject: &str) -> (res: Vec<String>)
    requires
        old(state).wf(),
    ensures
        exists|p: Seq<char>|
            painted(p, action@, "1;33"@) && logged(
                *old(state),
                *final(state),
                strings_view(res@),
                p + " "@ + subject@,
            ),
{
    let a = paint_yellow_bold(action);
    let m = join_action(a.as_str(), subject);
    state.logln(m.as_str())
}

/// Logs `<action> <subject>` with the action in bold red.
pub fn log_error_action(state: &mut LogState, action: &str, subject: &str) -> (res: Vec<String>)
    requires
        old(state).wf(),
    ensures
        exists|p: Seq<char>|
            painted(p, action@, "1;31"@) && logged(
                *old(state),
                *final(state),
                strings_view(res@),
                p + " "@ + subject@,
            ),
{
    let a = paint_red_bold(action);
    let m = join_action(a.as_str(), subject);
    state.logln(m.as_str())
}

/// Logs that `subject` is skipped as up to date: `Skipping <subject>, UP-TO-DATE`, with
/// `Skipping` in bold yellow and `UP-TO-DATE` in bold green.
pub fn log_skipping_up_to_date(state: &mut LogState, subject: &str) -> (res: Vec<String>)
    requires
        old(state).wf(),
    ensures
        exists|p: Seq<char>, q: Seq<char>|
            painted(p, "Skipping"@, "1;33"@) && painted(q, "UP-TO-DATE"@, "1;32"@) && logged(
                *old(state),
                *final(state),
                strings_view(res@),
                p + " "@ + subject@ + ", "@ + q,
            ),
{
    let q = paint_bold_green("UP-TO-DATE");
    let mut s = subject.to_string();
    s.append(", ");
    s.append(q.as_str());
    let p = paint_yellow_bold("Skipping");
    let m = join_action(p.as_str(), s.as_str());
    assert(m@ == p@ + " "@ + subject@ + ", "@ + q@);
    state.logln(m.as_str())
}

/// What is logged during a tool call is what the call's output gives back: a message
/// logged while nothing is kept yet comes back, indented and run together, as the whole
/// output, and nothing is written.
pub proof fn lemma_logged_tool_output(
    old: LogState,
    new: LogState,
    out: Seq<Seq<char>>,
    message: Seq<char>,
)
    requires
        logged(old, new, out, message),
        old.output is Mcp,
        old.tool_output@.len() == 0,
    ensures
        out.len() == 0,
        joined(strings_view(new.tool_output@), "\n"@) == old.calculated_indent@ + concat_lines(
            message_lines(message, old.max_width),
        ),
{
    let line = old.calculated_indent@ + concat_lines(message_lines(message, old.max_width));
    assert(strings_view(old.tool_output@) =~= Seq::<Seq<char>>::empty());
    assert(strings_view(new.tool_output@) =~= seq![line]);
}

/// `new` is `old` with one more, innermost, indentation level.
pub open spec fn indent_added(old: LogState, new: LogState) -> bool {
    &&& new.wf()
    &&& new.indents@.len() == old.indents@.len() + 1
    &&& new.indents@.drop_last() == old.indents@
    &&& new.terminal_width == old.terminal_width
    &&& new.output == old.output
    &&& new.tool_output == old.tool_output
}

/// `new` is `old` without its innermost indentation level (unchanged where it has none).
pub open spec fn indent_removed(old: LogState, new: LogState) -> bool {
    &&& new.wf()
    &&& new.indents@ == if old.indents@.len() == 0 {
        old.indents@
    } else {
        old.indents@.drop_last()
    }
    &&& new.terminal_width == old.terminal_width
    &&& new.output == old.output
    &&& new.tool_output == old.tool_output
}

/// An indentation level that is added and then removed leaves the log as it was: the same
/// levels, indentation, wrap width, output and kept tool output.
pub proof fn lemma_indent_then_end_restores(before: LogState, during: LogState, after: LogState)
    requires
        before.wf(),
        indent_added(before, during),
        indent_removed(during, after),
    ensures
        after.indents@ == before.indents@,
        after.calculated_indent@ == before.calculated_indent@,
        after.max_width == before.max_width,
        after.terminal_width == before.terminal_width,
        after.output == before.output,
        after.tool_output == before.tool_output,
{
}

/// The indentation that a level adds: its prefix verbatim, or two spaces where it has none.
pub open spec fn level_indent(prefix: Option<Seq<char>>) -> Seq<char> {
    match prefix {
        Some(p) => p,
        None => "  "@,
    }
}

/// While an indentation level lives, the log's prefix is the one before followed by the
/// level's own (two spaces for `LogIndent::new`, the given prefix for `LogIndent::prefix`),
/// and every line written meanwhile starts with it; ending the level brings back the
/// prefix and the levels from before.
pub proof fn lemma_indent_level_round_trip(
    before: LogState,
    during: LogState,
    after: LogState,
    prefix: Option<Seq<char>>,
)
    requires
        before.wf(),
        indent_added(before, during),
        during.calculated_indent@ == before.calculated_indent@ + level_indent(prefix),
        indent_removed(during, after),
    ensures
        after.calculated_indent@ == before.calculated_indent@,
        after.indents@ == before.indents@,
        forall|mid: LogState, out: Seq<Seq<char>>, message: Seq<char>, i: int|
            #![trigger logged(during, mid, out, message), out[i]]
            logged(during, mid, out, message) && 0 <= i < out.len() ==> out[i].subrange(
                0,
                (before.calculated_indent@ + level_indent(prefix)).len() as int,
            ) == before.calculated_indent@ + level_indent(prefix),
{
    lemma_indent_then_end_restores(before, during, after);
    assert forall|mid: LogState, out: Seq<Seq<char>>, message: Seq<char>, i: int|
        #![trigger logged(during, mid, out, message), out[i]]
        logged(during, mid, out, message) && 0 <= i < out.len() implies out[i].subrange(
            0,
            (before.calculated_indent@ + level_indent(prefix)).len() as int,
        ) == before.calculated_indent@ + level_indent(prefix) by {
        let lines = message_lines(message, during.max_width);
        let ind = during.calculated_indent@;
        assert(out == indented(ind, lines));
        assert(out[i] == ind + lines[i]);
        assert((ind + lines[i]).subrange(0, ind.len() as int) =~= ind);
    }
}

/// An indentation level of the log, released with `end`.
pub struct LogIndent {
    pub depth: usize,
}

impl LogIndent {
    /// Indents the log by two spaces.
    pub fn new(state: &mut LogState) -> (res: Self)
        requires
            old(state).wf(),
            old(state).indent_fits(None),
        ensures
            indent_added(*old(state), *final(state)),
            final(state).calculated_indent@ == old(state).calculated_indent@ + "  "@,
            res.depth == final(state).indents@.len(),
    {
        state.inc_indent(None);
        LogIndent { depth: state.indents.len() }
    }

    /// Indents the log by `prefix`.
    pub fn prefix(state: &mut LogState, prefix: &str) -> (res: Self)
        requires
            old(state).wf(),
            old(state).indent_fits(Some(prefix@)),
        ensures
            indent_added(*old(state), *final(state)),
            final(state).calculated_indent@ == old(state).calculated_indent@ + prefix@,
            res.depth == final(state).indents@.len(),
    {
        state.inc_indent(Some(prefix));
        LogIndent { depth: state.indents.len() }
    }

    /// Releases this indentation level.
    pub fn end(self, state: &mut LogState)
        requires
            old(state).wf(),
        ensures
            indent_removed(*old(state), *final(state)),
    {
        state.dec_indent();
    }
}

/// Whether `new` is `old` with the output replaced by `output`.
pub open spec fn output_replaced(old: LogState, new: LogState, output: Output) -> bool {
    &&& new.output == output
    &&& new.indents == old.indents
    &&& new.calculated_indent == old.calculated_indent
    &&& new.terminal_width == old.terminal_width
    &&& new.max_width == old.max_width
    &&& new.tool_output == old.tool_output
}

/// An output of the log in force until `end` brings back the one before it.
pub struct LogOutput {
    pub prev_output: Output,
}

impl LogOutput {
    /// Directs the log to `output`, keeping the output it had.
    pub fn new(state: &mut LogState, output: Output) -> (res: Self)
        ensures
            output_replaced(*old(state), *final(state), output),
            res.prev_output == old(state).output,
    {
        let mut prev_output = output;
        std::mem::swap(&mut prev_output, &mut state.output);
        LogOutput { prev_output }
    }

    /// Brings back the output that the log had before `new`.
    pub fn end(self, state: &mut LogState)
        ensures
            output_replaced(*old(state), *final(state), self.prev_output),
    {
        state.set_output(self.prev_output);
    }
}

/// Redirecting the output of the log and then ending the redirection leaves the log as it
/// was.
pub proof fn lemma_output_then_end_restores(
    before: LogState,
    during: LogState,
    after: LogState,
    output: Output,
    guard: LogOutput,
)
    requires
        output_replaced(before, during, output),
        guard.prev_output == before.output,
        output_replaced(during, after, guard.prev_output),
    ensures
        after == before,
{
}

/// Logs an error: `error:` in bold red, a space and the message.
pub fn log_error(state: &mut LogState, message: &str) -> (res: Vec<String>)
    requires
        old(state).wf(),
    ensures
        exists|p: Seq<char>|
            #[trigger] painted(p, "error:"@, "1;31"@) && logged(
                *old(state),
                *final(state),
                strings_view(res@),
                p + " "@ + message@,
            ),
{
    let p = paint_red_bold("error:");
    let m = join_action(p.as_str(), message);
    state.logln(m.as_str())
}

/// Logs a warning: `warning:` in bold yellow, a space and the message.
pub fn log_warn(state: &mut LogState, message: &str) -> (res: Vec<String>)
    requires
        old(state).wf(),
    ensures
        exists|p: Seq<char>|
            #[trigger] painted(p, "warning:"@, "1;33"@) && logged(
                *old(state),
                *final(state),
                strings_view(res@),
                p + " "@ + message@,
            ),
{
    let p = paint_yellow_bold("warning:");
    let m = join_action(p.as_str(), message);
    state.logln(m.as_str())
}

/// A framed, indented block of the log: opened with `╔═`, its lines prefixed with `║ `,
/// and closed with `╚═`.
pub struct NestedTextViewIndent {
    pub indent: LogIndent,
}

impl NestedTextViewIndent {
    /// Opens the block: logs `╔═` and adds the `║ ` indentation; the logged lines are
    /// returned with the block.
    pub fn new(state: &mut LogState) -> (res: (Self, Vec<String>))
        requires
            old(state).wf(),
            old(state).indent_fits(Some("║ "@)),
        ensures
            exists|mid: LogState|
                #[trigger] logged(*old(state), mid, strings_view(res.1@), "╔═"@) && indent_added(
                    mid,
                    *final(state),
                ) && final(state).calculated_indent@ == mid.calculated_indent@ + "║ "@,
    {
        let lines = state.logln("╔═");
        let ghost mid = *state;
        let indent = LogIndent::prefix(state, "║ ");
        let res = (NestedTextViewIndent { indent }, lines);
        assert(logged(*old(state), mid, strings_view(res.1@), "╔═"@) && indent_added(mid, *state)
            && state.calculated_indent@ == mid.calculated_indent@ + "║ "@);
        res
    }

    /// Closes the block: removes its indentation and logs `╚═`.
    pub fn end(self, state: &mut LogState) -> (res: Vec<String>)
        requires
            old(state).wf(),
        ensures
            exists|mid: LogState|
                #[trigger] indent_removed(*old(state), mid) && logged(
                    mid,
                    *final(state),
                    strings_view(res@),
                    "╚═"@,
                ),
    {
        self.indent.end(state);
        let ghost mid = *state;
        let lines = state.logln("╚═");
        assert(indent_removed(*old(state), mid) && logged(mid, *state, strings_view(lines@), "╚═"@));
        lines
    }
}

/// A framed block leaves the indentation as it found it.
pub proof fn lemma_nested_view_restores_indent(
    before: LogState,
    opened: LogState,
    inside: LogState,
    closing: LogState,
    after: LogState,
    open_lines: Seq<Seq<char>>,
    close_lines: Seq<Seq<char>>,
)
    requires
        before.wf(),
        logged(before, opened, open_lines, "╔═"@),
        indent_added(opened, inside),
        indent_removed(inside, closing),
        logged(closing, after, close_lines, "╚═"@),
    ensures
        after.indents@ == before.indents@,
        after.calculated_indent@ == before.calculated_indent@,
        after.max_width == before.max_width,
        after.output == before.output,
{
}

/// A file operation that does not overwrite changed files unasked.
pub enum OverwriteSafeAction {
    CopyFile { source: String, target: String },
    CopyFileTransformed { source: String, target: String },
    WriteFile { content: String, target: String },
}

/// What is done about a file operation.
#[derive(PartialEq, Eq, Structural, Clone, Copy, Debug)]
pub enum OverwriteSafeActionPlan {
    Create,
    Overwrite,
    SkipSameContent,
}

/// The log line of a planned file operation, with the source and target paths rendered as
/// `src` and `tgt`: whether it is a warning, the verb, and the subject.
pub open spec fn plan_line(
    action: OverwriteSafeAction,
    plan: OverwriteSafeActionPlan,
    src: Seq<char>,
    tgt: Seq<char>,
) -> (bool, Seq<char>, Seq<char>) {
    match plan {
        OverwriteSafeActionPlan::Create => match action {
            OverwriteSafeAction::CopyFile { .. } => (false, "Copying"@, src + " to "@ + tgt),
            OverwriteSafeAction::CopyFileTransformed { .. } => (
                false,
                "Copying"@,
                src + " to "@ + tgt + " transformed"@,
            ),
            OverwriteSafeAction::WriteFile { .. } => (false, "Creating"@, tgt),
        },
        OverwriteSafeActionPlan::Overwrite => match action {
            OverwriteSafeAction::CopyFile { .. } => (true, "Overwriting"@, tgt + " with "@ + src),
            OverwriteSafeAction::CopyFileTransformed { .. } => (
                true,
                "Overwriting"@,
                tgt + " with "@ + src + " transformed"@,
            ),
            OverwriteSafeAction::WriteFile { .. } => (true, "Overwriting"@, tgt),
        },
        OverwriteSafeActionPlan::SkipSameContent => match action {
            OverwriteSafeAction::CopyFile { .. } => (
                true,
                "Skipping"@,
                "copying "@ + src + " to "@ + tgt + ", content already up-to-date"@,
            ),
            OverwriteSafeAction::CopyFileTransformed { .. } => (
                true,
                "Skipping"@,
                "copying "@ + src + " to "@ + tgt + " transformed, content already up-to-date"@,
            ),
            OverwriteSafeAction::WriteFile { .. } => (
                true,
                "Skipping"@,
                "generating "@ + tgt + ", content already up-to-date"@,
            ),
        },
    }
}

/// The source path of an action (empty for writes).
pub open spec fn action_source(action: OverwriteSafeAction) -> Seq<char> {
    match action {
        OverwriteSafeAction::CopyFile { source, .. } => source@,
        OverwriteSafeAction::CopyFileTransformed { source, .. } => source@,
        OverwriteSafeAction::WriteFile { .. } => Seq::empty(),
    }
}

/// The target path of an action.
pub open spec fn action_target(action: OverwriteSafeAction) -> Seq<char> {
    match action {
        OverwriteSafeAction::CopyFile { target, .. } => target@,
        OverwriteSafeAction::CopyFileTransformed { target, .. } => target@,
        OverwriteSafeAction::WriteFile { target, .. } => target@,
    }
}

/// `verb` renders the verb of the plan's log line: green for an action, bold yellow for a
/// warning.
pub open spec fn plan_verb_painted(
    verb: Seq<char>,
    action: OverwriteSafeAction,
    plan: OverwriteSafeActionPlan,
    src: Seq<char>,
    tgt: Seq<char>,
) -> bool {
    let line = plan_line(action, plan, src, tgt);
    painted(
        verb,
        line.1,
        if line.0 {
            "1;33"@
        } else {
            "32"@
        },
    )
}

fn concat(a: &str, b: &str) -> (res: String)
    ensures
        res@ == a@ + b@,
{
    let mut r = a.to_string();
    r.append(b);
    r
}

fn plan_line_exec(
    action: &OverwriteSafeAction,
    plan: OverwriteSafeActionPlan,
    src: &str,
    tgt: &str,
) -> (res: (bool, &'static str, String))
    ensures
        (res.0, res.1@, res.2@) == plan_line(*action, plan, src@, tgt@),
{
    let r = match plan {
        OverwriteSafeActionPlan::Create => match action {
            OverwriteSafeAction::CopyFile { .. } => (false, "Copying", concat(&concat(src, " to "), tgt)),
            OverwriteSafeAction::CopyFileTransformed { .. } => (
                false,
                "Copying",
                concat(&concat(&concat(src, " to "), tgt), " transformed"),
            ),
            OverwriteSafeAction::WriteFile { .. } => (false, "Creating", tgt.to_string()),
        },
        OverwriteSafeActionPlan::Overwrite => match action {
            OverwriteSafeAction::CopyFile { .. } => (true, "Overwriting", concat(&concat(tgt, " with "), src)),
            OverwriteSafeAction::CopyFileTransformed { .. } => (
                true,
                "Overwriting",
                concat(&concat(&concat(tgt, " with "), src), " transformed"),
            ),
            OverwriteSafeAction::WriteFile { .. } => (true, "Overwriting", tgt.to_string()),
        },
        OverwriteSafeActionPlan::SkipSameContent => match action {
            OverwriteSafeAction::CopyFile { .. } => (
                true,
                "Skipping",
                concat(&concat(&concat(&concat("copying ", src), " to "), tgt), ", content already up-to-date"),
            ),
            OverwriteSafeAction::CopyFileTransformed { .. } => (
                true,
                "Skipping",
                concat(&concat(&concat(&concat("copying ", src), " to "), tgt), " transformed, content already up-to-date"),
            ),
            OverwriteSafeAction::WriteFile { .. } => (
                true,
                "Skipping",
                concat(&concat("generating ", tgt), ", content already up-to-date"),
            ),
        },
    };
    r
}

/// Logs a planned file operation, with the paths in bold; creating is logged as an action,
/// overwriting and skipping as warnings.
pub fn log_action_plan(
    state: &mut LogState,
    action: &OverwriteSafeAction,
    plan: OverwriteSafeActionPlan,
) -> (res: Vec<String>)
    requires
        old(state).wf(),
    ensures
        exists|src: Seq<char>, tgt: Seq<char>, verb: Seq<char>|
            #![trigger painted(src, action_source(*action), "1"@), painted(tgt, action_target(*action), "1"@), plan_verb_painted(verb, *action, plan, src, tgt)]
            painted(src, action_source(*action), "1"@) && painted(
                tgt,
                action_target(*action),
                "1"@,
            ) && plan_verb_painted(verb, *action, plan, src, tgt) && logged(
                *old(state),
                *final(state),
                strings_view(res@),
                verb + " "@ + plan_line(*action, plan, src, tgt).2,
            ),
{
    let (source, target) = match action {
        OverwriteSafeAction::CopyFile { source, target } => (source.as_str(), target.as_str()),
        OverwriteSafeAction::CopyFileTransformed { source, target } => (
            source.as_str(),
            target.as_str(),
        ),
        OverwriteSafeAction::WriteFile { target, .. } => ("", target.as_str()),
    };
    proof {
        reveal_strlit("");
    }
    let src = paint_bold(source);
    let tgt = paint_bold(target);
    let (warn, verb, subject) = plan_line_exec(action, plan, src.as_str(), tgt.as_str());
    let v = if warn {
        paint_yellow_bold(verb)
    } else {
        paint_green(verb)
    };
    let m = join_action(v.as_str(), subject.as_str());
    assert(source@ == action_source(*action));
    assert(target@ == action_target(*action));
    assert(plan_verb_painted(v@, *action, plan, src@, tgt@));
    state.logln(m.as_str())
}

} // verus!
