//! Rendering of one record into styled output operations.
//!
//! A record is rendered as a fixed sequence of operations: an optional
//! foreground-color change before each of the timestamp, origin and level
//! segments, a style reset, and the message text ending in a newline. The
//! operation sequence is the specification the sink layer is proved against.
use vstd::prelude::*;
use vstd::string::StringExecFns;

use crate::level::LogLevel;
use crate::record::LogRecord;
use crate::record::RecordModel;

verus! {

/// Foreground color used for the timestamp segment (bright black, a dim tone).
pub const TIMESTAMP_COLOR: u32 = 8;

/// Foreground color used for the origin segment (bright blue).
pub const ORIGIN_COLOR: u32 = 12;

/// Bright red, the fixed color of the `Error` tag.
pub const BRIGHT_RED: u32 = 9;

/// Bright green, the fixed color of the `Info` tag.
pub const BRIGHT_GREEN: u32 = 10;

/// Bright yellow, the fixed color of the `Warn` tag.
pub const BRIGHT_YELLOW: u32 = 11;

/// Bright cyan, the fixed color of the `Debug` tag.
pub const BRIGHT_CYAN: u32 = 14;

/// Bright white, the fixed color of the `Trace` tag.
pub const BRIGHT_WHITE: u32 = 15;

/// One output operation: style a following segment, drop styling, or write text.
#[derive(Debug, PartialEq, Eq)]
pub enum Op {
    /// Set the foreground color for the text that follows.
    Fg(u32),
    /// Return to the unstyled foreground.
    Reset,
    /// Write this text unchanged.
    Text(String),
}

/// Mathematical image of an [`Op`], with text as a character sequence.
pub ghost enum OpModel {
    Fg(u32),
    Reset,
    Text(Seq<char>),
}

impl View for Op {
    type V = OpModel;

    open spec fn view(&self) -> OpModel {
        match self {
            Op::Fg(c) => OpModel::Fg(*c),
            Op::Reset => OpModel::Reset,
            Op::Text(s) => OpModel::Text(s@),
        }
    }
}

/// The models of a sequence of operations, element for element.
pub open spec fn ops_view(ops: Seq<Op>) -> Seq<OpModel> {
    ops.map_values(|op: Op| op@)
}

/// The fixed color of a level's tag: Error is bright red, Warn bright yellow,
/// Info bright green, Debug bright cyan, Trace bright white.
pub open spec fn level_color(level: LogLevel) -> u32 {
    match level {
        LogLevel::Error => BRIGHT_RED,
        LogLevel::Warn => BRIGHT_YELLOW,
        LogLevel::Info => BRIGHT_GREEN,
        LogLevel::Debug => BRIGHT_CYAN,
        LogLevel::Trace => BRIGHT_WHITE,
    }
}

/// The color code of a level's tag, as [`level_color`] fixes it.
pub fn level_color_code(level: LogLevel) -> (c: u32)
    ensures
        c == level_color(level),
{
    match level {
        LogLevel::Error => BRIGHT_RED,
        LogLevel::Warn => BRIGHT_YELLOW,
        LogLevel::Info => BRIGHT_GREEN,
        LogLevel::Debug => BRIGHT_CYAN,
        LogLevel::Trace => BRIGHT_WHITE,
    }
}

/// The tag text of a level.
pub open spec fn level_label(level: LogLevel) -> Seq<char> {
    match level {
        LogLevel::Error => "ERROR"@,
        LogLevel::Warn => "WARN"@,
        LogLevel::Info => "INFO"@,
        LogLevel::Debug => "DEBUG"@,
        LogLevel::Trace => "TRACE"@,
    }
}

/// The tag text of a level, as [`level_label`] fixes it.
pub fn level_name(level: LogLevel) -> (r: &'static str)
    ensures
        r@ == level_label(level),
{
    match level {
        LogLevel::Error => "ERROR",
        LogLevel::Warn => "WARN",
        LogLevel::Info => "INFO",
        LogLevel::Debug => "DEBUG",
        LogLevel::Trace => "TRACE",
    }
}

/// A segment in brackets followed by one space.
pub open spec fn bracket_seg(s: Seq<char>) -> Seq<char> {
    "["@ + s + "] "@
}

/// The origin text of a record: its origin, or `?` when it has none.
pub open spec fn origin_text(origin: Option<Seq<char>>) -> Seq<char> {
    match origin {
        Some(s) => s,
        None => "?"@,
    }
}

/// The full text line for a record:
/// `[<timestamp>] [<origin-or-?>] [<LEVEL>] <message>` and a newline.
pub open spec fn line_of(r: RecordModel) -> Seq<char> {
    bracket_seg(r.timestamp) + bracket_seg(origin_text(r.origin)) + bracket_seg(
        level_label(r.level),
    ) + r.message + "\n"@
}

/// One styling operation when colors are enabled, nothing otherwise.
pub open spec fn style(colors: bool, op: OpModel) -> Seq<OpModel> {
    if colors {
        seq![op]
    } else {
        Seq::empty()
    }
}

/// The operations that render one record: each text segment, preceded by its
/// color when colors are enabled, and a reset before the message.
pub open spec fn render_ops(r: RecordModel, colors: bool) -> Seq<OpModel> {
    style(colors, OpModel::Fg(TIMESTAMP_COLOR)) + seq![OpModel::Text(bracket_seg(r.timestamp))]
        + style(colors, OpModel::Fg(ORIGIN_COLOR)) + seq![
        OpModel::Text(bracket_seg(origin_text(r.origin))),
    ] + style(colors, OpModel::Fg(level_color(r.level))) + seq![
        OpModel::Text(bracket_seg(level_label(r.level))),
    ] + style(colors, OpModel::Reset) + seq![OpModel::Text(r.message + "\n"@)]
}

/// The text an operation writes; styling writes none.
pub open spec fn op_text(op: OpModel) -> Seq<char> {
    match op {
        OpModel::Text(s) => s,
        _ => Seq::empty(),
    }
}

/// The text a sequence of operations writes, in order.
pub open spec fn text_of(ops: Seq<OpModel>) -> Seq<char>
    decreases ops.len(),
{
    if ops.len() == 0 {
        Seq::empty()
    } else {
        text_of(ops.drop_last()) + op_text(ops.last())
    }
}

/// What one operation does to a stream: on a terminal every operation counts;
/// on the plain fallback stream styling is a no-op and only text is written.
pub open spec fn effective_one(op: OpModel, terminal: bool) -> Seq<OpModel> {
    if terminal || op is Text {
        seq![op]
    } else {
        Seq::empty()
    }
}

/// What a sequence of operations does to a stream, in order.
pub open spec fn effective(ops: Seq<OpModel>, terminal: bool) -> Seq<OpModel>
    decreases ops.len(),
{
    if ops.len() == 0 {
        Seq::empty()
    } else {
        effective(ops.drop_last(), terminal) + effective_one(ops.last(), terminal)
    }
}

/// A segment in brackets followed by one space, as [`bracket_seg`] fixes it.
fn bracketed(s: &str) -> (r: String)
    ensures
        r@ == bracket_seg(s@),
{
    let mut r = "[".to_owned();
    r.append(s);
    r.append("] ");
    proof {
        assert(r@ =~= bracket_seg(s@));
    }
    r
}

/// The operations that render one record, exactly those of [`render_ops`].
pub fn render(record: &LogRecord, colors: bool) -> (ops: Vec<Op>)
    ensures
        ops_view(ops@) == render_ops(record@, colors),
{
    let mut ops: Vec<Op> = Vec::new();
    if colors {
        ops.push(Op::Fg(TIMESTAMP_COLOR));
    }
    ops.push(Op::Text(bracketed(record.timestamp.as_str())));
    if colors {
        ops.push(Op::Fg(ORIGIN_COLOR));
    }
    ops.push(Op::Text(match &record.origin {
        Some(s) => bracketed(s.as_str()),
        None => bracketed("?"),
    }));
    if colors {
        ops.push(Op::Fg(level_color_code(record.level)));
    }
    ops.push(Op::Text(bracketed(level_name(record.level))));
    if colors {
        ops.push(Op::Reset);
    }
    let mut message_line = record.message.clone();
    message_line.append("\n");
    ops.push(Op::Text(message_line));
    proof {
        assert(ops_view(ops@) =~= render_ops(record@, colors));
    }
    ops
}

/// The full text line for a record, exactly [`line_of`] its model. It carries
/// no styling; it is the form a plain stream receives.
pub fn render_line(record: &LogRecord) -> (r: String)
    ensures
        r@ == line_of(record@),
{
    let mut r = bracketed(record.timestamp.as_str());
    let origin_seg = match &record.origin {
        Some(s) => bracketed(s.as_str()),
        None => bracketed("?"),
    };
    r.append(origin_seg.as_str());
    let level_seg = bracketed(level_name(record.level));
    r.append(level_seg.as_str());
    r.append(record.message.as_str());
    r.append("\n");
    proof {
        assert(r@ =~= line_of(record@));
    }
    r
}

proof fn lemma_text_of_one(op: OpModel)
    ensures
        text_of(seq![op]) == op_text(op),
{
    assert(seq![op].drop_last() =~= Seq::<OpModel>::empty());
    assert(seq![op].last() == op);
    assert(text_of(Seq::<OpModel>::empty()) == Seq::<char>::empty());
    assert(Seq::<char>::empty() + op_text(op) =~= op_text(op));
}

proof fn lemma_text_of_concat(a: Seq<OpModel>, b: Seq<OpModel>)
    ensures
        text_of(a + b) == text_of(a) + text_of(b),
    decreases b.len(),
{
    if b.len() == 0 {
        assert(a + b =~= a);
        assert(text_of(a) + text_of(b) =~= text_of(a));
    } else {
        lemma_text_of_concat(a, b.drop_last());
        assert((a + b).drop_last() =~= a + b.drop_last());
        assert((a + b).last() == b.last());
        assert((text_of(a) + text_of(b.drop_last())) + op_text(b.last()) =~= text_of(a) + (
        text_of(b.drop_last()) + op_text(b.last())));
    }
}

proof fn lemma_text_of_style(colors: bool, op: OpModel)
    requires
        !(op is Text),
    ensures
        text_of(style(colors, op)) == Seq::<char>::empty(),
{
    if colors {
        lemma_text_of_one(op);
    }
}

/// The text of a record's rendering is its line, whether or not colors are
/// enabled: styling adds no text, and stripping it leaves the same bytes.
pub proof fn lemma_render_text(r: RecordModel, colors: bool)
    ensures
        text_of(render_ops(r, colors)) == line_of(r),
{
    let s1 = style(colors, OpModel::Fg(TIMESTAMP_COLOR));
    let t1 = seq![OpModel::Text(bracket_seg(r.timestamp))];
    let s2 = style(colors, OpModel::Fg(ORIGIN_COLOR));
    let t2 = seq![OpModel::Text(bracket_seg(origin_text(r.origin)))];
    let s3 = style(colors, OpModel::Fg(level_color(r.level)));
    let t3 = seq![OpModel::Text(bracket_seg(level_label(r.level)))];
    let s4 = style(colors, OpModel::Reset);
    let t4 = seq![OpModel::Text(r.message + "\n"@)];
    lemma_text_of_style(colors, OpModel::Fg(TIMESTAMP_COLOR));
    lemma_text_of_style(colors, OpModel::Fg(ORIGIN_COLOR));
    lemma_text_of_style(colors, OpModel::Fg(level_color(r.level)));
    lemma_text_of_style(colors, OpModel::Reset);
    lemma_text_of_one(OpModel::Text(bracket_seg(r.timestamp)));
    lemma_text_of_one(OpModel::Text(bracket_seg(origin_text(r.origin))));
    lemma_text_of_one(OpModel::Text(bracket_seg(level_label(r.level))));
    lemma_text_of_one(OpModel::Text(r.message + "\n"@));
    lemma_text_of_concat(s1, t1);
    lemma_text_of_concat(s1 + t1, s2);
    lemma_text_of_concat(s1 + t1 + s2, t2);
    lemma_text_of_concat(s1 + t1 + s2 + t2, s3);
    lemma_text_of_concat(s1 + t1 + s2 + t2 + s3, t3);
    lemma_text_of_concat(s1 + t1 + s2 + t2 + s3 + t3, s4);
    lemma_text_of_concat(s1 + t1 + s2 + t2 + s3 + t3 + s4, t4);
    assert(text_of(render_ops(r, colors)) =~= line_of(r));
}

/// With colors disabled, the rendering holds no styling operation at all:
/// every operation is plain text.
pub proof fn lemma_plain_render_no_styles(r: RecordModel)
    ensures
        forall|i: int|
            0 <= i < render_ops(r, false).len() ==> (#[trigger] render_ops(r, false)[i]) is Text,
{
    assert(render_ops(r, false) =~= seq![
        OpModel::Text(bracket_seg(r.timestamp)),
        OpModel::Text(bracket_seg(origin_text(r.origin))),
        OpModel::Text(bracket_seg(level_label(r.level))),
        OpModel::Text(r.message + "\n"@),
    ]);
}

/// With colors enabled, the rendering carries exactly the fixed styling: a dim
/// tone before the timestamp, bright blue before the origin, the level's own
/// color before its tag, and a reset before the message.
pub proof fn lemma_level_color_table(r: RecordModel)
    ensures
        render_ops(r, true).len() == 8,
        render_ops(r, true)[0] == OpModel::Fg(TIMESTAMP_COLOR),
        render_ops(r, true)[2] == OpModel::Fg(ORIGIN_COLOR),
        render_ops(r, true)[4] == OpModel::Fg(level_color(r.level)),
        render_ops(r, true)[6] == OpModel::Reset,
        level_color(LogLevel::Error) == BRIGHT_RED,
        level_color(LogLevel::Warn) == BRIGHT_YELLOW,
        level_color(LogLevel::Info) == BRIGHT_GREEN,
        level_color(LogLevel::Debug) == BRIGHT_CYAN,
        level_color(LogLevel::Trace) == BRIGHT_WHITE,
{
    assert(render_ops(r, true) =~= seq![
        OpModel::Fg(TIMESTAMP_COLOR),
        OpModel::Text(bracket_seg(r.timestamp)),
        OpModel::Fg(ORIGIN_COLOR),
        OpModel::Text(bracket_seg(origin_text(r.origin))),
        OpModel::Fg(level_color(r.level)),
        OpModel::Text(bracket_seg(level_label(r.level))),
        OpModel::Reset,
        OpModel::Text(r.message + "\n"@),
    ]);
}

/// Rendering depends on the record and the flags alone: rendering one record
/// twice, through any two sinks and color settings, writes byte-identical text.
pub proof fn lemma_format_idempotent(r: RecordModel, colors1: bool, colors2: bool)
    ensures
        text_of(render_ops(r, colors1)) == text_of(render_ops(r, colors2)),
{
    lemma_render_text(r, colors1);
    lemma_render_text(r, colors2);
}

proof fn lemma_effective_one_elem(op: OpModel, terminal: bool)
    ensures
        effective(seq![op], terminal) == effective_one(op, terminal),
{
    assert(seq![op].drop_last() =~= Seq::<OpModel>::empty());
    assert(seq![op].last() == op);
    assert(effective(Seq::<OpModel>::empty(), terminal) == Seq::<OpModel>::empty());
    assert(Seq::<OpModel>::empty() + effective_one(op, terminal) =~= effective_one(op, terminal));
}

proof fn lemma_effective_concat(a: Seq<OpModel>, b: Seq<OpModel>, terminal: bool)
    ensures
        effective(a + b, terminal) == effective(a, terminal) + effective(b, terminal),
    decreases b.len(),
{
    if b.len() == 0 {
        assert(a + b =~= a);
        assert(effective(a, terminal) + effective(b, terminal) =~= effective(a, terminal));
    } else {
        lemma_effective_concat(a, b.drop_last(), terminal);
        assert((a + b).drop_last() =~= a + b.drop_last());
        assert((a + b).last() == b.last());
        assert((effective(a, terminal) + effective(b.drop_last(), terminal)) + effective_one(
            b.last(),
            terminal,
        ) =~= effective(a, terminal) + (effective(b.drop_last(), terminal) + effective_one(
            b.last(),
            terminal,
        )));
    }
}

proof fn lemma_effective_style(colors: bool, op: OpModel, terminal: bool)
    requires
        !(op is Text),
    ensures
        effective(style(colors, op), terminal) == style(colors && terminal, op),
{
    if colors {
        lemma_effective_one_elem(op, terminal);
    }
    assert(effective(style(colors, op), terminal) =~= style(colors && terminal, op));
}

/// On a plain stream the styling operations of a rendering fall away and
/// exactly the plain rendering remains; a terminal receives every operation.
pub proof fn lemma_effective_render(r: RecordModel, colors: bool, terminal: bool)
    ensures
        effective(render_ops(r, colors), terminal) == render_ops(r, colors && terminal),
{
    let s1 = style(colors, OpModel::Fg(TIMESTAMP_COLOR));
    let t1 = seq![OpModel::Text(bracket_seg(r.timestamp))];
    let s2 = style(colors, OpModel::Fg(ORIGIN_COLOR));
    let t2 = seq![OpModel::Text(bracket_seg(origin_text(r.origin)))];
    let s3 = style(colors, OpModel::Fg(level_color(r.level)));
    let t3 = seq![OpModel::Text(bracket_seg(level_label(r.level)))];
    let s4 = style(colors, OpModel::Reset);
    let t4 = seq![OpModel::Text(r.message + "\n"@)];
    lemma_effective_style(colors, OpModel::Fg(TIMESTAMP_COLOR), terminal);
    lemma_effective_style(colors, OpModel::Fg(ORIGIN_COLOR), terminal);
    lemma_effective_style(colors, OpModel::Fg(level_color(r.level)), terminal);
    lemma_effective_style(colors, OpModel::Reset, terminal);
    lemma_effective_one_elem(OpModel::Text(bracket_seg(r.timestamp)), terminal);
    lemma_effective_one_elem(OpModel::Text(bracket_seg(origin_text(r.origin))), terminal);
    lemma_effective_one_elem(OpModel::Text(bracket_seg(level_label(r.level))), terminal);
    lemma_effective_one_elem(OpModel::Text(r.message + "\n"@), terminal);
    lemma_effective_concat(s1, t1, terminal);
    lemma_effective_concat(s1 + t1, s2, terminal);
    lemma_effective_concat(s1 + t1 + s2, t2, terminal);
    lemma_effective_concat(s1 + t1 + s2 + t2, s3, terminal);
    lemma_effective_concat(s1 + t1 + s2 + t2 + s3, t3, terminal);
    lemma_effective_concat(s1 + t1 + s2 + t2 + s3 + t3, s4, terminal);
    lemma_effective_concat(s1 + t1 + s2 + t2 + s3 + t3 + s4, t4, terminal);
    assert(effective(render_ops(r, colors), terminal) =~= render_ops(r, colors && terminal));
}

/// Performing one more operation extends what a stream received by that
/// operation's own effect.
pub proof fn lemma_effective_step(ops: Seq<OpModel>, i: int, terminal: bool)
    requires
        0 <= i < ops.len(),
    ensures
        effective(ops.take(i + 1), terminal) == effective(ops.take(i), terminal) + effective_one(
            ops[i],
            terminal,
        ),
{
    assert(ops.take(i + 1).drop_last() =~= ops.take(i));
    assert(ops.take(i + 1).last() == ops[i]);
}

} // verus!
