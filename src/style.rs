use vstd::prelude::*;
use vstd::string::*;
use colored::Colorize;

verus! {

/// A display style. `Plain` text is emitted as it is.
#[derive(Clone, Copy, Debug, PartialEq, Eq, Structural)]
pub enum Tone {
    Plain,
    Gray,
    Yellow,
    Green,
    Red,
    Purple,
    Italic,
    Bold,
}

/// A piece of output text with the style it is to be shown in.
pub struct Segment {
    pub text: String,
    pub tone: Tone,
}

/// The contents of a segment.
pub open spec fn segment_model(s: Segment) -> (Seq<char>, Tone) {
    (s.text@, s.tone)
}

/// The contents of a list of segments.
pub open spec fn segments_model(segs: Seq<Segment>) -> Seq<(Seq<char>, Tone)> {
    segs.map_values(|s: Segment| segment_model(s))
}

/// The escape character that starts a terminal control sequence.
pub open spec fn esc() -> char {
    '\u{1b}'
}

/// The control sequence that ends a styled run.
pub open spec fn reset_sequence() -> Seq<char> {
    seq![esc(), '[', '0', 'm']
}

/// `out` is `text` shown in some style: the text itself, or the text after an
/// opening control sequence and before the reset sequence.
pub open spec fn styled_form(out: Seq<char>, text: Seq<char>) -> bool {
    out == text || exists|open: Seq<char>| out == open + text + reset_sequence()
}

/// What the styling library promises of every outcome: text without control
/// characters comes back whole, perhaps framed by control sequences (whether
/// it is framed depends on the terminal and the environment).
pub open spec fn styled_result(out: Seq<char>, text: Seq<char>) -> bool {
    !text.contains(esc()) ==> styled_form(out, text)
}

/// Relies on colored's `truecolor(130, 130, 130)` and its `Display`.
#[verifier::external_body]
fn paint_gray(text: &str) -> (r: String)
    ensures
        styled_result(r@, text@),
{
    text.truecolor(130, 130, 130).to_string()
}

/// Relies on colored's `yellow` and its `Display`.
#[verifier::external_body]
fn paint_yellow(text: &str) -> (r: String)
    ensures
        styled_result(r@, text@),
{
    text.yellow().to_string()
}

/// Relies on colored's `green` and its `Display`.
#[verifier::external_body]
fn paint_green(text: &str) -> (r: String)
    ensures
        styled_result(r@, text@),
{
    text.green().to_string()
}

/// Relies on colored's `red` and its `Display`.
#[verifier::external_body]
fn paint_red(text: &str) -> (r: String)
    ensures
        styled_result(r@, text@),
{
    text.red().to_string()
}

/// Relies on colored's `purple` and its `Display`.
#[verifier::external_body]
fn paint_purple(text: &str) -> (r: String)
    ensures
        styled_result(r@, text@),
{
    text.purple().to_string()
}

/// Relies on colored's `italic` and its `Display`.
#[verifier::external_body]
fn paint_italic(text: &str) -> (r: String)
    ensures
        styled_result(r@, text@),
{
    text.italic().to_string()
}

/// Relies on colored's `bold` and its `Display`.
#[verifier::external_body]
fn paint_bold(text: &str) -> (r: String)
    ensures
        styled_result(r@, text@),
{
    text.bold().to_string()
}

/// `out` shows a segment: plain text as it is, styled text in a styled form.
pub open spec fn piece_shows(out: Seq<char>, seg: (Seq<char>, Tone)) -> bool {
    &&& styled_result(out, seg.0)
    &&& seg.1 == Tone::Plain ==> out == seg.0
}

/// `out` is the concatenation of one shown piece per segment, in order.
pub open spec fn shows(out: Seq<char>, segs: Seq<(Seq<char>, Tone)>) -> bool
    decreases segs.len(),
{
    if segs.len() == 0 {
        out.len() == 0
    } else {
        exists|k: int|
            0 <= k <= out.len() && shows(out.take(k), segs.drop_last()) && piece_shows(
                #[trigger] out.skip(k),
                segs.last(),
            )
    }
}

/// Shows one segment in its style.
pub fn paint(seg: &Segment) -> (r: String)
    ensures
        piece_shows(r@, segment_model(*seg)),
{
    let t = seg.text.as_str();
    match seg.tone {
        Tone::Plain => String::from_str(t),
        Tone::Gray => paint_gray(t),
        Tone::Yellow => paint_yellow(t),
        Tone::Green => paint_green(t),
        Tone::Red => paint_red(t),
        Tone::Purple => paint_purple(t),
        Tone::Italic => paint_italic(t),
        Tone::Bold => paint_bold(t),
    }
}

/// Joins the shown segments into one text.
pub fn render_segments(segs: &Vec<Segment>) -> (r: String)
    ensures
        shows(r@, segments_model(segs@)),
{
    let mut out = String::new();
    let mut i: usize = 0;
    while i < segs.len()
        invariant
            i <= segs@.len(),
            shows(out@, segments_model(segs@.take(i as int))),
        decreases segs@.len() - i,
    {
        let piece = paint(&segs[i]);
        let ghost before = out@;
        out.append(piece.as_str());
        proof {
            let m = segments_model(segs@.take(i + 1));
            assert(m.drop_last() =~= segments_model(segs@.take(i as int)));
            assert(m.last() == segment_model(segs@[i as int]));
            assert(out@.take(before.len() as int) =~= before);
            assert(out@.skip(before.len() as int) =~= piece@);
            assert(m.len() > 0);
        }
        i += 1;
    }
    assert(segs@.take(segs@.len() as int) =~= segs@);
    out
}

/// The decimal form of an integer, with a leading minus sign when negative.
pub open spec fn decimal(n: int) -> Seq<char>
    decreases (if n < 0 { 1 - n } else { n }),
{
    if n < 0 {
        seq!['-'] + decimal(-n)
    } else if n < 10 {
        seq![digit_char(n)]
    } else {
        decimal(n / 10) + seq![digit_char(n % 10)]
    }
}

/// The character of a decimal digit.
pub open spec fn digit_char(d: int) -> char {
    (('0' as int) + d) as char
}

/// Relies on std's `ToString` for `i64`, which writes the number in decimal.
#[verifier::external_body]
pub(crate) fn decimal_string(n: i64) -> (r: String)
    ensures
        r@ == decimal(n as int),
{
    n.to_string()
}

} // verus!
