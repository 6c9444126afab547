//! Styled text lines, the terminal-independent form of what the screens
//! show: a line is a sequence of spans, a span is text with a style.
use vstd::prelude::*;
use crate::text::{text_lines, lines_of, views};

verus! {

/// The colours the screens use.
#[derive(Clone, Copy, Debug, PartialEq, Eq, Structural)]
pub enum Color {
    Black,
    Red,
    Green,
    Yellow,
    Magenta,
    Cyan,
    Gray,
    DarkGray,
    White,
}

/// Foreground, background and weight of a span.
#[derive(Clone, Copy, Debug, PartialEq, Eq, Structural)]
pub struct Style {
    pub fg: Option<Color>,
    pub bg: Option<Color>,
    pub bold: bool,
}

/// The unstyled style.
pub open spec fn plain() -> Style {
    Style { fg: None, bg: None, bold: false }
}

/// A style with only a foreground colour.
pub open spec fn fg(c: Color) -> Style {
    Style { fg: Some(c), bg: None, bold: false }
}

/// A bold style with a foreground colour.
pub open spec fn fg_bold(c: Color) -> Style {
    Style { fg: Some(c), bg: None, bold: true }
}

impl Style {
    /// The unstyled style.
    pub fn plain() -> (s: Style)
        ensures
            s == plain(),
    {
        Style { fg: None, bg: None, bold: false }
    }

    /// Foreground colour only.
    pub fn fg(c: Color) -> (s: Style)
        ensures
            s == fg(c),
    {
        Style { fg: Some(c), bg: None, bold: false }
    }

    /// Bold with a foreground colour.
    pub fn fg_bold(c: Color) -> (s: Style)
        ensures
            s == fg_bold(c),
    {
        Style { fg: Some(c), bg: None, bold: true }
    }
}

/// A run of text drawn in one style.
#[derive(Clone, Debug)]
pub struct StyledSpan {
    pub content: String,
    pub style: Style,
}

impl View for StyledSpan {
    type V = (Seq<char>, Style);

    open spec fn view(&self) -> (Seq<char>, Style) {
        (self.content@, self.style)
    }
}

/// One screen line.
#[derive(Clone, Debug)]
pub struct StyledLine {
    pub spans: Vec<StyledSpan>,
}

impl View for StyledLine {
    type V = Seq<(Seq<char>, Style)>;

    open spec fn view(&self) -> Seq<(Seq<char>, Style)> {
        self.spans@.map_values(|s: StyledSpan| s@)
    }
}

/// The model of a line: its spans' texts and styles.
pub type LineModel = Seq<(Seq<char>, Style)>;

/// The models of a sequence of lines.
pub open spec fn line_models(v: Seq<StyledLine>) -> Seq<LineModel> {
    v.map_values(|l: StyledLine| l@)
}

/// A line of one span.
pub open spec fn one_span(text: Seq<char>, style: Style) -> LineModel {
    seq![(text, style)]
}

/// The empty line (no spans).
pub open spec fn blank_line() -> LineModel {
    Seq::empty()
}

/// Every line of `ls`, each drawn as `prefix` followed by the line, in one style.
pub open spec fn indented(prefix: Seq<char>, ls: Seq<Seq<char>>, style: Style) -> Seq<LineModel> {
    ls.map_values(|l: Seq<char>| one_span(prefix + l, style))
}

impl StyledLine {
    /// The text of the line: its spans' contents, concatenated.
    pub open spec fn text_of(m: LineModel) -> Seq<char>
        decreases m.len(),
    {
        if m.len() == 0 {
            Seq::empty()
        } else {
            StyledLine::text_of(m.drop_last()) + m.last().0
        }
    }

    /// A line with no spans.
    pub fn blank() -> (l: StyledLine)
        ensures
            l@ == blank_line(),
    {
        let l = StyledLine { spans: Vec::new() };
        assert(l@ =~= blank_line());
        l
    }

    /// A line of one span.
    pub fn span(content: String, style: Style) -> (l: StyledLine)
        ensures
            l@ == one_span(content@, style),
    {
        let mut spans = Vec::new();
        spans.push(StyledSpan { content, style });
        let l = StyledLine { spans };
        assert(l@ =~= one_span(content@, style));
        l
    }

    /// A line of one span whose text is a literal.
    pub fn text(content: &str, style: Style) -> (l: StyledLine)
        ensures
            l@ == one_span(content@, style),
    {
        StyledLine::span(String::from_str(content), style)
    }

    /// The line's text, spans joined.
    pub fn content(&self) -> (s: String)
        ensures
            s@ == StyledLine::text_of(self@),
    {
        let mut s = String::new();
        let mut i: usize = 0;
        while i < self.spans.len()
            invariant
                i <= self.spans@.len(),
                s@ == StyledLine::text_of(self@.take(i as int)),
            decreases self.spans@.len() - i,
        {
            s.append(self.spans[i].content.as_str());
            proof {
                assert(self@.take(i + 1).drop_last() =~= self@.take(i as int));
            }
            i = i + 1;
        }
        assert(self@.take(i as int) =~= self@);
        s
    }
}

/// A span from its text and style.
pub fn span_of(content: String, style: Style) -> (s: StyledSpan)
    ensures
        s@ == (content@, style),
{
    StyledSpan { content, style }
}

/// `prefix` followed by `rest`.
pub fn concat(prefix: &str, rest: &str) -> (s: String)
    ensures
        s@ == prefix@ + rest@,
{
    let mut s = String::from_str(prefix);
    s.append(rest);
    s
}

/// Appends one line per line of `text`, each drawn as `prefix` and the line in `style`.
pub fn push_indented(out: &mut Vec<StyledLine>, prefix: &str, text: &str, style: Style)
    ensures
        line_models(final(out)@) == line_models(old(out)@) + indented(
            prefix@,
            text_lines(text@),
            style,
        ),
{
    let ls = lines_of(text);
    push_each_indented(out, prefix, &ls, style);
}

/// Appends one line per entry of `ls`, each drawn as `prefix` and the entry in `style`.
pub fn push_each_indented(out: &mut Vec<StyledLine>, prefix: &str, ls: &Vec<String>, style: Style)
    ensures
        line_models(final(out)@) == line_models(old(out)@) + indented(prefix@, views(ls@), style),
{
    let ghost start = line_models(out@);
    let mut i: usize = 0;
    while i < ls.len()
        invariant
            i <= ls@.len(),
            line_models(out@) == start + indented(prefix@, views(ls@).take(i as int), style),
        decreases ls@.len() - i,
    {
        let line = StyledLine::span(concat(prefix, ls[i].as_str()), style);
        proof {
            assert(indented(prefix@, views(ls@).take(i + 1), style) =~= indented(
                prefix@,
                views(ls@).take(i as int),
                style,
            ).push(line@));
            assert(line_models(out@.push(line)) =~= line_models(out@).push(line@));
        }
        out.push(line);
        i = i + 1;
    }
    assert(views(ls@).take(i as int) =~= views(ls@));
}

} // verus!
