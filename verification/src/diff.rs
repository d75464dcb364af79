//! Line differences between two texts, and how a report shows them.

use vstd::prelude::*;

verus! {

/// What a line of a difference stands for.
#[derive(Clone, Copy, Debug, PartialEq, Eq, Structural)]
pub enum ChangeTag {
    /// The line is in both texts.
    Equal,
    /// The line is only in the first text.
    Delete,
    /// The line is only in the second text.
    Insert,
}

/// One line of a difference, with its line ending.
#[derive(Debug, PartialEq, Eq)]
pub struct LineChange {
    pub tag: ChangeTag,
    pub text: String,
}

/// A [`LineChange`] as contracts see it.
pub struct LineChangeView {
    pub tag: ChangeTag,
    pub text: Seq<char>,
}

impl View for LineChange {
    type V = LineChangeView;

    open spec fn view(&self) -> LineChangeView {
        LineChangeView { tag: self.tag, text: self.text@ }
    }
}

/// The views of a list of changes, in order.
pub open spec fn change_views(changes: Seq<LineChange>) -> Seq<LineChangeView> {
    Seq::new(changes.len(), |i: int| changes[i]@)
}

/// The line-by-line difference from `old` to `new`: every line of either
/// text in order, tagged, and shown with a newline at its end even where
/// the text had none.
pub uninterp spec fn line_diff(old: Seq<char>, new: Seq<char>) -> Seq<LineChangeView>;

/// `similar::TextDiff::from_lines` with the default configuration, flattened
/// by `iter_all_changes`; each change is handed out as its tag and its
/// `Display` text. Trusted: the list is a function of the two texts alone.
#[verifier::external_body]
pub(crate) fn diff_lines(old: &str, new: &str) -> (changes: Vec<LineChange>)
    ensures
        change_views(changes@) == line_diff(old@, new@),
{
    similar::TextDiff::from_lines(old, new)
        .iter_all_changes()
        .map(|change| LineChange {
            tag: match change.tag() {
                similar::ChangeTag::Equal => ChangeTag::Equal,
                similar::ChangeTag::Delete => ChangeTag::Delete,
                similar::ChangeTag::Insert => ChangeTag::Insert,
            },
            text: change.to_string(),
        })
        .collect()
}

/// The colour a report line is shown in.
#[derive(Clone, Copy, Debug, PartialEq, Eq, Structural)]
pub enum Paint {
    Plain,
    Red,
    Green,
}

/// One line of a mismatch report: a sign, then the line itself.
#[derive(Debug, PartialEq, Eq)]
pub struct ReportLine {
    pub paint: Paint,
    pub text: String,
}

/// A [`ReportLine`] as contracts see it.
pub struct ReportLineView {
    pub paint: Paint,
    pub text: Seq<char>,
}

impl View for ReportLine {
    type V = ReportLineView;

    open spec fn view(&self) -> ReportLineView {
        ReportLineView { paint: self.paint, text: self.text@ }
    }
}

/// The views of a list of report lines, in order.
pub open spec fn report_views(lines: Seq<ReportLine>) -> Seq<ReportLineView> {
    Seq::new(lines.len(), |i: int| lines[i]@)
}

/// The sign that a report puts before a line.
pub open spec fn sign_of(tag: ChangeTag) -> char {
    match tag {
        ChangeTag::Equal => ' ',
        ChangeTag::Delete => '-',
        ChangeTag::Insert => '+',
    }
}

/// Deletions are red, insertions green, the rest plain.
pub open spec fn paint_of(tag: ChangeTag) -> Paint {
    match tag {
        ChangeTag::Equal => Paint::Plain,
        ChangeTag::Delete => Paint::Red,
        ChangeTag::Insert => Paint::Green,
    }
}

/// How one change is shown.
pub open spec fn rendered_line(change: LineChangeView) -> ReportLineView {
    ReportLineView { paint: paint_of(change.tag), text: seq![sign_of(change.tag)] + change.text }
}

/// How a difference is shown: one report line per change, in order.
pub open spec fn rendered(changes: Seq<LineChangeView>) -> Seq<ReportLineView> {
    Seq::new(changes.len(), |i: int| rendered_line(changes[i]))
}

/// The colour for a change.
pub fn paint_for(tag: ChangeTag) -> (paint: Paint)
    ensures
        paint == paint_of(tag),
{
    match tag {
        ChangeTag::Equal => Paint::Plain,
        ChangeTag::Delete => Paint::Red,
        ChangeTag::Insert => Paint::Green,
    }
}

/// The sign for a change, as a string.
pub fn sign_for(tag: ChangeTag) -> (sign: &'static str)
    ensures
        sign@ == seq![sign_of(tag)],
{
    proof {
        reveal_strlit(" ");
        reveal_strlit("-");
        reveal_strlit("+");
    }
    let sign = match tag {
        ChangeTag::Equal => " ",
        ChangeTag::Delete => "-",
        ChangeTag::Insert => "+",
    };
    assert(sign@ =~= seq![sign_of(tag)]);
    sign
}

/// Renders a difference for a report.
pub fn render_diff(changes: &Vec<LineChange>) -> (lines: Vec<ReportLine>)
    ensures
        report_views(lines@) == rendered(change_views(changes@)),
{
    let mut lines: Vec<ReportLine> = Vec::new();
    let mut i: usize = 0;
    while i < changes.len()
        invariant
            i <= changes.len(),
            lines.len() == i,
            forall|k: int| 0 <= k < i ==> (#[trigger] lines[k])@ == rendered_line(changes[k]@),
        decreases changes.len() - i,
    {
        let change = &changes[i];
        let mut text = String::from_str(sign_for(change.tag));
        text.append(change.text.as_str());
        lines.push(ReportLine { paint: paint_for(change.tag), text });
        i += 1;
    }
    assert(report_views(lines@) =~= rendered(change_views(changes@)));
    lines
}

} // verus!
