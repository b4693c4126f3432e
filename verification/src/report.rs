//! What is asked of the report renderer: for each highlight a report that
//! holds its labels, each with a colour of its own.

use crate::cause::{FileHighlight, FileHighlightView, FileLabel, FileLabelView};
use ariadne::{
    Color, ColorGenerator, Config, FnCache, IndexType, Label, Report, ReportBuilder, ReportKind,
};
use std::ops::Range;
use vstd::pervasive::unreached;
use vstd::prelude::*;

verus! {

/// `ariadne::ColorGenerator`, which gives a sequence of 8-bit colours.
#[verifier::external_type_specification]
#[verifier::external_body]
pub struct ExColorGenerator(ColorGenerator);

/// A report in the making: an `ariadne::ReportBuilder`, which collects the
/// labels of a report.
#[verifier::external_body]
pub struct HighlightReport {
    builder: ReportBuilder<'static, (String, Range<usize>)>,
}

/// A label as the report renderer is asked to draw it.
pub struct LabelRequest {
    /// The name of the source that the label points into.
    pub source: Seq<char>,
    /// The interval and the message.
    pub label: FileLabelView,
    /// The number of the label's colour in the palette of 256 colours.
    pub color: u8,
}

/// The colour that the call number `k + 1` of `ColorGenerator::next` gives
/// on a generator that `ColorGenerator::new` made.
pub uninterp spec fn fresh_color(k: nat) -> u8;

/// The colour that the call number `k + 1` of `ColorGenerator::next` gives
/// on `colors`, counted from the state that `colors` is in.
pub uninterp spec fn upcoming_color(colors: ColorGenerator, k: nat) -> u8;

/// The labels that `report` holds, in the order in which they were added.
pub uninterp spec fn report_labels(report: HighlightReport) -> Seq<LabelRequest>;

/// The name of the source that `report` is about.
pub uninterp spec fn report_source(report: HighlightReport) -> Seq<char>;

/// `ColorGenerator::new`: the generator in its default state, which gives
/// the colours of the default sequence. The first two colours of that
/// sequence differ: by the constants of the generator they are 201 and 155.
pub assume_specification[ ColorGenerator::new ]() -> (colors: ColorGenerator)
    ensures
        forall|k: nat| #[trigger] upcoming_color(colors, k) == fresh_color(k),
        upcoming_color(colors, 0) != upcoming_color(colors, 1),
;

/// `ColorGenerator::next`: gives the next colour, which is one of the
/// palette of 256 colours, and moves the generator on by one.
#[verifier::external_body]
fn next_color(colors: &mut ColorGenerator) -> (color: Option<u8>)
    ensures
        color == Some(upcoming_color(*old(colors), 0)),
        forall|k: nat| #[trigger]
            upcoming_color(*final(colors), k) == upcoming_color(*old(colors), (k + 1) as nat),
{
    match colors.next() {
        Color::Fixed(number) => Some(number),
        _ => None,
    }
}

/// `Report::build`: a report of the kind `Error` about the source `path`, at
/// offset 0, that holds no label yet. It is set to read offsets as byte
/// offsets.
#[verifier::external_body]
fn begin_report(path: &str) -> (report: HighlightReport)
    ensures
        report_source(report) == path@,
        report_labels(report) == Seq::<LabelRequest>::empty(),
{
    let bytes = Config::default().with_index_type(IndexType::Byte);
    let builder = Report::build(ReportKind::Error, path.to_string(), 0).with_config(bytes);
    HighlightReport { builder }
}

/// `ReportBuilder::with_label`: the same report with one more label at its
/// end, which points into `path` and has the interval and the message of
/// `label` and the colour `color`. `Label::new` does not accept an interval
/// that is backwards.
#[verifier::external_body]
fn add_label(
    report: HighlightReport,
    path: &str,
    label: &FileLabel,
    color: u8,
) -> (extended: HighlightReport)
    requires
        label@.start <= label@.end,
    ensures
        report_source(extended) == report_source(report),
        report_labels(extended) == report_labels(report).push(
            LabelRequest { source: path@, label: label@, color },
        ),
{
    let marked = Label::new((path.to_string(), label.range.start..label.range.end))
        .with_message(label.message.as_str())
        .with_color(Color::Fixed(color));
    HighlightReport { builder: report.builder.with_label(marked) }
}

/// `Report::write_for_stdout`: the text of the finished report, drawn
/// against `content` as the text of every source. The renderer cuts the
/// text at the offsets of the labels, so they have to be byte ranges of
/// `content`. What the text is depends on more than the report and the
/// content, so nothing is said of it.
#[verifier::external_body]
fn write_report(report: HighlightReport, content: &str) -> (text: Option<String>)
    requires
        forall|i: int|
            0 <= i < report_labels(report).len() ==> (#[trigger] report_labels(report)[i]).label.fits(
                content@,
            ),
{
    let mut buffer: Vec<u8> = Vec::new();
    let cache = FnCache::new(|_source: &String| Ok(content.to_string()));
    match report.builder.finish().write_for_stdout(cache, &mut buffer) {
        Ok(()) => String::from_utf8(buffer).ok(),
        Err(_) => None,
    }
}

/// What the report renderer is asked to draw for `highlight`: its labels in
/// their order, each pointing into the highlight's path, the label at place
/// `i` in the colour that comes at place `i` of the default sequence.
pub open spec fn requested(highlight: FileHighlightView) -> Seq<LabelRequest> {
    Seq::new(
        highlight.labels.len(),
        |i: int|
            LabelRequest {
                source: highlight.path,
                label: highlight.labels[i],
                color: fresh_color(i as nat),
            },
    )
}

/// The colours for `count` labels of one highlight: the first `count`
/// colours of the default sequence, in their order. The first two of them
/// differ.
pub fn label_colors(count: usize) -> (picked: Vec<u8>)
    ensures
        picked@.len() == count,
        forall|i: int| 0 <= i < count ==> #[trigger] picked@[i] == fresh_color(i as nat),
        count >= 2 ==> picked@[0] != picked@[1],
{
    let mut colors = ColorGenerator::new();
    let mut picked: Vec<u8> = Vec::new();
    let mut i: usize = 0;
    while i < count
        invariant
            i <= count,
            picked@.len() == i,
            forall|j: int| 0 <= j < i ==> #[trigger] picked@[j] == fresh_color(j as nat),
            forall|k: nat| #[trigger] upcoming_color(colors, k) == fresh_color((k + i) as nat),
            fresh_color(0) != fresh_color(1),
        decreases count - i,
    {
        let color = match next_color(&mut colors) {
            Some(color) => color,
            None => unreached(),
        };
        picked.push(color);
        i += 1;
    }
    picked
}

/// The report for `highlight`, with all its labels. Where there are two
/// labels or more, the first two are in two colours.
fn build_report(highlight: &FileHighlight) -> (report: HighlightReport)
    requires
        highlight@.well_formed(),
    ensures
        report_source(report) == highlight@.path,
        report_labels(report) == requested(highlight@),
        highlight@.labels.len() >= 2 ==> report_labels(report)[0].color != report_labels(
            report,
        )[1].color,
{
    let colors = label_colors(highlight.labels.len());
    let mut report = begin_report(highlight.path.as_str());
    let mut i: usize = 0;
    while i < highlight.labels.len()
        invariant
            i <= highlight.labels@.len(),
            highlight@.well_formed(),
            colors@.len() == highlight.labels@.len(),
            forall|j: int| 0 <= j < colors@.len() ==> #[trigger] colors@[j] == fresh_color(j as nat),
            report_source(report) == highlight@.path,
            report_labels(report) == requested(highlight@).take(i as int),
        decreases highlight.labels@.len() - i,
    {
        assert(highlight@.labels[i as int].fits(highlight@.content));
        report = add_label(report, highlight.path.as_str(), &highlight.labels[i], colors[i]);
        assert(report_labels(report) =~= requested(highlight@).take(i + 1)) by {
            assert(requested(highlight@).take(i + 1) =~= requested(highlight@).take(i as int).push(
                requested(highlight@)[i as int],
            ));
        }
        i += 1;
    }
    report
}

/// The text that stands for `outcome`, which is what the report renderer
/// gave: that text, or the empty text where it gave none.
pub open spec fn text_of(outcome: Option<String>) -> Seq<char> {
    match outcome {
        Some(text) => text@,
        None => Seq::empty(),
    }
}

/// The text that is shown for `outcome`, which is what the report renderer
/// gave for a highlight: that text, or the empty text where it gave none.
pub fn drawn_text(outcome: Option<String>) -> (text: String)
    ensures
        text@ == text_of(outcome),
{
    match outcome {
        Some(text) => text,
        None => String::new(),
    }
}

/// Has the report renderer draw `highlight`, and gives the text that it
/// drew. The renderer is handed the report of [`build_report`] and the
/// content of the highlight; the text is that of [`drawn_text`] for what it
/// gave. What the renderer gives depends on more than what it is handed,
/// so nothing is said of the text itself.
pub(crate) fn draw_highlight(highlight: &FileHighlight) -> (text: String)
    requires
        highlight@.well_formed(),
{
    let report = build_report(highlight);
    drawn_text(write_report(report, highlight.content.as_str()))
}

} // verus!
