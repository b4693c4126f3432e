//! Rendering: from a user-facing error to the text that is shown on a
//! terminal.
//!
//! An error is rendered as its summary, its extended reason, its highlights
//! as the report renderer draws them, and then its related errors, each
//! rendered in the same way. The section of related errors is introduced by
//! a header at the outermost level only.

use crate::cause::{ErrorCause, ErrorCauseView, UserFacingError, UserFacingErrorView};
use crate::report::draw_highlight;
use vstd::prelude::*;
use vstd::string::StringExecFns;

verus! {

/// What is handed down from an error to its related errors while they are
/// rendered.
#[derive(Debug)]
pub struct Context {
    /// The width that the output should fit in. It is advice: nothing is cut
    /// or wrapped to it.
    pub max_width: usize,
    /// Whether this is the outermost error.
    pub first_run: bool,
}

impl Context {
    /// The context for the related errors: the same, but not outermost.
    pub fn go_to_inner(&self) -> (inner: Context)
        ensures
            inner.max_width == self.max_width,
            !inner.first_run,
    {
        Context { max_width: self.max_width, first_run: false }
    }
}

/// The end of a line.
pub open spec fn line_end() -> Seq<char> {
    "\n"@
}

/// The line that introduces the related errors.
pub open spec fn detail_header() -> Seq<char> {
    "Detailed informations:\n"@
}

/// The texts of `parts`, one after the other.
pub open spec fn concat(parts: Seq<Seq<char>>) -> Seq<char>
    decreases parts.len(),
{
    if parts.len() == 0 {
        Seq::empty()
    } else {
        concat(parts.drop_last()) + parts.last()
    }
}

/// The views of the strings of a sequence, in their order.
pub open spec fn texts(strings: Seq<String>) -> Seq<Seq<char>> {
    Seq::new(strings.len(), |i: int| strings[i]@)
}

/// What a cause says in words: the line of the summary and, where there is
/// an extended reason, an empty line and the line of the reason.
pub open spec fn head_text(cause: ErrorCauseView) -> Seq<char> {
    cause.summary + line_end() + match cause.extended_reason {
        Some(reason) => line_end() + reason + line_end(),
        None => Seq::empty(),
    }
}

/// The header, where `first_run` holds and there is a related error.
pub open spec fn header_text(related: nat, first_run: bool) -> Seq<char> {
    if related > 0 && first_run {
        detail_header()
    } else {
        Seq::empty()
    }
}

/// The text of one error, given the texts `drawn` of its highlights and the
/// texts `nested` of its related errors: what the cause says in words, the
/// highlights, the header where it is due, and the related errors.
pub open spec fn node_text(
    cause: ErrorCauseView,
    drawn: Seq<Seq<char>>,
    nested: Seq<Seq<char>>,
    first_run: bool,
) -> Seq<char> {
    head_text(cause) + concat(drawn) + header_text(nested.len(), first_run) + concat(nested)
}

/// Adding a part at the end adds its text at the end.
pub proof fn lemma_concat_push(parts: Seq<Seq<char>>, part: Seq<char>)
    ensures
        concat(parts.push(part)) == concat(parts) + part,
{
    assert(parts.push(part).drop_last() =~= parts);
}

/// Appends the strings of `parts` to `out`, in their order.
fn append_all(out: &mut String, parts: &Vec<String>)
    ensures
        final(out)@ == old(out)@ + concat(texts(parts@)),
{
    let ghost start = out@;
    let mut i: usize = 0;
    while i < parts.len()
        invariant
            i <= parts@.len(),
            out@ == start + concat(texts(parts@).take(i as int)),
        decreases parts@.len() - i,
    {
        out.append(parts[i].as_str());
        proof {
            let done = texts(parts@).take(i as int);
            lemma_concat_push(done, parts@[i as int]@);
            assert(texts(parts@).take(i + 1) =~= done.push(parts@[i as int]@));
        }
        i += 1;
    }
    assert(texts(parts@).take(i as int) =~= texts(parts@));
}

/// The text of one error, given the texts `drawn` that the report renderer
/// drew for its highlights and the texts `nested` of its related errors.
pub fn compose(
    cause: &ErrorCause,
    drawn: &Vec<String>,
    nested: &Vec<String>,
    context: &Context,
) -> (out: String)
    ensures
        out@ == node_text(cause@, texts(drawn@), texts(nested@), context.first_run),
{
    let mut out = String::new();
    out.append(cause.summary.as_str());
    out.append("\n");
    if let Some(reason) = &cause.extended_reason {
        out.append("\n");
        out.append(reason.as_str());
        out.append("\n");
    }
    append_all(&mut out, drawn);
    if nested.len() > 0 {
        if context.first_run {
            out.append("Detailed informations:\n");
        }
        append_all(&mut out, nested);
    }
    out
}

/// The texts that the report renderer drew for the highlights of an error
/// and of its related errors, in the shape of the error.
pub struct Drawn {
    /// The texts of the error's own highlights, in their order.
    pub highlights: Seq<Seq<char>>,
    /// The texts for the related errors, in their order.
    pub related: Seq<Drawn>,
}

impl Drawn {
    /// There is one text for each highlight, in the error itself and in
    /// every related error.
    pub open spec fn fits(self, error: UserFacingErrorView) -> bool
        decreases error,
    {
        &&& self.highlights.len() == error.error.file_highlights.len()
        &&& self.related.len() == error.related.len()
        &&& forall|i: int|
            0 <= i < error.related.len() ==> (#[trigger] self.related[i]).fits(error.related[i])
    }

    /// No text at all, in the shape of `error`: what is drawn for an error
    /// that has no highlight anywhere.
    pub open spec fn bare(error: UserFacingErrorView) -> Drawn
        decreases error,
    {
        Drawn {
            highlights: Seq::empty(),
            related: Seq::new(
                error.related.len(),
                |i: int|
                    if 0 <= i < error.related.len() {
                        Drawn::bare(error.related[i])
                    } else {
                        Drawn { highlights: Seq::empty(), related: Seq::empty() }
                    },
            ),
        }
    }
}

/// The text of `error` and its related errors, given the texts `drawn` of
/// all their highlights. The related errors are not outermost, whatever
/// `first_run` is.
pub open spec fn layout(error: UserFacingErrorView, drawn: Drawn, first_run: bool) -> Seq<char>
    decreases error,
{
    node_text(error.error, drawn.highlights, nested_layouts(error, drawn), first_run)
}

/// The texts of the related errors of `error`, none of them outermost.
pub open spec fn nested_layouts(error: UserFacingErrorView, drawn: Drawn) -> Seq<Seq<char>>
    decreases error, 0nat,
{
    Seq::new(
        error.related.len(),
        |i: int|
            if 0 <= i < error.related.len() {
                layout(error.related[i], drawn.related[i], false)
            } else {
                Seq::empty()
            },
    )
}

/// Neither `error` nor any of its related errors has a highlight.
pub open spec fn without_highlights(error: UserFacingErrorView) -> bool
    decreases error,
{
    &&& error.error.file_highlights.len() == 0
    &&& forall|i: int|
        0 <= i < error.related.len() ==> without_highlights(#[trigger] error.related[i])
}

/// Renders `error` and its related errors. The second result holds the
/// texts that the report renderer drew on the way.
fn render_for_terminal_inner(error: &UserFacingError, context: &Context) -> (out: (
    String,
    Ghost<Drawn>,
))
    requires
        error@.well_formed(),
    ensures
        out.1@.fits(error@),
        out.0@ == layout(error@, out.1@, context.first_run),
    decreases error,
{
    proof {
        error.lemma_view_related();
    }
    let mut drawn: Vec<String> = Vec::new();
    let mut i: usize = 0;
    while i < error.error.file_highlights.len()
        invariant
            i <= error.error.file_highlights@.len(),
            error@.well_formed(),
            error@.error == error.error@,
            drawn@.len() == i,
        decreases error.error.file_highlights@.len() - i,
    {
        assert(error@.error.file_highlights[i as int].well_formed());
        drawn.push(draw_highlight(&error.error.file_highlights[i]));
        i += 1;
    }
    let inner_context = context.go_to_inner();
    let mut nested: Vec<String> = Vec::new();
    let ghost mut trees: Seq<Drawn> = Seq::empty();
    let mut k: usize = 0;
    while k < error.related.len()
        invariant
            k <= error.related@.len(),
            error@.well_formed(),
            error@.related.len() == error.related@.len(),
            forall|j: int|
                0 <= j < error.related@.len() ==> #[trigger] error@.related[j]
                    == error.related@[j]@,
            !inner_context.first_run,
            nested@.len() == k,
            trees.len() == k,
            forall|j: int| 0 <= j < k ==> (#[trigger] trees[j]).fits(error@.related[j]),
            forall|j: int|
                0 <= j < k ==> (#[trigger] nested@[j])@ == layout(
                    error@.related[j],
                    trees[j],
                    false,
                ),
        decreases error.related@.len() - k,
    {
        assert(error@.related[k as int].well_formed());
        let (text, tree) = render_for_terminal_inner(&error.related[k], &inner_context);
        nested.push(text);
        proof {
            trees = trees.push(tree@);
        }
        k += 1;
    }
    let out = compose(&error.error, &drawn, &nested, context);
    let ghost whole = Drawn { highlights: texts(drawn@), related: trees };
    proof {
        assert(texts(nested@) =~= nested_layouts(error@, whole));
    }
    (out, Ghost(whole))
}

/// Renders `error` and its related errors for a terminal.
///
/// The text is that of [`layout`] for the outermost error, with whatever
/// the report renderer drew for the highlights. For an error without any
/// highlight that is one text only.
pub fn render_for_terminal(error: &UserFacingError, max_width: usize) -> (out: String)
    requires
        error@.well_formed(),
    ensures
        exists|drawn: Drawn| drawn.fits(error@) && out@ == layout(error@, drawn, true),
        without_highlights(error@) ==> out@ == layout(error@, Drawn::bare(error@), true),
{
    let context = Context { max_width, first_run: true };
    let (out, drawn) = render_for_terminal_inner(error, &context);
    proof {
        if without_highlights(error@) {
            lemma_layout_without_highlights(error@, drawn@, true);
        }
    }
    out
}

/// An error without any highlight has no highlight section: whatever is
/// said to be drawn for it, its text is that of the words and the header
/// alone.
pub proof fn lemma_layout_without_highlights(
    error: UserFacingErrorView,
    drawn: Drawn,
    first_run: bool,
)
    requires
        without_highlights(error),
        drawn.fits(error),
    ensures
        layout(error, drawn, first_run) == layout(error, Drawn::bare(error), first_run),
        error.related.len() == 0 ==> layout(error, drawn, first_run) == head_text(error.error),
    decreases error,
{
    let bare = Drawn::bare(error);
    assert forall|i: int| 0 <= i < error.related.len() implies #[trigger] nested_layouts(error, drawn)[i]
        == nested_layouts(error, bare)[i] by {
        lemma_layout_without_highlights(error.related[i], drawn.related[i], false);
    }
    assert(nested_layouts(error, drawn) =~= nested_layouts(error, bare));
}

/// The text of `error` and its related errors with no header at any depth:
/// each error's own words and highlights, then its related errors in the
/// same way.
pub open spec fn flat_text(error: UserFacingErrorView, drawn: Drawn) -> Seq<char>
    decreases error,
{
    head_text(error.error) + concat(drawn.highlights) + concat(flat_texts(error, drawn))
}

/// The texts of the related errors of `error`, with no header at any depth.
pub open spec fn flat_texts(error: UserFacingErrorView, drawn: Drawn) -> Seq<Seq<char>>
    decreases error, 0nat,
{
    Seq::new(
        error.related.len(),
        |i: int|
            if 0 <= i < error.related.len() {
                flat_text(error.related[i], drawn.related[i])
            } else {
                Seq::empty()
            },
    )
}

/// An error that is not outermost is rendered with no header at any depth,
/// however deep its related errors go.
pub proof fn lemma_no_header_below(error: UserFacingErrorView, drawn: Drawn)
    ensures
        layout(error, drawn, false) == flat_text(error, drawn),
        nested_layouts(error, drawn) == flat_texts(error, drawn),
    decreases error,
{
    assert forall|i: int| 0 <= i < error.related.len() implies #[trigger] nested_layouts(error, drawn)[i]
        == flat_texts(error, drawn)[i] by {
        lemma_no_header_below(error.related[i], drawn.related[i]);
    }
    assert(nested_layouts(error, drawn) =~= flat_texts(error, drawn));
}

/// The header stands exactly once, at the outermost level: the text of an
/// outermost error with related errors is its own words and highlights,
/// then the header, then the related errors with no header at any depth.
/// Without related errors there is no header at all.
pub proof fn lemma_header_at_outermost_only(error: UserFacingErrorView, drawn: Drawn)
    ensures
        error.related.len() > 0 ==> layout(error, drawn, true) == head_text(error.error) + concat(
            drawn.highlights,
        ) + detail_header() + concat(flat_texts(error, drawn)),
        error.related.len() == 0 ==> layout(error, drawn, true) == head_text(error.error) + concat(
            drawn.highlights,
        ),
{
    lemma_no_header_below(error, drawn);
    if error.related.len() > 0 {
        assert(layout(error, drawn, true) =~= head_text(error.error) + concat(drawn.highlights)
            + detail_header() + concat(flat_texts(error, drawn)));
    }
}

} // verus!
