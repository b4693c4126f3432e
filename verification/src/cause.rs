//! The data model: what went wrong, where in which file, and what else is
//! related to it.
//!
//! Every type has a view, a mathematical value that the contracts of the
//! rest of the crate speak of.

use std::ops::Range;
use vstd::prelude::*;
use vstd::string::StringSliceAdditionalSpecFns;
use vstd::utf8::{encode_utf8, is_char_boundary};

verus! {

/// A label in a piece of text, shown to the user.
#[derive(Debug)]
pub struct FileLabel {
    /// The byte-indexed half-open interval that the label is applied to.
    pub range: Range<usize>,
    /// The message shown to the user.
    pub message: String,
}

/// The view of a [`FileLabel`].
pub struct FileLabelView {
    /// The first offset of the interval.
    pub start: nat,
    /// The offset just behind the interval.
    pub end: nat,
    /// The message shown to the user.
    pub message: Seq<char>,
}

impl View for FileLabel {
    type V = FileLabelView;

    open spec fn view(&self) -> FileLabelView {
        FileLabelView {
            start: self.range.start as nat,
            end: self.range.end as nat,
            message: self.message@,
        }
    }
}

/// A file and labels that highlight parts of it.
#[derive(Debug)]
pub struct FileHighlight {
    /// The path where the file was found.
    pub path: String,
    /// The content of the file at the time of the error.
    pub content: String,
    /// The labels that point out the error.
    pub labels: Vec<FileLabel>,
}

/// The view of a [`FileHighlight`].
pub struct FileHighlightView {
    /// The path where the file was found.
    pub path: Seq<char>,
    /// The content of the file at the time of the error.
    pub content: Seq<char>,
    /// The labels, in their order.
    pub labels: Seq<FileLabelView>,
}

impl FileLabelView {
    /// The interval is a byte range of `content`: it is not backwards, it
    /// ends within the bytes of `content`, and it begins and ends where a
    /// character begins or at the very end.
    pub open spec fn fits(self, content: Seq<char>) -> bool {
        &&& self.start <= self.end <= encode_utf8(content).len()
        &&& is_char_boundary(encode_utf8(content), self.start as int)
        &&& is_char_boundary(encode_utf8(content), self.end as int)
    }
}

impl FileHighlightView {
    /// Every label marks a byte range of the content.
    pub open spec fn well_formed(self) -> bool {
        forall|i: int|
            0 <= i < self.labels.len() ==> (#[trigger] self.labels[i]).fits(self.content)
    }
}

/// The views of the labels of a sequence, in their order.
pub open spec fn label_views(labels: Seq<FileLabel>) -> Seq<FileLabelView> {
    Seq::new(labels.len(), |i: int| labels[i]@)
}

impl View for FileHighlight {
    type V = FileHighlightView;

    open spec fn view(&self) -> FileHighlightView {
        FileHighlightView {
            path: self.path@,
            content: self.content@,
            labels: label_views(self.labels@),
        }
    }
}

impl FileHighlight {
    /// Whether every label marks a byte range of the content.
    pub fn is_well_formed(&self) -> (ok: bool)
        ensures
            ok == self@.well_formed(),
    {
        let content: &str = self.content.as_str();
        let len: usize = content.as_bytes().len();
        let mut i: usize = 0;
        while i < self.labels.len()
            invariant
                i <= self.labels@.len(),
                content@ == self@.content,
                len == encode_utf8(content@).len(),
                forall|j: int| 0 <= j < i ==> (#[trigger] self@.labels[j]).fits(self@.content),
            decreases self.labels@.len() - i,
        {
            let label = &self.labels[i];
            if label.range.start > label.range.end || label.range.end > len
                || !content.is_char_boundary(label.range.start)
                || !content.is_char_boundary(label.range.end) {
                proof {
                    assert(!self@.labels[i as int].fits(self@.content));
                }
                return false;
            }
            i += 1;
        }
        true
    }
}

/// The views of the highlights of a sequence, in their order.
pub open spec fn highlight_views(highlights: Seq<FileHighlight>) -> Seq<FileHighlightView> {
    Seq::new(highlights.len(), |i: int| highlights[i]@)
}

/// The cause of an error.
///
/// The struct may get more fields: make one with [`ErrorCause::default`] and
/// set its fields with the setters.
#[derive(Debug)]
#[non_exhaustive]
pub struct ErrorCause {
    /// A succinct explanation of what went wrong. It is always shown.
    pub summary: String,
    /// A longer explanation of why the error happened, if there is one.
    pub extended_reason: Option<String>,
    /// The files that have to do with the error, with what to mark in them.
    pub file_highlights: Vec<FileHighlight>,
}

/// The view of an [`ErrorCause`].
pub struct ErrorCauseView {
    /// The succinct explanation.
    pub summary: Seq<char>,
    /// The longer explanation, if there is one.
    pub extended_reason: Option<Seq<char>>,
    /// The highlights, in their order.
    pub file_highlights: Seq<FileHighlightView>,
}

impl ErrorCauseView {
    /// The cause that says nothing: no summary, no reason, no highlight.
    pub open spec fn empty() -> ErrorCauseView {
        ErrorCauseView { summary: Seq::empty(), extended_reason: None, file_highlights: Seq::empty() }
    }

    /// The cause that has a summary and nothing else.
    pub open spec fn plain(summary: Seq<char>) -> ErrorCauseView {
        ErrorCauseView { summary, extended_reason: None, file_highlights: Seq::empty() }
    }

    /// Every label of every highlight marks a byte range of its content.
    pub open spec fn well_formed(self) -> bool {
        forall|i: int|
            0 <= i < self.file_highlights.len() ==> (#[trigger] self.file_highlights[i]).well_formed()
    }
}

impl View for ErrorCause {
    type V = ErrorCauseView;

    open spec fn view(&self) -> ErrorCauseView {
        ErrorCauseView {
            summary: self.summary@,
            extended_reason: match self.extended_reason {
                Some(reason) => Some(reason@),
                None => None,
            },
            file_highlights: highlight_views(self.file_highlights@),
        }
    }
}

impl Default for ErrorCause {
    /// The cause that says nothing yet.
    fn default() -> (cause: ErrorCause)
        ensures
            cause@ == ErrorCauseView::empty(),
    {
        let cause = ErrorCause {
            summary: String::new(),
            extended_reason: None,
            file_highlights: Vec::new(),
        };
        assert(cause@.file_highlights =~= Seq::empty());
        cause
    }
}

impl ErrorCause {
    /// The same cause with `value` as its summary.
    pub fn summary(self, value: String) -> (cause: ErrorCause)
        ensures
            cause@ == (ErrorCauseView { summary: value@, ..self@ }),
    {
        ErrorCause {
            summary: value,
            extended_reason: self.extended_reason,
            file_highlights: self.file_highlights,
        }
    }

    /// The same cause with `value` as its extended reason.
    pub fn extended_reason(self, value: String) -> (cause: ErrorCause)
        ensures
            cause@ == (ErrorCauseView { extended_reason: Some(value@), ..self@ }),
    {
        ErrorCause {
            summary: self.summary,
            extended_reason: Some(value),
            file_highlights: self.file_highlights,
        }
    }

    /// The same cause with `value` as its highlights.
    pub fn file_highlights(self, value: Vec<FileHighlight>) -> (cause: ErrorCause)
        ensures
            cause@ == (ErrorCauseView { file_highlights: highlight_views(value@), ..self@ }),
    {
        ErrorCause {
            summary: self.summary,
            extended_reason: self.extended_reason,
            file_highlights: value,
        }
    }

    /// Whether every label of every highlight marks a byte range of its
    /// content.
    pub fn is_well_formed(&self) -> (ok: bool)
        ensures
            ok == self@.well_formed(),
    {
        let mut i: usize = 0;
        while i < self.file_highlights.len()
            invariant
                i <= self.file_highlights@.len(),
                forall|j: int| 0 <= j < i ==> (#[trigger] self@.file_highlights[j]).well_formed(),
            decreases self.file_highlights@.len() - i,
        {
            if !self.file_highlights[i].is_well_formed() {
                proof {
                    assert(!self@.file_highlights[i as int].well_formed());
                }
                return false;
            }
            i += 1;
        }
        true
    }
}

/// An error with all that is needed to inform a user.
///
/// It is no error value in its own right: it is made to be read.
#[derive(Debug)]
pub struct UserFacingError {
    /// The cause of the error.
    pub error: ErrorCause,
    /// Errors that are related to it: what caused it, or what stands beside it.
    pub related: Vec<UserFacingError>,
}

/// The view of a [`UserFacingError`]: a finite tree of causes.
pub struct UserFacingErrorView {
    /// The cause of the error.
    pub error: ErrorCauseView,
    /// The related errors, in their order.
    pub related: Seq<UserFacingErrorView>,
}

impl UserFacingErrorView {
    /// The error that has a summary and nothing else, with the given related
    /// errors.
    pub open spec fn plain(
        summary: Seq<char>,
        related: Seq<UserFacingErrorView>,
    ) -> UserFacingErrorView {
        UserFacingErrorView { error: ErrorCauseView::plain(summary), related }
    }

    /// Every label in the whole tree marks a byte range of its content.
    pub open spec fn well_formed(self) -> bool
        decreases self,
    {
        &&& self.error.well_formed()
        &&& forall|i: int| 0 <= i < self.related.len() ==> (#[trigger] self.related[i]).well_formed()
    }
}

/// The views of the errors of a sequence, in their order.
pub open spec fn error_views(errors: Seq<UserFacingError>) -> Seq<UserFacingErrorView>
    decreases errors,
{
    Seq::new(
        errors.len(),
        |i: int|
            if 0 <= i < errors.len() {
                errors[i].view()
            } else {
                UserFacingErrorView { error: ErrorCauseView::empty(), related: Seq::empty() }
            },
    )
}

impl View for UserFacingError {
    type V = UserFacingErrorView;

    open spec fn view(&self) -> UserFacingErrorView
        decreases self,
    {
        UserFacingErrorView { error: self.error@, related: error_views(self.related@) }
    }
}

impl UserFacingError {
    /// The view of the tree holds the views of the related errors, one by
    /// one.
    pub proof fn lemma_view_related(&self)
        ensures
            self@.error == self.error@,
            self@.related.len() == self.related@.len(),
            forall|j: int|
                0 <= j < self.related@.len() ==> #[trigger] self@.related[j] == self.related@[j]@,
    {
        assert(self@.related == error_views(self.related@));
    }

    /// Whether every label in the whole tree marks a byte range of its
    /// content.
    pub fn is_well_formed(&self) -> (ok: bool)
        ensures
            ok == self@.well_formed(),
        decreases self,
    {
        proof {
            self.lemma_view_related();
        }
        if !self.error.is_well_formed() {
            return false;
        }
        let mut i: usize = 0;
        while i < self.related.len()
            invariant
                i <= self.related@.len(),
                self@.error.well_formed(),
                self@.related.len() == self.related@.len(),
                forall|j: int|
                0 <= j < self.related@.len() ==> #[trigger] self@.related[j] == self.related@[j]@,
                forall|j: int| 0 <= j < i ==> (#[trigger] self@.related[j]).well_formed(),
            decreases self.related@.len() - i,
        {
            if !self.related[i].is_well_formed() {
                proof {
                    assert(!self@.related[i as int].well_formed());
                }
                return false;
            }
            i += 1;
        }
        true
    }
}

} // verus!
