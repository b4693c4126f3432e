//! Turns errors into explanations that an end user can read, and renders those
//! explanations for a terminal.
//!
//! An error of unknown kind is an [`OpaqueError`]: the value, its description
//! and its cause. Converters ([`UFEConverter`]) turn the kinds that they know
//! into a [`UserFacingError`]; a [`Registry`] holds them in the order in which
//! they were registered. [`PotentiallyUnclearError`] resolves an error: the
//! first converter that gives a result wins, and an error that no converter
//! knows is described by what it reports of itself, cause by cause.
//! [`render_for_terminal`] lays a [`UserFacingError`] out as text.

pub mod cause;
pub mod convert;
pub mod opaque;
pub mod registry;
pub mod render;
pub mod report;
pub mod resolve;

pub use cause::{
    ErrorCause, ErrorCauseView, FileHighlight, FileHighlightView, FileLabel, FileLabelView,
    UserFacingError, UserFacingErrorView,
};
pub use convert::{convert, AsUserFacingError, UFEContext, UFEConverter};
pub use opaque::OpaqueError;
pub use registry::Registry;
pub use render::render_for_terminal;
pub use resolve::{resolve, PotentiallyUnclearError};
