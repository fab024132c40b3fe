//! What the window shows and how a run of the user interface ends: the
//! decisions that stand between the slideshow and the toolkit.

use crate::controller::Slot;
use crate::photos::{file_path_of_url, outcome_view, OutcomeView, PhotoReference, SourceError};
use vstd::prelude::*;

verus! {

/// How a run of the user interface failed.
#[derive(Debug)]
pub enum UiErrors {
    /// There was no first image to show.
    InitializationError,
    /// The toolkit's main loop ended with a failure.
    RuntimeError,
}

/// The time for which one image is shown, in milliseconds.
pub const DISPLAY_DURATION_MS: u64 = 5000;

/// The time that the crossfade from one image to the next takes, in
/// milliseconds.
pub const FADE_DURATION_MS: u64 = 1000;

/// What a picture widget is made to show.
#[derive(Debug)]
pub enum PictureUpdate {
    /// The image file at `path`.
    ShowFile { path: String },
    /// Nothing new: the photo's reference names no local file.
    ConversionFailed,
    /// Nothing new: no photo could be loaded.
    LoadFailed,
}

/// A [`PictureUpdate`] with its path as a sequence of characters.
pub enum UpdateView {
    ShowFile { path: Seq<char> },
    ConversionFailed,
    LoadFailed,
}

impl View for PictureUpdate {
    type V = UpdateView;

    open spec fn view(&self) -> UpdateView {
        match self {
            PictureUpdate::ShowFile { path } => UpdateView::ShowFile { path: path@ },
            PictureUpdate::ConversionFailed => UpdateView::ConversionFailed,
            PictureUpdate::LoadFailed => UpdateView::LoadFailed,
        }
    }
}

/// The update that follows from a request for a photo: the file that the
/// photo's reference names, or the reason why the widget gets no new image.
pub open spec fn update_for(loaded: OutcomeView) -> UpdateView {
    match loaded {
        Ok(url) => match file_path_of_url(url) {
            Some(path) => UpdateView::ShowFile { path },
            None => UpdateView::ConversionFailed,
        },
        Err(_) => UpdateView::LoadFailed,
    }
}

impl UpdateView {
    /// The text that the widget shows in place of an image.
    pub open spec fn alternative_text(self) -> Option<Seq<char>> {
        match self {
            UpdateView::ShowFile { .. } => None,
            UpdateView::ConversionFailed => Some("Failed to load image"@),
            UpdateView::LoadFailed => Some("End of slideshow - restarting"@),
        }
    }
}

impl PictureUpdate {
    /// The text that the widget shows in place of an image, where it gets no
    /// new image.
    pub fn alternative_text(&self) -> (text: Option<&'static str>)
        ensures
            match text {
                Some(t) => self@.alternative_text() == Some(t@),
                None => self@.alternative_text() is None,
            },
    {
        match self {
            PictureUpdate::ShowFile { .. } => None,
            PictureUpdate::ConversionFailed => Some("Failed to load image"),
            PictureUpdate::LoadFailed => Some("End of slideshow - restarting"),
        }
    }
}

/// What a picture widget is made to show after a request for a photo came
/// back with `loaded`.
pub fn load_image_into_picture(loaded: &Result<PhotoReference, SourceError>) -> (update:
    PictureUpdate)
    ensures
        update@ == update_for(outcome_view(*loaded)),
{
    match loaded {
        Ok(reference) => match reference.to_file_path() {
            Some(path) => PictureUpdate::ShowFile { path },
            None => PictureUpdate::ConversionFailed,
        },
        Err(_) => PictureUpdate::LoadFailed,
    }
}

/// The name under which the picture widget of `slot` is kept.
pub fn picture_name(slot: Slot) -> (name: &'static str)
    ensures
        name@ == match slot {
            Slot::First => "picture1"@,
            Slot::Second => "picture2"@,
        },
{
    match slot {
        Slot::First => "picture1",
        Slot::Second => "picture2",
    }
}

/// How a run ends. A run that had no first image to show failed to
/// initialize, whatever the main loop handed back. Otherwise the run ends
/// well where the main loop handed back the exit code of success, zero, and
/// with a runtime error where it handed back another.
pub fn run_result(initialized: bool, exit_code: u8) -> (result: Result<(), UiErrors>)
    ensures
        !initialized ==> result matches Err(UiErrors::InitializationError),
        initialized && exit_code == 0 ==> result is Ok,
        initialized && exit_code != 0 ==> result matches Err(UiErrors::RuntimeError),
{
    if !initialized {
        Err(UiErrors::InitializationError)
    } else if exit_code == 0 {
        Ok(())
    } else {
        Err(UiErrors::RuntimeError)
    }
}

} // verus!
