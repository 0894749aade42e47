//! The slideshow as the render loop drives it.
//!
//! The engine owns the active image and the clock. It reads no file and
//! draws nothing: the caller hands it the time, a snapshot of the catalog
//! and the content of the chosen file, and gets back what to do next and
//! what to draw.

use vstd::prelude::*;
use crate::catalog::ImagePath;
use crate::picture::{decode, decoded_image, view_of, ActiveImage, ActiveImageView};
use crate::scheduler::{elapsed, SlideshowClock};
use crate::selector::choose_image;
use crate::viewport::{fit, fitted, Area, FittedRect};

verus! {

/// The time between two switches, in milliseconds.
pub const SWITCH_INTERVAL_MS: u64 = 10_000;

/// The longest time that may pass before the next frame, in milliseconds.
pub const REPAINT_DELAY_MS: u64 = 100;

/// What fills the drawing area in one frame.
#[derive(Clone, Copy, Debug, PartialEq, Eq, Structural)]
pub enum Content {
    /// The active image, drawn into this rectangle.
    Image(FittedRect),
    /// The notice that there is no image to show, centred in the area.
    Placeholder,
}

/// One frame: what to draw, and how soon the next frame is wanted.
#[derive(Clone, Copy, Debug, PartialEq, Eq, Structural)]
pub struct Frame {
    pub content: Content,
    pub repaint_after_ms: u64,
}

/// The state of the slideshow.
pub struct SlideshowApp {
    current_image: Option<ActiveImage>,
    last_switch: u64,
}

/// What a `SlideshowApp` stands for in contracts.
pub struct SlideshowView {
    /// The active image, if there is one.
    pub image: Option<ActiveImageView>,
    /// The time of the last switch, in milliseconds.
    pub last_switch: u64,
}

impl View for SlideshowApp {
    type V = SlideshowView;

    closed spec fn view(&self) -> SlideshowView {
        SlideshowView {
            image: view_of(self.current_image),
            last_switch: self.last_switch,
        }
    }
}

/// What a frame shows: the active image, fitted into the drawing area, or
/// the placeholder where there is no active image.
pub open spec fn content_of(image: Option<ActiveImageView>, available: Area) -> Content {
    match image {
        Some(image) => Content::Image(fitted(available, image.size)),
        None => Content::Placeholder,
    }
}

/// The active image after a selection has ended: the decoded image where
/// there is one, else the image that was active before.
pub open spec fn installed(
    before: Option<ActiveImageView>,
    decoded: Option<ActiveImageView>,
) -> Option<ActiveImageView> {
    match decoded {
        Some(image) => Some(image),
        None => before,
    }
}

/// The placeholder is shown exactly while there is no active image.
pub proof fn lemma_placeholder_iff_no_image(image: Option<ActiveImageView>, available: Area)
    ensures
        content_of(image, available) is Placeholder <==> image is None,
{
}

/// What reading the chosen file and decoding it gives: the image that the
/// bytes decode to, or nothing where the file could not be read or the
/// decoder rejects its content.
pub open spec fn loaded_image(content: Option<Vec<u8>>, chosen: ImagePath) -> Option<
    ActiveImageView,
> {
    match content {
        Some(bytes) => decoded_image(bytes@, chosen.kind),
        None => None,
    }
}

/// A selection that ends without a decoded image changes nothing: the
/// image that was active stays, and the frame shows what it showed, the
/// placeholder where there was no image. One that ends with an image shows
/// that image.
pub proof fn lemma_failed_selection_keeps_image(
    before: Option<ActiveImageView>,
    decoded: Option<ActiveImageView>,
    available: Area,
)
    ensures
        decoded is None ==> installed(before, decoded) == before,
        decoded is None ==> content_of(installed(before, decoded), available) == content_of(
            before,
            available,
        ),
        decoded matches Some(image) ==> content_of(installed(before, decoded), available)
            == Content::Image(fitted(available, image.size)),
{
}

impl SlideshowApp {
    /// Starts the slideshow at the time `now`, with no active image, and
    /// makes the first selection at once, without waiting for the timer:
    /// `chosen` is the path to load, drawn from `snapshot`, and there is
    /// none exactly where the snapshot is empty.
    pub fn new(now: u64, snapshot: Vec<ImagePath>) -> (started: (SlideshowApp, Option<ImagePath>))
        ensures
            started.0@.image is None,
            started.0@.last_switch == now,
            started.1 is None <==> snapshot@.len() == 0,
            started.1 matches Some(path) ==> snapshot@.contains(path),
    {
        let mut app = SlideshowApp { current_image: None, last_switch: now };
        let chosen = app.load_random_image(snapshot);
        (app, chosen)
    }

    /// One frame's look at the clock, at the time `now`. Returns whether a
    /// selection is due: whether the interval has passed since the last
    /// switch. If so, the next interval starts at `now`, whatever the
    /// selection brings. The active image stays.
    pub fn update(&mut self, now: u64) -> (due: bool)
        ensures
            due == (elapsed(old(self)@.last_switch, now) >= SWITCH_INTERVAL_MS),
            final(self)@.last_switch == if due {
                now
            } else {
                old(self)@.last_switch
            },
            final(self)@.image == old(self)@.image,
    {
        let mut clock = SlideshowClock::new(SWITCH_INTERVAL_MS, self.last_switch);
        let due = clock.tick(now);
        self.last_switch = clock.last_switch;
        due
    }

    /// Opens a selection on a snapshot of the catalog. With an empty
    /// snapshot there is nothing to show: the active image is cleared, and
    /// no path is returned. Otherwise one path of the snapshot is returned,
    /// picked at random, and the active image stays until the selection is
    /// finished. The clock is not touched.
    pub fn load_random_image(&mut self, snapshot: Vec<ImagePath>) -> (chosen: Option<ImagePath>)
        ensures
            chosen is None <==> snapshot@.len() == 0,
            chosen matches Some(path) ==> snapshot@.contains(path),
            final(self)@.image == if snapshot@.len() == 0 {
                None
            } else {
                old(self)@.image
            },
            final(self)@.last_switch == old(self)@.last_switch,
    {
        let chosen = choose_image(snapshot);
        if chosen.is_none() {
            self.current_image = None;
        }
        chosen
    }

    /// Finishes a selection with what reading the chosen file gave: its
    /// bytes, or nothing where it could not be read. Where the bytes decode
    /// as an image of the container that `chosen` names, that image becomes
    /// the active one. In every other case the active image stays as it
    /// was. Returns whether the active image was replaced.
    pub fn finish_load(&mut self, chosen: &ImagePath, content: Option<Vec<u8>>) -> (replaced: bool)
        ensures
            final(self)@.image == installed(old(self)@.image, loaded_image(content, *chosen)),
            replaced == (loaded_image(content, *chosen) is Some),
            final(self)@.last_switch == old(self)@.last_switch,
    {
        let decoded = match content {
            Some(bytes) => decode(bytes.as_slice(), chosen.kind),
            None => None,
        };
        let replaced = decoded.is_some();
        self.install(decoded);
        replaced
    }

    /// Ends a selection with the outcome of decoding: a decoded image
    /// replaces the active one, and without one the active image stays.
    pub fn install(&mut self, decoded: Option<ActiveImage>)
        ensures
            final(self)@.image == installed(old(self)@.image, view_of(decoded)),
            final(self)@.last_switch == old(self)@.last_switch,
    {
        match decoded {
            Some(image) => {
                self.current_image = Some(image);
            },
            None => {},
        }
    }

    /// What to draw into a drawing area of the size `available`, and when
    /// to come back: the active image in its fitted rectangle, or the
    /// placeholder where there is none.
    pub fn frame(&self, available: Area) -> (frame: Frame)
        ensures
            frame.content == content_of(self@.image, available),
            frame.repaint_after_ms == REPAINT_DELAY_MS,
    {
        let content = match &self.current_image {
            Some(image) => Content::Image(fit(available, image.size())),
            None => Content::Placeholder,
        };
        Frame { content, repaint_after_ms: REPAINT_DELAY_MS }
    }

    /// The active image, if there is one.
    pub fn current_image(&self) -> (image: Option<&ActiveImage>)
        ensures
            image is Some <==> self@.image is Some,
            image matches Some(active) ==> self@.image == Some(active@),
    {
        self.current_image.as_ref()
    }

    /// The time of the last switch, in milliseconds.
    pub fn last_switch(&self) -> (at: u64)
        ensures
            at == self@.last_switch,
    {
        self.last_switch
    }
}

} // verus!
