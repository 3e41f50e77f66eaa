//! The application: its state together with the image that it shows.
use vstd::prelude::*;
use egui_extras::RetainedImage;
use crate::caption::{caption_text, image_caption};
use crate::state::{records, restored, Action, AppState, Snapshot, StateView, UiEvent, next_state, action_for, COUNTER_SCALE};

verus! {

/// Debug name given to the decoded image.
pub const IMAGE_NAME: &'static str = "logo";

#[verifier::external_type_specification]
#[verifier::external_body]
pub struct ExRetainedImage(RetainedImage);

/// The width and height in pixels of the image that `bytes` hold, or `None`
/// where the toolkit cannot decode them.
pub uninterp spec fn decoded_size(bytes: Seq<u8>) -> Option<(usize, usize)>;

/// Relies on `RetainedImage::from_image_bytes`: it decodes the bytes, and
/// whether it succeeds and the size of what it yields depend on the bytes
/// alone. The size is read back with `RetainedImage::size`.
#[verifier::external_body]
fn decode_image(name: &str, bytes: &[u8]) -> (r: Result<(RetainedImage, usize, usize), String>)
    ensures
        r matches Ok(p) ==> decoded_size(bytes@) == Some((p.1, p.2)),
        r is Err ==> decoded_size(bytes@) is None,
{
    RetainedImage::from_image_bytes(name, bytes).map(|image| {
        let [width, height] = image.size();
        (image, width, height)
    })
}

/// The label, the counter and the image shown in the central panel.
pub struct TemplateApp {
    state: AppState,
    image: RetainedImage,
    width: usize,
    height: usize,
}

impl View for TemplateApp {
    type V = StateView;

    closed spec fn view(&self) -> StateView {
        self.state@
    }
}

impl TemplateApp {
    /// The image shown in the central panel.
    pub closed spec fn image_of(&self) -> RetainedImage {
        self.image
    }

    /// The width and height in pixels of the image, as decoded.
    pub closed spec fn image_size_of(&self) -> (usize, usize) {
        (self.width, self.height)
    }

    /// The application restored from `snapshot`, with the image decoded
    /// afresh from `image_bytes`. Fails with the decoder's message where the
    /// bytes hold no image.
    pub fn new(snapshot: Option<Snapshot>, image_bytes: &[u8]) -> (r: Result<TemplateApp, String>)
        ensures
            r is Ok <==> decoded_size(image_bytes@) is Some,
            r matches Ok(app) ==> app@ == restored(snapshot),
            r matches Ok(app) ==> Some(app.image_size_of()) == decoded_size(image_bytes@),
    {
        let state = AppState::from_snapshot(snapshot);
        match decode_image(IMAGE_NAME, image_bytes) {
            Ok((image, width, height)) => Ok(TemplateApp { state, image, width, height }),
            Err(e) => Err(e),
        }
    }

    pub fn state(&self) -> (r: &AppState)
        ensures
            r@ == self@,
    {
        &self.state
    }

    pub fn image(&self) -> (r: &RetainedImage)
        ensures
            *r == self.image_of(),
    {
        &self.image
    }

    /// The image's width and height in pixels.
    pub fn image_size(&self) -> (r: (usize, usize))
        ensures
            r == self.image_size_of(),
    {
        (self.width, self.height)
    }

    /// The caption of the information window: the image's size.
    pub fn image_caption(&self) -> (r: String)
        ensures
            r@ == caption_text(self.image_size_of().0 as nat, self.image_size_of().1 as nat),
    {
        image_caption(self.width, self.height)
    }

    /// Applies one interaction of a frame; see [`AppState::handle_event`].
    pub fn handle_event(&mut self, event: UiEvent, custom_frame: bool) -> (act: Action)
        requires
            event is IncrementClicked ==> old(self)@.counter + COUNTER_SCALE <= i64::MAX,
        ensures
            final(self)@ == next_state(old(self)@, event),
            act == action_for(event, custom_frame),
            final(self).image_of() == old(self).image_of(),
            final(self).image_size_of() == old(self).image_size_of(),
    {
        self.state.handle_event(event, custom_frame)
    }

    /// The record to persist at shutdown: label and counter, not the image.
    pub fn save(&self) -> (r: Snapshot)
        ensures
            records(r, self@),
    {
        self.state.snapshot()
    }
}

} // verus!
