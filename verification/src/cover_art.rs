//! Cover art: decoding, sizing and drawing the picture of the current track.

use image::{DynamicImage, ImageError};
use ratatui::Frame;
use ratatui_image::picker::{Picker, ProtocolType};
use ratatui_image::protocol::StatefulProtocol;
use ratatui_image::{Resize, StatefulImage};
use vstd::prelude::*;

verus! {

/// A decoded image.
#[verifier::external_type_specification]
#[verifier::external_body]
pub struct ExDynamicImage(image::DynamicImage);

/// Why an image could not be decoded.
#[verifier::external_type_specification]
#[verifier::external_body]
pub struct ExImageError(image::ImageError);

/// Why a fetch failed.
#[verifier::external_type_specification]
#[verifier::external_body]
pub struct ExFetchError(reqwest::Error);

/// What the terminal can show images with.
#[verifier::external_type_specification]
#[verifier::external_body]
pub struct ExPicker(ratatui_image::picker::Picker);

/// An image as it is shown on the terminal, resized when it is drawn.
#[verifier::external_type_specification]
#[verifier::external_body]
pub struct ExStatefulProtocol(ratatui_image::protocol::StatefulProtocol);

/// A frame of the terminal, on which widgets are drawn.
#[verifier::external_type_specification]
#[verifier::external_body]
pub struct ExFrame<'a>(ratatui::Frame<'a>);

/// A way to show images on a terminal.
#[derive(Debug, Clone, Copy, PartialEq, Eq, Structural)]
pub enum ProtocolKind {
    Halfblocks,
    Sixel,
    Kitty,
    Iterm2,
}

/// An area of the terminal, in cells.
#[derive(Debug, Clone, Copy, PartialEq, Eq, Structural)]
pub struct Rect {
    pub x: u16,
    pub y: u16,
    pub width: u16,
    pub height: u16,
}

/// The way in which a picker shows images.
pub uninterp spec fn picker_kind(picker: Picker) -> ProtocolKind;

/// Whether a picker made a terminal image of an image.
pub uninterp spec fn made_of(
    protocol: StatefulProtocol,
    picker: Picker,
    image: DynamicImage,
) -> bool;

/// The width and height, in cells, that a terminal image takes when it is fitted into an area of
/// the given width and height.
pub uninterp spec fn fitted_size(protocol: StatefulProtocol, width: u16, height: u16) -> (u16, u16);

/// Whether drawing a terminal image in an area took a frame and the image from one state to
/// another.
pub uninterp spec fn drawn(
    before: Frame,
    area: Rect,
    image: StatefulProtocol,
    after: Frame,
    image_after: StatefulProtocol,
) -> bool;

/// Whether decoding bytes can give the given result. That rests on the decoders that are
/// registered in the process, too.
pub uninterp spec fn decoded(bytes: Seq<u8>, result: Result<DynamicImage, ImageError>) -> bool;

/// `ratatui_image::picker::Picker::halfblocks`: a picker that shows images with half blocks,
/// whatever the terminal. The rest of it depends on the environment.
#[verifier::external_body]
fn halfblocks_picker() -> (picker: Picker)
    ensures
        picker_kind(picker) == ProtocolKind::Halfblocks,
{
    Picker::halfblocks()
}

/// `ratatui_image::picker::Picker::protocol_type`: the way in which the picker shows images.
#[verifier::external_body]
fn protocol_kind(picker: &Picker) -> (kind: ProtocolKind)
    ensures
        kind == picker_kind(*picker),
{
    match picker.protocol_type() {
        ProtocolType::Halfblocks => ProtocolKind::Halfblocks,
        ProtocolType::Sixel => ProtocolKind::Sixel,
        ProtocolType::Kitty => ProtocolKind::Kitty,
        ProtocolType::Iterm2 => ProtocolKind::Iterm2,
    }
}

/// `ratatui_image::picker::Picker::new_resize_protocol`: makes a terminal image of an image. It
/// may hold a random number, so that two of them differ; but the size into which they are fitted
/// rests on the pixels of the image and the font of the picker alone.
#[verifier::external_body]
fn new_protocol(picker: &Picker, image: DynamicImage) -> (protocol: StatefulProtocol)
    ensures
        made_of(protocol, *picker, image),
        forall|other: StatefulProtocol, width: u16, height: u16|
            #![trigger made_of(other, *picker, image), fitted_size(other, width, height)]
            made_of(other, *picker, image) ==> fitted_size(other, width, height) == fitted_size(
                protocol,
                width,
                height,
            ),
{
    picker.new_resize_protocol(image)
}

/// `ratatui_image::protocol::StatefulProtocol::size_for` with `Resize::Fit(None)`: the width and
/// height that the image takes in an area of the given width and height.
#[verifier::external_body]
fn size_in(protocol: &StatefulProtocol, width: u16, height: u16) -> (size: (u16, u16))
    ensures
        size == fitted_size(*protocol, width, height),
{
    let size = protocol.size_for(Resize::Fit(None), ratatui::layout::Size { width, height });
    (size.width, size.height)
}

/// Whether an area ends within the coordinates of a terminal.
pub open spec fn in_coordinates(area: Rect) -> bool {
    area.x + area.width <= u16::MAX && area.y + area.height <= u16::MAX
}

/// Whether a terminal image can be drawn in an area: it does not take more than the area when it
/// is fitted into it, or the area is empty.
pub open spec fn drawable(image: StatefulProtocol, area: Rect) -> bool {
    let (width, height) = fitted_size(image, area.width, area.height);
    area.width == 0 || area.height == 0 || (width <= area.width && height <= area.height)
}

/// `ratatui::Frame::render_stateful_widget` with a `ratatui_image::StatefulImage` that resizes by
/// `Resize::Fit(None)`: draws the image in an area of the frame, encoding it anew where the area
/// changed. The image stays one of the same picture, and takes the same size in every area.
///
/// The call can panic where the image takes more than the area, or where the area ends beyond the
/// coordinates of a terminal. What the frame holds afterwards is not said.
#[verifier::external_body]
fn draw(frame: &mut Frame, area: Rect, image: &mut StatefulProtocol)
    requires
        in_coordinates(area),
        drawable(*old(image), area),
    ensures
        drawn(*old(frame), area, *old(image), *final(frame), *final(image)),
        forall|width: u16, height: u16| #[trigger]
            fitted_size(*final(image), width, height) == fitted_size(*old(image), width, height),
        forall|picker: Picker, source: DynamicImage| #[trigger]
            made_of(*final(image), picker, source) == made_of(*old(image), picker, source),
{
    let widget = StatefulImage::new().resize(Resize::Fit(None));
    let Rect { x, y, width, height } = area;
    frame.render_stateful_widget(widget, ratatui::layout::Rect { x, y, width, height }, image);
}

/// `Clone` of `image::DynamicImage`: the same image again.
#[verifier::external_body]
fn clone_image(image: &DynamicImage) -> (copy: DynamicImage)
    ensures
        copy == *image,
{
    image.clone()
}

/// `image::load_from_memory`: decodes an image whose format is guessed from its first bytes. Other
/// code can register decoders, so that the same bytes need not always give the same result.
#[verifier::external_body]
fn decode(bytes: &[u8]) -> (image: Result<DynamicImage, ImageError>)
    ensures
        decoded(bytes@, image),
{
    image::load_from_memory(bytes)
}

/// A picture that is shown, and where it came from.
pub struct CoverArtState {
    pub url: String,
    pub image: StatefulProtocol,
}

impl CoverArtState {
    /// A picture from a URL.
    pub fn new(url: String, image: StatefulProtocol) -> (state: CoverArtState)
        ensures
            state.url == url,
            state.image == image,
    {
        CoverArtState { url, image }
    }
}

/// The picture of the current track, once for the playbar and once for the fullscreen view, which
/// are drawn independently of each other.
pub struct CoverArt {
    pub state: Option<CoverArtState>,
    pub fullscreen_state: Option<CoverArtState>,
    pub picker: Picker,
}

/// How long a fetch may take.
#[derive(Debug, Clone, Copy, PartialEq, Eq, Structural)]
pub struct FetchTimeouts {
    /// Seconds until a connection must stand.
    pub connect_secs: u64,
    /// Seconds until everything must have arrived.
    pub total_secs: u64,
}

/// How a fetch went, up to the bytes that arrived.
pub enum Fetched {
    /// No client could be made.
    NoClient(reqwest::Error),
    /// The request failed, or the server answered with an error status.
    NoResponse(reqwest::Error),
    /// The body did not arrive.
    NoBody(reqwest::Error),
    /// The announced length, if there was one, and the bytes of the body.
    Body(Option<u64>, Vec<u8>),
}

/// Why there is no picture.
#[derive(Debug)]
pub enum CoverArtError {
    /// No client could be made.
    Client(reqwest::Error),
    /// The request failed, or the server answered with an error status.
    Request(reqwest::Error),
    /// The body did not arrive.
    Body(reqwest::Error),
    /// The body is no image.
    Decode(ImageError),
}

/// Whether a way to show images shows their pixels, and not blocks of them.
pub open spec fn shows_pixels(kind: ProtocolKind) -> bool {
    kind is Kitty || kind is Iterm2 || kind is Sixel
}

/// What a fetch gives: the decoded image, or why there is none.
pub open spec fn fetch_result(
    fetched: Fetched,
    result: Result<DynamicImage, CoverArtError>,
) -> bool {
    match fetched {
        Fetched::NoClient(error) => result == Err::<DynamicImage, CoverArtError>(
            CoverArtError::Client(error),
        ),
        Fetched::NoResponse(error) => result == Err::<DynamicImage, CoverArtError>(
            CoverArtError::Request(error),
        ),
        Fetched::NoBody(error) => result == Err::<DynamicImage, CoverArtError>(
            CoverArtError::Body(error),
        ),
        Fetched::Body(_, bytes) => decodes_to(bytes@, result),
    }
}

/// Whether a body gives the given result: that of a decoder for its bytes.
pub open spec fn decodes_to(bytes: Seq<u8>, result: Result<DynamicImage, CoverArtError>) -> bool {
    exists|image: Result<DynamicImage, ImageError>|
        #[trigger] decoded(bytes, image) && decoding_result(image, result)
}

/// What a decoder's result gives: the image, or the decoder's error.
pub open spec fn decoding_result(
    image: Result<DynamicImage, ImageError>,
    result: Result<DynamicImage, CoverArtError>,
) -> bool {
    match image {
        Ok(image) => result == Ok::<DynamicImage, CoverArtError>(image),
        Err(error) => result == Err::<DynamicImage, CoverArtError>(CoverArtError::Decode(error)),
    }
}

/// The bytes of a body, collected with room for the announced length.
fn collect_body(announced: Option<u64>, bytes: &[u8]) -> (file: Vec<u8>)
    requires
        announced matches Some(length) ==> length <= isize::MAX,
    ensures
        file@ == bytes@,
{
    let mut file: Vec<u8> = match announced {
        Some(length) => Vec::with_capacity(length as usize),
        None => Vec::new(),
    };
    file.extend_from_slice(bytes);
    assert(file@ =~= bytes@);
    file
}

impl CoverArt {
    /// Cover art for a terminal. The terminal is asked beforehand what it can show; where that
    /// failed, images are shown with half blocks.
    pub fn new(queried: Option<Picker>) -> (art: CoverArt)
        ensures
            art.state is None,
            art.fullscreen_state is None,
            match queried {
                Some(picker) => art.picker == picker,
                None => picker_kind(art.picker) == ProtocolKind::Halfblocks,
            },
    {
        let picker = match queried {
            Some(picker) => picker,
            None => halfblocks_picker(),
        };
        CoverArt { state: None, fullscreen_state: None, picker }
    }

    /// Whether the terminal shows the pixels of an image.
    pub fn full_image_support(&self) -> (supported: bool)
        ensures
            supported == shows_pixels(picker_kind(self.picker)),
    {
        match protocol_kind(&self.picker) {
            ProtocolKind::Kitty | ProtocolKind::Iterm2 | ProtocolKind::Sixel => true,
            ProtocolKind::Halfblocks => false,
        }
    }

    /// Where the picture in the playbar came from.
    pub fn get_url(&self) -> (url: Option<String>)
        ensures
            url == match self.state {
                Some(state) => Some(state.url),
                None => None,
            },
    {
        match &self.state {
            Some(state) => Some(state.url.clone()),
            None => None,
        }
    }

    /// Shows another picture in the playbar.
    pub fn set_state(&mut self, state: CoverArtState)
        ensures
            *final(self) == (CoverArt { state: Some(state), ..*old(self) }),
    {
        self.state = Some(state);
    }

    /// How long a fetch may take, so that a server that hangs cannot stall it.
    pub fn fetch_timeouts() -> (timeouts: FetchTimeouts)
        ensures
            timeouts.connect_secs == 10,
            timeouts.total_secs == 30,
    {
        FetchTimeouts { connect_secs: 10, total_secs: 30 }
    }

    /// Decodes what a fetch brought.
    ///
    /// This borrows no cover art, so that the slow part of a change of picture runs while the
    /// old one can be drawn.
    pub fn fetch_and_decode(fetched: Fetched) -> (image: Result<DynamicImage, CoverArtError>)
        requires
            fetched matches Fetched::Body(Some(length), _) ==> length <= isize::MAX,
        ensures
            fetch_result(fetched, image),
    {
        match fetched {
            Fetched::NoClient(error) => Err(CoverArtError::Client(error)),
            Fetched::NoResponse(error) => Err(CoverArtError::Request(error)),
            Fetched::NoBody(error) => Err(CoverArtError::Body(error)),
            Fetched::Body(announced, bytes) => {
                let file = collect_body(announced, bytes.as_slice());
                let image = decode(file.as_slice());
                assert(decoded(bytes@, image));
                Self::take_decoded(image)
            },
        }
    }

    /// The image that a decoder gave, or why there is none.
    pub fn take_decoded(image: Result<DynamicImage, ImageError>) -> (result: Result<
        DynamicImage,
        CoverArtError,
    >)
        ensures
            decoding_result(image, result),
    {
        match image {
            Ok(image) => Ok(image),
            Err(error) => Err(CoverArtError::Decode(error)),
        }
    }

    /// Shows a decoded image in the playbar and in the fullscreen view.
    pub fn store_decoded(&mut self, url: String, image: DynamicImage)
        ensures
            final(self).picker == old(self).picker,
            final(self).state matches Some(state) && state.url == url && made_of(
                state.image,
                old(self).picker,
                image,
            ),
            final(self).fullscreen_state matches Some(state) && state.url == url && made_of(
                state.image,
                old(self).picker,
                image,
            ),
            forall|area: Rect|
                sized_state(final(self).state, area) == #[trigger] sized_state(
                    final(self).fullscreen_state,
                    area,
                ),
    {
        let playbar_image = new_protocol(&self.picker, clone_image(&image));
        let fullscreen_image = new_protocol(&self.picker, image);
        self.set_state(CoverArtState::new(url.clone(), playbar_image));
        self.fullscreen_state = Some(CoverArtState::new(url, fullscreen_image));
    }

    /// Whether there is a picture.
    pub fn available(&self) -> (available: bool)
        ensures
            available == self.state is Some,
    {
        self.state.is_some()
    }

    /// Draws the picture in an area of the playbar, if there is one.
    pub fn render(&mut self, f: &mut Frame, area: Rect)
        requires
            renderable(old(self).state, area),
        ensures
            playbar_drawn(*old(self), *old(f), area, *final(self), *final(f)),
    {
        Self::render_state(&mut self.state, f, area);
    }

    /// Draws the picture in an area of the playbar, if there is one and it can be drawn there, and
    /// says whether it could.
    pub fn try_render(&mut self, f: &mut Frame, area: Rect) -> (possible: bool)
        ensures
            possible == renderable(old(self).state, area),
            if possible {
                playbar_drawn(*old(self), *old(f), area, *final(self), *final(f))
            } else {
                *final(self) == *old(self) && *final(f) == *old(f)
            },
    {
        if Self::can_render_state(&self.state, area) {
            self.render(f, area);
            true
        } else {
            false
        }
    }

    /// The area that the picture takes in the playbar, if there is one.
    pub fn size_for(&self, area: Rect) -> (size: Option<Rect>)
        ensures
            size == sized_state(self.state, area),
    {
        Self::size_for_state(&self.state, area)
    }

    /// Draws the picture in an area of the fullscreen view, if there is one.
    pub fn render_fullscreen(&mut self, f: &mut Frame, area: Rect)
        requires
            renderable(old(self).fullscreen_state, area),
        ensures
            fullscreen_drawn(*old(self), *old(f), area, *final(self), *final(f)),
    {
        Self::render_state(&mut self.fullscreen_state, f, area);
    }

    /// Draws the picture in an area of the fullscreen view, if there is one and it can be drawn
    /// there, and says whether it could.
    pub fn try_render_fullscreen(&mut self, f: &mut Frame, area: Rect) -> (possible: bool)
        ensures
            possible == renderable(old(self).fullscreen_state, area),
            if possible {
                fullscreen_drawn(*old(self), *old(f), area, *final(self), *final(f))
            } else {
                *final(self) == *old(self) && *final(f) == *old(f)
            },
    {
        if Self::can_render_state(&self.fullscreen_state, area) {
            self.render_fullscreen(f, area);
            true
        } else {
            false
        }
    }

    /// The area that the picture takes in the fullscreen view, if there is one.
    pub fn fullscreen_size_for(&self, area: Rect) -> (size: Option<Rect>)
        ensures
            size == sized_state(self.fullscreen_state, area),
    {
        Self::size_for_state(&self.fullscreen_state, area)
    }

    fn render_state(state: &mut Option<CoverArtState>, f: &mut Frame, area: Rect)
        requires
            renderable(*old(state), area),
        ensures
            state_drawn(*old(state), *old(f), area, *final(state), *final(f)),
    {
        if let Some(s) = state {
            draw(f, area, &mut s.image);
        }
    }

    fn can_render_state(state: &Option<CoverArtState>, area: Rect) -> (possible: bool)
        ensures
            possible == renderable(*state, area),
    {
        match state {
            Some(s) => {
                let (width, height) = size_in(&s.image, area.width, area.height);
                let bounded = area.width <= u16::MAX - area.x && area.height <= u16::MAX - area.y;
                let fits = width <= area.width && height <= area.height;
                bounded && (area.width == 0 || area.height == 0 || fits)
            },
            None => true,
        }
    }

    /// The area that a picture takes when it is fitted into another area, if there is one.
    pub fn size_for_state(state: &Option<CoverArtState>, area: Rect) -> (size: Option<Rect>)
        ensures
            size == sized_state(*state, area),
    {
        match state {
            Some(s) => {
                let (width, height) = size_in(&s.image, area.width, area.height);
                Some(Rect { x: 0, y: 0, width, height })
            },
            None => None,
        }
    }
}

/// Whether the picture, if there is one, can be drawn in an area.
pub open spec fn renderable(state: Option<CoverArtState>, area: Rect) -> bool {
    state matches Some(s) ==> in_coordinates(area) && drawable(s.image, area)
}

/// Whether drawing the picture, if there is one, in an area took it and a frame from one state to
/// another. Without a picture nothing is drawn.
pub open spec fn state_drawn(
    before: Option<CoverArtState>,
    frame: Frame,
    area: Rect,
    after: Option<CoverArtState>,
    frame_after: Frame,
) -> bool {
    match before {
        Some(s) => {
            &&& after matches Some(t)
            &&& t.url == s.url
            &&& drawn(frame, area, s.image, frame_after, t.image)
            &&& forall|width: u16, height: u16| #[trigger]
                fitted_size(t.image, width, height) == fitted_size(s.image, width, height)
            &&& forall|picker: Picker, source: DynamicImage| #[trigger]
                made_of(t.image, picker, source) == made_of(s.image, picker, source)
        },
        None => after is None && frame_after == frame,
    }
}

/// Whether the picture in the playbar was drawn in an area, and nothing else changed.
pub open spec fn playbar_drawn(
    before: CoverArt,
    frame: Frame,
    area: Rect,
    after: CoverArt,
    frame_after: Frame,
) -> bool {
    &&& after.picker == before.picker
    &&& after.fullscreen_state == before.fullscreen_state
    &&& state_drawn(before.state, frame, area, after.state, frame_after)
}

/// Whether the picture in the fullscreen view was drawn in an area, and nothing else changed.
pub open spec fn fullscreen_drawn(
    before: CoverArt,
    frame: Frame,
    area: Rect,
    after: CoverArt,
    frame_after: Frame,
) -> bool {
    &&& after.picker == before.picker
    &&& after.state == before.state
    &&& state_drawn(before.fullscreen_state, frame, area, after.fullscreen_state, frame_after)
}

/// The area, from the origin, that a picture takes when it is fitted into another area.
pub open spec fn sized_state(state: Option<CoverArtState>, area: Rect) -> Option<Rect> {
    match state {
        Some(s) => {
            let (width, height) = fitted_size(s.image, area.width, area.height);
            Some(Rect { x: 0, y: 0, width, height })
        },
        None => None,
    }
}

/// The length that a server announces has no influence on what a fetch can give.
pub proof fn announced_lengths_do_not_matter(
    announced: Option<u64>,
    other: Option<u64>,
    bytes: Vec<u8>,
    result: Result<DynamicImage, CoverArtError>,
)
    ensures
        fetch_result(Fetched::Body(announced, bytes), result) == fetch_result(
            Fetched::Body(other, bytes),
            result,
        ),
{
}

/// Drawing keeps the URL of a picture and the area that it takes.
pub proof fn drawing_keeps_the_picture(
    before: Option<CoverArtState>,
    frame: Frame,
    area: Rect,
    after: Option<CoverArtState>,
    frame_after: Frame,
    other_area: Rect,
)
    requires
        state_drawn(before, frame, area, after, frame_after),
    ensures
        after is Some == before is Some,
        before matches Some(s) ==> after->0.url == s.url,
        sized_state(after, other_area) == sized_state(before, other_area),
{
}

/// The views are drawn apart, in either order: each is drawn from its own picture as it was before
/// the other was drawn, and where the second has no picture, it draws nothing, whether or not the
/// first has one.
pub proof fn views_are_drawn_apart(
    before: CoverArt,
    first: Frame,
    first_area: Rect,
    between: CoverArt,
    second: Frame,
    second_area: Rect,
    after: CoverArt,
    last: Frame,
)
    ensures
        playbar_drawn(before, first, first_area, between, second) && fullscreen_drawn(
            between,
            second,
            second_area,
            after,
            last,
        ) ==> {
            &&& after.state == between.state
            &&& state_drawn(before.fullscreen_state, second, second_area, after.fullscreen_state, last)
            &&& before.fullscreen_state is None ==> last == second
        },
        fullscreen_drawn(before, first, first_area, between, second) && playbar_drawn(
            between,
            second,
            second_area,
            after,
            last,
        ) ==> {
            &&& after.fullscreen_state == between.fullscreen_state
            &&& state_drawn(before.state, second, second_area, after.state, last)
            &&& before.state is None ==> last == second
        },
{
}

/// The area that a picture takes starts at the origin and rests on the width and the height of the
/// area that it is fitted into, not on where that area starts.
pub proof fn sizes_ignore_the_origin(state: Option<CoverArtState>, first: Rect, second: Rect)
    requires
        first.width == second.width,
        first.height == second.height,
    ensures
        sized_state(state, first) == sized_state(state, second),
        sized_state(state, first) matches Some(size) ==> size.x == 0 && size.y == 0,
{
}

/// A picture can be drawn in just the areas, of whatever size, that end within the coordinates of a
/// terminal and that it does not outgrow when it is fitted into them, or that are empty. Without a
/// picture there is nothing that could not be drawn.
pub proof fn pictures_can_be_drawn_where_they_fit(state: Option<CoverArtState>, area: Rect)
    ensures
        renderable(state, area) == match state {
            Some(s) => {
                &&& area.x + area.width <= 65_535
                &&& area.y + area.height <= 65_535
                &&& area.width == 0 || area.height == 0 || {
                    &&& fitted_size(s.image, area.width, area.height).0 <= area.width
                    &&& fitted_size(s.image, area.width, area.height).1 <= area.height
                }
            },
            None => true,
        },
{
}

/// Where the playbar has a picture, drawing it takes the frame and that picture through one drawing
/// in just the given area, whatever its size; where it has none, the frame stays as it was. The
/// picture keeps its URL and stays one of the same image and of the same size, and the fullscreen
/// view stays as it was.
pub proof fn playbar_pictures_are_drawn(
    before: CoverArt,
    frame: Frame,
    area: Rect,
    after: CoverArt,
    frame_after: Frame,
)
    requires
        playbar_drawn(before, frame, area, after, frame_after),
    ensures
        match (before.state, after.state) {
            (Some(s), Some(t)) => {
                &&& drawn(frame, area, s.image, frame_after, t.image)
                &&& t.url == s.url
                &&& forall|width: u16, height: u16| #[trigger]
                    fitted_size(t.image, width, height) == fitted_size(s.image, width, height)
                &&& forall|picker: Picker, source: DynamicImage| #[trigger]
                    made_of(t.image, picker, source) == made_of(s.image, picker, source)
            },
            (None, None) => frame_after == frame,
            _ => false,
        },
        after.fullscreen_state == before.fullscreen_state,
        after.picker == before.picker,
{
}

/// Where the fullscreen view has a picture, drawing it takes the frame and that picture through one
/// drawing in just the given area, whatever its size; where it has none, the frame stays as it was.
/// The picture keeps its URL and stays one of the same image and of the same size, and the playbar
/// stays as it was.
pub proof fn fullscreen_pictures_are_drawn(
    before: CoverArt,
    frame: Frame,
    area: Rect,
    after: CoverArt,
    frame_after: Frame,
)
    requires
        fullscreen_drawn(before, frame, area, after, frame_after),
    ensures
        match (before.fullscreen_state, after.fullscreen_state) {
            (Some(s), Some(t)) => {
                &&& drawn(frame, area, s.image, frame_after, t.image)
                &&& t.url == s.url
                &&& forall|width: u16, height: u16| #[trigger]
                    fitted_size(t.image, width, height) == fitted_size(s.image, width, height)
                &&& forall|picker: Picker, source: DynamicImage| #[trigger]
                    made_of(t.image, picker, source) == made_of(s.image, picker, source)
            },
            (None, None) => frame_after == frame,
            _ => false,
        },
        after.state == before.state,
        after.picker == before.picker,
{
}

/// A picture takes just the width and the height that it is fitted to; without a picture there is
/// no size.
pub proof fn pictures_take_the_fitted_size(state: Option<CoverArtState>, area: Rect)
    ensures
        match (state, sized_state(state, area)) {
            (Some(s), Some(size)) => (size.width, size.height) == fitted_size(
                s.image,
                area.width,
                area.height,
            ),
            (None, None) => true,
            _ => false,
        },
{
}

/// Only half blocks do not show the pixels of an image.
pub proof fn only_half_blocks_show_no_pixels(kind: ProtocolKind)
    ensures
        shows_pixels(kind) == (kind != ProtocolKind::Halfblocks),
{
}

/// A fetch gives an image just where a body arrived that decodes to it. Where no body arrived, it
/// gives the error of the step that failed; where the body does not decode, the decoder's error.
pub proof fn fetches_give_what_arrived(
    fetched: Fetched,
    result: Result<DynamicImage, CoverArtError>,
)
    requires
        fetch_result(fetched, result),
    ensures
        match (fetched, result) {
            (Fetched::NoClient(cause), Err(CoverArtError::Client(error))) => error == cause,
            (Fetched::NoResponse(cause), Err(CoverArtError::Request(error))) => error == cause,
            (Fetched::NoBody(cause), Err(CoverArtError::Body(error))) => error == cause,
            (Fetched::Body(_, bytes), Ok(image)) => decoded(bytes@, Ok(image)),
            (Fetched::Body(_, bytes), Err(CoverArtError::Decode(error))) => decoded(
                bytes@,
                Err(error),
            ),
            _ => false,
        },
{
}

/// What a decoder gives is handed on: its image as an image, and its error as an error.
pub proof fn decoded_images_are_handed_on(
    image: Result<DynamicImage, ImageError>,
    result: Result<DynamicImage, CoverArtError>,
)
    requires
        decoding_result(image, result),
    ensures
        match (image, result) {
            (Ok(decoded), Ok(given)) => given == decoded,
            (Err(cause), Err(CoverArtError::Decode(error))) => error == cause,
            _ => false,
        },
{
}

} // verus!
