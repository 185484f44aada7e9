//! Taking one frame of a window, even if it is behind other windows.

use image::RgbaImage;
use vstd::prelude::*;

verus! {

/// The client area of a window.
#[derive(Clone, Copy, Debug, PartialEq, Eq, Structural)]
pub struct ClientRect {
    pub left: i32,
    pub top: i32,
    pub right: i32,
    pub bottom: i32,
}

impl ClientRect {
    /// Whether the width and the height are numbers that the desktop can give.
    pub open spec fn measurable(self) -> bool {
        &&& i32::MIN <= self.right - self.left <= i32::MAX
        &&& i32::MIN <= self.bottom - self.top <= i32::MAX
    }

    /// Whether there is anything to see in it.
    pub open spec fn nonempty(self) -> bool {
        self.right > self.left && self.bottom > self.top
    }

    /// Whether [`Capture::measured`] can take the rectangle: neither difference
    /// of its edges overflows.
    pub fn is_measurable(&self) -> (measurable: bool)
        ensures
            measurable == self.measurable(),
    {
        self.right.checked_sub(self.left).is_some() && self.bottom.checked_sub(self.top).is_some()
    }
}

/// The bitmap that a window is drawn into.
#[derive(Clone, Copy, Debug, PartialEq, Eq, Structural)]
pub struct BitmapInfo {
    pub width: i32,
    /// Negative where the top row comes first.
    pub height: i32,
    pub planes: u16,
    pub bit_count: u16,
    pub compression: u32,
}

/// Uncompressed pixels.
pub const BI_RGB: u32 = 0;

/// Draw the client area only.
pub const PW_CLIENTONLY: u32 = 1;

/// Grab what the desktop composed instead of only asking the window to paint
/// itself, which many programs ignore.
pub const PW_RENDERFULLCONTENT: u32 = 2;

/// One captured frame: rows from the top, four bytes a pixel.
pub struct Frame {
    pub width: u32,
    pub height: u32,
    pub rgba: Vec<u8>,
}

/// [`Frame`] as specifications see it.
#[verifier::ext_equal]
pub struct FrameView {
    pub width: u32,
    pub height: u32,
    pub rgba: Seq<u8>,
}

impl View for Frame {
    type V = FrameView;

    open spec fn view(&self) -> FrameView {
        FrameView { width: self.width, height: self.height, rgba: self.rgba@ }
    }
}

impl FrameView {
    /// A frame is not empty and has four bytes for each of its pixels.
    pub open spec fn wf(self) -> bool {
        &&& self.width > 0
        &&& self.height > 0
        &&& self.rgba.len() == 4 * (self.width * self.height)
    }

    /// The red, green, blue and alpha of the pixel in column `x` of row `y`.
    pub open spec fn pixel(self, x: int, y: int) -> (u8, u8, u8, u8) {
        let at = 4 * (y * self.width + x);
        (self.rgba[at], self.rgba[at + 1], self.rgba[at + 2], self.rgba[at + 3])
    }
}

/// The frame in an optional frame, as specifications see it.
pub open spec fn frame_view(frame: Option<Frame>) -> Option<FrameView> {
    match frame {
        Some(frame) => Some(frame@),
        None => None,
    }
}

/// Four-byte pixels with red and blue exchanged and full alpha. Bytes after the
/// last whole pixel are dropped.
pub open spec fn rgba_of(bgra: Seq<u8>) -> Seq<u8> {
    Seq::new(
        (bgra.len() / 4 * 4) as nat,
        |i: int|
            if i % 4 == 0 {
                bgra[i + 2]
            } else if i % 4 == 1 {
                bgra[i]
            } else if i % 4 == 2 {
                bgra[i - 2]
            } else {
                255
            },
    )
}

/// Calls [`image::ImageBuffer::from_vec`] for `RgbaImage`, which takes the
/// samples as they are if they fill the image, and refuses them if there are too
/// few or the count of those needed does not fit a `usize`. The samples of the
/// image are handed back.
#[verifier::external_body]
fn rgba_image_from_vec(width: u32, height: u32, samples: Vec<u8>) -> (kept: Option<Vec<u8>>)
    ensures
        kept is Some <==> (4 * width <= usize::MAX && 4 * (width * height) <= samples@.len()),
        kept matches Some(kept) ==> kept@ == samples@,
{
    RgbaImage::from_vec(width, height, samples).map(|image| image.into_vec())
}

/// Turns the pixels of a bitmap into those of an image.
///
/// The desktop gives blue first, and its alpha is garbage for much of what it
/// draws, so every pixel is made opaque.
pub fn bgra_to_rgba(bgra: &[u8]) -> (rgba: Vec<u8>)
    ensures
        rgba@ == rgba_of(bgra@),
        rgba@.len() == bgra@.len() - bgra@.len() % 4,
        forall|pixel: int|
            #![trigger rgba@[4 * pixel]]
            0 <= pixel < bgra@.len() / 4 ==> {
                &&& rgba@[4 * pixel] == bgra@[4 * pixel + 2]
                &&& rgba@[4 * pixel + 1] == bgra@[4 * pixel + 1]
                &&& rgba@[4 * pixel + 2] == bgra@[4 * pixel]
                &&& rgba@[4 * pixel + 3] == 255
            },
{
    let mut rgba: Vec<u8> = Vec::new();
    let mut i: usize = 0;
    while bgra.len() - i >= 4
        invariant
            i <= bgra@.len(),
            i % 4 == 0,
            rgba@.len() == i,
            forall|j: int| 0 <= j < i ==> rgba@[j] == rgba_of(bgra@)[j],
        decreases bgra@.len() - i,
    {
        rgba.push(bgra[i + 2]);
        rgba.push(bgra[i + 1]);
        rgba.push(bgra[i]);
        rgba.push(255);
        i = i + 4;
    }
    assert(rgba@ =~= rgba_of(bgra@));
    rgba
}

/// How far a capture has come.
#[derive(Clone, Copy, Debug, PartialEq, Eq, Structural)]
pub enum CapturePhase {
    Measuring,
    CreatingDc,
    CreatingBitmap,
    Selecting,
    Printing,
    Flushing,
    Reading,
    Restoring,
    DeletingBitmap,
    DeletingDc,
    Finished,
}

/// What a capture asks the desktop to do next.
#[derive(Clone, Copy, Debug, PartialEq, Eq, Structural)]
pub enum CaptureAction {
    /// Measure the client area, and answer with [`Capture::measured`].
    MeasureClient,
    /// Create a memory device context.
    CreateDc,
    /// Create a bitmap, and answer with [`Capture::bitmap_created`].
    CreateBitmap(BitmapInfo),
    /// Select the bitmap into the device context.
    SelectBitmap,
    /// Print the window with these flags, and answer with [`Capture::printed`].
    Print(u32),
    /// Wait until everything is drawn.
    Flush,
    /// Hand over the bitmap's bytes with [`Capture::bits_read`].
    ReadBits,
    /// Select what was selected before the bitmap.
    RestoreObject,
    /// Delete the bitmap.
    DeleteBitmap,
    /// Delete the device context.
    DeleteDc,
    /// Nothing: the capture is over.
    Finish,
}

/// A capture in progress. Every action other than those that name their answer
/// is answered with [`Capture::done`].
pub struct Capture {
    phase: CapturePhase,
    width: i32,
    height: i32,
    printed: bool,
    frame: Option<Frame>,
}

/// [`Capture`] as specifications see it.
#[verifier::ext_equal]
pub struct CaptureView {
    pub phase: CapturePhase,
    pub width: i32,
    pub height: i32,
    pub printed: bool,
    pub frame: Option<FrameView>,
}

/// What the desktop answers to an action.
pub enum CaptureReply {
    Measured(Option<ClientRect>),
    BitmapCreated(bool),
    Printed(bool),
    BitsRead(Seq<u8>),
    Done,
}

impl View for Capture {
    type V = CaptureView;

    closed spec fn view(&self) -> CaptureView {
        CaptureView {
            phase: self.phase,
            width: self.width,
            height: self.height,
            printed: self.printed,
            frame: frame_view(self.frame),
        }
    }
}

impl CaptureView {
    /// A capture that has done nothing.
    pub open spec fn begun() -> CaptureView {
        CaptureView {
            phase: CapturePhase::Measuring,
            width: 0,
            height: 0,
            printed: false,
            frame: None,
        }
    }

    /// Past the measurement there is something to see, and a frame is there
    /// only once the bytes were read.
    pub open spec fn wf(self) -> bool {
        &&& self.phase is Measuring || self.phase is Finished || (self.width > 0 && self.height
            > 0)
        &&& self.frame matches Some(frame) ==> {
            &&& self.phase is Restoring || self.phase is DeletingBitmap || self.phase is DeletingDc
                || self.phase is Finished
            &&& frame.wf()
            &&& frame.width == self.width
            &&& frame.height == self.height
        }
    }

    /// The bitmap to draw into: 32 bits a pixel, the top row first.
    pub open spec fn bitmap_info(self) -> BitmapInfo {
        BitmapInfo {
            width: self.width,
            height: (-self.height) as i32,
            planes: 1,
            bit_count: 32,
            compression: BI_RGB,
        }
    }

    /// The number of bytes in the bitmap.
    pub open spec fn byte_count(self) -> int {
        4 * (self.width * self.height)
    }

    /// What is to be done next.
    pub open spec fn action(self) -> CaptureAction {
        match self.phase {
            CapturePhase::Measuring => CaptureAction::MeasureClient,
            CapturePhase::CreatingDc => CaptureAction::CreateDc,
            CapturePhase::CreatingBitmap => CaptureAction::CreateBitmap(self.bitmap_info()),
            CapturePhase::Selecting => CaptureAction::SelectBitmap,
            CapturePhase::Printing => CaptureAction::Print(PW_CLIENTONLY | PW_RENDERFULLCONTENT),
            CapturePhase::Flushing => CaptureAction::Flush,
            CapturePhase::Reading => CaptureAction::ReadBits,
            CapturePhase::Restoring => CaptureAction::RestoreObject,
            CapturePhase::DeletingBitmap => CaptureAction::DeleteBitmap,
            CapturePhase::DeletingDc => CaptureAction::DeleteDc,
            CapturePhase::Finished => CaptureAction::Finish,
        }
    }

    /// Whether `reply` answers what is to be done next.
    pub open spec fn accepts(self, reply: CaptureReply) -> bool {
        match (self.phase, reply) {
            (CapturePhase::Measuring, CaptureReply::Measured(client)) => {
                client matches Some(rect) ==> rect.measurable()
            },
            (CapturePhase::CreatingBitmap, CaptureReply::BitmapCreated(_)) => true,
            (CapturePhase::Printing, CaptureReply::Printed(_)) => true,
            (CapturePhase::Reading, CaptureReply::BitsRead(bgra)) => {
                bgra.len() == self.byte_count() && self.byte_count() <= i32::MAX
            },
            (CapturePhase::CreatingDc, CaptureReply::Done) => true,
            (CapturePhase::Selecting, CaptureReply::Done) => true,
            (CapturePhase::Flushing, CaptureReply::Done) => true,
            (CapturePhase::Restoring, CaptureReply::Done) => true,
            (CapturePhase::DeletingBitmap, CaptureReply::Done) => true,
            (CapturePhase::DeletingDc, CaptureReply::Done) => true,
            _ => false,
        }
    }

    /// The capture after `reply`.
    pub open spec fn replied(self, reply: CaptureReply) -> CaptureView {
        match reply {
            CaptureReply::Measured(client) => match client {
                Some(rect) if rect.nonempty() => CaptureView {
                    phase: CapturePhase::CreatingDc,
                    width: (rect.right - rect.left) as i32,
                    height: (rect.bottom - rect.top) as i32,
                    ..self
                },
                _ => CaptureView { phase: CapturePhase::Finished, ..self },
            },
            CaptureReply::BitmapCreated(created) => CaptureView {
                phase: if created {
                    CapturePhase::Selecting
                } else {
                    CapturePhase::DeletingDc
                },
                ..self
            },
            CaptureReply::Printed(printed) => CaptureView {
                phase: CapturePhase::Flushing,
                printed,
                ..self
            },
            CaptureReply::BitsRead(bgra) => CaptureView {
                phase: CapturePhase::Restoring,
                frame: Some(
                    FrameView {
                        width: self.width as u32,
                        height: self.height as u32,
                        rgba: rgba_of(bgra),
                    },
                ),
                ..self
            },
            CaptureReply::Done => CaptureView {
                phase: match self.phase {
                    CapturePhase::CreatingDc => CapturePhase::CreatingBitmap,
                    CapturePhase::Selecting => CapturePhase::Printing,
                    CapturePhase::Flushing => if self.printed {
                        CapturePhase::Reading
                    } else {
                        CapturePhase::Restoring
                    },
                    CapturePhase::Restoring => CapturePhase::DeletingBitmap,
                    CapturePhase::DeletingBitmap => CapturePhase::DeletingDc,
                    _ => CapturePhase::Finished,
                },
                ..self
            },
        }
    }
}

impl Capture {
    /// A capture that has done nothing.
    pub fn new() -> (capture: Self)
        ensures
            capture@ == CaptureView::begun(),
            capture@.wf(),
    {
        Capture {
            phase: CapturePhase::Measuring,
            width: 0,
            height: 0,
            printed: false,
            frame: None,
        }
    }

    /// What is to be done next.
    pub fn action(&self) -> (action: CaptureAction)
        requires
            self@.wf(),
        ensures
            action == self@.action(),
    {
        match self.phase {
            CapturePhase::Measuring => CaptureAction::MeasureClient,
            CapturePhase::CreatingDc => CaptureAction::CreateDc,
            CapturePhase::CreatingBitmap => CaptureAction::CreateBitmap(
                BitmapInfo {
                    width: self.width,
                    height: -self.height,
                    planes: 1,
                    bit_count: 32,
                    compression: BI_RGB,
                },
            ),
            CapturePhase::Selecting => CaptureAction::SelectBitmap,
            CapturePhase::Printing => CaptureAction::Print(PW_CLIENTONLY | PW_RENDERFULLCONTENT),
            CapturePhase::Flushing => CaptureAction::Flush,
            CapturePhase::Reading => CaptureAction::ReadBits,
            CapturePhase::Restoring => CaptureAction::RestoreObject,
            CapturePhase::DeletingBitmap => CaptureAction::DeleteBitmap,
            CapturePhase::DeletingDc => CaptureAction::DeleteDc,
            CapturePhase::Finished => CaptureAction::Finish,
        }
    }

    /// Takes the client area, or `None` where it could not be measured. A window
    /// without one, or with an empty one, gives no frame.
    pub fn measured(&mut self, client: Option<ClientRect>)
        requires
            old(self)@.wf(),
            old(self)@.accepts(CaptureReply::Measured(client)),
        ensures
            final(self)@.wf(),
            final(self)@ == old(self)@.replied(CaptureReply::Measured(client)),
    {
        self.phase = CapturePhase::Finished;
        if let Some(rect) = client {
            let width: i32 = rect.right - rect.left;
            let height: i32 = rect.bottom - rect.top;
            if width > 0 && height > 0 {
                self.phase = CapturePhase::CreatingDc;
                self.width = width;
                self.height = height;
            }
        }
    }

    /// Takes whether the bitmap was created. Without one there is nothing to
    /// draw into.
    pub fn bitmap_created(&mut self, created: bool)
        requires
            old(self)@.wf(),
            old(self)@.accepts(CaptureReply::BitmapCreated(created)),
        ensures
            final(self)@.wf(),
            final(self)@ == old(self)@.replied(CaptureReply::BitmapCreated(created)),
    {
        self.phase = if created {
            CapturePhase::Selecting
        } else {
            CapturePhase::DeletingDc
        };
    }

    /// Takes whether the window was drawn.
    pub fn printed(&mut self, printed: bool)
        requires
            old(self)@.wf(),
            old(self)@.accepts(CaptureReply::Printed(printed)),
        ensures
            final(self)@.wf(),
            final(self)@ == old(self)@.replied(CaptureReply::Printed(printed)),
    {
        self.printed = printed;
        self.phase = CapturePhase::Flushing;
    }

    /// The number of bytes to read from the bitmap, or `None` where an `i32`
    /// cannot hold it.
    pub fn byte_len(&self) -> (len: Option<i32>)
        requires
            self@.wf(),
            self@.phase is Reading,
        ensures
            len is Some <==> self@.byte_count() <= i32::MAX,
            len matches Some(len) ==> len == self@.byte_count(),
    {
        let (width, height): (i64, i64) = (self.width as i64, self.height as i64);
        assert(0 < width * height <= 0x7FFF_FFFF * 0x7FFF_FFFF) by (nonlinear_arith)
            requires
                0 < width <= 0x7FFF_FFFF,
                0 < height <= 0x7FFF_FFFF,
        ;
        let pixels: i64 = width * height;
        if pixels <= (i32::MAX / 4) as i64 {
            Some(pixels as i32 * 4)
        } else {
            None
        }
    }

    /// Takes the bytes of the bitmap.
    pub fn bits_read(&mut self, bgra: &[u8])
        requires
            old(self)@.wf(),
            old(self)@.accepts(CaptureReply::BitsRead(bgra@)),
        ensures
            final(self)@.wf(),
            final(self)@ == old(self)@.replied(CaptureReply::BitsRead(bgra@)),
    {
        let (width, height): (u32, u32) = (self.width as u32, self.height as u32);
        let rgba = bgra_to_rgba(bgra);
        proof {
            let (w, h) = (self.width as int, self.height as int);
            assert(4 * w <= 4 * (w * h)) by (nonlinear_arith)
                requires
                    w > 0,
                    h > 0,
            ;
        }
        self.frame = match rgba_image_from_vec(width, height, rgba) {
            Some(rgba) => Some(Frame { width, height, rgba }),
            None => None,
        };
        self.phase = CapturePhase::Restoring;
    }

    /// Takes that an action without an answer was performed.
    pub fn done(&mut self)
        requires
            old(self)@.wf(),
            old(self)@.accepts(CaptureReply::Done),
        ensures
            final(self)@.wf(),
            final(self)@ == old(self)@.replied(CaptureReply::Done),
    {
        self.phase = match self.phase {
            CapturePhase::CreatingDc => CapturePhase::CreatingBitmap,
            CapturePhase::Selecting => CapturePhase::Printing,
            CapturePhase::Flushing => if self.printed {
                CapturePhase::Reading
            } else {
                CapturePhase::Restoring
            },
            CapturePhase::Restoring => CapturePhase::DeletingBitmap,
            CapturePhase::DeletingBitmap => CapturePhase::DeletingDc,
            _ => CapturePhase::Finished,
        };
    }

    /// The captured frame, where the window gave one.
    pub fn into_frame(self) -> (frame: Option<Frame>)
        ensures
            frame_view(frame) == self@.frame,
            self@.wf() ==> (frame matches Some(frame) ==> frame@.wf()),
    {
        self.frame
    }
}

/// The frame of a window whose client area is `client` and whose bitmap comes to
/// hold `bgra`, if the bitmap could be created and the window drawn into it.
pub open spec fn captured_frame(
    client: Option<ClientRect>,
    created: bool,
    printed: bool,
    bgra: Seq<u8>,
) -> Option<FrameView> {
    match client {
        Some(rect) if rect.nonempty() && created && printed => Some(
            FrameView {
                width: (rect.right - rect.left) as u32,
                height: (rect.bottom - rect.top) as u32,
                rgba: rgba_of(bgra),
            },
        ),
        _ => None,
    }
}

/// Whether `bgra` is the whole of a bitmap as large as `rect`.
pub open spec fn fills(bgra: Seq<u8>, rect: ClientRect) -> bool {
    bgra.len() == 4 * ((rect.right - rect.left) * (rect.bottom - rect.top)) && bgra.len()
        <= i32::MAX
}

/// Takes a frame of a window, given everything that the desktop answers: the
/// client area, whether the bitmap was created, whether the window was drawn,
/// and the bytes of the bitmap then.
pub fn capture_window(
    client: Option<ClientRect>,
    created: bool,
    printed: bool,
    bgra: &[u8],
) -> (frame: Option<Frame>)
    requires
        client matches Some(rect) ==> rect.measurable() && (rect.nonempty() && created && printed
            ==> fills(bgra@, rect)),
    ensures
        frame_view(frame) == captured_frame(client, created, printed, bgra@),
        frame matches Some(frame) ==> frame@.wf(),
        frame is Some <==> created && printed && (client matches Some(rect) && rect.right
            > rect.left && rect.bottom > rect.top),
        frame matches Some(frame) ==> {
            &&& frame.width == client->0.right - client->0.left
            &&& frame.height == client->0.bottom - client->0.top
            &&& frame.rgba@.len() == bgra@.len()
            &&& forall|pixel: int|
                #![trigger frame.rgba@[4 * pixel]]
                0 <= pixel < bgra@.len() / 4 ==> {
                    &&& frame.rgba@[4 * pixel] == bgra@[4 * pixel + 2]
                    &&& frame.rgba@[4 * pixel + 1] == bgra@[4 * pixel + 1]
                    &&& frame.rgba@[4 * pixel + 2] == bgra@[4 * pixel]
                    &&& frame.rgba@[4 * pixel + 3] == 255
                }
        },
{
    let mut capture = Capture::new();
    loop
        invariant
            capture@.wf(),
            follows(capture@, client, created, printed, bgra@),
            client matches Some(rect) ==> rect.measurable() && (rect.nonempty() && created
                && printed ==> fills(bgra@, rect)),
        ensures
            capture@.phase is Finished,
        decreases remaining(capture@.phase),
    {
        match capture.action() {
            CaptureAction::MeasureClient => capture.measured(client),
            CaptureAction::CreateBitmap(_) => capture.bitmap_created(created),
            CaptureAction::Print(_) => capture.printed(printed),
            CaptureAction::ReadBits => capture.bits_read(bgra),
            CaptureAction::Finish => {
                break;
            },
            _ => capture.done(),
        }
    }
    capture.into_frame()
}

/// Whether a capture stands where these answers of the desktop lead.
spec fn follows(
    capture: CaptureView,
    client: Option<ClientRect>,
    created: bool,
    printed: bool,
    bgra: Seq<u8>,
) -> bool {
    let seen = match client {
        Some(rect) => rect.nonempty(),
        None => false,
    };
    let measured = seen && capture.width == client->0.right - client->0.left && capture.height
        == client->0.bottom - client->0.top;
    match capture.phase {
        CapturePhase::Measuring => capture.frame is None,
        CapturePhase::CreatingDc | CapturePhase::CreatingBitmap => measured && capture.frame
            is None,
        CapturePhase::Selecting | CapturePhase::Printing => measured && created && capture.frame
            is None,
        CapturePhase::Flushing => measured && created && capture.printed == printed
            && capture.frame is None,
        CapturePhase::Reading => measured && created && printed,
        CapturePhase::Restoring
        | CapturePhase::DeletingBitmap
        | CapturePhase::DeletingDc
        | CapturePhase::Finished => capture.frame == captured_frame(client, created, printed, bgra),
    }
}

/// The most actions that a capture can still ask for.
pub open spec fn remaining(phase: CapturePhase) -> nat {
    match phase {
        CapturePhase::Measuring => 10,
        CapturePhase::CreatingDc => 9,
        CapturePhase::CreatingBitmap => 8,
        CapturePhase::Selecting => 7,
        CapturePhase::Printing => 6,
        CapturePhase::Flushing => 5,
        CapturePhase::Reading => 4,
        CapturePhase::Restoring => 3,
        CapturePhase::DeletingBitmap => 2,
        CapturePhase::DeletingDc => 1,
        CapturePhase::Finished => 0,
    }
}

/// The capture after a sequence of replies.
pub open spec fn after(replies: Seq<CaptureReply>) -> CaptureView
    decreases replies.len(),
{
    if replies.len() == 0 {
        CaptureView::begun()
    } else {
        after(replies.drop_last()).replied(replies.last())
    }
}

/// Whether each of the replies answers what the capture asked for.
pub open spec fn answers(replies: Seq<CaptureReply>) -> bool
    decreases replies.len(),
{
    replies.len() == 0 || answers(replies.drop_last()) && after(replies.drop_last()).accepts(
        replies.last(),
    )
}

/// What a capture holds of the desktop.
#[verifier::ext_equal]
pub struct Held {
    /// The device context exists.
    pub dc: bool,
    /// The bitmap exists.
    pub bitmap: bool,
    /// The bitmap is selected into the device context.
    pub selected: bool,
}

impl Held {
    /// Nothing at all.
    pub open spec fn nothing() -> Held {
        Held { dc: false, bitmap: false, selected: false }
    }

    /// What is held after `action` was performed and answered with `reply`.
    pub open spec fn performed(self, action: CaptureAction, reply: CaptureReply) -> Held {
        match action {
            CaptureAction::CreateDc => Held { dc: true, ..self },
            CaptureAction::CreateBitmap(_) => Held {
                bitmap: reply == CaptureReply::BitmapCreated(true),
                ..self
            },
            CaptureAction::SelectBitmap => Held { selected: true, ..self },
            CaptureAction::RestoreObject => Held { selected: false, ..self },
            CaptureAction::DeleteBitmap => Held { bitmap: false, ..self },
            CaptureAction::DeleteDc => Held { dc: false, ..self },
            _ => self,
        }
    }

    /// Whether `action` makes sense: nothing is created twice, used before it
    /// exists, or deleted while in use.
    pub open spec fn permits(self, action: CaptureAction) -> bool {
        match action {
            CaptureAction::MeasureClient => self == Held::nothing(),
            CaptureAction::CreateDc => self == Held::nothing(),
            CaptureAction::CreateBitmap(_) => self.dc && !self.bitmap,
            CaptureAction::SelectBitmap => self.dc && self.bitmap && !self.selected,
            CaptureAction::Print(_) => self.dc && self.selected,
            CaptureAction::Flush => self.selected,
            CaptureAction::ReadBits => self.bitmap,
            CaptureAction::RestoreObject => self.dc && self.selected,
            CaptureAction::DeleteBitmap => self.bitmap && !self.selected,
            CaptureAction::DeleteDc => self.dc && !self.bitmap && !self.selected,
            CaptureAction::Finish => self == Held::nothing(),
        }
    }
}

/// What a capture holds after a sequence of replies.
pub open spec fn held_after(replies: Seq<CaptureReply>) -> Held
    decreases replies.len(),
{
    if replies.len() == 0 {
        Held::nothing()
    } else {
        held_after(replies.drop_last()).performed(
            after(replies.drop_last()).action(),
            replies.last(),
        )
    }
}

proof fn lemma_held(replies: Seq<CaptureReply>)
    requires
        answers(replies),
    ensures
        ({
            let held = held_after(replies);
            match after(replies).phase {
                CapturePhase::Measuring | CapturePhase::CreatingDc | CapturePhase::Finished => held
                    == Held::nothing(),
                CapturePhase::CreatingBitmap | CapturePhase::DeletingDc => held == Held {
                    dc: true,
                    bitmap: false,
                    selected: false,
                },
                CapturePhase::Selecting | CapturePhase::DeletingBitmap => held == Held {
                    dc: true,
                    bitmap: true,
                    selected: false,
                },
                _ => held == Held { dc: true, bitmap: true, selected: true },
            }
        }),
    decreases replies.len(),
{
    if replies.len() > 0 {
        lemma_held(replies.drop_last());
    }
}

/// However the desktop answers, a capture creates nothing twice, uses nothing
/// that is not there and deletes nothing in use, and when it is over it holds
/// nothing: every device context and every bitmap that it created is gone.
pub proof fn law_capture_leaves_nothing_behind(replies: Seq<CaptureReply>)
    requires
        answers(replies),
    ensures
        held_after(replies).permits(after(replies).action()),
        after(replies).phase is Finished ==> held_after(replies) == Held::nothing(),
{
    lemma_held(replies);
}

/// Every answer brings a capture closer to its end, which it reaches after ten
/// at most; at its end it takes no more.
pub proof fn law_capture_ends(replies: Seq<CaptureReply>)
    requires
        answers(replies),
    ensures
        replies.len() + remaining(after(replies).phase) <= 10,
        after(replies).phase is Finished ==> forall|reply: CaptureReply|
            !#[trigger] after(replies).accepts(reply),
    decreases replies.len(),
{
    if replies.len() > 0 {
        law_capture_ends(replies.drop_last());
    }
}

/// A frame is only ever made of bytes that were read from the bitmap, and has
/// the size of the client area that was measured.
pub proof fn law_frame_is_what_was_read(replies: Seq<CaptureReply>)
    requires
        answers(replies),
        after(replies).frame is Some,
    ensures
        exists|i: int, rect: ClientRect|
            0 <= i < replies.len() && (#[trigger] replies[i]) is BitsRead && after(replies).frame
                == captured_frame(Some(rect), true, true, replies[i]->BitsRead_0)
                && #[trigger] replies.contains(CaptureReply::Measured(Some(rect))),
    decreases replies.len(),
{
    let before = replies.drop_last();
    if !(replies.last() is BitsRead) {
        law_frame_is_what_was_read(before);
        let (i, rect) = choose|i: int, rect: ClientRect|
            0 <= i < before.len() && (#[trigger] before[i]) is BitsRead && after(before).frame
                == captured_frame(Some(rect), true, true, before[i]->BitsRead_0)
                && #[trigger] before.contains(CaptureReply::Measured(Some(rect)));
        let j = choose|j: int|
            0 <= j < before.len() && before[j] == CaptureReply::Measured(Some(rect));
        assert(replies[i] == before[i]);
        assert(replies[j] == CaptureReply::Measured(Some(rect)));
        assert(replies.contains(CaptureReply::Measured(Some(rect))));
    } else {
        lemma_measured(before);
        let rect = choose|rect: ClientRect| #[trigger]
            before.contains(CaptureReply::Measured(Some(rect))) && rect.nonempty()
                && after(before).width == rect.right - rect.left && after(before).height
                == rect.bottom - rect.top;
        let j = choose|j: int|
            0 <= j < before.len() && before[j] == CaptureReply::Measured(Some(rect));
        assert(replies[j] == CaptureReply::Measured(Some(rect)));
        assert(replies.contains(CaptureReply::Measured(Some(rect))));
        assert(replies[replies.len() - 1] is BitsRead);
    }
}

proof fn lemma_measured(replies: Seq<CaptureReply>)
    requires
        answers(replies),
        !(after(replies).phase is Measuring || after(replies).phase is Finished),
    ensures
        exists|rect: ClientRect| #[trigger]
            replies.contains(CaptureReply::Measured(Some(rect))) && rect.nonempty()
                && after(replies).width == rect.right - rect.left && after(replies).height
                == rect.bottom - rect.top,
    decreases replies.len(),
{
    let before = replies.drop_last();
    if after(before).phase is Measuring {
        let rect = replies.last()->Measured_0->0;
        assert(replies[replies.len() - 1] == CaptureReply::Measured(Some(rect)));
        assert(replies.contains(CaptureReply::Measured(Some(rect))));
    } else {
        lemma_measured(before);
        let rect = choose|rect: ClientRect| #[trigger]
            before.contains(CaptureReply::Measured(Some(rect))) && rect.nonempty()
                && after(before).width == rect.right - rect.left && after(before).height
                == rect.bottom - rect.top;
        let j = choose|j: int|
            0 <= j < before.len() && before[j] == CaptureReply::Measured(Some(rect));
        assert(replies[j] == CaptureReply::Measured(Some(rect)));
        assert(replies.contains(CaptureReply::Measured(Some(rect))));
    }
}

/// What happens next is decided by what was answered, and by nothing else. A
/// window with a client area gets a device context, then a bitmap of its size
/// with the top row first; a bitmap that was created is selected, drawn into and
/// flushed, and read if the drawing succeeded; then everything is undone in turn.
pub proof fn law_answers_decide_what_happens_next(replies: Seq<CaptureReply>)
    requires
        answers(replies),
    ensures
        ({
            let n = replies.len();
            let rect = replies[0]->Measured_0->0;
            let seen = replies[0]->Measured_0 is Some && rect.right > rect.left && rect.bottom
                > rect.top;
            let created = replies[2]->BitmapCreated_0;
            let printed = replies[4]->Printed_0;
            after(replies).action() == (if n == 0 {
                CaptureAction::MeasureClient
            } else if n == 1 && seen {
                CaptureAction::CreateDc
            } else if n == 2 {
                CaptureAction::CreateBitmap(
                    BitmapInfo {
                        width: (rect.right - rect.left) as i32,
                        height: (rect.top - rect.bottom) as i32,
                        planes: 1,
                        bit_count: 32,
                        compression: 0,
                    },
                )
            } else if n == 3 && created {
                CaptureAction::SelectBitmap
            } else if n == 4 && created {
                CaptureAction::Print(3)
            } else if n == 5 {
                CaptureAction::Flush
            } else if n == 6 && printed {
                CaptureAction::ReadBits
            } else if n == 6 || n == 7 && printed {
                CaptureAction::RestoreObject
            } else if n == 7 || n == 8 && printed {
                CaptureAction::DeleteBitmap
            } else if n == 3 || n == 8 || n == 9 && printed {
                CaptureAction::DeleteDc
            } else {
                CaptureAction::Finish
            })
        }),
{
    lemma_course(replies);
    assert(PW_CLIENTONLY | PW_RENDERFULLCONTENT == 3) by (bit_vector);
}

/// A capture has a frame from when the bytes were read on, and before that none.
/// The frame is as large as the client area, its bytes are as many as those that
/// were read, and each of its pixels is the one read at the same place, with the
/// first and the third byte exchanged and the fourth at its highest.
pub proof fn law_frame_shows_the_bitmap(replies: Seq<CaptureReply>, pixel: int)
    requires
        answers(replies),
    ensures
        after(replies).frame is Some <==> replies.len() > 6 && replies[4] == CaptureReply::Printed(
            true,
        ),
        after(replies).frame matches Some(frame) ==> {
            let rect = replies[0]->Measured_0->0;
            let bgra = replies[6]->BitsRead_0;
            &&& frame.width == rect.right - rect.left
            &&& frame.height == rect.bottom - rect.top
            &&& frame.rgba.len() == bgra.len() == 4 * ((rect.right - rect.left) * (rect.bottom
                - rect.top))
            &&& 0 <= pixel < bgra.len() / 4 ==> {
                &&& frame.rgba[4 * pixel] == bgra[4 * pixel + 2]
                &&& frame.rgba[4 * pixel + 1] == bgra[4 * pixel + 1]
                &&& frame.rgba[4 * pixel + 2] == bgra[4 * pixel]
                &&& frame.rgba[4 * pixel + 3] == 255
            }
        },
{
    lemma_course(replies);
}

/// The bytes to read are four for each pixel of the client area that was
/// measured.
pub proof fn law_bytes_fill_the_client_area(replies: Seq<CaptureReply>)
    requires
        answers(replies),
        after(replies).action() is ReadBits,
    ensures
        replies[0] matches CaptureReply::Measured(Some(rect)) && after(replies).byte_count() == 4
            * ((rect.right - rect.left) * (rect.bottom - rect.top)),
{
    lemma_course(replies);
}

/// Every answer that fits an action is taken, and no other. A client area fits
/// if its width and height are 32-bit numbers, and the bytes of a bitmap if they
/// fill it and are so few that such a number counts them.
pub proof fn law_fitting_answers_are_taken(capture: CaptureView, reply: CaptureReply)
    ensures
        capture.accepts(reply) <==> match (capture.action(), reply) {
            (CaptureAction::MeasureClient, CaptureReply::Measured(None)) => true,
            (CaptureAction::MeasureClient, CaptureReply::Measured(Some(rect))) => {
                &&& -0x8000_0000 <= rect.right - rect.left <= 0x7FFF_FFFF
                &&& -0x8000_0000 <= rect.bottom - rect.top <= 0x7FFF_FFFF
            },
            (CaptureAction::CreateBitmap(_), CaptureReply::BitmapCreated(_)) => true,
            (CaptureAction::Print(_), CaptureReply::Printed(_)) => true,
            (CaptureAction::ReadBits, CaptureReply::BitsRead(bgra)) => {
                bgra.len() == 4 * (capture.width * capture.height) && bgra.len() <= 0x7FFF_FFFF
            },
            (CaptureAction::CreateDc, CaptureReply::Done) => true,
            (CaptureAction::SelectBitmap, CaptureReply::Done) => true,
            (CaptureAction::Flush, CaptureReply::Done) => true,
            (CaptureAction::RestoreObject, CaptureReply::Done) => true,
            (CaptureAction::DeleteBitmap, CaptureReply::Done) => true,
            (CaptureAction::DeleteDc, CaptureReply::Done) => true,
            _ => false,
        },
{
}

/// Whatever is answered, past the measurement there is something to see, and a
/// frame is a whole one.
pub proof fn law_capture_stays_well_formed(replies: Seq<CaptureReply>)
    requires
        answers(replies),
    ensures
        after(replies).wf(),
    decreases replies.len(),
{
    if replies.len() > 0 {
        law_capture_stays_well_formed(replies.drop_last());
    }
}

/// A client area is measurable where its width and height are 32-bit numbers,
/// has something to see where its edges are the right way round, and is filled
/// by four bytes for each of its pixels, if a 32-bit number counts them.
pub proof fn law_client_area_goes_by_its_edges(rect: ClientRect, bgra: Seq<u8>)
    ensures
        rect.measurable() <==> -0x8000_0000 <= rect.right - rect.left <= 0x7FFF_FFFF && -0x8000_0000
            <= rect.bottom - rect.top <= 0x7FFF_FFFF,
        rect.nonempty() <==> rect.left < rect.right && rect.top < rect.bottom,
        fills(bgra, rect) <==> bgra.len() == 4 * ((rect.right - rect.left) * (rect.bottom
            - rect.top)) && bgra.len() <= 0x7FFF_FFFF,
{
}

/// What specifications see of a frame is everything, and a frame is whole where
/// it is not empty and has four bytes for each of its pixels.
pub proof fn law_view_shows_the_whole_frame(frame: Frame)
    ensures
        frame@.width == frame.width,
        frame@.height == frame.height,
        frame@.rgba == frame.rgba@,
        frame_view(Some(frame)) == Some(frame@),
        frame_view(None) is None,
        frame@.wf() <==> frame.width > 0 && frame.height > 0 && frame.rgba@.len() == 4 * (
        frame.width * frame.height),
{
}

proof fn lemma_course(replies: Seq<CaptureReply>)
    requires
        answers(replies),
    ensures
        ({
            let n = replies.len();
            let capture = after(replies);
            let rect = replies[0]->Measured_0->0;
            let seen = replies[0]->Measured_0 is Some && rect.right > rect.left && rect.bottom
                > rect.top;
            let created = replies[2]->BitmapCreated_0;
            let printed = replies[4]->Printed_0;
            &&& n > 0 ==> replies[0] is Measured && (replies[0]->Measured_0 is Some
                ==> rect.measurable())
            &&& n > 1 ==> seen
            &&& n > 2 ==> replies[2] is BitmapCreated
            &&& n > 4 ==> created && replies[4] is Printed
            &&& n > 6 && printed ==> replies[6] is BitsRead && replies[6]->BitsRead_0.len() == 4 * (
            (rect.right - rect.left) * (rect.bottom - rect.top))
            &&& n > 0 && seen ==> capture.width == rect.right - rect.left && capture.height
                == rect.bottom - rect.top
            &&& n > 4 ==> capture.printed == printed
            &&& capture.frame == (if n > 6 && printed {
                captured_frame(Some(rect), true, true, replies[6]->BitsRead_0)
            } else {
                None
            })
            &&& capture.phase == (if n == 0 {
                CapturePhase::Measuring
            } else if n == 1 && seen {
                CapturePhase::CreatingDc
            } else if n == 2 {
                CapturePhase::CreatingBitmap
            } else if n == 3 && created {
                CapturePhase::Selecting
            } else if n == 4 && created {
                CapturePhase::Printing
            } else if n == 5 {
                CapturePhase::Flushing
            } else if n == 6 && printed {
                CapturePhase::Reading
            } else if n == 6 || n == 7 && printed {
                CapturePhase::Restoring
            } else if n == 7 || n == 8 && printed {
                CapturePhase::DeletingBitmap
            } else if n == 3 || n == 8 || n == 9 && printed {
                CapturePhase::DeletingDc
            } else {
                CapturePhase::Finished
            })
        }),
    decreases replies.len(),
{
    if replies.len() > 0 {
        let before = replies.drop_last();
        lemma_course(before);
        assert(forall|i: int| 0 <= i < before.len() ==> #[trigger] replies[i] == before[i]);
    }
}

/// Every pixel of a frame is the bitmap's at the same place, with red and blue
/// exchanged, and opaque.
pub proof fn law_pixels_keep_their_place(rect: ClientRect, bgra: Seq<u8>, x: int, y: int)
    requires
        rect.measurable(),
        rect.nonempty(),
        fills(bgra, rect),
        0 <= x < rect.right - rect.left,
        0 <= y < rect.bottom - rect.top,
    ensures
        ({
            let at = 4 * (y * (rect.right - rect.left) + x);
            &&& captured_frame(Some(rect), true, true, bgra) matches Some(frame)
            &&& frame.pixel(x, y) == (bgra[at + 2], bgra[at + 1], bgra[at], 255u8)
        }),
{
    let (w, h) = (rect.right - rect.left, rect.bottom - rect.top);
    let p = y * w + x;
    assert(0 <= p < w * h) by (nonlinear_arith)
        requires
            p == y * w + x,
            0 <= x < w,
            0 <= y < h,
    ;
}

/// Exchanging red and blue twice gives the first colours back, opaque.
pub proof fn law_exchange_undoes_itself(bgra: Seq<u8>, i: int)
    requires
        0 <= i < bgra.len() / 4 * 4,
    ensures
        rgba_of(rgba_of(bgra))[i] == if i % 4 == 3 {
            255
        } else {
            bgra[i]
        },
{
}

/// The rows of the bitmap follow each other without padding: the desktop rounds
/// a row up to four bytes, which 32 bits a pixel always fill.
pub proof fn law_rows_are_not_padded(capture: CaptureView)
    requires
        capture.wf(),
        capture.action() is CreateBitmap,
    ensures
        ({
            let info = capture.bitmap_info();
            &&& info.height < 0
            &&& (info.width * info.bit_count + 31) / 32 * 4 * (-info.height) == capture.byte_count()
        }),
{
    let (w, h) = (capture.width as int, capture.height as int);
    assert((w * 32 + 31) / 32 * 4 * h == 4 * (w * h)) by (nonlinear_arith)
        requires
            w > 0,
            h > 0,
    ;
}

} // verus!
