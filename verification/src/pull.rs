//! Pulling one frame from the driver.
//!
//! The size of a frame is not known beforehand, so a frame is pulled in two
//! phases: the driver is first asked for the width and height, with no
//! buffer, and then handed a buffer of exactly the size that these and the
//! options in force call for. Between the two the raw-capture option is read,
//! and the RGB48 option if raw capture is on.
//!
//! A `Pull` decides each step. The caller performs the action it is given and
//! hands back what the driver answered, until the action is to deliver the
//! image or to fail.

use vstd::prelude::*;
use libc::{c_int, c_uint};
use crate::camera::Toupcam;
use crate::codes::{as_signed, CamOption};
use crate::frame::buffer_size_spec;
use crate::result::{Error, HResult};
use crate::types::{Image, Resolution};

verus! {

/// How far a pull has come.
#[derive(Copy, Clone, PartialEq, Eq, Debug, Structural)]
pub enum PullStage {
    /// The driver was asked for the size of the frame.
    Size,
    /// The raw-capture option is being read.
    Raw { resolution: Resolution },
    /// Raw capture is on, and the RGB48 option is being read.
    Rgb48 { resolution: Resolution },
    /// The options are known, and the driver fills a buffer of `size` bytes.
    Fill { resolution: Resolution, raw_capture: bool, rgb48: bool, size: usize },
    /// The pull has delivered its image or failed.
    Done,
}

/// What the driver answered to the action of a pull.
#[derive(Clone, PartialEq, Eq, Debug)]
pub enum PullReply {
    /// The answer to `PullAction::QuerySize`.
    Size { result: HResult, width: c_uint, height: c_uint },
    /// The answer to `PullAction::ReadOption`.
    Setting { result: HResult, value: c_uint },
    /// The answer to `PullAction::Fill`, with the buffer that was handed out.
    Filled { result: HResult, data: Vec<u8> },
}

/// What the caller of a pull does next.
#[derive(Clone, PartialEq, Eq, Debug)]
pub enum PullAction {
    /// Ask the driver for the width and height of the frame, of the still
    /// image if `still` is set, without a buffer.
    QuerySize { still: bool, bits: c_int },
    /// Read an option of the camera.
    ReadOption(CamOption),
    /// Let the driver write the frame into `buffer`.
    Fill { still: bool, bits: c_int, buffer: Vec<u8> },
    /// The frame is complete.
    Deliver(Image),
    /// The pull has failed.
    Fail(Error),
}

/// A pull in progress.
#[derive(Debug)]
pub struct Pull {
    still: bool,
    bits: u32,
    stage: PullStage,
}

/// `n` zero bytes.
pub open spec fn zeros(n: int) -> Seq<u8> {
    Seq::new(n as nat, |i: int| 0u8)
}

impl PullStage {
    /// The buffer that the driver fills has the size that the frame has, in
    /// a pull at `bits` bits per pixel.
    pub open spec fn wf(self, bits: u32) -> bool {
        self matches PullStage::Fill { resolution, raw_capture, rgb48, size } ==> buffer_size_spec(
            raw_capture,
            rgb48,
            bits,
            resolution.width,
            resolution.height,
        ) == Ok::<usize, Error>(size)
    }

    /// Whether `reply` answers the action that led to this stage. A filled
    /// buffer has the length that was asked for.
    pub open spec fn expects(self, reply: PullReply) -> bool {
        match (self, reply) {
            (PullStage::Size, PullReply::Size { .. }) => true,
            (PullStage::Raw { .. }, PullReply::Setting { .. }) => true,
            (PullStage::Rgb48 { .. }, PullReply::Setting { .. }) => true,
            (PullStage::Fill { size, .. }, PullReply::Filled { data, .. }) => data@.len() == size,
            _ => false,
        }
    }

    /// The stage once the options are known: the driver fills a buffer, if
    /// the frame has a size.
    pub open spec fn sized(
        bits: u32,
        resolution: Resolution,
        raw_capture: bool,
        rgb48: bool,
    ) -> PullStage {
        match buffer_size_spec(raw_capture, rgb48, bits, resolution.width, resolution.height) {
            Ok(size) => PullStage::Fill { resolution, raw_capture, rgb48, size },
            Err(_) => PullStage::Done,
        }
    }

    /// The stage after `reply`, in a pull at `bits` bits per pixel.
    pub open spec fn next(self, bits: u32, reply: PullReply) -> PullStage {
        match (self, reply) {
            (PullStage::Size, PullReply::Size { result, width, height }) => {
                if result.is_success() {
                    PullStage::Raw { resolution: Resolution { width, height } }
                } else {
                    PullStage::Done
                }
            },
            (PullStage::Raw { resolution }, PullReply::Setting { result, value }) => {
                if !result.is_success() {
                    PullStage::Done
                } else if value == 1 {
                    PullStage::Rgb48 { resolution }
                } else {
                    PullStage::sized(bits, resolution, false, false)
                }
            },
            (PullStage::Rgb48 { resolution }, PullReply::Setting { result, value }) => {
                if result.is_success() {
                    PullStage::sized(bits, resolution, true, value == 1)
                } else {
                    PullStage::Done
                }
            },
            _ => PullStage::Done,
        }
    }

    /// Whether `action` is the one that follows once the options are known:
    /// to fill a zeroed buffer of the frame's size, or to fail where the
    /// frame has none.
    pub open spec fn fills(
        still: bool,
        bits: u32,
        resolution: Resolution,
        raw_capture: bool,
        rgb48: bool,
        action: PullAction,
    ) -> bool {
        match buffer_size_spec(raw_capture, rgb48, bits, resolution.width, resolution.height) {
            Ok(size) => action matches PullAction::Fill { still: s, bits: b, buffer } && s == still
                && b == bits as i32 && buffer@ == zeros(size as int),
            Err(e) => action == PullAction::Fail(e),
        }
    }

    /// Whether `action` is the one that follows `reply` at this stage, in a
    /// pull at `bits` bits per pixel.
    pub open spec fn answers(
        self,
        still: bool,
        bits: u32,
        reply: PullReply,
        action: PullAction,
    ) -> bool {
        match (self, reply) {
            (PullStage::Size, PullReply::Size { result, .. }) => {
                if result.is_success() {
                    action == PullAction::ReadOption(CamOption::Raw)
                } else {
                    action == PullAction::Fail(Error::Native(result))
                }
            },
            (PullStage::Raw { resolution }, PullReply::Setting { result, value }) => {
                if !result.is_success() {
                    action == PullAction::Fail(Error::Native(result))
                } else if value == 1 {
                    action == PullAction::ReadOption(CamOption::RGB48)
                } else {
                    PullStage::fills(still, bits, resolution, false, false, action)
                }
            },
            (PullStage::Rgb48 { resolution }, PullReply::Setting { result, value }) => {
                if result.is_success() {
                    PullStage::fills(still, bits, resolution, true, value == 1, action)
                } else {
                    action == PullAction::Fail(Error::Native(result))
                }
            },
            (PullStage::Fill { resolution, .. }, PullReply::Filled { result, data }) => {
                if result.is_success() {
                    action == PullAction::Deliver(Image { resolution, bits, data })
                } else {
                    action == PullAction::Fail(Error::Native(result))
                }
            },
            _ => false,
        }
    }
}

impl Pull {
    /// Whether the frame is a still image.
    pub closed spec fn is_still(&self) -> bool {
        self.still
    }

    /// The bits per pixel that the frame is asked for at.
    pub closed spec fn bits(&self) -> u32 {
        self.bits
    }

    /// How far the pull has come.
    pub closed spec fn stage(&self) -> PullStage {
        self.stage
    }

    #[verifier::type_invariant]
    spec fn fills_the_frame(&self) -> bool {
        self.stage.wf(self.bits)
    }

    /// Begins a pull and gives its first action: to ask for the frame's size.
    fn begin(still: bool, bits: u32) -> (r: (Pull, PullAction))
        ensures
            r.0.is_still() == still,
            r.0.bits() == bits,
            r.0.stage() == PullStage::Size,
            r.1 == (PullAction::QuerySize { still, bits: bits as i32 }),
    {
        let pull = Pull { still, bits, stage: PullStage::Size };
        (pull, PullAction::QuerySize { still, bits: as_signed(bits) })
    }

    /// Whether `reply` answers the action that the pull gave last.
    pub fn expects(&self, reply: &PullReply) -> (expected: bool)
        ensures
            expected == self.stage().expects(*reply),
    {
        match (&self.stage, reply) {
            (PullStage::Size, PullReply::Size { .. }) => true,
            (PullStage::Raw { .. }, PullReply::Setting { .. }) => true,
            (PullStage::Rgb48 { .. }, PullReply::Setting { .. }) => true,
            (PullStage::Fill { size, .. }, PullReply::Filled { data, .. }) => data.len() == *size,
            _ => false,
        }
    }

    /// The step that follows once the options are known.
    fn fill(
        &mut self,
        resolution: Resolution,
        raw_capture: bool,
        rgb48: bool,
    ) -> (action: PullAction)
        ensures
            final(self).is_still() == old(self).is_still(),
            final(self).bits() == old(self).bits(),
            final(self).stage() == PullStage::sized(
                old(self).bits(),
                resolution,
                raw_capture,
                rgb48,
            ),
            PullStage::fills(
                old(self).is_still(),
                old(self).bits(),
                resolution,
                raw_capture,
                rgb48,
                action,
            ),
    {
        let size = Toupcam::buffer_size(
            raw_capture,
            rgb48,
            self.bits,
            resolution.width,
            resolution.height,
        );
        match size {
            Ok(size) => {
                self.stage = PullStage::Fill { resolution, raw_capture, rgb48, size };
                let buffer: Vec<u8> = vec![0u8; size];
                assert(buffer@ =~= zeros(size as int));
                PullAction::Fill { still: self.still, bits: as_signed(self.bits), buffer }
            },
            Err(e) => {
                self.stage = PullStage::Done;
                PullAction::Fail(e)
            },
        }
    }

    /// Takes the driver's answer to the last action and gives the next one.
    ///
    /// A failure of the driver ends the pull with the code it gave. After a
    /// delivery or a failure the pull expects nothing more. The image that is
    /// delivered holds the buffer that the driver filled, which has the size
    /// of the frame under the options that were read.
    pub fn advance(&mut self, reply: PullReply) -> (action: PullAction)
        requires
            old(self).stage().expects(reply),
        ensures
            final(self).is_still() == old(self).is_still(),
            final(self).bits() == old(self).bits(),
            final(self).stage() == old(self).stage().next(old(self).bits(), reply),
            old(self).stage().answers(old(self).is_still(), old(self).bits(), reply, action),
            final(self).stage().wf(final(self).bits()),
            action matches PullAction::Deliver(image) ==> ({
                &&& old(self).stage() matches PullStage::Fill {
                    resolution,
                    raw_capture,
                    rgb48,
                    size,
                }
                &&& image.resolution == resolution
                &&& image.bits == old(self).bits()
                &&& buffer_size_spec(
                    raw_capture,
                    rgb48,
                    image.bits,
                    image.resolution.width,
                    image.resolution.height,
                ) == Ok::<usize, Error>(image.data@.len() as usize)
            }),
    {
        proof {
            use_type_invariant(&*self);
        }
        match reply {
            PullReply::Size { result, width, height } => {
                if result.is_success() {
                    self.stage = PullStage::Raw { resolution: Resolution { width, height } };
                    PullAction::ReadOption(CamOption::Raw)
                } else {
                    self.stage = PullStage::Done;
                    PullAction::Fail(Error::Native(result))
                }
            },
            PullReply::Setting { result, value } => {
                if !result.is_success() {
                    self.stage = PullStage::Done;
                    PullAction::Fail(Error::Native(result))
                } else {
                    match self.stage {
                        PullStage::Raw { resolution } => {
                            if value == 1 {
                                self.stage = PullStage::Rgb48 { resolution };
                                PullAction::ReadOption(CamOption::RGB48)
                            } else {
                                self.fill(resolution, false, false)
                            }
                        },
                        PullStage::Rgb48 { resolution } => self.fill(resolution, true, value == 1),
                        _ => {
                            self.stage = PullStage::Done;
                            PullAction::Fail(Error::Native(result))
                        },
                    }
                }
            },
            PullReply::Filled { result, data } => {
                match self.stage {
                    PullStage::Fill { resolution, .. } => {
                        self.stage = PullStage::Done;
                        if result.is_success() {
                            PullAction::Deliver(Image { resolution, bits: self.bits, data })
                        } else {
                            PullAction::Fail(Error::Native(result))
                        }
                    },
                    _ => {
                        self.stage = PullStage::Done;
                        PullAction::Fail(Error::Native(result))
                    },
                }
            },
        }
    }
}

impl Toupcam {
    /// Begins to pull a live image at `bits` bits per pixel.
    pub fn pull_image(&self, bits: u32) -> (r: (Pull, PullAction))
        ensures
            !r.0.is_still(),
            r.0.bits() == bits,
            r.0.stage() == PullStage::Size,
            r.1 == (PullAction::QuerySize { still: false, bits: bits as i32 }),
    {
        Pull::begin(false, bits)
    }

    /// Begins to pull a still image at `bits` bits per pixel.
    pub fn pull_still_image(&self, bits: u32) -> (r: (Pull, PullAction))
        ensures
            r.0.is_still(),
            r.0.bits() == bits,
            r.0.stage() == PullStage::Size,
            r.1 == (PullAction::QuerySize { still: true, bits: bits as i32 }),
    {
        Pull::begin(true, bits)
    }
}

/// A pull in which every call succeeds comes, after the size and one or two
/// options, to the buffer of the size that the frame has under the options
/// that were read, or ends there if the frame has no size.
pub proof fn lemma_pull_sizes_the_buffer(
    bits: u32,
    width: u32,
    height: u32,
    raw_capture: u32,
    rgb48: u32,
    sized: HResult,
    read_raw: HResult,
    read_rgb48: HResult,
)
    requires
        sized.is_success(),
        read_raw.is_success(),
        read_rgb48.is_success(),
    ensures
        ({
            let resolution = Resolution { width, height };
            let after_size = PullStage::Size.next(
                bits,
                PullReply::Size { result: sized, width, height },
            );
            let after_raw = after_size.next(
                bits,
                PullReply::Setting { result: read_raw, value: raw_capture },
            );
            let after_rgb48 = after_raw.next(
                bits,
                PullReply::Setting { result: read_rgb48, value: rgb48 },
            );
            &&& after_size == PullStage::Raw { resolution }
            &&& raw_capture != 1 ==> after_raw == PullStage::sized(bits, resolution, false, false)
            &&& raw_capture == 1 ==> after_raw == PullStage::Rgb48 { resolution }
            &&& raw_capture == 1 ==> after_rgb48 == PullStage::sized(
                bits,
                resolution,
                true,
                rgb48 == 1,
            )
            &&& PullStage::sized(bits, resolution, raw_capture == 1, rgb48 == 1).wf(bits)
        }),
{
}

} // verus!
