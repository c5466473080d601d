//! Verified core of a binding to the ToupTek camera SDK.
//!
//! The SDK is a native library: it enumerates the connected cameras, opens
//! one, reads and writes its properties, and delivers frames to a capture loop
//! that it notifies of events. This crate makes none of those calls. It holds
//! what surrounds them: the numbers that cross the boundary and the values
//! they stand for, the check of result codes, the reading of text and of the
//! table of cameras, the size of a frame buffer, and the steps of pulling a
//! frame. The caller makes each native call and hands over what came back.
//!
//! Numbers that go to the driver or come from it have the C types of the
//! `libc` crate where the SDK declares them as C integers.

pub mod camera;
pub mod codes;
pub mod enumeration;
pub mod flags;
pub mod frame;
pub mod properties;
pub mod pull;
pub mod resolutions;
pub mod result;
pub mod text;
pub mod types;

pub use camera::{CaptureState, Toupcam, EVENT_QUEUE_CAPACITY};
pub use codes::{as_signed, as_unsigned, CamOption, Event, Flicker, LEDState, Layout, SamplingMode};
pub use enumeration::{InstanceRecord, ModelRecord, MAX_INSTANCES, MAX_RESOLUTIONS};
pub use flags::Flags;
pub use pull::{Pull, PullAction, PullReply, PullStage};
pub use resolutions::ResolutionList;
pub use result::{accept, accept_u32, Error, HResult};
pub use text::unmarshal_string;
pub use types::{
    Format, Image, Instance, LevelRanges, Model, Range, Rect, Resolution, TempTint,
    WhiteBalanceRGB, WhiteBalanceTempTint,
};
