//! The closed sets of numbers that cross the native boundary, each member
//! with the exact value the SDK gives it.

use vstd::prelude::*;

verus! {

/// A notification from the driver.
#[derive(Copy, Clone, PartialEq, Eq, Debug, Structural)]
pub enum Event {
    /// The exposure time changed.
    Exposure,
    /// The white balance changed, in temperature and tint mode.
    TempTint,
    /// Reserved by the SDK.
    Chrome,
    /// A live image arrived and can be pulled.
    Image,
    /// A still image arrived and can be pulled.
    StillImage,
    /// The white balance changed, in RGB gain mode.
    WBGain,
    /// Something went wrong in the driver.
    Error,
    /// The camera was disconnected.
    Disconnected,
}

impl Event {
    pub open spec fn code_spec(self) -> u32 {
        match self {
            Event::Exposure => 0x0001,
            Event::TempTint => 0x0002,
            Event::Chrome => 0x0003,
            Event::Image => 0x0004,
            Event::StillImage => 0x0005,
            Event::WBGain => 0x0006,
            Event::Error => 0x0080,
            Event::Disconnected => 0x0081,
        }
    }

    /// The event that a number stands for, if it stands for one.
    pub open spec fn of_code(code: u32) -> Option<Event> {
        if code == 0x0001 {
            Some(Event::Exposure)
        } else if code == 0x0002 {
            Some(Event::TempTint)
        } else if code == 0x0003 {
            Some(Event::Chrome)
        } else if code == 0x0004 {
            Some(Event::Image)
        } else if code == 0x0005 {
            Some(Event::StillImage)
        } else if code == 0x0006 {
            Some(Event::WBGain)
        } else if code == 0x0080 {
            Some(Event::Error)
        } else if code == 0x0081 {
            Some(Event::Disconnected)
        } else {
            None
        }
    }

    #[verifier::when_used_as_spec(code_spec)]
    pub fn code(self) -> (code: u32)
        ensures
            code == self.code_spec(),
    {
        match self {
            Event::Exposure => 0x0001,
            Event::TempTint => 0x0002,
            Event::Chrome => 0x0003,
            Event::Image => 0x0004,
            Event::StillImage => 0x0005,
            Event::WBGain => 0x0006,
            Event::Error => 0x0080,
            Event::Disconnected => 0x0081,
        }
    }

    pub fn from_code(code: u32) -> (event: Option<Event>)
        ensures
            event == Event::of_code(code),
    {
        if code == 0x0001 {
            Some(Event::Exposure)
        } else if code == 0x0002 {
            Some(Event::TempTint)
        } else if code == 0x0003 {
            Some(Event::Chrome)
        } else if code == 0x0004 {
            Some(Event::Image)
        } else if code == 0x0005 {
            Some(Event::StillImage)
        } else if code == 0x0006 {
            Some(Event::WBGain)
        } else if code == 0x0080 {
            Some(Event::Error)
        } else if code == 0x0081 {
            Some(Event::Disconnected)
        } else {
            None
        }
    }
}

/// Every event is read back from its own code, and a number is read as an
/// event only if it is that event's code.
pub proof fn lemma_event_codes(event: Event, code: u32)
    ensures
        Event::of_code(event.code_spec()) == Some(event),
        Event::of_code(code) matches Some(e) ==> e.code_spec() == code,
{
}

/// A setting of the camera that is read and written as a number.
#[derive(Copy, Clone, PartialEq, Eq, Debug, Structural)]
pub enum CamOption {
    /// Give up when no frame arrives in time.
    NoFrameTimeout,
    /// The priority of the driver's thread.
    ThreadPriority,
    /// Better image quality at more processor load, or the reverse.
    ProcessMode,
    /// Raw capture: the sensor data as it is.
    Raw,
    /// One histogram, or one after another.
    Histogram,
    /// 8 bit or 16 bit depth.
    BitDepth,
    /// The cooling fan.
    Fan,
    /// The cooler.
    Cooler,
    /// Linear tone mapping.
    Linear,
    /// Curved tone mapping.
    Curve,
    /// Continuous or trigger mode.
    Trigger,
    /// 48 bit RGB when the bit depth is above 8.
    RGB48,
}

impl CamOption {
    pub open spec fn code_spec(self) -> u32 {
        match self {
            CamOption::NoFrameTimeout => 0x01,
            CamOption::ThreadPriority => 0x02,
            CamOption::ProcessMode => 0x03,
            CamOption::Raw => 0x04,
            CamOption::Histogram => 0x05,
            CamOption::BitDepth => 0x06,
            CamOption::Fan => 0x07,
            CamOption::Cooler => 0x08,
            CamOption::Linear => 0x09,
            CamOption::Curve => 0x0a,
            CamOption::Trigger => 0x0b,
            CamOption::RGB48 => 0x0c,
        }
    }

    #[verifier::when_used_as_spec(code_spec)]
    pub fn code(self) -> (code: u32)
        ensures
            code == self.code_spec(),
    {
        match self {
            CamOption::NoFrameTimeout => 0x01,
            CamOption::ThreadPriority => 0x02,
            CamOption::ProcessMode => 0x03,
            CamOption::Raw => 0x04,
            CamOption::Histogram => 0x05,
            CamOption::BitDepth => 0x06,
            CamOption::Fan => 0x07,
            CamOption::Cooler => 0x08,
            CamOption::Linear => 0x09,
            CamOption::Curve => 0x0a,
            CamOption::Trigger => 0x0b,
            CamOption::RGB48 => 0x0c,
        }
    }
}

/// Packs four characters into a code, the first in the highest byte.
pub open spec fn fourcc(a: u8, b: u8, c: u8, d: u8) -> u32 {
    ((a as u32) << 24) | ((b as u32) << 16) | ((c as u32) << 8) | (d as u32)
}

/// The arrangement of samples in raw sensor data.
#[derive(Copy, Clone, PartialEq, Eq, Debug, Structural)]
pub enum Layout {
    GBRG,
    RGGB,
    BGGR,
    GRBG,
    YUYV,
    YYYY,
}

impl Layout {
    /// The four characters of the layout's name, packed into a code.
    pub open spec fn code_spec(self) -> u32 {
        match self {
            Layout::GBRG => fourcc(0x47, 0x42, 0x52, 0x47),
            Layout::RGGB => fourcc(0x52, 0x47, 0x47, 0x42),
            Layout::BGGR => fourcc(0x42, 0x47, 0x47, 0x52),
            Layout::GRBG => fourcc(0x47, 0x52, 0x42, 0x47),
            Layout::YUYV => fourcc(0x59, 0x55, 0x59, 0x56),
            Layout::YYYY => fourcc(0x59, 0x59, 0x59, 0x59),
        }
    }

    /// The layout that a number stands for, if it stands for one.
    pub open spec fn of_code(code: u32) -> Option<Layout> {
        if code == Layout::GBRG.code_spec() {
            Some(Layout::GBRG)
        } else if code == Layout::RGGB.code_spec() {
            Some(Layout::RGGB)
        } else if code == Layout::BGGR.code_spec() {
            Some(Layout::BGGR)
        } else if code == Layout::GRBG.code_spec() {
            Some(Layout::GRBG)
        } else if code == Layout::YUYV.code_spec() {
            Some(Layout::YUYV)
        } else if code == Layout::YYYY.code_spec() {
            Some(Layout::YYYY)
        } else {
            None
        }
    }

    #[verifier::when_used_as_spec(code_spec)]
    pub fn code(self) -> (code: u32)
        ensures
            code == self.code_spec(),
    {
        proof {
            lemma_layout_codes();
        }
        match self {
            Layout::GBRG => 0x4742_5247,
            Layout::RGGB => 0x5247_4742,
            Layout::BGGR => 0x4247_4752,
            Layout::GRBG => 0x4752_4247,
            Layout::YUYV => 0x5955_5956,
            Layout::YYYY => 0x5959_5959,
        }
    }

    pub fn from_code(code: u32) -> (layout: Option<Layout>)
        ensures
            layout == Layout::of_code(code),
    {
        proof {
            lemma_layout_codes();
        }
        if code == 0x4742_5247 {
            Some(Layout::GBRG)
        } else if code == 0x5247_4742 {
            Some(Layout::RGGB)
        } else if code == 0x4247_4752 {
            Some(Layout::BGGR)
        } else if code == 0x4752_4247 {
            Some(Layout::GRBG)
        } else if code == 0x5955_5956 {
            Some(Layout::YUYV)
        } else if code == 0x5959_5959 {
            Some(Layout::YYYY)
        } else {
            None
        }
    }
}

/// The six layout codes as numbers.
pub proof fn lemma_layout_codes()
    ensures
        Layout::GBRG.code_spec() == 0x4742_5247,
        Layout::RGGB.code_spec() == 0x5247_4742,
        Layout::BGGR.code_spec() == 0x4247_4752,
        Layout::GRBG.code_spec() == 0x4752_4247,
        Layout::YUYV.code_spec() == 0x5955_5956,
        Layout::YYYY.code_spec() == 0x5959_5959,
{
    assert(fourcc(0x47, 0x42, 0x52, 0x47) == 0x4742_5247) by (bit_vector);
    assert(fourcc(0x52, 0x47, 0x47, 0x42) == 0x5247_4742) by (bit_vector);
    assert(fourcc(0x42, 0x47, 0x47, 0x52) == 0x4247_4752) by (bit_vector);
    assert(fourcc(0x47, 0x52, 0x42, 0x47) == 0x4752_4247) by (bit_vector);
    assert(fourcc(0x59, 0x55, 0x59, 0x56) == 0x5955_5956) by (bit_vector);
    assert(fourcc(0x59, 0x59, 0x59, 0x59) == 0x5959_5959) by (bit_vector);
}

/// Every layout is read back from its own code, and a number is read as a
/// layout only if it is that layout's code.
pub proof fn lemma_layout_round_trip(layout: Layout, code: u32)
    ensures
        Layout::of_code(layout.code_spec()) == Some(layout),
        Layout::of_code(code) matches Some(l) ==> l.code_spec() == code,
{
    lemma_layout_codes();
}

/// The mains frequency that exposure is synchronised with.
#[derive(Copy, Clone, PartialEq, Eq, Debug, Structural)]
pub enum Flicker {
    AC60Hz,
    AC50Hz,
    DC,
}

impl Flicker {
    pub open spec fn code_spec(self) -> i32 {
        match self {
            Flicker::AC60Hz => 0,
            Flicker::AC50Hz => 1,
            Flicker::DC => 2,
        }
    }

    /// The setting that a number stands for, if it stands for one.
    pub open spec fn of_code(code: i32) -> Option<Flicker> {
        if code == 0 {
            Some(Flicker::AC60Hz)
        } else if code == 1 {
            Some(Flicker::AC50Hz)
        } else if code == 2 {
            Some(Flicker::DC)
        } else {
            None
        }
    }

    #[verifier::when_used_as_spec(code_spec)]
    pub fn code(self) -> (code: i32)
        ensures
            code == self.code_spec(),
    {
        match self {
            Flicker::AC60Hz => 0,
            Flicker::AC50Hz => 1,
            Flicker::DC => 2,
        }
    }

    pub fn from_code(code: i32) -> (flicker: Option<Flicker>)
        ensures
            flicker == Flicker::of_code(code),
    {
        if code == 0 {
            Some(Flicker::AC60Hz)
        } else if code == 1 {
            Some(Flicker::AC50Hz)
        } else if code == 2 {
            Some(Flicker::DC)
        } else {
            None
        }
    }
}

/// How the sensor lowers its resolution.
#[derive(Copy, Clone, PartialEq, Eq, Debug, Structural)]
pub enum SamplingMode {
    Bin,
    Skip,
}

impl SamplingMode {
    pub open spec fn code_spec(self) -> i32 {
        match self {
            SamplingMode::Bin => 0,
            SamplingMode::Skip => 1,
        }
    }

    /// The mode that a number stands for, if it stands for one.
    pub open spec fn of_code(code: i32) -> Option<SamplingMode> {
        if code == 0 {
            Some(SamplingMode::Bin)
        } else if code == 1 {
            Some(SamplingMode::Skip)
        } else {
            None
        }
    }

    #[verifier::when_used_as_spec(code_spec)]
    pub fn code(self) -> (code: i32)
        ensures
            code == self.code_spec(),
    {
        match self {
            SamplingMode::Bin => 0,
            SamplingMode::Skip => 1,
        }
    }

    pub fn from_code(code: i32) -> (mode: Option<SamplingMode>)
        ensures
            mode == SamplingMode::of_code(code),
    {
        if code == 0 {
            Some(SamplingMode::Bin)
        } else if code == 1 {
            Some(SamplingMode::Skip)
        } else {
            None
        }
    }
}

/// What a status light does.
#[derive(Copy, Clone, PartialEq, Eq, Debug, Structural)]
pub enum LEDState {
    Off,
    On,
    Flashing,
}

impl LEDState {
    pub open spec fn code_spec(self) -> u16 {
        match self {
            LEDState::Off => 0,
            LEDState::On => 1,
            LEDState::Flashing => 2,
        }
    }

    #[verifier::when_used_as_spec(code_spec)]
    pub fn code(self) -> (code: u16)
        ensures
            code == self.code_spec(),
    {
        match self {
            LEDState::Off => 0,
            LEDState::On => 1,
            LEDState::Flashing => 2,
        }
    }
}

/// Every flicker setting and every sampling mode is read back from its own
/// code, and a number is read as one only if it is its code.
pub proof fn lemma_setting_codes(flicker: Flicker, mode: SamplingMode, code: i32)
    ensures
        Flicker::of_code(flicker.code_spec()) == Some(flicker),
        Flicker::of_code(code) matches Some(f) ==> f.code_spec() == code,
        SamplingMode::of_code(mode.code_spec()) == Some(mode),
        SamplingMode::of_code(code) matches Some(m) ==> m.code_spec() == code,
{
}

/// The 32 bits of an unsigned number, read as a signed one.
pub fn as_signed(value: u32) -> (signed: i32)
    ensures
        signed == value as i32,
{
    #[verifier::truncate]
    (value as i32)
}

/// The 32 bits of a signed number, read as an unsigned one.
pub fn as_unsigned(value: i32) -> (unsigned: u32)
    ensures
        unsigned == value as u32,
{
    #[verifier::truncate]
    (value as u32)
}

/// Reading a number's bits the other way and back gives the number.
pub proof fn lemma_sign_round_trip(unsigned: u32, signed: i32)
    ensures
        (unsigned as i32) as u32 == unsigned,
        (signed as u32) as i32 == signed,
{
    assert((unsigned as i32) as u32 == unsigned) by (bit_vector);
    assert((signed as u32) as i32 == signed) by (bit_vector);
}

} // verus!
