//! The properties of an open camera.
//!
//! A property is read by one native call and written by another. To read one,
//! the caller makes the call and hands its result code and the values it
//! wrote to the method of the property's name, which checks the code and
//! gives the values their type. To write one, the caller asks the method for
//! the arguments of the call, makes the call and hands its result code to
//! `accept`.

use vstd::prelude::*;
use vstd::utf8::{decode_utf8, valid_utf8};
use libc::{c_int, c_uint, c_ushort};
use crate::camera::Toupcam;
use crate::codes::{as_signed, as_unsigned, Flicker, LEDState, Layout, SamplingMode};
use crate::result::{accept, accept_u32, accept_u32_spec, Error, HResult};
use crate::text::{text_bytes, unmarshal_string};
use crate::types::{Format, LevelRanges, Range, Rect, WhiteBalanceRGB, WhiteBalanceTempTint};

verus! {

/// What reading a text property gives: the failure of the call, or else the
/// text in the buffer it filled.
pub open spec fn text_reply(result: HResult, buf: Seq<u8>, r: Result<String, Error>) -> bool {
    if !result.is_success() {
        r == Err::<String, Error>(Error::Native(result))
    } else if valid_utf8(text_bytes(buf)) {
        r matches Ok(text) && text@ == decode_utf8(text_bytes(buf))
    } else {
        r == Err::<String, Error>(Error::Decode)
    }
}

/// The number that stands for on, 1, or off, 0, in a property.
pub open spec fn bool_to_native(value: bool) -> i32 {
    if value {
        1i32
    } else {
        0i32
    }
}

/// Whether a number read from a property stands for on: only 1 does.
pub open spec fn bool_from_native(value: i32) -> bool {
    value == 1
}

/// The number that stands for on, 1, or off, 0, in an option.
pub open spec fn option_to_native(value: bool) -> u32 {
    if value {
        1u32
    } else {
        0u32
    }
}

/// Whether a number read from an option stands for on: only 1 does.
pub open spec fn option_from_native(value: u32) -> bool {
    value == 1
}

impl Rect {
    /// The right bound is not left of the left one, nor the bottom above the top.
    pub open spec fn wf(&self) -> bool {
        self.left <= self.right && self.top <= self.bottom
    }

    /// Tests whether the bounds are in order.
    pub fn is_well_formed(&self) -> (ok: bool)
        ensures
            ok == self.wf(),
    {
        self.left <= self.right && self.top <= self.bottom
    }

    /// The rectangle with a corner at (`left`, `top`) and the given size.
    pub open spec fn from_origin_and_size(left: u32, top: u32, width: u32, height: u32) -> Rect {
        Rect { left, top, right: (left + width) as u32, bottom: (top + height) as u32 }
    }

    /// The corner and the size of the rectangle: left, top, width, height.
    pub open spec fn origin_and_size(&self) -> (u32, u32, u32, u32) {
        (self.left, self.top, (self.right - self.left) as u32, (self.bottom - self.top) as u32)
    }
}

impl WhiteBalanceTempTint {
    /// The temperature and the tint as the signed numbers that the driver takes.
    pub open spec fn to_native(&self) -> (i32, i32) {
        (self.temperature as i32, self.tint as i32)
    }

    /// The value that the driver's two signed numbers stand for.
    pub open spec fn from_native(temperature: i32, tint: i32) -> WhiteBalanceTempTint {
        WhiteBalanceTempTint { temperature: temperature as u32, tint: tint as u32 }
    }
}

impl WhiteBalanceRGB {
    /// The gains in the driver's order: red, green, blue.
    pub open spec fn to_native(&self) -> Seq<i32> {
        seq![self.red, self.green, self.blue]
    }

    /// The value that three gains in the driver's order stand for.
    pub open spec fn from_native(gains: Seq<i32>) -> WhiteBalanceRGB {
        WhiteBalanceRGB { red: gains[0], green: gains[1], blue: gains[2] }
    }
}

impl LevelRanges {
    /// The low levels in the driver's order: red, green, blue, gray.
    pub open spec fn lows(&self) -> Seq<u16> {
        seq![self.red.0, self.green.0, self.blue.0, self.gray.0]
    }

    /// The high levels in the driver's order: red, green, blue, gray.
    pub open spec fn highs(&self) -> Seq<u16> {
        seq![self.red.1, self.green.1, self.blue.1, self.gray.1]
    }

    /// The value that four low and four high levels in the driver's order
    /// stand for.
    pub open spec fn from_native(low: Seq<u16>, high: Seq<u16>) -> LevelRanges {
        LevelRanges {
            red: (low[0], high[0]),
            green: (low[1], high[1]),
            blue: (low[2], high[2]),
            gray: (low[3], high[3]),
        }
    }
}

impl Toupcam {
    /// Checks the result code of a read and hands on the value that was read.
    pub fn property<T>(&self, result: HResult, value: T) -> (r: Result<T, Error>)
        ensures
            result.is_success() ==> r == Ok::<T, Error>(value),
            !result.is_success() ==> r == Err::<T, Error>(Error::Native(result)),
    {
        accept(result)?;
        Ok(value)
    }

    /// Reads a property that is on or off: it is on when the driver wrote 1.
    pub fn bool_property(&self, result: HResult, value: c_int) -> (r: Result<bool, Error>)
        ensures
            result.is_success() ==> r == Ok::<bool, Error>(bool_from_native(value)),
            !result.is_success() ==> r == Err::<bool, Error>(Error::Native(result)),
    {
        accept(result)?;
        Ok(value == 1)
    }

    /// The number to write for a property that is on or off: 1 for on, 0 for off.
    pub fn set_bool_property(&self, value: bool) -> (native: c_int)
        ensures
            native == bool_to_native(value),
    {
        if value {
            1
        } else {
            0
        }
    }

    /// Reads an option that is on or off: it is on when the driver wrote 1.
    pub fn bool_option(&self, result: HResult, value: c_uint) -> (r: Result<bool, Error>)
        ensures
            result.is_success() ==> r == Ok::<bool, Error>(option_from_native(value)),
            !result.is_success() ==> r == Err::<bool, Error>(Error::Native(result)),
    {
        accept(result)?;
        Ok(value == 1)
    }

    /// The number to write for an option that is on or off: 1 for on, 0 for off.
    pub fn set_bool_option(&self, value: bool) -> (native: c_uint)
        ensures
            native == option_to_native(value),
    {
        if value {
            1
        } else {
            0
        }
    }

    /// Checks the result code of a read of a text and decodes the buffer.
    fn text(&self, result: HResult, buf: &[u8]) -> (r: Result<String, Error>)
        ensures
            text_reply(result, buf@, r),
    {
        accept(result)?;
        unmarshal_string(buf)
    }

    /// The serial number, from the 32 bytes that the driver filled.
    pub fn serial_number(&self, result: HResult, buf: &[u8; 32]) -> (r: Result<String, Error>)
        ensures
            text_reply(result, buf@, r),
    {
        self.text(result, buf.as_slice())
    }

    /// The production date, from the 10 bytes that the driver filled.
    pub fn production_date(&self, result: HResult, buf: &[u8; 10]) -> (r: Result<String, Error>)
        ensures
            text_reply(result, buf@, r),
    {
        self.text(result, buf.as_slice())
    }

    /// The firmware version, from the 16 bytes that the driver filled.
    pub fn firmware_version(&self, result: HResult, buf: &[u8; 16]) -> (r: Result<String, Error>)
        ensures
            text_reply(result, buf@, r),
    {
        self.text(result, buf.as_slice())
    }

    /// The hardware version, from the 16 bytes that the driver filled.
    pub fn hardware_version(&self, result: HResult, buf: &[u8; 16]) -> (r: Result<String, Error>)
        ensures
            text_reply(result, buf@, r),
    {
        self.text(result, buf.as_slice())
    }

    /// The number to hand to the driver to pause, 1, or to resume, 0.
    pub fn pause(&self, do_pause: bool) -> (native: c_int)
        ensures
            native == bool_to_native(do_pause),
    {
        if do_pause {
            1
        } else {
            0
        }
    }

    /// The maximum bit depth, which the driver packs into its result code.
    pub fn maximum_bit_depth(&self, result: HResult) -> (r: Result<u32, Error>)
        ensures
            r == accept_u32_spec(result),
    {
        accept_u32(result)
    }

    /// The maximum speed level, which the driver packs into its result code.
    pub fn maximum_speed(&self, result: HResult) -> (r: Result<u32, Error>)
        ensures
            r == accept_u32_spec(result),
    {
        accept_u32(result)
    }

    /// The format of raw data, from the layout code and the bit depth that the
    /// driver wrote.
    ///
    /// Fails with `Error::Unrecognized` when the call succeeded and the code
    /// is that of no layout.
    pub fn raw_format(
        &self,
        result: HResult,
        fourcc: u32,
        bit_depth: c_uint,
    ) -> (r: Result<Format, Error>)
        ensures
            !result.is_success() ==> r == Err::<Format, Error>(Error::Native(result)),
            result.is_success() ==> r == (match Layout::of_code(fourcc) {
                Some(layout) => Ok::<Format, Error>(Format { fourcc: layout, bit_depth }),
                None => Err::<Format, Error>(Error::Unrecognized(fourcc as i64)),
            }),
    {
        accept(result)?;
        match Layout::from_code(fourcc) {
            Some(layout) => Ok(Format { fourcc: layout, bit_depth }),
            None => Err(Error::Unrecognized(fourcc as i64)),
        }
    }

    /// The region of interest, from the corner and the size that the driver
    /// wrote.
    pub fn rectangle_of_interest(
        &self,
        result: HResult,
        left: c_uint,
        top: c_uint,
        width: c_uint,
        height: c_uint,
    ) -> (r: Result<Rect, Error>)
        requires
            result.is_success() ==> left + width <= u32::MAX && top + height <= u32::MAX,
        ensures
            !result.is_success() ==> r == Err::<Rect, Error>(Error::Native(result)),
            result.is_success() ==> r == Ok::<Rect, Error>(
                Rect::from_origin_and_size(left, top, width, height),
            ),
            r matches Ok(rect) ==> (rect.wf() && rect.origin_and_size() == (
                left,
                top,
                width,
                height,
            )),
    {
        accept(result)?;
        Ok(Rect { left, top, right: left + width, bottom: top + height })
    }

    /// The corner and the size to hand to the driver for a region of
    /// interest: left, top, width, height.
    pub fn set_rectangle_of_interest(&self, value: Rect) -> (native: (c_uint, c_uint, c_uint, c_uint))
        requires
            value.wf(),
        ensures
            native == value.origin_and_size(),
            native.0 + native.2 == value.right,
            native.1 + native.3 == value.bottom,
    {
        (value.left, value.top, value.right - value.left, value.bottom - value.top)
    }

    /// The range of the exposure time, in microseconds, from the three
    /// numbers that the driver wrote.
    pub fn exposure_time_range(
        &self,
        result: HResult,
        minimum: c_uint,
        maximum: c_uint,
        default: c_uint,
    ) -> (r: Result<Range<u32>, Error>)
        ensures
            result.is_success() ==> r == Ok::<Range<u32>, Error>(
                Range { minimum, maximum, default },
            ),
            !result.is_success() ==> r == Err::<Range<u32>, Error>(Error::Native(result)),
    {
        accept(result)?;
        Ok(Range { minimum, maximum, default })
    }

    /// The range of the exposure gain, in percent, from the three numbers
    /// that the driver wrote.
    pub fn exposure_gain_range(
        &self,
        result: HResult,
        minimum: c_ushort,
        maximum: c_ushort,
        default: c_ushort,
    ) -> (r: Result<Range<u16>, Error>)
        ensures
            result.is_success() ==> r == Ok::<Range<u16>, Error>(
                Range { minimum, maximum, default },
            ),
            !result.is_success() ==> r == Err::<Range<u16>, Error>(Error::Native(result)),
    {
        accept(result)?;
        Ok(Range { minimum, maximum, default })
    }

    /// The flicker compensation, from the number that the driver wrote.
    ///
    /// Fails with `Error::Unrecognized` when the call succeeded and the
    /// number stands for no setting.
    pub fn flicker_compensation(&self, result: HResult, code: c_int) -> (r: Result<Flicker, Error>)
        ensures
            !result.is_success() ==> r == Err::<Flicker, Error>(Error::Native(result)),
            result.is_success() ==> r == (match Flicker::of_code(code) {
                Some(flicker) => Ok::<Flicker, Error>(flicker),
                None => Err::<Flicker, Error>(Error::Unrecognized(code as i64)),
            }),
    {
        accept(result)?;
        match Flicker::from_code(code) {
            Some(flicker) => Ok(flicker),
            None => Err(Error::Unrecognized(code as i64)),
        }
    }

    /// The number to hand to the driver for a flicker compensation.
    pub fn set_flicker_compensation(&self, value: Flicker) -> (native: c_int)
        ensures
            native == value.code_spec(),
    {
        value.code()
    }

    /// The sampling mode, from the number that the driver wrote.
    ///
    /// Fails with `Error::Unrecognized` when the call succeeded and the
    /// number stands for no mode.
    pub fn sampling_mode(&self, result: HResult, code: c_int) -> (r: Result<SamplingMode, Error>)
        ensures
            !result.is_success() ==> r == Err::<SamplingMode, Error>(Error::Native(result)),
            result.is_success() ==> r == (match SamplingMode::of_code(code) {
                Some(mode) => Ok::<SamplingMode, Error>(mode),
                None => Err::<SamplingMode, Error>(Error::Unrecognized(code as i64)),
            }),
    {
        accept(result)?;
        match SamplingMode::from_code(code) {
            Some(mode) => Ok(mode),
            None => Err(Error::Unrecognized(code as i64)),
        }
    }

    /// The number to hand to the driver for a sampling mode.
    pub fn set_sampling_mode(&self, value: SamplingMode) -> (native: c_int)
        ensures
            native == value.code_spec(),
    {
        value.code()
    }

    /// The white balance, from the signed temperature and tint that the
    /// driver wrote.
    pub fn white_balance_temp_tint(
        &self,
        result: HResult,
        temperature: c_int,
        tint: c_int,
    ) -> (r: Result<WhiteBalanceTempTint, Error>)
        ensures
            result.is_success() ==> r == Ok::<WhiteBalanceTempTint, Error>(
                WhiteBalanceTempTint::from_native(temperature, tint),
            ),
            !result.is_success() ==> r == Err::<WhiteBalanceTempTint, Error>(
                Error::Native(result),
            ),
    {
        accept(result)?;
        Ok(
            WhiteBalanceTempTint {
                temperature: as_unsigned(temperature),
                tint: as_unsigned(tint),
            },
        )
    }

    /// The signed temperature and tint to hand to the driver.
    pub fn set_white_balance_temp_tint(&self, value: WhiteBalanceTempTint) -> (native: (c_int, c_int))
        ensures
            native == value.to_native(),
    {
        (as_signed(value.temperature), as_signed(value.tint))
    }

    /// The white balance gains, from the three numbers that the driver wrote.
    pub fn white_balance_rgb(
        &self,
        result: HResult,
        gains: [c_int; 3],
    ) -> (r: Result<WhiteBalanceRGB, Error>)
        ensures
            result.is_success() ==> r == Ok::<WhiteBalanceRGB, Error>(
                WhiteBalanceRGB::from_native(gains@),
            ),
            !result.is_success() ==> r == Err::<WhiteBalanceRGB, Error>(Error::Native(result)),
    {
        accept(result)?;
        Ok(WhiteBalanceRGB { red: gains[0], green: gains[1], blue: gains[2] })
    }

    /// The three gains to hand to the driver.
    pub fn set_white_balance_rgb(&self, value: WhiteBalanceRGB) -> (native: [c_int; 3])
        ensures
            native@ == value.to_native(),
    {
        let native = [value.red, value.green, value.blue];
        assert(native@ =~= value.to_native());
        native
    }

    /// The level ranges, from the four low and four high levels that the
    /// driver wrote.
    pub fn level_ranges(
        &self,
        result: HResult,
        low: [c_ushort; 4],
        high: [c_ushort; 4],
    ) -> (r: Result<LevelRanges, Error>)
        ensures
            result.is_success() ==> r == Ok::<LevelRanges, Error>(
                LevelRanges::from_native(low@, high@),
            ),
            !result.is_success() ==> r == Err::<LevelRanges, Error>(Error::Native(result)),
    {
        accept(result)?;
        Ok(
            LevelRanges {
                red: (low[0], high[0]),
                green: (low[1], high[1]),
                blue: (low[2], high[2]),
                gray: (low[3], high[3]),
            },
        )
    }

    /// The four low and four high levels to hand to the driver.
    pub fn set_level_ranges(&self, value: LevelRanges) -> (native: ([c_ushort; 4], [c_ushort; 4]))
        ensures
            native.0@ == value.lows(),
            native.1@ == value.highs(),
    {
        let low = [value.red.0, value.green.0, value.blue.0, value.gray.0];
        let high = [value.red.1, value.green.1, value.blue.1, value.gray.1];
        assert(low@ =~= value.lows());
        assert(high@ =~= value.highs());
        (low, high)
    }

    /// The three numbers to hand to the driver for a status light: which
    /// light, what it does, and the period of its flashing.
    pub fn set_led_state(
        &self,
        led_number: u16,
        state: LEDState,
        period: u16,
    ) -> (native: (c_ushort, c_ushort, c_ushort))
        ensures
            native == (led_number, state.code_spec(), period),
    {
        (led_number, state.code(), period)
    }
}

/// A switch that is written and read back as the number that was written has
/// the value that was set.
pub proof fn lemma_switch_round_trip(value: bool)
    ensures
        bool_from_native(bool_to_native(value)) == value,
        option_from_native(option_to_native(value)) == value,
{
}

/// A region of interest that is written and read back as the corner and size
/// that were written is the region that was set, and a corner and size that
/// are read and written back are the ones that were read.
pub proof fn lemma_rect_round_trip(rect: Rect, left: u32, top: u32, width: u32, height: u32)
    ensures
        rect.wf() ==> ({
            let (l, t, w, h) = rect.origin_and_size();
            Rect::from_origin_and_size(l, t, w, h) == rect
        }),
        left + width <= u32::MAX && top + height <= u32::MAX ==> ({
            let rect = Rect::from_origin_and_size(left, top, width, height);
            rect.wf() && rect.origin_and_size() == (left, top, width, height)
        }),
{
}

/// A white balance or a level range that is written and read back as the
/// numbers that were written is the value that was set.
pub proof fn lemma_balance_round_trip(
    temp_tint: WhiteBalanceTempTint,
    rgb: WhiteBalanceRGB,
    levels: LevelRanges,
)
    ensures
        ({
            let (temperature, tint) = temp_tint.to_native();
            WhiteBalanceTempTint::from_native(temperature, tint) == temp_tint
        }),
        WhiteBalanceRGB::from_native(rgb.to_native()) == rgb,
        LevelRanges::from_native(levels.lows(), levels.highs()) == levels,
{
    let t: u32 = temp_tint.temperature;
    let u: u32 = temp_tint.tint;
    assert((t as i32) as u32 == t) by (bit_vector);
    assert((u as i32) as u32 == u) by (bit_vector);
}

} // verus!
