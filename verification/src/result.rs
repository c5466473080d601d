//! Native result codes and the errors of this library.

use vstd::prelude::*;
use crate::types::Resolution;

verus! {

/// A result code handed back by a native entry point.
///
/// The seven named codes are the ones the SDK documents; any other number is
/// carried in `Other`, which never holds one of the seven.
#[allow(non_camel_case_types)]
#[derive(Copy, Clone, PartialEq, Eq, Debug, Structural)]
pub enum HResult {
    /// `0x00000000`: operation successful.
    S_OK,
    /// `0x00000001`: operation successful, with a secondary outcome.
    S_FALSE,
    /// `0x80004005`: unspecified failure.
    E_FAIL,
    /// `0x80070057`: one or more arguments are not valid.
    E_INVALIDARG,
    /// `0x80004001`: not supported or not implemented.
    E_NOTIMPL,
    /// `0x80004003`: pointer that is not valid.
    E_POINTER,
    /// `0x8000FFFF`: unexpected failure.
    E_UNEXPECTED,
    /// Any code that the SDK does not document.
    Other(i32),
}

impl HResult {
    /// The number that crosses the native boundary for this code.
    pub open spec fn code_spec(self) -> i32 {
        match self {
            HResult::S_OK => 0i32,
            HResult::S_FALSE => 1i32,
            HResult::E_FAIL => -2147467259i32,
            HResult::E_INVALIDARG => -2147024809i32,
            HResult::E_NOTIMPL => -2147467263i32,
            HResult::E_POINTER => -2147467261i32,
            HResult::E_UNEXPECTED => -2147418113i32,
            HResult::Other(code) => code,
        }
    }

    /// The code that a number stands for.
    pub open spec fn of_code(code: i32) -> HResult {
        if code == 0 {
            HResult::S_OK
        } else if code == 1 {
            HResult::S_FALSE
        } else if code == -2147467259 {
            HResult::E_FAIL
        } else if code == -2147024809 {
            HResult::E_INVALIDARG
        } else if code == -2147467263 {
            HResult::E_NOTIMPL
        } else if code == -2147467261 {
            HResult::E_POINTER
        } else if code == -2147418113 {
            HResult::E_UNEXPECTED
        } else {
            HResult::Other(code)
        }
    }

    /// `Other` is used only for numbers that have no name.
    pub open spec fn wf(self) -> bool {
        self matches HResult::Other(code) ==> HResult::of_code(code) == self
    }

    /// The two codes that count as success.
    pub open spec fn is_success_spec(self) -> bool {
        self.code_spec() == 0 || self.code_spec() == 1
    }

    /// The number that crosses the native boundary for this code.
    #[verifier::when_used_as_spec(code_spec)]
    pub fn code(self) -> (code: i32)
        ensures
            code == self.code_spec(),
    {
        match self {
            HResult::S_OK => 0i32,
            HResult::S_FALSE => 1i32,
            HResult::E_FAIL => -2147467259i32,
            HResult::E_INVALIDARG => -2147024809i32,
            HResult::E_NOTIMPL => -2147467263i32,
            HResult::E_POINTER => -2147467261i32,
            HResult::E_UNEXPECTED => -2147418113i32,
            HResult::Other(code) => code,
        }
    }

    /// The code that a number stands for: its name, or `Other` if it has none.
    pub fn from_code(code: i32) -> (result: HResult)
        ensures
            result == HResult::of_code(code),
            result.wf(),
            result.code_spec() == code,
    {
        if code == 0 {
            HResult::S_OK
        } else if code == 1 {
            HResult::S_FALSE
        } else if code == -2147467259 {
            HResult::E_FAIL
        } else if code == -2147024809 {
            HResult::E_INVALIDARG
        } else if code == -2147467263 {
            HResult::E_NOTIMPL
        } else if code == -2147467261 {
            HResult::E_POINTER
        } else if code == -2147418113 {
            HResult::E_UNEXPECTED
        } else {
            HResult::Other(code)
        }
    }

    /// Whether the code is one of the two that count as success.
    #[verifier::when_used_as_spec(is_success_spec)]
    pub fn is_success(self) -> (ok: bool)
        ensures
            ok == self.is_success_spec(),
    {
        let code: i32 = self.code();
        code == 0 || code == 1
    }
}

/// Every number is the code of the result it stands for, and every result
/// that `from_code` can give is read back from its own code.
pub proof fn lemma_result_codes(code: i32, result: HResult)
    ensures
        HResult::of_code(code).code_spec() == code,
        HResult::of_code(code).wf(),
        result.wf() ==> HResult::of_code(result.code_spec()) == result,
        HResult::of_code(code).is_success() <==> (code == 0 || code == 1),
{
}

/// The five failure codes are the signed reading of the 32-bit patterns that
/// the SDK documents.
pub proof fn lemma_failure_code_bits()
    ensures
        HResult::E_FAIL.code_spec() == 0x8000_4005u32 as i32,
        HResult::E_INVALIDARG.code_spec() == 0x8007_0057u32 as i32,
        HResult::E_NOTIMPL.code_spec() == 0x8000_4001u32 as i32,
        HResult::E_POINTER.code_spec() == 0x8000_4003u32 as i32,
        HResult::E_UNEXPECTED.code_spec() == 0x8000_ffffu32 as i32,
{
    assert(-2147467259i32 == 0x8000_4005u32 as i32) by (bit_vector);
    assert(-2147024809i32 == 0x8007_0057u32 as i32) by (bit_vector);
    assert(-2147467263i32 == 0x8000_4001u32 as i32) by (bit_vector);
    assert(-2147467261i32 == 0x8000_4003u32 as i32) by (bit_vector);
    assert(-2147418113i32 == 0x8000_ffffu32 as i32) by (bit_vector);
}

/// Why an operation of this library failed.
#[derive(Clone, PartialEq, Eq, Debug)]
pub enum Error {
    /// A native entry point handed back a code other than the two success codes.
    Native(HResult),
    /// No camera answered to the identifier given to `open` (`None`: no camera at all).
    DeviceNotFound(Option<String>),
    /// A text buffer filled by the driver does not hold valid UTF-8.
    Decode,
    /// The frame buffer size is not defined for this bit depth.
    UnsupportedBits(u32),
    /// The frame buffer would be larger than this machine can address.
    FrameTooLarge,
    /// The resolution is not one of the camera's still resolutions.
    UnknownResolution(Resolution),
    /// The driver handed back a number outside the closed set it should come from.
    Unrecognized(i64),
}

/// What `accept` makes of a result code.
pub open spec fn accept_spec(result: HResult) -> Result<(), Error> {
    if result.is_success() {
        Ok(())
    } else {
        Err(Error::Native(result))
    }
}

/// What `accept_u32` makes of a result code.
pub open spec fn accept_u32_spec(result: HResult) -> Result<u32, Error> {
    if result.is_success() {
        Ok(result.code_spec() as u32)
    } else {
        Err(Error::Native(result))
    }
}

/// Accepts the two success codes and turns every other code into an error that
/// carries it.
pub fn accept(result: HResult) -> (r: Result<(), Error>)
    ensures
        r == accept_spec(result),
        result.is_success() ==> r == Ok::<(), Error>(()),
        !result.is_success() ==> r == Err::<(), Error>(Error::Native(result)),
{
    if result.is_success() {
        Ok(())
    } else {
        Err(Error::Native(result))
    }
}

/// Accepts a result code as `accept` does and reads it as the unsigned number
/// that some entry points pack into it.
pub fn accept_u32(result: HResult) -> (r: Result<u32, Error>)
    ensures
        r == accept_u32_spec(result),
        result.is_success() ==> r == Ok::<u32, Error>(result.code_spec() as u32),
        !result.is_success() ==> r == Err::<u32, Error>(Error::Native(result)),
{
    if result.is_success() {
        Ok(result.code() as u32)
    } else {
        Err(Error::Native(result))
    }
}

} // verus!
