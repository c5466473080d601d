//! The resolutions of an open camera, and still capture at one of them.
//!
//! The driver gives the number of resolutions in one call and each
//! resolution in a call of its own. A `ResolutionList` says which one to ask
//! for next and collects the answers in the driver's order.

use vstd::prelude::*;
use libc::{c_int, c_uint};
use crate::camera::Toupcam;
use crate::codes::{as_signed, as_unsigned};
use crate::result::{accept, accept_u32, Error, HResult};
use crate::types::Resolution;

verus! {

impl Resolution {
    /// The resolution that the driver's signed width and height stand for.
    pub open spec fn from_native(width: i32, height: i32) -> Resolution {
        Resolution { width: width as u32, height: height as u32 }
    }

    /// The width and the height as the signed numbers that the driver takes.
    pub open spec fn to_native(&self) -> (i32, i32) {
        (self.width as i32, self.height as i32)
    }
}

/// A list of resolutions that is being read from the driver.
#[derive(Debug)]
pub struct ResolutionList {
    total: u32,
    found: Vec<Resolution>,
}

impl ResolutionList {
    /// The number of resolutions that the driver said it has.
    pub closed spec fn total(&self) -> u32 {
        self.total
    }

    /// The resolutions read so far.
    pub closed spec fn found(&self) -> Seq<Resolution> {
        self.found@
    }

    /// Begins a list from the driver's answer to the request for the number
    /// of resolutions, which it packs into its result code.
    fn begin(number: HResult) -> (r: Result<ResolutionList, Error>)
        ensures
            number.is_success() ==> (r matches Ok(list) && list.total() == number.code_spec() as u32
                && list.found() == Seq::<Resolution>::empty()),
            !number.is_success() ==> (r matches Err(e) && e == Error::Native(number)),
    {
        let total = accept_u32(number)?;
        Ok(ResolutionList { total, found: Vec::new() })
    }

    /// The index of the resolution to ask the driver for next, or `None`
    /// when all have been read.
    pub fn next_index(&self) -> (index: Option<c_uint>)
        ensures
            index == (if self.found().len() < self.total() {
                Some(self.found().len() as u32)
            } else {
                None
            }),
    {
        if self.found.len() < self.total as usize {
            Some(self.found.len() as u32)
        } else {
            None
        }
    }

    /// Takes the driver's answer for the resolution at `next_index`.
    ///
    /// On success the resolution joins the list; on failure the list is as
    /// it was.
    pub fn push(&mut self, result: HResult, width: c_int, height: c_int) -> (r: Result<(), Error>)
        requires
            old(self).found().len() < old(self).total(),
        ensures
            final(self).total() == old(self).total(),
            result.is_success() ==> ({
                &&& r == Ok::<(), Error>(())
                &&& final(self).found() == old(self).found().push(
                    Resolution::from_native(width, height),
                )
            }),
            !result.is_success() ==> ({
                &&& r == Err::<(), Error>(Error::Native(result))
                &&& final(self).found() == old(self).found()
            }),
    {
        accept(result)?;
        self.found.push(Resolution { width: as_unsigned(width), height: as_unsigned(height) });
        Ok(())
    }

    /// The complete list, in the driver's order.
    pub fn finish(self) -> (list: Vec<Resolution>)
        requires
            self.found().len() == self.total(),
        ensures
            list@ == self.found(),
            list@.len() == self.total(),
    {
        self.found
    }
}

/// Whether no entry of `list` before `end` is `res`.
pub open spec fn absent_before(list: Seq<Resolution>, res: Resolution, end: int) -> bool {
    forall|i: int| 0 <= i < end ==> list[i] != res
}

impl Toupcam {
    /// Begins to read the preview resolutions, from the driver's answer to
    /// the request for their number.
    pub fn preview_resolutions(&self, number: HResult) -> (r: Result<ResolutionList, Error>)
        ensures
            number.is_success() ==> (r matches Ok(list) && list.total() == number.code_spec() as u32
                && list.found() == Seq::<Resolution>::empty()),
            !number.is_success() ==> (r matches Err(e) && e == Error::Native(number)),
    {
        ResolutionList::begin(number)
    }

    /// Begins to read the still resolutions, from the driver's answer to the
    /// request for their number.
    pub fn still_resolutions(&self, number: HResult) -> (r: Result<ResolutionList, Error>)
        ensures
            number.is_success() ==> (r matches Ok(list) && list.total() == number.code_spec() as u32
                && list.found() == Seq::<Resolution>::empty()),
            !number.is_success() ==> (r matches Err(e) && e == Error::Native(number)),
    {
        ResolutionList::begin(number)
    }

    /// The preview size, from the signed width and height that the driver
    /// wrote.
    pub fn preview_size(
        &self,
        result: HResult,
        width: c_int,
        height: c_int,
    ) -> (r: Result<Resolution, Error>)
        ensures
            result.is_success() ==> r == Ok::<Resolution, Error>(
                Resolution::from_native(width, height),
            ),
            !result.is_success() ==> r == Err::<Resolution, Error>(Error::Native(result)),
    {
        accept(result)?;
        Ok(Resolution { width: as_unsigned(width), height: as_unsigned(height) })
    }

    /// The signed width and height to hand to the driver for a preview size.
    pub fn set_preview_size(&self, res: Resolution) -> (native: (c_int, c_int))
        ensures
            native == res.to_native(),
    {
        (as_signed(res.width), as_signed(res.height))
    }

    /// The index of the preview size among the preview resolutions, from the
    /// number that the driver wrote.
    pub fn preview_size_index(&self, result: HResult, index: c_uint) -> (r: Result<usize, Error>)
        ensures
            result.is_success() ==> r == Ok::<usize, Error>(index as usize),
            !result.is_success() ==> r == Err::<usize, Error>(Error::Native(result)),
            r matches Ok(i) ==> i == index,
    {
        accept(result)?;
        Ok(index as usize)
    }

    /// The number to hand to the driver for the preview resolution at
    /// `index`: the low 32 bits of the index.
    pub fn set_preview_size_index(&self, index: usize) -> (native: c_uint)
        ensures
            native == index as u32,
            index <= u32::MAX ==> native == index,
    {
        #[verifier::truncate]
        (index as u32)
    }

    /// Finds the still resolution to snap at: the index of the first entry
    /// of `still`, the camera's still resolutions, that equals `res`.
    ///
    /// Fails with `Error::UnknownResolution` exactly when no entry equals
    /// `res`.
    pub fn snap(&self, res: Resolution, still: &[Resolution]) -> (r: Result<usize, Error>)
        ensures
            (match r {
                Ok(index) => {
                    &&& index < still@.len()
                    &&& still@[index as int] == res
                    &&& absent_before(still@, res, index as int)
                },
                Err(e) => {
                    &&& e == Error::UnknownResolution(res)
                    &&& absent_before(still@, res, still@.len() as int)
                },
            }),
    {
        let mut index: usize = 0;
        while index < still.len()
            invariant
                index <= still@.len(),
                absent_before(still@, res, index as int),
            decreases still@.len() - index,
        {
            if still[index] == res {
                return Ok(index);
            }
            index = index + 1;
        }
        Err(Error::UnknownResolution(res))
    }

    /// The number to hand to the driver to snap at the still resolution at
    /// `index`: the low 32 bits of the index.
    pub fn snap_index(&self, index: usize) -> (native: c_uint)
        ensures
            native == index as u32,
            index <= u32::MAX ==> native == index,
    {
        #[verifier::truncate]
        (index as u32)
    }
}

/// A size that is written and read back as the numbers that were written is
/// the size that was set.
pub proof fn lemma_resolution_round_trip(res: Resolution)
    ensures
        ({
            let (width, height) = res.to_native();
            Resolution::from_native(width, height) == res
        }),
{
    let w: u32 = res.width;
    let h: u32 = res.height;
    assert((w as i32) as u32 == w) by (bit_vector);
    assert((h as i32) as u32 == h) by (bit_vector);
}

} // verus!
