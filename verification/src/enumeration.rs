//! Enumeration of the connected cameras.
//!
//! The driver fills a table of at most sixteen fixed-size records and says how
//! many of them it filled. A record is read here as the plain values it
//! holds; records past the count are never looked at.

use vstd::prelude::*;
use libc::c_uint;
use vstd::pervasive::unreached;
use vstd::utf8::{decode_utf8, valid_utf8};
use crate::camera::Toupcam;
use crate::flags::Flags;
use crate::result::Error;
use crate::text::{text_bytes, unmarshal_string};
use crate::types::{Instance, Model, Resolution};

verus! {

/// The number of records in the driver's table of cameras.
pub const MAX_INSTANCES: usize = 16;

/// The number of entries in a model's table of resolutions.
pub const MAX_RESOLUTIONS: usize = 16;

/// A model descriptor as the driver lays it out.
///
/// The table `res` holds the `preview` preview resolutions first and the
/// `still` still resolutions after them.
#[derive(Clone, Debug)]
pub struct ModelRecord {
    /// The bytes of the model's name, up to a terminator if there is one.
    pub name: Vec<u8>,
    pub flags: u32,
    pub maxspeed: c_uint,
    pub preview: c_uint,
    pub still: c_uint,
    pub res: [Resolution; 16],
}

/// One record of the driver's table of cameras.
#[derive(Clone, Debug)]
pub struct InstanceRecord {
    pub displayname: [u8; 64],
    pub id: [u8; 64],
    /// The model descriptor that the record points to, if it points to one.
    pub model: Option<ModelRecord>,
}

/// What a `Model` holds, as mathematical values.
pub struct ModelView {
    pub name: Seq<char>,
    pub flags: u32,
    pub maximum_speed: u32,
    pub preview_resolutions: Seq<Resolution>,
    pub still_resolutions: Seq<Resolution>,
}

/// What an `Instance` holds, as mathematical values.
pub struct InstanceView {
    pub display_name: Seq<char>,
    pub unique_id: Seq<char>,
    pub model: ModelView,
}

impl View for Model {
    type V = ModelView;

    open spec fn view(&self) -> ModelView {
        ModelView {
            name: self.name@,
            flags: self.flags.bits_spec(),
            maximum_speed: self.maximum_speed,
            preview_resolutions: self.preview_resolutions@,
            still_resolutions: self.still_resolutions@,
        }
    }
}

impl View for Instance {
    type V = InstanceView;

    open spec fn view(&self) -> InstanceView {
        InstanceView {
            display_name: self.display_name@,
            unique_id: self.unique_id@,
            model: self.model@,
        }
    }
}

impl ModelRecord {
    /// The two counts stay inside the table and the flag word sets
    /// capability bits only.
    pub open spec fn wf(&self) -> bool {
        &&& self.preview + self.still <= MAX_RESOLUTIONS
        &&& Flags::known(self.flags)
    }

    /// Whether the name is valid UTF-8.
    pub open spec fn decodable(&self) -> bool {
        valid_utf8(text_bytes(self.name@))
    }

    /// Tests whether the descriptor is well formed.
    pub fn is_well_formed(&self) -> (ok: bool)
        ensures
            ok == self.wf(),
    {
        self.preview <= 16 && self.still <= 16 - self.preview && Flags::from_bits(
            self.flags,
        ).is_some()
    }

    /// The model that the record describes.
    pub open spec fn decoded(&self) -> ModelView {
        ModelView {
            name: decode_utf8(text_bytes(self.name@)),
            flags: self.flags,
            maximum_speed: self.maxspeed,
            preview_resolutions: self.res@.subrange(0, self.preview as int),
            still_resolutions: self.res@.subrange(
                self.preview as int,
                self.preview + self.still,
            ),
        }
    }
}

impl InstanceRecord {
    /// The record points to a model descriptor, and that one is well formed.
    pub open spec fn wf(&self) -> bool {
        self.model matches Some(model) && model.wf()
    }

    /// Whether the three texts of the record are valid UTF-8.
    pub open spec fn decodable(&self) -> bool {
        &&& valid_utf8(text_bytes(self.displayname@))
        &&& valid_utf8(text_bytes(self.id@))
        &&& self.model matches Some(model) && model.decodable()
    }

    /// Tests whether the record is well formed.
    pub fn is_well_formed(&self) -> (ok: bool)
        ensures
            ok == self.wf(),
    {
        match &self.model {
            Some(model) => model.is_well_formed(),
            None => false,
        }
    }

    /// The camera that the record describes.
    pub open spec fn decoded(&self) -> InstanceView {
        InstanceView {
            display_name: decode_utf8(text_bytes(self.displayname@)),
            unique_id: decode_utf8(text_bytes(self.id@)),
            model: self.model->0.decoded(),
        }
    }
}

/// Copies the entries `from..to` of a resolution table.
fn copy_resolutions(table: &[Resolution; 16], from: usize, to: usize) -> (list: Vec<Resolution>)
    requires
        from <= to <= 16,
    ensures
        list@ == table@.subrange(from as int, to as int),
{
    let mut list: Vec<Resolution> = Vec::new();
    let mut i: usize = from;
    while i < to
        invariant
            from <= i <= to <= 16,
            list@ == table@.subrange(from as int, i as int),
        decreases to - i,
    {
        list.push(table[i]);
        i = i + 1;
    }
    list
}

impl Model {
    /// Reads a model descriptor.
    ///
    /// The preview resolutions are the first `preview` entries of the table,
    /// the still resolutions the `still` entries that follow them. Fails with
    /// `Error::Decode` exactly when the name is not valid UTF-8.
    pub fn unmarshal(record: &ModelRecord) -> (r: Result<Model, Error>)
        requires
            record.wf(),
        ensures
            record.decodable() ==> (r matches Ok(model) && model@ == record.decoded()),
            !record.decodable() ==> r == Err::<Model, Error>(Error::Decode),
            r matches Ok(model) ==> ({
                &&& model.preview_resolutions.len() == record.preview
                &&& model.still_resolutions.len() == record.still
                &&& model.preview_resolutions.len() + model.still_resolutions.len()
                    <= MAX_RESOLUTIONS
            }),
    {
        let name = match unmarshal_string(record.name.as_slice()) {
            Ok(name) => name,
            Err(e) => {
                return Err(e);
            },
        };
        let flags = match Flags::from_bits(record.flags) {
            Some(flags) => flags,
            None => unreached(),
        };
        let preview: usize = record.preview as usize;
        let still: usize = record.still as usize;
        Ok(
            Model {
                name,
                flags,
                maximum_speed: record.maxspeed,
                preview_resolutions: copy_resolutions(&record.res, 0, preview),
                still_resolutions: copy_resolutions(&record.res, preview, preview + still),
            },
        )
    }
}

impl Instance {
    /// Reads one record of the table of cameras.
    ///
    /// Fails with `Error::Decode` exactly when the display name, the
    /// identifier or the model's name is not valid UTF-8.
    pub fn unmarshal(record: &InstanceRecord) -> (r: Result<Instance, Error>)
        requires
            record.wf(),
        ensures
            record.decodable() ==> (r matches Ok(instance) && instance@ == record.decoded()),
            !record.decodable() ==> r == Err::<Instance, Error>(Error::Decode),
            r matches Ok(instance) ==> ({
                &&& instance.model.preview_resolutions.len() == record.model->0.preview
                &&& instance.model.still_resolutions.len() == record.model->0.still
                &&& instance.model.preview_resolutions.len()
                    + instance.model.still_resolutions.len() <= MAX_RESOLUTIONS
            }),
    {
        let display_name = match unmarshal_string(record.displayname.as_slice()) {
            Ok(text) => text,
            Err(e) => {
                return Err(e);
            },
        };
        let unique_id = match unmarshal_string(record.id.as_slice()) {
            Ok(text) => text,
            Err(e) => {
                return Err(e);
            },
        };
        let model = match &record.model {
            Some(model) => match Model::unmarshal(model) {
                Ok(model) => model,
                Err(e) => {
                    return Err(e);
                },
            },
            None => unreached(),
        };
        Ok(Instance { display_name, unique_id, model })
    }
}

impl Toupcam {
    /// Reads the table of cameras that the driver filled.
    ///
    /// `count` is the number of records that the driver says it filled; the
    /// result holds one camera for each of them, in the table's order, and the
    /// records after them are not read. Fails with `Error::Decode` exactly
    /// when one of the first `count` records holds a text that is not valid
    /// UTF-8.
    pub fn enumerate(count: c_uint, table: &[InstanceRecord]) -> (r: Result<Vec<Instance>, Error>)
        requires
            count <= table@.len() <= MAX_INSTANCES,
            forall|i: int| 0 <= i < count ==> (#[trigger] table@[i]).wf(),
        ensures
            (match r {
                Ok(list) => {
                    &&& list@.len() == count
                    &&& list@.len() <= MAX_INSTANCES
                    &&& forall|i: int|
                        0 <= i < count ==> {
                            &&& (#[trigger] table@[i]).decodable()
                            &&& list@[i]@ == table@[i].decoded()
                        }
                    &&& forall|i: int|
                        0 <= i < count ==> {
                            let model = (#[trigger] list@[i]).model;
                            &&& model.preview_resolutions@.len() == table@[i].model->0.preview
                            &&& model.still_resolutions@.len() == table@[i].model->0.still
                            &&& model.preview_resolutions@.len() + model.still_resolutions@.len()
                                <= MAX_RESOLUTIONS
                        }
                },
                Err(e) => {
                    &&& e == Error::Decode
                    &&& exists|i: int| 0 <= i < count && !(#[trigger] table@[i]).decodable()
                },
            }),
    {
        let mut list: Vec<Instance> = Vec::new();
        let mut n: usize = 0;
        while n < count as usize
            invariant
                n <= count <= table@.len() <= MAX_INSTANCES,
                forall|i: int| 0 <= i < count ==> (#[trigger] table@[i]).wf(),
                list@.len() == n,
                forall|i: int|
                    0 <= i < n ==> {
                        &&& (#[trigger] table@[i]).decodable()
                        &&& list@[i]@ == table@[i].decoded()
                    },
                forall|i: int|
                    0 <= i < n ==> {
                        let model = (#[trigger] list@[i]).model;
                        &&& model.preview_resolutions@.len() == table@[i].model->0.preview
                        &&& model.still_resolutions@.len() == table@[i].model->0.still
                        &&& model.preview_resolutions@.len() + model.still_resolutions@.len()
                            <= MAX_RESOLUTIONS
                    },
            decreases count - n,
        {
            match Instance::unmarshal(&table[n]) {
                Ok(instance) => {
                    list.push(instance);
                },
                Err(e) => {
                    assert(!table@[n as int].decodable());
                    return Err(e);
                },
            }
            n = n + 1;
        }
        Ok(list)
    }
}

} // verus!
