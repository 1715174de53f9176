use vstd::prelude::*;
use crate::api::Disposable;
use crate::error::Error;
use crate::manifest::StaticDataDescriptor;

verus! {

/// A block of bytes compiled into the program.
pub struct StaticData {
    data: &'static [u8],
}

impl StaticData {
    pub closed spec fn spec_data(&self) -> Seq<u8> {
        self.data@
    }

    pub fn from_resource(descriptor: &StaticDataDescriptor) -> (r: Result<StaticData, Error>)
        ensures
            r.is_ok(),
            r.unwrap().spec_data() == descriptor.data@,
    {
        StaticData::from_memory(descriptor.data)
    }

    pub fn from_memory(data: &'static [u8]) -> (r: Result<StaticData, Error>)
        ensures
            r.is_ok(),
            r.unwrap().spec_data() == data@,
    {
        Ok(StaticData { data })
    }

    pub fn data(&self) -> (r: &'static [u8])
        ensures
            r@ == self.spec_data(),
    {
        self.data
    }

    pub fn size(&self) -> (r: usize)
        ensures
            r == self.spec_data().len(),
    {
        self.data.len()
    }
}

impl Disposable for StaticData {
    fn dispose(&mut self) {
    }
}

} // verus!
