use vstd::prelude::*;

verus! {

/// The name and id of a background task.
#[derive(Clone, Debug)]
pub struct TaskInfo {
    name: String,
    id: u32,
}

impl Default for TaskInfo {
    fn default() -> (r: TaskInfo)
        ensures
            r.spec_name().len() == 0,
            r.spec_id() == 0,
    {
        TaskInfo { name: String::new(), id: 0 }
    }
}

impl TaskInfo {
    pub closed spec fn spec_name(&self) -> Seq<char> {
        self.name@
    }

    pub closed spec fn spec_id(&self) -> u32 {
        self.id
    }

    pub fn new(name: &str, id: u32) -> (r: TaskInfo)
        ensures
            r.spec_name() == name@,
            r.spec_id() == id,
    {
        TaskInfo { name: name.to_owned(), id }
    }

    pub fn name(&self) -> (r: &str)
        ensures
            r@ == self.spec_name(),
    {
        self.name.as_str()
    }

    pub fn id(&self) -> (r: u32)
        ensures
            r == self.spec_id(),
    {
        self.id
    }
}

} // verus!
