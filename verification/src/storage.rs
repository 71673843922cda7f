use vstd::prelude::*;

verus! {

/// The persistence gateway's address: the location of the single
/// configuration document that holds a full game-state snapshot. Reading and
/// writing the document is the front end's business; the manager only
/// carries the location along.
#[derive(Debug, Clone)]
pub struct Storage {
    pub file_config: String,
}

impl Storage {
    pub fn new(file_config: String) -> (r: Storage)
        ensures
            r.file_config == file_config,
    {
        Storage { file_config }
    }
}

} // verus!
