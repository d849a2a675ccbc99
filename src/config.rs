//! Private settings of the broadcast, read from its configuration file.

use vstd::prelude::*;

verus! {

/// The private settings: the key of the outbound stream.
#[derive(Clone, Debug)]
pub struct Private {
    pub key: String,
}

impl Private {
    pub fn new(key: String) -> (r: Self)
        ensures
            r.key == key,
    {
        Private { key }
    }
}

} // verus!
