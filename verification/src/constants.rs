//! Fixed paths that the default configuration points at.

use vstd::prelude::*;

verus! {

pub const AVRO_PHONETIC_LAYOUT_PATH: &'static str =
    "/usr/share/openbangla-keyboard/layouts/avrophonetic.json";

pub const DATABASE_PATH: &'static str = "/usr/share/openbangla-keyboard/data";

} // verus!
