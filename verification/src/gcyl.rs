//! The frames of the spinning cylinder's model, named as the model names
//! them.
use vstd::prelude::*;

use crate::text_util::str_eq;

verus! {

/// A frame of the spinning cylinder.
#[derive(Debug, Clone, Copy, PartialEq, Eq, Structural)]
pub enum GcylFrames {
    Default,
    Cylinder001,
    Cylinder002,
}

/// The frame a frame name names; an unknown name gives the default frame.
pub open spec fn gcyl_frame_named(s: Seq<char>) -> GcylFrames {
    if s == "default"@ {
        GcylFrames::Default
    } else if s == "Cylinder.001"@ {
        GcylFrames::Cylinder001
    } else if s == "Cylinder.002"@ {
        GcylFrames::Cylinder002
    } else {
        GcylFrames::Default
    }
}

impl<'a> From<&'a str> for GcylFrames {
    fn from(value: &'a str) -> (res: Self) {
        if str_eq(value, "default") {
            GcylFrames::Default
        } else if str_eq(value, "Cylinder.001") {
            GcylFrames::Cylinder001
        } else if str_eq(value, "Cylinder.002") {
            GcylFrames::Cylinder002
        } else {
            GcylFrames::Default
        }
    }
}

impl<'a> vstd::std_specs::convert::FromSpecImpl<&'a str> for GcylFrames {
    open spec fn obeys_from_spec() -> bool {
        true
    }

    open spec fn from_spec(v: &'a str) -> Self {
        gcyl_frame_named(v@)
    }
}

/// Each frame name names its own frame of the cylinder: "default",
/// "Cylinder.001" and "Cylinder.002"; any other name gives the default
/// frame.
pub proof fn lemma_gcyl_frame_names(s: Seq<char>)
    ensures
        s == "default"@ ==> gcyl_frame_named(s) == GcylFrames::Default,
        s == "Cylinder.001"@ ==> gcyl_frame_named(s) == GcylFrames::Cylinder001,
        s == "Cylinder.002"@ ==> gcyl_frame_named(s) == GcylFrames::Cylinder002,
        !(s == "default"@ || s == "Cylinder.001"@ || s == "Cylinder.002"@) ==> gcyl_frame_named(s)
            == GcylFrames::Default,
{
    reveal_strlit("default");
    reveal_strlit("Cylinder.001");
    reveal_strlit("Cylinder.002");
    if s == "Cylinder.001"@ {
        assert("Cylinder.001"@.len() != "default"@.len());
    }
    if s == "Cylinder.002"@ {
        assert("Cylinder.002"@.len() != "default"@.len());
        assert("Cylinder.002"@[11] != "Cylinder.001"@[11]);
    }
}
} // verus!
