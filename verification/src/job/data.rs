use vstd::prelude::*;

verus! {

/// What a job asks for.
#[derive(Debug, Clone, Copy, PartialEq, Eq, Structural)]
pub enum JobEventData {
    RoomClean {},
    TaxiOrder {},
    ExtraTowels {},
    ExtraPillows {},
    FoodOrder {},
}

impl Default for JobEventData {
    fn default() -> (data: Self)
        ensures
            data == (JobEventData::RoomClean {}),
    {
        Self::RoomClean {}
    }
}

} // verus!
