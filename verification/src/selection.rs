use vstd::prelude::*;

use crate::errors::Failure;

verus! {

/// One member of a collection, as reported by the asset store's membership
/// query: just the asset's ledger identifier.
#[derive(Clone, Debug, PartialEq, Eq)]
pub struct AssetRef {
    pub asset_id: String,
}

/// The first member list position the sample takes; position 0 is reserved.
pub const SAMPLE_OFFSET: usize = 1;

/// How many assets one run samples.
pub const SAMPLE_COUNT: usize = 10;

/// Fewest members a collection must report for the sample to be taken: the
/// selection proceeds only past this count, one more than the window needs.
pub const SAMPLE_THRESHOLD: usize = 11;

/// The fixed sampling policy: a member list that does not go beyond the
/// threshold is rejected with the observed count; a longer one yields exactly
/// the ten members at positions 1 through 10, in the order the store gave
/// them, with position 0 left out.
pub fn select_sample(members: &Vec<AssetRef>) -> (r: Result<Vec<AssetRef>, Failure>)
    ensures
        members@.len() <= SAMPLE_THRESHOLD ==> (r == Err::<Vec<AssetRef>, Failure>(
            Failure::InsufficientAssets(members@.len() as usize),
        )),
        members@.len() > SAMPLE_THRESHOLD ==> (r matches Ok(sample) && sample@.len()
            == SAMPLE_COUNT && (forall|j: int|
            0 <= j < SAMPLE_COUNT ==> sample@[j].asset_id == members@[j + SAMPLE_OFFSET].asset_id)),
{
    let n = members.len();
    if n <= SAMPLE_THRESHOLD {
        return Err(Failure::InsufficientAssets(n));
    }
    let mut sample: Vec<AssetRef> = Vec::new();
    let mut i: usize = SAMPLE_OFFSET;
    while i < SAMPLE_OFFSET + SAMPLE_COUNT
        invariant
            members@.len() > SAMPLE_THRESHOLD,
            SAMPLE_OFFSET <= i <= SAMPLE_OFFSET + SAMPLE_COUNT,
            sample@.len() == i - SAMPLE_OFFSET,
            forall|j: int|
                0 <= j < i - SAMPLE_OFFSET ==> sample@[j].asset_id == members@[j
                    + SAMPLE_OFFSET].asset_id,
        decreases SAMPLE_OFFSET + SAMPLE_COUNT - i,
    {
        sample.push(AssetRef { asset_id: members[i].asset_id.clone() });
        i += 1;
    }
    Ok(sample)
}

} // verus!
