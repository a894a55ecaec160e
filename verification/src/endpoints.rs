use vstd::prelude::*;

use vstd::string::StringExecFns;

verus! {

/// The registry listing endpoint.
pub open spec fn spec_registry_endpoint() -> Seq<char> {
    "https://api.book.io/api/v0/collections"@
}

/// The prefix of the membership query endpoint; the collection identifier
/// follows it.
pub open spec fn spec_membership_prefix() -> Seq<char> {
    "https://cardano-mainnet.blockfrost.io/api/v0/assets/policy/"@
}

/// The prefix of the asset metadata endpoint; the asset identifier follows
/// it.
pub open spec fn spec_metadata_prefix() -> Seq<char> {
    "https://cardano-mainnet.blockfrost.io/api/v0/assets/"@
}

/// The prefix of the content gateway endpoint; the bare content location
/// follows it.
pub open spec fn spec_gateway_prefix() -> Seq<char> {
    "https://ipfs.blockfrost.io/api/v0/ipfs/gateway/"@
}

/// Where the registry listing is fetched from.
pub fn registry_url() -> (r: String)
    ensures
        r@ == spec_registry_endpoint(),
{
    "https://api.book.io/api/v0/collections".to_owned()
}

/// Where a collection's member list is fetched from.
pub fn membership_url(identifier: &str) -> (r: String)
    ensures
        r@ == spec_membership_prefix() + identifier@,
{
    let mut out: String = "https://cardano-mainnet.blockfrost.io/api/v0/assets/policy/".to_owned();
    out.append(identifier);
    out
}

/// Where one asset's metadata is fetched from.
pub fn metadata_url(asset_id: &str) -> (r: String)
    ensures
        r@ == spec_metadata_prefix() + asset_id@,
{
    let mut out: String = "https://cardano-mainnet.blockfrost.io/api/v0/assets/".to_owned();
    out.append(asset_id);
    out
}

/// Where the bytes behind a bare content location are fetched from.
pub fn gateway_url(location: &str) -> (r: String)
    ensures
        r@ == spec_gateway_prefix() + location@,
{
    let mut out: String = "https://ipfs.blockfrost.io/api/v0/ipfs/gateway/".to_owned();
    out.append(location);
    out
}

} // verus!
