use vstd::prelude::*;

verus! {

/// Every way a run can go wrong, in the order the workflow can meet them.
///
/// The first five are fatal to the run: nothing past the failing stage is
/// attempted. The remaining ones are per-item: they are recorded in the batch
/// report for one sampled asset and the batch moves on to the next item.
#[derive(Clone, Copy, Debug, PartialEq, Eq, Structural)]
pub enum Failure {
    /// The registry listing could not be fetched or answered a failure status.
    RegistryUnavailable,
    /// The registry listing was fetched but did not have the expected shape.
    RegistryMalformed,
    /// The registry does not list the identifier under the target chain.
    UnknownCollection,
    /// The membership query could not be fetched or answered a failure status.
    AssetStoreUnavailable,
    /// The membership answer was not a sequence of asset references.
    AssetStoreMalformed,
    /// The collection reports too few members for the fixed sample window;
    /// carries the observed member count.
    InsufficientAssets(usize),
    /// One asset's metadata could not be fetched or answered a failure status.
    MetadataUnavailable,
    /// One asset's metadata document did not have the expected shape.
    MetadataMalformed,
    /// The cover source of one asset lacks the required scheme prefix.
    InvalidContentUri,
    /// The gateway credential is absent from the execution environment.
    CredentialMissing,
    /// The gateway download could not complete or answered a failure status.
    GatewayUnavailable,
    /// The downloaded bytes could not be written to the output directory.
    WriteFailed,
}

} // verus!
