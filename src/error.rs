use vstd::prelude::*;

verus! {

/// Every failure the adapter reports to its caller.
#[derive(Debug, Clone, Copy, PartialEq, Eq, Structural)]
pub enum AdapterError {
    /// The venue name is not in the compiled-in registry.
    VenueNotSupported,
    /// Queries cannot be answered by a venue on another chain.
    RemoteQueryUnsupported,
    /// The action cannot be forwarded to another chain.
    UnsupportedCrossDomainAction,
    /// A symbolic asset has no entry in the name directory.
    AssetResolutionFailed,
    /// The host rejected an address as malformed.
    AddressValidationFailed,
    /// The caller is not the proxy of the account that owns the adapter.
    Unauthorized,
    /// A fee share outside the accepted bound.
    FeeRangeInvalid,
    /// An account id that the registry does not know.
    AccountNotFound,
    /// An action could not be encoded for the remote chain.
    InternalSerializationFault,
    /// A failure reported by the host runtime.
    HostError,
}

} // verus!
