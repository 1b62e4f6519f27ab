use vstd::prelude::*;

verus! {

/// Why a refresh, a reload or an insertion did not go through.
#[derive(Clone, Copy, Debug, PartialEq, Eq, Structural)]
pub enum CatalogError {
    /// The remote catalog could not be retrieved.
    FetchFailed,
    /// The remote catalog was retrieved but is not a list of records.
    DecodeFailed,
    /// The source of the configured overlay is missing or unreadable.
    ConfigUnavailable,
    /// An insertion was asked for while no overlay list is configured.
    NoOverlaySlot,
}

impl CatalogError {
    /// A sentence that names the failure.
    pub fn message(&self) -> (r: &'static str)
        ensures
            r@ == match *self {
                CatalogError::FetchFailed => "the remote catalog could not be fetched"@,
                CatalogError::DecodeFailed => "the remote catalog is malformed"@,
                CatalogError::ConfigUnavailable => "no valid configuration file found"@,
                CatalogError::NoOverlaySlot => "no overlay list is configured"@,
            },
    {
        match self {
            CatalogError::FetchFailed => "the remote catalog could not be fetched",
            CatalogError::DecodeFailed => "the remote catalog is malformed",
            CatalogError::ConfigUnavailable => "no valid configuration file found",
            CatalogError::NoOverlaySlot => "no overlay list is configured",
        }
    }
}

} // verus!
