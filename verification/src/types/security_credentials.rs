//! Credentials of a client connection.

use vstd::prelude::*;
use windows_core::HSTRING;

verus! {

/// How the traffic of a connection is protected.
#[derive(Debug, Clone, Copy, PartialEq, Eq, Structural)]
pub enum FabricProtectionLevel {
    Unprotected,
    Sign,
    EncryptAndSign,
}

/// Windows credentials.
#[derive(Debug)]
pub struct FabricWindowsCredentials {
    pub remote_spn: HSTRING,
    pub remote_identities: Vec<HSTRING>,
    pub protection_level: FabricProtectionLevel,
}

/// Credentials of an X509 certificate.
#[derive(Debug)]
pub struct FabricX509Credentials {
    pub allowed_common_names: Vec<HSTRING>,
    pub find_value: HSTRING,
    pub store_name: HSTRING,
    pub protection_level: FabricProtectionLevel,
}

/// Claims-based credentials.
#[derive(Debug)]
pub struct FabricClaimsCredentials {
    pub server_common_names: Vec<HSTRING>,
    pub server_thumbprints: Vec<HSTRING>,
    pub local_claims: HSTRING,
    pub protection_level: FabricProtectionLevel,
}

/// The credentials of a client, of one of the kinds that the runtime knows.
#[non_exhaustive]
pub enum FabricSecurityCredentials {
    Windows(FabricWindowsCredentials),
    X509(FabricX509Credentials),
    Claims(FabricClaimsCredentials),
}

/// The kind of a client's credentials.
#[derive(Debug, Clone, Copy, PartialEq, Eq, Structural)]
pub enum CredentialKind {
    Windows,
    X509,
    Claims,
}

impl FabricSecurityCredentials {
    /// The kind of the credentials, by which they are applied to the client
    /// settings.
    pub fn kind(&self) -> (kind: CredentialKind)
        ensures
            kind == (match *self {
                FabricSecurityCredentials::Windows(_) => CredentialKind::Windows,
                FabricSecurityCredentials::X509(_) => CredentialKind::X509,
                FabricSecurityCredentials::Claims(_) => CredentialKind::Claims,
            }),
    {
        match self {
            FabricSecurityCredentials::Windows(_) => CredentialKind::Windows,
            FabricSecurityCredentials::X509(_) => CredentialKind::X509,
            FabricSecurityCredentials::Claims(_) => CredentialKind::Claims,
        }
    }

    /// The protection level that the credentials ask for.
    pub fn protection_level(&self) -> (level: FabricProtectionLevel)
        ensures
            level == (match *self {
                FabricSecurityCredentials::Windows(c) => c.protection_level,
                FabricSecurityCredentials::X509(c) => c.protection_level,
                FabricSecurityCredentials::Claims(c) => c.protection_level,
            }),
    {
        match self {
            FabricSecurityCredentials::Windows(c) => c.protection_level,
            FabricSecurityCredentials::X509(c) => c.protection_level,
            FabricSecurityCredentials::Claims(c) => c.protection_level,
        }
    }
}

} // verus!
