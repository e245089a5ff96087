//! The TLS profile of IEEE 2030.5: TLS 1.2 alone, one cipher suite, and
//! certificates on both sides.

pub use crate::cert::{check_ca, check_device_cert, check_self_signed_client_cert};
use vstd::prelude::*;

verus! {

/// The cipher suite that IEEE 2030.5 mandates.
pub const CCM8: &'static str = "ECDHE-ECDSA-AES128-CCM8";

/// The cipher suite for hosts whose TLS library lacks CCM8, at security
/// level 0.
pub const GCM_FALLBACK: &'static str = "ECDHE-ECDSA-AES128-GCM-SHA256@SECLEVEL=0";

/// A version of the TLS protocol.
#[derive(Clone, Copy, Debug, PartialEq, Eq, Structural)]
pub enum TlsVersion {
    Tls12,
}

/// Which side of a connection a profile is for.
#[derive(Clone, Copy, Debug, PartialEq, Eq, Structural)]
pub enum TlsRole {
    Client,
    Server,
}

/// The settings of one side of a connection.
#[derive(Clone, Copy, Debug)]
pub struct TlsProfile {
    /// The lowest protocol version that is offered.
    pub min_version: TlsVersion,
    /// The highest protocol version that is offered.
    pub max_version: TlsVersion,
    /// Compression is switched off.
    pub no_compression: bool,
    /// SSLv2 is switched off.
    pub no_sslv2: bool,
    /// SSLv3 is switched off.
    pub no_sslv3: bool,
    /// The cipher list: a single suite.
    pub cipher_list: &'static str,
    /// The security level that the TLS library is set to; `None` leaves the
    /// library's own.
    pub security_level: Option<u32>,
    /// The peer's certificate is verified.
    pub verify_peer: bool,
    /// A peer without a certificate is turned away.
    pub fail_if_no_peer_cert: bool,
    /// The peer's host name is held against its certificate.
    pub verify_hostname: bool,
}

/// The cipher list of a host: CCM8, or the fallback on macOS, which lacks it.
pub open spec fn cipher_suite_of(macos: bool) -> Seq<char> {
    if macos {
        GCM_FALLBACK@
    } else {
        CCM8@
    }
}

impl TlsProfile {
    /// Whether the settings are those that IEEE 2030.5 mandates for the
    /// role on such a host: TLS 1.2 and nothing else; on a client no
    /// compression, no SSLv2 and no SSLv3; the one cipher suite; security
    /// level 0 on a client and wherever the fallback suite is used; the
    /// peer's certificate verified, and demanded by a server; the host name
    /// not verified, since a device is known by the identifier derived from
    /// its certificate.
    pub open spec fn conforms(self, role: TlsRole, macos: bool) -> bool {
        &&& self.min_version == TlsVersion::Tls12
        &&& self.max_version == TlsVersion::Tls12
        &&& self.no_compression == (role == TlsRole::Client)
        &&& self.no_sslv2 == (role == TlsRole::Client)
        &&& self.no_sslv3 == (role == TlsRole::Client)
        &&& self.cipher_list@ == cipher_suite_of(macos)
        &&& self.security_level == (if role == TlsRole::Client || macos {
            Some(0u32)
        } else {
            None
        })
        &&& self.verify_peer
        &&& self.fail_if_no_peer_cert == (role == TlsRole::Server)
        &&& !self.verify_hostname
    }
}

/// The cipher list of this host. macOS does not support the CCM8 cipher
/// suite.
pub fn get_cipher_suite(macos: bool) -> (suite: &'static str)
    ensures
        suite@ == cipher_suite_of(macos),
{
    if macos {
        GCM_FALLBACK
    } else {
        CCM8
    }
}

/// The settings of a side of a connection.
pub fn tls_profile(role: TlsRole, macos: bool) -> (profile: TlsProfile)
    ensures
        profile.conforms(role, macos),
{
    let client = match role {
        TlsRole::Client => true,
        TlsRole::Server => false,
    };
    TlsProfile {
        min_version: TlsVersion::Tls12,
        max_version: TlsVersion::Tls12,
        no_compression: client,
        no_sslv2: client,
        no_sslv3: client,
        cipher_list: get_cipher_suite(macos),
        security_level: if client || macos {
            Some(0)
        } else {
            None
        },
        verify_peer: true,
        fail_if_no_peer_cert: !client,
        verify_hostname: false,
    }
}

/// The settings with which a client connects.
pub fn create_client_tls_cfg(macos: bool) -> (profile: TlsProfile)
    ensures
        profile.conforms(TlsRole::Client, macos),
{
    tls_profile(TlsRole::Client, macos)
}

/// The settings with which the notification server accepts connections.
pub fn create_server_tls_config(macos: bool) -> (profile: TlsProfile)
    ensures
        profile.conforms(TlsRole::Server, macos),
{
    tls_profile(TlsRole::Server, macos)
}

} // verus!
