//! The X.509 extension profiles of IEEE 2030.5 (section 6.11): which
//! extensions a device certificate, a self-signed client certificate and a
//! CA certificate must, may and must not carry, and with which criticality.

use vstd::prelude::*;
use x509_parser::certificate::X509Certificate;
use x509_parser::extensions::ParsedExtension;

verus! {

/// The extensions that the profiles tell apart. Every other extension, and
/// one whose content could not be parsed, is `Other`.
#[derive(Clone, Copy, Debug, PartialEq, Eq, Structural)]
pub enum ExtensionId {
    KeyUsage,
    CertificatePolicies,
    SubjectAlternativeName,
    AuthorityKeyIdentifier,
    SubjectKeyIdentifier,
    BasicConstraints,
    PolicyMappings,
    NameConstraints,
    Other,
}

/// What an extension is, with the content that a profile looks at.
#[derive(Clone, Copy, Debug, PartialEq, Eq)]
pub enum ExtensionKind {
    KeyUsage { key_cert_sign: bool, crl_sign: bool },
    CertificatePolicies,
    SubjectAlternativeName,
    AuthorityKeyIdentifier,
    SubjectKeyIdentifier,
    BasicConstraints { ca: bool, path_len: Option<u32> },
    PolicyMappings,
    NameConstraints,
    Other,
}

/// One extension of a certificate.
#[derive(Clone, Copy, Debug, PartialEq, Eq)]
pub struct CertExtension {
    pub kind: ExtensionKind,
    pub critical: bool,
}

/// The three certificate profiles.
#[derive(Clone, Copy, Debug, PartialEq, Eq, Structural)]
pub enum CertProfile {
    /// A device certificate (6.11.8.3.3), which every server presents.
    Device,
    /// A self-signed client certificate (6.11.8.4.3).
    SelfSignedClient,
    /// A certificate of a certification authority.
    Ca,
}

/// Why a certificate does not meet a profile.
#[derive(Clone, Copy, Debug, PartialEq, Eq, Structural)]
pub enum CertError {
    /// The input holds no PEM block that could be decoded.
    Pem,
    /// The PEM block does not hold an X.509 certificate.
    Der,
    /// The certificate carries policy mappings.
    PolicyMappingsPresent,
    /// The certificate carries name constraints.
    NameConstraintsPresent,
    /// The extension must be critical and is not.
    NotCritical(ExtensionId),
    /// The extension must not be critical and is.
    Critical(ExtensionId),
    /// The KeyUsage of a CA is not critical, or lacks keyCertSign or cRLSign.
    KeyUsageNotForCa,
    /// The BasicConstraints of a CA are not critical, or cA is false, or a
    /// path length is given.
    BasicConstraintsNotForCa,
    /// The certificate carries an extension that the profile has no place for.
    UnexpectedExtension,
    /// The extension must be present and is not.
    Missing(ExtensionId),
}

impl ExtensionKind {
    /// Which extension this is, without its content.
    pub open spec fn id(self) -> ExtensionId {
        match self {
            ExtensionKind::KeyUsage { .. } => ExtensionId::KeyUsage,
            ExtensionKind::CertificatePolicies => ExtensionId::CertificatePolicies,
            ExtensionKind::SubjectAlternativeName => ExtensionId::SubjectAlternativeName,
            ExtensionKind::AuthorityKeyIdentifier => ExtensionId::AuthorityKeyIdentifier,
            ExtensionKind::SubjectKeyIdentifier => ExtensionId::SubjectKeyIdentifier,
            ExtensionKind::BasicConstraints { .. } => ExtensionId::BasicConstraints,
            ExtensionKind::PolicyMappings => ExtensionId::PolicyMappings,
            ExtensionKind::NameConstraints => ExtensionId::NameConstraints,
            ExtensionKind::Other => ExtensionId::Other,
        }
    }

    /// Which extension this is, without its content.
    pub fn ext_id(&self) -> (id: ExtensionId)
        ensures
            id == self.id(),
    {
        match self {
            ExtensionKind::KeyUsage { .. } => ExtensionId::KeyUsage,
            ExtensionKind::CertificatePolicies => ExtensionId::CertificatePolicies,
            ExtensionKind::SubjectAlternativeName => ExtensionId::SubjectAlternativeName,
            ExtensionKind::AuthorityKeyIdentifier => ExtensionId::AuthorityKeyIdentifier,
            ExtensionKind::SubjectKeyIdentifier => ExtensionId::SubjectKeyIdentifier,
            ExtensionKind::BasicConstraints { .. } => ExtensionId::BasicConstraints,
            ExtensionKind::PolicyMappings => ExtensionId::PolicyMappings,
            ExtensionKind::NameConstraints => ExtensionId::NameConstraints,
            ExtensionKind::Other => ExtensionId::Other,
        }
    }
}

/// An extension that must be critical.
pub open spec fn must_be_critical(ext: CertExtension) -> Option<CertError> {
    if ext.critical {
        None
    } else {
        Some(CertError::NotCritical(ext.kind.id()))
    }
}

/// An extension that must not be critical.
pub open spec fn must_not_be_critical(ext: CertExtension) -> Option<CertError> {
    if ext.critical {
        Some(CertError::Critical(ext.kind.id()))
    } else {
        None
    }
}

/// What a profile holds against one extension taken alone, if anything.
pub open spec fn fault_of(profile: CertProfile, ext: CertExtension) -> Option<CertError> {
    match profile {
        CertProfile::Device => match ext.kind {
            ExtensionKind::PolicyMappings => Some(CertError::PolicyMappingsPresent),
            ExtensionKind::NameConstraints => Some(CertError::NameConstraintsPresent),
            ExtensionKind::KeyUsage { .. } => must_be_critical(ext),
            ExtensionKind::CertificatePolicies => must_be_critical(ext),
            ExtensionKind::SubjectAlternativeName => must_be_critical(ext),
            ExtensionKind::AuthorityKeyIdentifier => must_not_be_critical(ext),
            ExtensionKind::SubjectKeyIdentifier => must_not_be_critical(ext),
            _ => Some(CertError::UnexpectedExtension),
        },
        CertProfile::SelfSignedClient => match ext.kind {
            ExtensionKind::PolicyMappings => Some(CertError::PolicyMappingsPresent),
            ExtensionKind::NameConstraints => Some(CertError::NameConstraintsPresent),
            ExtensionKind::KeyUsage { .. } => must_be_critical(ext),
            ExtensionKind::CertificatePolicies => must_be_critical(ext),
            ExtensionKind::SubjectKeyIdentifier => must_not_be_critical(ext),
            _ => Some(CertError::UnexpectedExtension),
        },
        CertProfile::Ca => match ext.kind {
            ExtensionKind::KeyUsage { key_cert_sign, crl_sign } => if ext.critical && key_cert_sign
                && crl_sign {
                None
            } else {
                Some(CertError::KeyUsageNotForCa)
            },
            ExtensionKind::CertificatePolicies => must_be_critical(ext),
            ExtensionKind::BasicConstraints { ca, path_len } => if ext.critical && ca
                && path_len is None {
                None
            } else {
                Some(CertError::BasicConstraintsNotForCa)
            },
            ExtensionKind::SubjectKeyIdentifier => must_not_be_critical(ext),
            _ => Some(CertError::UnexpectedExtension),
        },
    }
}

/// The fault of the first extension that has one.
pub open spec fn first_fault(profile: CertProfile, exts: Seq<CertExtension>) -> Option<CertError>
    decreases exts.len(),
{
    if exts.len() == 0 {
        None
    } else {
        match first_fault(profile, exts.drop_last()) {
            Some(fault) => Some(fault),
            None => fault_of(profile, exts.last()),
        }
    }
}

/// Whether the certificate carries the extension.
pub open spec fn present(exts: Seq<CertExtension>, id: ExtensionId) -> bool {
    exists|i: int| 0 <= i < exts.len() && (#[trigger] exts[i]).kind.id() == id
}

/// Whether a profile asks for the extension.
pub open spec fn required(profile: CertProfile, id: ExtensionId) -> bool {
    match profile {
        CertProfile::Device => id == ExtensionId::KeyUsage || id == ExtensionId::CertificatePolicies
            || id == ExtensionId::SubjectAlternativeName || id
            == ExtensionId::AuthorityKeyIdentifier,
        CertProfile::SelfSignedClient => id == ExtensionId::KeyUsage || id
            == ExtensionId::CertificatePolicies,
        CertProfile::Ca => id == ExtensionId::KeyUsage || id == ExtensionId::CertificatePolicies
            || id == ExtensionId::BasicConstraints || id == ExtensionId::SubjectKeyIdentifier,
    }
}

/// The first required extension that the certificate lacks, in the order in
/// which a profile reports them.
pub open spec fn first_missing(profile: CertProfile, exts: Seq<CertExtension>) -> Option<
    ExtensionId,
> {
    match profile {
        CertProfile::Device => if !present(exts, ExtensionId::KeyUsage) {
            Some(ExtensionId::KeyUsage)
        } else if !present(exts, ExtensionId::CertificatePolicies) {
            Some(ExtensionId::CertificatePolicies)
        } else if !present(exts, ExtensionId::SubjectAlternativeName) {
            Some(ExtensionId::SubjectAlternativeName)
        } else if !present(exts, ExtensionId::AuthorityKeyIdentifier) {
            Some(ExtensionId::AuthorityKeyIdentifier)
        } else {
            None
        },
        CertProfile::SelfSignedClient => if !present(exts, ExtensionId::KeyUsage) {
            Some(ExtensionId::KeyUsage)
        } else if !present(exts, ExtensionId::CertificatePolicies) {
            Some(ExtensionId::CertificatePolicies)
        } else {
            None
        },
        CertProfile::Ca => if !present(exts, ExtensionId::KeyUsage) {
            Some(ExtensionId::KeyUsage)
        } else if !present(exts, ExtensionId::CertificatePolicies) {
            Some(ExtensionId::CertificatePolicies)
        } else if !present(exts, ExtensionId::BasicConstraints) {
            Some(ExtensionId::BasicConstraints)
        } else if !present(exts, ExtensionId::SubjectKeyIdentifier) {
            Some(ExtensionId::SubjectKeyIdentifier)
        } else {
            None
        },
    }
}

/// What a profile says of a list of extensions: the fault of the first
/// extension that has one; else the first required extension that is missing;
/// else that the list is accepted.
pub open spec fn verdict(profile: CertProfile, exts: Seq<CertExtension>) -> Result<(), CertError> {
    match first_fault(profile, exts) {
        Some(fault) => Err(fault),
        None => match first_missing(profile, exts) {
            Some(id) => Err(CertError::Missing(id)),
            None => Ok(()),
        },
    }
}

/// The profile as a table: no extension has a fault, and every required
/// extension is there.
pub open spec fn accepted(profile: CertProfile, exts: Seq<CertExtension>) -> bool {
    &&& forall|i: int| 0 <= i < exts.len() ==> fault_of(profile, #[trigger] exts[i]) is None
    &&& forall|id: ExtensionId| #[trigger] required(profile, id) ==> present(exts, id)
}

/// The fault of a list is that of its first extension that has one: no
/// extension before it has a fault.
pub proof fn lemma_first_fault(profile: CertProfile, exts: Seq<CertExtension>)
    ensures
        first_fault(profile, exts) is None <==> forall|i: int|
            0 <= i < exts.len() ==> fault_of(profile, #[trigger] exts[i]) is None,
        first_fault(profile, exts) matches Some(fault) ==> exists|i: int|
            0 <= i < exts.len() && fault_of(profile, #[trigger] exts[i]) == Some(fault) && forall|
                j: int,
            |
                0 <= j < i ==> fault_of(profile, #[trigger] exts[j]) is None,
    decreases exts.len(),
{
    if exts.len() > 0 {
        let front = exts.drop_last();
        lemma_first_fault(profile, front);
        assert(forall|i: int| 0 <= i < front.len() ==> front[i] == exts[i]);
        match first_fault(profile, front) {
            Some(fault) => {
                let i = choose|i: int|
                    0 <= i < front.len() && fault_of(profile, #[trigger] front[i]) == Some(fault)
                        && forall|j: int|
                        0 <= j < i ==> fault_of(profile, #[trigger] front[j]) is None;
                assert(fault_of(profile, exts[i]) == Some(fault));
                assert(forall|j: int| 0 <= j < i ==> fault_of(profile, #[trigger] exts[j]) is None);
            },
            None => {
                let last = exts.len() - 1;
                assert(forall|j: int|
                    0 <= j < last ==> fault_of(profile, #[trigger] exts[j]) is None) by {
                    assert forall|j: int| 0 <= j < last implies fault_of(
                        profile,
                        #[trigger] exts[j],
                    ) is None by {
                        assert(front[j] == exts[j]);
                    }
                }
                if fault_of(profile, exts.last()) is Some {
                    assert(fault_of(profile, exts[last]) == first_fault(profile, exts));
                }
            },
        }
    }
}

/// A list is accepted exactly when it meets the profile's table: the verdict
/// is `Ok` if and only if no extension has a fault and none that the profile
/// requires is missing.
pub proof fn lemma_verdict_accepts(profile: CertProfile, exts: Seq<CertExtension>)
    ensures
        verdict(profile, exts) is Ok <==> accepted(profile, exts),
{
    lemma_first_fault(profile, exts);
    if accepted(profile, exts) {
        assert(required(profile, ExtensionId::KeyUsage));
        assert(required(profile, ExtensionId::CertificatePolicies));
        match profile {
            CertProfile::Device => {
                assert(required(profile, ExtensionId::SubjectAlternativeName));
                assert(required(profile, ExtensionId::AuthorityKeyIdentifier));
            },
            CertProfile::SelfSignedClient => {},
            CertProfile::Ca => {
                assert(required(profile, ExtensionId::BasicConstraints));
                assert(required(profile, ExtensionId::SubjectKeyIdentifier));
            },
        }
    }
}

/// A certificate that breaks a row of the table is rejected: one extension
/// with a fault is enough, whatever else the certificate carries.
pub proof fn lemma_fault_rejected(profile: CertProfile, exts: Seq<CertExtension>, i: int)
    requires
        0 <= i < exts.len(),
        fault_of(profile, exts[i]) is Some,
    ensures
        verdict(profile, exts) is Err,
{
    lemma_first_fault(profile, exts);
}

/// A certificate that lacks an extension which the profile requires is
/// rejected.
pub proof fn lemma_missing_rejected(profile: CertProfile, exts: Seq<CertExtension>, id: ExtensionId)
    requires
        required(profile, id),
        !present(exts, id),
    ensures
        verdict(profile, exts) is Err,
{
}

/// Taking one more extension into account: it is present, and so is whatever
/// was present before.
proof fn lemma_present_step(exts: Seq<CertExtension>, n: int, id: ExtensionId)
    requires
        0 <= n < exts.len(),
    ensures
        present(exts.take(n + 1), id) == (present(exts.take(n), id) || exts[n].kind.id() == id),
{
    let shorter = exts.take(n);
    let longer = exts.take(n + 1);
    if present(shorter, id) {
        let i = choose|i: int| 0 <= i < shorter.len() && (#[trigger] shorter[i]).kind.id() == id;
        assert(longer[i].kind.id() == id);
    }
    if exts[n].kind.id() == id {
        assert(longer[n].kind.id() == id);
    }
    if present(longer, id) {
        let i = choose|i: int| 0 <= i < longer.len() && (#[trigger] longer[i]).kind.id() == id;
        if i < n {
            assert(shorter[i].kind.id() == id);
        }
    }
}

/// What a profile holds against one extension taken alone, if anything.
pub fn extension_fault(profile: CertProfile, ext: &CertExtension) -> (fault: Option<CertError>)
    ensures
        fault == fault_of(profile, *ext),
{
    let id = ext.kind.ext_id();
    let not_critical = if ext.critical {
        None
    } else {
        Some(CertError::NotCritical(id))
    };
    let critical = if ext.critical {
        Some(CertError::Critical(id))
    } else {
        None
    };
    match profile {
        CertProfile::Device => match ext.kind {
            ExtensionKind::PolicyMappings => Some(CertError::PolicyMappingsPresent),
            ExtensionKind::NameConstraints => Some(CertError::NameConstraintsPresent),
            ExtensionKind::KeyUsage { .. } => not_critical,
            ExtensionKind::CertificatePolicies => not_critical,
            ExtensionKind::SubjectAlternativeName => not_critical,
            ExtensionKind::AuthorityKeyIdentifier => critical,
            ExtensionKind::SubjectKeyIdentifier => critical,
            _ => Some(CertError::UnexpectedExtension),
        },
        CertProfile::SelfSignedClient => match ext.kind {
            ExtensionKind::PolicyMappings => Some(CertError::PolicyMappingsPresent),
            ExtensionKind::NameConstraints => Some(CertError::NameConstraintsPresent),
            ExtensionKind::KeyUsage { .. } => not_critical,
            ExtensionKind::CertificatePolicies => not_critical,
            ExtensionKind::SubjectKeyIdentifier => critical,
            _ => Some(CertError::UnexpectedExtension),
        },
        CertProfile::Ca => match ext.kind {
            ExtensionKind::KeyUsage { key_cert_sign, crl_sign } => {
                if ext.critical && key_cert_sign && crl_sign {
                    None
                } else {
                    Some(CertError::KeyUsageNotForCa)
                }
            },
            ExtensionKind::CertificatePolicies => not_critical,
            ExtensionKind::BasicConstraints { ca, path_len } => {
                if ext.critical && ca && path_len.is_none() {
                    None
                } else {
                    Some(CertError::BasicConstraintsNotForCa)
                }
            },
            ExtensionKind::SubjectKeyIdentifier => critical,
            _ => Some(CertError::UnexpectedExtension),
        },
    }
}

/// Holds the extensions of a certificate against a profile.
///
/// The extensions are gone through in order, and the first that has a fault
/// decides. Where none has, the first required extension that is missing
/// decides.
pub fn check_extensions(profile: CertProfile, exts: &[CertExtension]) -> (r: Result<(), CertError>)
    ensures
        r == verdict(profile, exts@),
{
    let mut key_usage = false;
    let mut policies = false;
    let mut alt_name = false;
    let mut authority_key = false;
    let mut subject_key = false;
    let mut basic = false;
    let mut n: usize = 0;
    while n < exts.len()
        invariant
            n <= exts.len(),
            first_fault(profile, exts@.take(n as int)) is None,
            key_usage == present(exts@.take(n as int), ExtensionId::KeyUsage),
            policies == present(exts@.take(n as int), ExtensionId::CertificatePolicies),
            alt_name == present(exts@.take(n as int), ExtensionId::SubjectAlternativeName),
            authority_key == present(exts@.take(n as int), ExtensionId::AuthorityKeyIdentifier),
            subject_key == present(exts@.take(n as int), ExtensionId::SubjectKeyIdentifier),
            basic == present(exts@.take(n as int), ExtensionId::BasicConstraints),
        decreases exts.len() - n,
    {
        let ext = &exts[n];
        proof {
            assert(exts@.take(n + 1).drop_last() == exts@.take(n as int));
            assert(exts@.take(n + 1).last() == exts@[n as int]);
            lemma_present_step(exts@, n as int, ExtensionId::KeyUsage);
            lemma_present_step(exts@, n as int, ExtensionId::CertificatePolicies);
            lemma_present_step(exts@, n as int, ExtensionId::SubjectAlternativeName);
            lemma_present_step(exts@, n as int, ExtensionId::AuthorityKeyIdentifier);
            lemma_present_step(exts@, n as int, ExtensionId::SubjectKeyIdentifier);
            lemma_present_step(exts@, n as int, ExtensionId::BasicConstraints);
        }
        match extension_fault(profile, ext) {
            Some(fault) => {
                proof {
                    lemma_fault_decides(profile, exts@, n as int);
                }
                return Err(fault);
            },
            None => {},
        }
        match ext.kind.ext_id() {
            ExtensionId::KeyUsage => {
                key_usage = true;
            },
            ExtensionId::CertificatePolicies => {
                policies = true;
            },
            ExtensionId::SubjectAlternativeName => {
                alt_name = true;
            },
            ExtensionId::AuthorityKeyIdentifier => {
                authority_key = true;
            },
            ExtensionId::SubjectKeyIdentifier => {
                subject_key = true;
            },
            ExtensionId::BasicConstraints => {
                basic = true;
            },
            _ => {},
        }
        n += 1;
    }
    assert(exts@.take(n as int) == exts@);
    let missing = match profile {
        CertProfile::Device => {
            if !key_usage {
                Some(ExtensionId::KeyUsage)
            } else if !policies {
                Some(ExtensionId::CertificatePolicies)
            } else if !alt_name {
                Some(ExtensionId::SubjectAlternativeName)
            } else if !authority_key {
                Some(ExtensionId::AuthorityKeyIdentifier)
            } else {
                None
            }
        },
        CertProfile::SelfSignedClient => {
            if !key_usage {
                Some(ExtensionId::KeyUsage)
            } else if !policies {
                Some(ExtensionId::CertificatePolicies)
            } else {
                None
            }
        },
        CertProfile::Ca => {
            if !key_usage {
                Some(ExtensionId::KeyUsage)
            } else if !policies {
                Some(ExtensionId::CertificatePolicies)
            } else if !basic {
                Some(ExtensionId::BasicConstraints)
            } else if !subject_key {
                Some(ExtensionId::SubjectKeyIdentifier)
            } else {
                None
            }
        },
    };
    match missing {
        Some(id) => Err(CertError::Missing(id)),
        None => Ok(()),
    }
}

/// Where the extensions before the `n`th have no fault and the `n`th has
/// one, that one is the fault of the whole list.
proof fn lemma_fault_decides(profile: CertProfile, exts: Seq<CertExtension>, n: int)
    requires
        0 <= n < exts.len(),
        first_fault(profile, exts.take(n)) is None,
        fault_of(profile, exts[n]) is Some,
    ensures
        first_fault(profile, exts) == fault_of(profile, exts[n]),
    decreases exts.len() - n,
{
    if n == exts.len() - 1 {
        assert(exts.drop_last() == exts.take(n));
    } else {
        let front = exts.drop_last();
        assert(front.take(n) == exts.take(n));
        lemma_fault_decides(profile, front, n);
    }
}

/// `x509_parser::certificate::X509Certificate`, a parsed certificate. Nothing
/// of it is visible here but the extensions that the functions below read.
#[verifier::external_type_specification]
#[verifier::external_body]
pub struct ExX509Certificate<'a>(X509Certificate<'a>);

/// The DER bytes that `x509_parser::pem::parse_x509_pem` decodes from the
/// first PEM block of a text; `None` where it reports an error.
pub uninterp spec fn pem_payload(text: Seq<u8>) -> Option<Seq<u8>>;

/// The extensions of the certificate that `x509_parser::parse_x509_certificate`
/// reads from DER bytes, in the certificate's order; `None` where it reports
/// an error.
pub uninterp spec fn der_extensions(der: Seq<u8>) -> Option<Seq<CertExtension>>;

/// The extensions that a parsed certificate holds, in its order: the items of
/// the slice that `TbsCertificate::extensions` returns, each as a
/// [`CertExtension`].
pub uninterp spec fn certificate_extensions(cert: X509Certificate<'_>) -> Seq<CertExtension>;

/// Calls `x509_parser::pem::parse_x509_pem` and hands out the contents of the
/// block it decoded. Nothing is claimed of the bytes but that they are what
/// the parser gives for this text.
#[verifier::external_body]
fn decode_pem(text: &[u8]) -> (der: Option<Vec<u8>>)
    ensures
        der matches Some(bytes) ==> pem_payload(text@) == Some(bytes@),
        der is None ==> pem_payload(text@) is None,
{
    x509_parser::pem::parse_x509_pem(text).ok().map(|(_, pem)| pem.contents)
}

/// Calls `x509_parser::parse_x509_certificate`. Nothing is claimed of the
/// certificate but that its extensions are what the parser gives for these
/// bytes.
#[verifier::external_body]
fn parse_certificate<'a>(der: &'a [u8]) -> (parsed: Option<X509Certificate<'a>>)
    ensures
        parsed matches Some(cert) ==> der_extensions(der@) == Some(certificate_extensions(cert)),
        parsed is None ==> der_extensions(der@) is None,
{
    x509_parser::parse_x509_certificate(der).ok().map(|(_, cert)| cert)
}

/// The length of the slice that `TbsCertificate::extensions` returns.
#[verifier::external_body]
fn extension_count(cert: &X509Certificate<'_>) -> (count: usize)
    ensures
        count == certificate_extensions(*cert).len(),
{
    cert.extensions().len()
}

/// The `critical` field of one item of `TbsCertificate::extensions`.
#[verifier::external_body]
fn extension_critical(cert: &X509Certificate<'_>, index: usize) -> (critical: bool)
    requires
        index < certificate_extensions(*cert).len(),
    ensures
        critical == certificate_extensions(*cert)[index as int].critical,
{
    cert.extensions()[index].critical
}

/// What `X509Extension::parsed_extension` gives for one item of
/// `TbsCertificate::extensions`, variant for variant. Of KeyUsage it keeps
/// `key_cert_sign()` and `crl_sign()`, of BasicConstraints the fields `ca` and
/// `path_len_constraint`; a variant that no profile names becomes `Other`.
#[verifier::external_body]
fn extension_kind(cert: &X509Certificate<'_>, index: usize) -> (kind: ExtensionKind)
    requires
        index < certificate_extensions(*cert).len(),
    ensures
        kind == certificate_extensions(*cert)[index as int].kind,
{
    match cert.extensions()[index].parsed_extension() {
        ParsedExtension::KeyUsage(u) => ExtensionKind::KeyUsage { key_cert_sign: u.key_cert_sign(), crl_sign: u.crl_sign() },
        ParsedExtension::CertificatePolicies(_) => ExtensionKind::CertificatePolicies,
        ParsedExtension::SubjectAlternativeName(_) => ExtensionKind::SubjectAlternativeName,
        ParsedExtension::AuthorityKeyIdentifier(_) => ExtensionKind::AuthorityKeyIdentifier,
        ParsedExtension::SubjectKeyIdentifier(_) => ExtensionKind::SubjectKeyIdentifier,
        ParsedExtension::BasicConstraints(b) => ExtensionKind::BasicConstraints { ca: b.ca, path_len: b.path_len_constraint },
        ParsedExtension::PolicyMappings(_) => ExtensionKind::PolicyMappings,
        ParsedExtension::NameConstraints(_) => ExtensionKind::NameConstraints,
        _ => ExtensionKind::Other,
    }
}

/// The extensions of the certificate in the first PEM block of a text, or why
/// there are none.
pub open spec fn extensions_of(text: Seq<u8>) -> Result<Seq<CertExtension>, CertError> {
    match pem_payload(text) {
        None => Err(CertError::Pem),
        Some(der) => match der_extensions(der) {
            None => Err(CertError::Der),
            Some(exts) => Ok(exts),
        },
    }
}

/// What a profile says of the certificate in the first PEM block of a text.
pub open spec fn cert_verdict(profile: CertProfile, text: Seq<u8>) -> Result<(), CertError> {
    match extensions_of(text) {
        Err(error) => Err(error),
        Ok(exts) => verdict(profile, exts),
    }
}

/// Reads the extensions of a PEM-encoded certificate.
pub fn read_extensions(text: &[u8]) -> (r: Result<Vec<CertExtension>, CertError>)
    ensures
        match r {
            Ok(exts) => extensions_of(text@) matches Ok(found) && found == exts@,
            Err(error) => extensions_of(text@) matches Err(why) && why == error,
        },
{
    let der = match decode_pem(text) {
        None => {
            return Err(CertError::Pem);
        },
        Some(der) => der,
    };
    let cert = match parse_certificate(der.as_slice()) {
        None => {
            return Err(CertError::Der);
        },
        Some(cert) => cert,
    };
    let count = extension_count(&cert);
    let mut exts: Vec<CertExtension> = Vec::new();
    let mut index: usize = 0;
    while index < count
        invariant
            index <= count,
            count == certificate_extensions(cert).len(),
            exts@ == certificate_extensions(cert).take(index as int),
        decreases count - index,
    {
        let kind = extension_kind(&cert, index);
        let critical = extension_critical(&cert, index);
        exts.push(CertExtension { kind, critical });
        index += 1;
    }
    assert(exts@ == certificate_extensions(cert));
    Ok(exts)
}

/// Holds a PEM-encoded certificate against a profile.
pub fn check_cert(profile: CertProfile, contents: &[u8]) -> (r: Result<(), CertError>)
    ensures
        r == cert_verdict(profile, contents@),
{
    match read_extensions(contents) {
        Err(error) => Err(error),
        Ok(exts) => check_extensions(profile, exts.as_slice()),
    }
}

/// Verifies that a PEM-encoded certificate meets the requirements of an
/// IEEE 2030.5 device certificate (section 6.11.8.3.3).
///
/// It carries, critical, KeyUsage, CertificatePolicies and
/// SubjectAlternativeName, and, not critical, AuthorityKeyIdentifier; it may
/// carry a SubjectKeyIdentifier that is not critical; it carries neither
/// policy mappings nor name constraints, and no other extension.
pub fn check_device_cert(contents: &[u8]) -> (r: Result<(), CertError>)
    ensures
        r == cert_verdict(CertProfile::Device, contents@),
{
    check_cert(CertProfile::Device, contents)
}

/// Verifies that a PEM-encoded certificate meets the requirements of an
/// IEEE 2030.5 self-signed client certificate (section 6.11.8.4.3).
///
/// It carries, critical, KeyUsage and CertificatePolicies; it may carry a
/// SubjectKeyIdentifier that is not critical; it carries neither policy
/// mappings nor name constraints, and no other extension.
pub fn check_self_signed_client_cert(contents: &[u8]) -> (r: Result<(), CertError>)
    ensures
        r == cert_verdict(CertProfile::SelfSignedClient, contents@),
{
    check_cert(CertProfile::SelfSignedClient, contents)
}

/// Verifies that a PEM-encoded certificate meets the requirements of a
/// certification authority's certificate.
///
/// It carries, critical, a KeyUsage that asserts keyCertSign and cRLSign,
/// CertificatePolicies, and BasicConstraints with cA set and no path length;
/// it carries a SubjectKeyIdentifier that is not critical, and no other
/// extension.
pub fn check_ca(contents: &[u8]) -> (r: Result<(), CertError>)
    ensures
        r == cert_verdict(CertProfile::Ca, contents@),
{
    check_cert(CertProfile::Ca, contents)
}

/// The name of an extension, as error messages give it.
pub open spec fn name_of(id: ExtensionId) -> Seq<char> {
    match id {
        ExtensionId::KeyUsage => "KeyUsage"@,
        ExtensionId::CertificatePolicies => "CertificatePolicies"@,
        ExtensionId::SubjectAlternativeName => "SubjectAlternativeName"@,
        ExtensionId::AuthorityKeyIdentifier => "AuthorityKeyIdentifier"@,
        ExtensionId::SubjectKeyIdentifier => "SubjectKeyIdentifier"@,
        ExtensionId::BasicConstraints => "BasicConstraints"@,
        ExtensionId::PolicyMappings => "PolicyMappings"@,
        ExtensionId::NameConstraints => "NameConstraints"@,
        ExtensionId::Other => "Unknown"@,
    }
}

/// The text of an error.
pub open spec fn message_of(error: CertError) -> Seq<char> {
    match error {
        CertError::Pem => "The certificate is not PEM encoded."@,
        CertError::Der => "The PEM block does not hold an X.509 certificate."@,
        CertError::PolicyMappingsPresent => "Device Certificates cannot contain policy mappings."@,
        CertError::NameConstraintsPresent => "Device Certificates cannot contain name constraints."@,
        CertError::NotCritical(id) => name_of(id) + " extension must be critical."@,
        CertError::Critical(id) => name_of(id) + " extension cannot be critical."@,
        CertError::KeyUsageNotForCa =>
            "KeyUsage extension must be critical and keyCertSign and crlSign must be true."@,
        CertError::BasicConstraintsNotForCa =>
            "BasicConstraints must be critical, cA must be true, and pathLen must be absent."@,
        CertError::UnexpectedExtension =>
            "Unexpected extension or unparsed extension encountered."@,
        CertError::Missing(id) => name_of(id) + " extension not present."@,
    }
}

impl ExtensionId {
    /// The name of the extension.
    pub fn name(&self) -> (name: &'static str)
        ensures
            name@ == name_of(*self),
    {
        match self {
            ExtensionId::KeyUsage => "KeyUsage",
            ExtensionId::CertificatePolicies => "CertificatePolicies",
            ExtensionId::SubjectAlternativeName => "SubjectAlternativeName",
            ExtensionId::AuthorityKeyIdentifier => "AuthorityKeyIdentifier",
            ExtensionId::SubjectKeyIdentifier => "SubjectKeyIdentifier",
            ExtensionId::BasicConstraints => "BasicConstraints",
            ExtensionId::PolicyMappings => "PolicyMappings",
            ExtensionId::NameConstraints => "NameConstraints",
            ExtensionId::Other => "Unknown",
        }
    }
}

impl CertError {
    /// A short description of the error, naming the extension at fault.
    pub fn message(&self) -> (text: String)
        ensures
            text@ == message_of(*self),
    {
        match self {
            CertError::Pem => String::from_str("The certificate is not PEM encoded."),
            CertError::Der => String::from_str("The PEM block does not hold an X.509 certificate."),
            CertError::PolicyMappingsPresent => String::from_str(
                "Device Certificates cannot contain policy mappings.",
            ),
            CertError::NameConstraintsPresent => String::from_str(
                "Device Certificates cannot contain name constraints.",
            ),
            CertError::NotCritical(id) => String::from_str(id.name()).concat(
                " extension must be critical.",
            ),
            CertError::Critical(id) => String::from_str(id.name()).concat(
                " extension cannot be critical.",
            ),
            CertError::KeyUsageNotForCa => String::from_str(
                "KeyUsage extension must be critical and keyCertSign and crlSign must be true.",
            ),
            CertError::BasicConstraintsNotForCa => String::from_str(
                "BasicConstraints must be critical, cA must be true, and pathLen must be absent.",
            ),
            CertError::UnexpectedExtension => String::from_str(
                "Unexpected extension or unparsed extension encountered.",
            ),
            CertError::Missing(id) => String::from_str(id.name()).concat(" extension not present."),
        }
    }
}

} // verus!
