use sep2_client::cert::{
    check_ca, check_cert, check_device_cert, check_extensions, check_self_signed_client_cert,
    extension_fault, read_extensions, CertError, CertExtension, CertProfile, ExtensionId,
    ExtensionKind,
};

const DEVICE: &str = "\
-----BEGIN CERTIFICATE-----\n\
MIIBaTCCAQ6gAwIBAgIBATAKBggqhkjOPQQDAjAOMQwwCgYDVQQDDANkZXYwHhcN\n\
MjQwMTAxMDAwMDAwWhcNMzQwMTAxMDAwMDAwWjAOMQwwCgYDVQQDDANkZXYwWTAT\n\
BgcqhkjOPQIBBggqhkjOPQMBBwNCAAQB47dgbYhOfBY4WRPnbt+v3QWayjFengbL\n\
ic85QgAebyyuEuPdgoXV5FqBmRgmX8O8MNICpi6OQHgvj+RJr1nLo10wWzAOBgNV\n\
HQ8BAf8EBAMCA4gwGgYDVR0gAQH/BBAwDjAMBgorBgEEAYK+HAEBMBwGA1UdEQEB\n\
/wQSMBCCDmRldmljZS5leGFtcGxlMA8GA1UdIwQIMAaABAECAwQwCgYIKoZIzj0E\n\
AwIDSQAwRgIhAKibdaV2vxWK1TUKqnRi8ZtcphaBN44oQExf71O4I5twAiEAy4VG\n\
9ACkamOacHR25Uq5zLga5Q7S9dQFljObIps5RKg=\n\
-----END CERTIFICATE-----\n";

const DEVICE_WITH_SKI: &str = "\
-----BEGIN CERTIFICATE-----\n\
MIIBdjCCAR2gAwIBAgIBATAKBggqhkjOPQQDAjAOMQwwCgYDVQQDDANkZXYwHhcN\n\
MjQwMTAxMDAwMDAwWhcNMzQwMTAxMDAwMDAwWjAOMQwwCgYDVQQDDANkZXYwWTAT\n\
BgcqhkjOPQIBBggqhkjOPQMBBwNCAAQB47dgbYhOfBY4WRPnbt+v3QWayjFengbL\n\
ic85QgAebyyuEuPdgoXV5FqBmRgmX8O8MNICpi6OQHgvj+RJr1nLo2wwajAOBgNV\n\
HQ8BAf8EBAMCA4gwGgYDVR0gAQH/BBAwDjAMBgorBgEEAYK+HAEBMBwGA1UdEQEB\n\
/wQSMBCCDmRldmljZS5leGFtcGxlMA8GA1UdIwQIMAaABAECAwQwDQYDVR0OBAYE\n\
BAUGBwgwCgYIKoZIzj0EAwIDRwAwRAIgZyufP9khHPrSe7472pnGsTYk9txfFO9i\n\
pqlDM944TuICIGaZXytf7PfEqoUZlulj5cVXWfo1rJE/XlYcRGgX46sh\n\
-----END CERTIFICATE-----\n";

const DEVICE_NAME_CONSTRAINTS: &str = "\
-----BEGIN CERTIFICATE-----\n\
MIIBgzCCASmgAwIBAgIBATAKBggqhkjOPQQDAjAOMQwwCgYDVQQDDANkZXYwHhcN\n\
MjQwMTAxMDAwMDAwWhcNMzQwMTAxMDAwMDAwWjAOMQwwCgYDVQQDDANkZXYwWTAT\n\
BgcqhkjOPQIBBggqhkjOPQMBBwNCAAQB47dgbYhOfBY4WRPnbt+v3QWayjFengbL\n\
ic85QgAebyyuEuPdgoXV5FqBmRgmX8O8MNICpi6OQHgvj+RJr1nLo3gwdjAOBgNV\n\
HQ8BAf8EBAMCA4gwGgYDVR0gAQH/BBAwDjAMBgorBgEEAYK+HAEBMBwGA1UdEQEB\n\
/wQSMBCCDmRldmljZS5leGFtcGxlMA8GA1UdIwQIMAaABAECAwQwGQYDVR0eAQH/\n\
BA8wDaALMAmCB2V4YW1wbGUwCgYIKoZIzj0EAwIDSAAwRQIgeEMMTGb8JHavBlIA\n\
E51qOyUF1ossStDnFck3kqjTy4ICIQD3n5BvaHcLSe5xDnigVF7RJDEV2DyX46D6\n\
lKD+f/dzEg==\n\
-----END CERTIFICATE-----\n";

const DEVICE_POLICY_MAPPINGS: &str = "\
-----BEGIN CERTIFICATE-----\n\
MIIBfjCCASWgAwIBAgIBATAKBggqhkjOPQQDAjAOMQwwCgYDVQQDDANkZXYwHhcN\n\
MjQwMTAxMDAwMDAwWhcNMzQwMTAxMDAwMDAwWjAOMQwwCgYDVQQDDANkZXYwWTAT\n\
BgcqhkjOPQIBBggqhkjOPQMBBwNCAAQB47dgbYhOfBY4WRPnbt+v3QWayjFengbL\n\
ic85QgAebyyuEuPdgoXV5FqBmRgmX8O8MNICpi6OQHgvj+RJr1nLo3QwcjAOBgNV\n\
HQ8BAf8EBAMCA4gwGgYDVR0gAQH/BBAwDjAMBgorBgEEAYK+HAEBMBwGA1UdEQEB\n\
/wQSMBCCDmRldmljZS5leGFtcGxlMA8GA1UdIwQIMAaABAECAwQwFQYDVR0hBA4w\n\
DDAKBgMqAwQGAyoDBTAKBggqhkjOPQQDAgNHADBEAiAItwIZacKh2QvxPh1L6KI9\n\
jSp3yXWOBhMxD3/20LLLTAIgO0qSAmY4nk5JQPH788dMLLGTPmkALuMtL5vRbPWa\n\
OJc=\n\
-----END CERTIFICATE-----\n";

const DEVICE_KEY_USAGE_NOT_CRITICAL: &str = "\
-----BEGIN CERTIFICATE-----\n\
MIIBZTCCAQugAwIBAgIBATAKBggqhkjOPQQDAjAOMQwwCgYDVQQDDANkZXYwHhcN\n\
MjQwMTAxMDAwMDAwWhcNMzQwMTAxMDAwMDAwWjAOMQwwCgYDVQQDDANkZXYwWTAT\n\
BgcqhkjOPQIBBggqhkjOPQMBBwNCAAQB47dgbYhOfBY4WRPnbt+v3QWayjFengbL\n\
ic85QgAebyyuEuPdgoXV5FqBmRgmX8O8MNICpi6OQHgvj+RJr1nLo1owWDALBgNV\n\
HQ8EBAMCA4gwGgYDVR0gAQH/BBAwDjAMBgorBgEEAYK+HAEBMBwGA1UdEQEB/wQS\n\
MBCCDmRldmljZS5leGFtcGxlMA8GA1UdIwQIMAaABAECAwQwCgYIKoZIzj0EAwID\n\
SAAwRQIhAP1/kbD8F4shulJ0Ga79iQQQu3XD9cQoCCoRy5JP82d0AiBnZx2fU5Bo\n\
pEGsW8T9Olb6pe7uvKGDfVpiyacvrzDq/w==\n\
-----END CERTIFICATE-----\n";

const DEVICE_NO_ALT_NAME: &str = "\
-----BEGIN CERTIFICATE-----\n\
MIIBSTCB8KADAgECAgEBMAoGCCqGSM49BAMCMA4xDDAKBgNVBAMMA2RldjAeFw0y\n\
NDAxMDEwMDAwMDBaFw0zNDAxMDEwMDAwMDBaMA4xDDAKBgNVBAMMA2RldjBZMBMG\n\
ByqGSM49AgEGCCqGSM49AwEHA0IABAHjt2BtiE58FjhZE+du36/dBZrKMV6eBsuJ\n\
zzlCAB5vLK4S492ChdXkWoGZGCZfw7ww0gKmLo5AeC+P5EmvWcujPzA9MA4GA1Ud\n\
DwEB/wQEAwIDiDAaBgNVHSABAf8EEDAOMAwGCisGAQQBgr4cAQEwDwYDVR0jBAgw\n\
BoAEAQIDBDAKBggqhkjOPQQDAgNIADBFAiEA73ddC94dePpyN18EjiohkVmcAQKX\n\
vCRlNpkajmYb9NMCIGl7w+hvjKJ/8bDF0YmiWOPJLICCcb27GnrhrbXfmvYy\n\
-----END CERTIFICATE-----\n";

const DEVICE_EXTENDED_KEY_USAGE: &str = "\
-----BEGIN CERTIFICATE-----\n\
MIIBfDCCASOgAwIBAgIBATAKBggqhkjOPQQDAjAOMQwwCgYDVQQDDANkZXYwHhcN\n\
MjQwMTAxMDAwMDAwWhcNMzQwMTAxMDAwMDAwWjAOMQwwCgYDVQQDDANkZXYwWTAT\n\
BgcqhkjOPQIBBggqhkjOPQMBBwNCAAQB47dgbYhOfBY4WRPnbt+v3QWayjFengbL\n\
ic85QgAebyyuEuPdgoXV5FqBmRgmX8O8MNICpi6OQHgvj+RJr1nLo3IwcDAOBgNV\n\
HQ8BAf8EBAMCA4gwGgYDVR0gAQH/BBAwDjAMBgorBgEEAYK+HAEBMBwGA1UdEQEB\n\
/wQSMBCCDmRldmljZS5leGFtcGxlMA8GA1UdIwQIMAaABAECAwQwEwYDVR0lBAww\n\
CgYIKwYBBQUHAwEwCgYIKoZIzj0EAwIDRwAwRAIgTemzSM3XzY/2pDRuowe40CTy\n\
Ld8RY6MxDtStfrS2PecCIFnWn2279QgJsRxfXhMkCOT9u2yyimDAUAFVBzYsU6PT\n\
-----END CERTIFICATE-----\n";

const SELF_SIGNED: &str = "\
-----BEGIN CERTIFICATE-----\n\
MIIBODCB36ADAgECAgEBMAoGCCqGSM49BAMCMA4xDDAKBgNVBAMMA2RldjAeFw0y\n\
NDAxMDEwMDAwMDBaFw0zNDAxMDEwMDAwMDBaMA4xDDAKBgNVBAMMA2RldjBZMBMG\n\
ByqGSM49AgEGCCqGSM49AwEHA0IABAHjt2BtiE58FjhZE+du36/dBZrKMV6eBsuJ\n\
zzlCAB5vLK4S492ChdXkWoGZGCZfw7ww0gKmLo5AeC+P5EmvWcujLjAsMA4GA1Ud\n\
DwEB/wQEAwIDiDAaBgNVHSABAf8EEDAOMAwGCisGAQQBgr4cAQEwCgYIKoZIzj0E\n\
AwIDSAAwRQIhAOv3QrOi9UNdRdSJZN4X4Pmp02v29VxsgxEMX1ecs1lxAiAt5UeR\n\
vmo8HvtCt8Eb1AaulSEGHVsZ8+KspH1Wz0pHag==\n\
-----END CERTIFICATE-----\n";

const CA: &str = "\
-----BEGIN CERTIFICATE-----\n\
MIIBWDCB/6ADAgECAgEBMAoGCCqGSM49BAMCMA4xDDAKBgNVBAMMA2RldjAeFw0y\n\
NDAxMDEwMDAwMDBaFw0zNDAxMDEwMDAwMDBaMA4xDDAKBgNVBAMMA2RldjBZMBMG\n\
ByqGSM49AgEGCCqGSM49AwEHA0IABAHjt2BtiE58FjhZE+du36/dBZrKMV6eBsuJ\n\
zzlCAB5vLK4S492ChdXkWoGZGCZfw7ww0gKmLo5AeC+P5EmvWcujTjBMMA4GA1Ud\n\
DwEB/wQEAwIBjjAaBgNVHSABAf8EEDAOMAwGCisGAQQBgr4cAQEwDwYDVR0TAQH/\n\
BAUwAwEB/zANBgNVHQ4EBgQEBQYHCDAKBggqhkjOPQQDAgNIADBFAiB6uwGDSV+e\n\
ZnUwmIciRmKgyw1jWymW8xL4jsksQqP2IQIhAJri8fzpVJkpxY5navbxyqHfGq0W\n\
Hy/F+NIP1Z+dB1zG\n\
-----END CERTIFICATE-----\n";

const CA_PATH_LEN: &str = "\
-----BEGIN CERTIFICATE-----\n\
MIIBWzCCAQKgAwIBAgIBATAKBggqhkjOPQQDAjAOMQwwCgYDVQQDDANkZXYwHhcN\n\
MjQwMTAxMDAwMDAwWhcNMzQwMTAxMDAwMDAwWjAOMQwwCgYDVQQDDANkZXYwWTAT\n\
BgcqhkjOPQIBBggqhkjOPQMBBwNCAAQB47dgbYhOfBY4WRPnbt+v3QWayjFengbL\n\
ic85QgAebyyuEuPdgoXV5FqBmRgmX8O8MNICpi6OQHgvj+RJr1nLo1EwTzAOBgNV\n\
HQ8BAf8EBAMCAY4wGgYDVR0gAQH/BBAwDjAMBgorBgEEAYK+HAEBMBIGA1UdEwEB\n\
/wQIMAYBAf8CAQAwDQYDVR0OBAYEBAUGBwgwCgYIKoZIzj0EAwIDRwAwRAIgFFYj\n\
bczc7qgDBVdZc7NAj0syqvu2hF+/vH25bdkqt4ECIEh5+1i21XUswksl645aivp/\n\
dN2KWSde+e00Ll/As+D7\n\
-----END CERTIFICATE-----\n";

const CA_NO_CRL_SIGN: &str = "\
-----BEGIN CERTIFICATE-----\n\
MIIBWDCB/6ADAgECAgEBMAoGCCqGSM49BAMCMA4xDDAKBgNVBAMMA2RldjAeFw0y\n\
NDAxMDEwMDAwMDBaFw0zNDAxMDEwMDAwMDBaMA4xDDAKBgNVBAMMA2RldjBZMBMG\n\
ByqGSM49AgEGCCqGSM49AwEHA0IABAHjt2BtiE58FjhZE+du36/dBZrKMV6eBsuJ\n\
zzlCAB5vLK4S492ChdXkWoGZGCZfw7ww0gKmLo5AeC+P5EmvWcujTjBMMA4GA1Ud\n\
DwEB/wQEAwICjDAaBgNVHSABAf8EEDAOMAwGCisGAQQBgr4cAQEwDwYDVR0TAQH/\n\
BAUwAwEB/zANBgNVHQ4EBgQEBQYHCDAKBggqhkjOPQQDAgNIADBFAiEAhE0h9Nj8\n\
d1eoV7iAD0ucOrha0ZG06097Rh+e2PVrUxECIF6dq717oUQNywsG/gv9whwt1iJv\n\
/sGCXce23xEnajp8\n\
-----END CERTIFICATE-----\n";

const NO_EXTENSIONS: &str = "\
-----BEGIN CERTIFICATE-----\n\
MIIBCTCBr6ADAgECAgEBMAoGCCqGSM49BAMCMA4xDDAKBgNVBAMMA2RldjAeFw0y\n\
NDAxMDEwMDAwMDBaFw0zNDAxMDEwMDAwMDBaMA4xDDAKBgNVBAMMA2RldjBZMBMG\n\
ByqGSM49AgEGCCqGSM49AwEHA0IABAHjt2BtiE58FjhZE+du36/dBZrKMV6eBsuJ\n\
zzlCAB5vLK4S492ChdXkWoGZGCZfw7ww0gKmLo5AeC+P5EmvWcswCgYIKoZIzj0E\n\
AwIDSQAwRgIhALbN97YkZA+bX15XhzWRwO2QavrUHzGzQP8y572omBMYAiEAkALE\n\
iSJCFlEx+nd23+a2n7hTA37mxGz1abx9EokJLMo=\n\
-----END CERTIFICATE-----\n";


const KEY_USAGE: ExtensionKind = ExtensionKind::KeyUsage { key_cert_sign: false, crl_sign: false };
const CA_KEY_USAGE: ExtensionKind = ExtensionKind::KeyUsage { key_cert_sign: true, crl_sign: true };
const CA_CONSTRAINTS: ExtensionKind = ExtensionKind::BasicConstraints { ca: true, path_len: None };

fn ext(kind: ExtensionKind, critical: bool) -> CertExtension {
    CertExtension { kind, critical }
}

fn device() -> Vec<CertExtension> {
    vec![
        ext(KEY_USAGE, true),
        ext(ExtensionKind::CertificatePolicies, true),
        ext(ExtensionKind::SubjectAlternativeName, true),
        ext(ExtensionKind::AuthorityKeyIdentifier, false),
    ]
}

fn self_signed() -> Vec<CertExtension> {
    vec![ext(KEY_USAGE, true), ext(ExtensionKind::CertificatePolicies, true)]
}

fn ca() -> Vec<CertExtension> {
    vec![
        ext(CA_KEY_USAGE, true),
        ext(ExtensionKind::CertificatePolicies, true),
        ext(CA_CONSTRAINTS, true),
        ext(ExtensionKind::SubjectKeyIdentifier, false),
    ]
}

fn with(mut exts: Vec<CertExtension>, index: usize, replacement: CertExtension) -> Vec<CertExtension> {
    exts[index] = replacement;
    exts
}

fn without(mut exts: Vec<CertExtension>, index: usize) -> Vec<CertExtension> {
    exts.remove(index);
    exts
}

fn and(mut exts: Vec<CertExtension>, added: CertExtension) -> Vec<CertExtension> {
    exts.push(added);
    exts
}

#[test]
fn device_certificate_is_accepted() {
    assert_eq!(check_device_cert(DEVICE.as_bytes()), Ok(()));
}

#[test]
fn device_certificate_may_carry_a_subject_key_identifier() {
    assert_eq!(check_device_cert(DEVICE_WITH_SKI.as_bytes()), Ok(()));
}

#[test]
fn device_certificate_with_name_constraints_is_rejected() {
    let verdict = check_device_cert(DEVICE_NAME_CONSTRAINTS.as_bytes());
    assert_eq!(verdict, Err(CertError::NameConstraintsPresent));
    assert_eq!(
        verdict.unwrap_err().message(),
        "Device Certificates cannot contain name constraints."
    );
}

#[test]
fn device_certificate_with_policy_mappings_is_rejected() {
    let verdict = check_device_cert(DEVICE_POLICY_MAPPINGS.as_bytes());
    assert_eq!(verdict, Err(CertError::PolicyMappingsPresent));
    assert_eq!(
        verdict.unwrap_err().message(),
        "Device Certificates cannot contain policy mappings."
    );
}

#[test]
fn device_certificate_needs_a_critical_key_usage() {
    assert_eq!(
        check_device_cert(DEVICE_KEY_USAGE_NOT_CRITICAL.as_bytes()),
        Err(CertError::NotCritical(ExtensionId::KeyUsage))
    );
}

#[test]
fn device_certificate_needs_a_subject_alternative_name() {
    assert_eq!(
        check_device_cert(DEVICE_NO_ALT_NAME.as_bytes()),
        Err(CertError::Missing(ExtensionId::SubjectAlternativeName))
    );
}

#[test]
fn device_certificate_with_another_extension_is_rejected() {
    assert_eq!(
        check_device_cert(DEVICE_EXTENDED_KEY_USAGE.as_bytes()),
        Err(CertError::UnexpectedExtension)
    );
}

#[test]
fn certificate_without_extensions_lacks_key_usage_first() {
    assert_eq!(
        check_device_cert(NO_EXTENSIONS.as_bytes()),
        Err(CertError::Missing(ExtensionId::KeyUsage))
    );
    assert_eq!(
        check_self_signed_client_cert(NO_EXTENSIONS.as_bytes()),
        Err(CertError::Missing(ExtensionId::KeyUsage))
    );
    assert_eq!(check_ca(NO_EXTENSIONS.as_bytes()), Err(CertError::Missing(ExtensionId::KeyUsage)));
}

#[test]
fn self_signed_client_certificate_is_accepted() {
    assert_eq!(check_self_signed_client_cert(SELF_SIGNED.as_bytes()), Ok(()));
}

#[test]
fn self_signed_client_certificate_is_no_device_certificate() {
    assert_eq!(
        check_device_cert(SELF_SIGNED.as_bytes()),
        Err(CertError::Missing(ExtensionId::SubjectAlternativeName))
    );
}

#[test]
fn device_certificate_is_no_self_signed_client_certificate() {
    assert_eq!(
        check_self_signed_client_cert(DEVICE.as_bytes()),
        Err(CertError::UnexpectedExtension)
    );
}

#[test]
fn ca_certificate_is_accepted() {
    assert_eq!(check_ca(CA.as_bytes()), Ok(()));
}

#[test]
fn ca_certificate_with_a_path_length_is_rejected() {
    assert_eq!(check_ca(CA_PATH_LEN.as_bytes()), Err(CertError::BasicConstraintsNotForCa));
}

#[test]
fn ca_certificate_must_sign_revocation_lists() {
    assert_eq!(check_ca(CA_NO_CRL_SIGN.as_bytes()), Err(CertError::KeyUsageNotForCa));
}

#[test]
fn device_certificate_is_no_ca_certificate() {
    assert_eq!(check_ca(DEVICE.as_bytes()), Err(CertError::KeyUsageNotForCa));
}

#[test]
fn text_that_is_not_pem_is_rejected() {
    assert_eq!(check_device_cert(b"not a certificate"), Err(CertError::Pem));
    assert_eq!(check_device_cert(b""), Err(CertError::Pem));
    assert_eq!(read_extensions(b"not a certificate"), Err(CertError::Pem));
}

#[test]
fn pem_that_holds_no_certificate_is_rejected() {
    let text = b"-----BEGIN CERTIFICATE-----\nAAECAwQFBgc=\n-----END CERTIFICATE-----\n";
    assert_eq!(check_device_cert(text), Err(CertError::Der));
    assert_eq!(check_ca(text), Err(CertError::Der));
    assert_eq!(read_extensions(text), Err(CertError::Der));
}

#[test]
fn extensions_are_read_in_the_order_of_the_certificate() {
    assert_eq!(read_extensions(DEVICE.as_bytes()), Ok(device()));
    assert_eq!(
        read_extensions(DEVICE_WITH_SKI.as_bytes()),
        Ok(and(device(), ext(ExtensionKind::SubjectKeyIdentifier, false)))
    );
    assert_eq!(read_extensions(NO_EXTENSIONS.as_bytes()), Ok(vec![]));
}

#[test]
fn content_of_key_usage_and_basic_constraints_is_read() {
    assert_eq!(read_extensions(CA.as_bytes()), Ok(ca()));
    assert_eq!(
        read_extensions(CA_PATH_LEN.as_bytes()),
        Ok(with(ca(), 2, ext(ExtensionKind::BasicConstraints { ca: true, path_len: Some(0) }, true)))
    );
    assert_eq!(
        read_extensions(CA_NO_CRL_SIGN.as_bytes()),
        Ok(with(
            ca(),
            0,
            ext(ExtensionKind::KeyUsage { key_cert_sign: true, crl_sign: false }, true)
        ))
    );
}

#[test]
fn criticality_and_other_extensions_are_read() {
    assert_eq!(
        read_extensions(DEVICE_KEY_USAGE_NOT_CRITICAL.as_bytes()),
        Ok(with(device(), 0, ext(KEY_USAGE, false)))
    );
    assert_eq!(
        read_extensions(DEVICE_NAME_CONSTRAINTS.as_bytes()),
        Ok(and(device(), ext(ExtensionKind::NameConstraints, true)))
    );
    assert_eq!(
        read_extensions(DEVICE_POLICY_MAPPINGS.as_bytes()),
        Ok(and(device(), ext(ExtensionKind::PolicyMappings, false)))
    );
    assert_eq!(
        read_extensions(DEVICE_EXTENDED_KEY_USAGE.as_bytes()),
        Ok(and(device(), ext(ExtensionKind::Other, false)))
    );
}

#[test]
fn check_cert_takes_the_profile() {
    assert_eq!(check_cert(CertProfile::Device, DEVICE.as_bytes()), Ok(()));
    assert_eq!(check_cert(CertProfile::SelfSignedClient, SELF_SIGNED.as_bytes()), Ok(()));
    assert_eq!(check_cert(CertProfile::Ca, CA.as_bytes()), Ok(()));
    assert_eq!(
        check_cert(CertProfile::Ca, SELF_SIGNED.as_bytes()),
        Err(CertError::KeyUsageNotForCa)
    );
}

#[test]
fn device_rows_are_enforced() {
    let profile = CertProfile::Device;
    assert_eq!(check_extensions(profile, &device()), Ok(()));
    assert_eq!(
        check_extensions(profile, &with(device(), 0, ext(KEY_USAGE, false))),
        Err(CertError::NotCritical(ExtensionId::KeyUsage))
    );
    assert_eq!(
        check_extensions(profile, &with(device(), 1, ext(ExtensionKind::CertificatePolicies, false))),
        Err(CertError::NotCritical(ExtensionId::CertificatePolicies))
    );
    assert_eq!(
        check_extensions(
            profile,
            &with(device(), 2, ext(ExtensionKind::SubjectAlternativeName, false))
        ),
        Err(CertError::NotCritical(ExtensionId::SubjectAlternativeName))
    );
    assert_eq!(
        check_extensions(
            profile,
            &with(device(), 3, ext(ExtensionKind::AuthorityKeyIdentifier, true))
        ),
        Err(CertError::Critical(ExtensionId::AuthorityKeyIdentifier))
    );
    assert_eq!(
        check_extensions(profile, &and(device(), ext(ExtensionKind::SubjectKeyIdentifier, true))),
        Err(CertError::Critical(ExtensionId::SubjectKeyIdentifier))
    );
    assert_eq!(
        check_extensions(profile, &and(device(), ext(ExtensionKind::SubjectKeyIdentifier, false))),
        Ok(())
    );
    assert_eq!(
        check_extensions(profile, &and(device(), ext(ExtensionKind::PolicyMappings, false))),
        Err(CertError::PolicyMappingsPresent)
    );
    assert_eq!(
        check_extensions(profile, &and(device(), ext(ExtensionKind::NameConstraints, true))),
        Err(CertError::NameConstraintsPresent)
    );
    assert_eq!(
        check_extensions(profile, &and(device(), ext(CA_CONSTRAINTS, true))),
        Err(CertError::UnexpectedExtension)
    );
    assert_eq!(
        check_extensions(profile, &and(device(), ext(ExtensionKind::Other, false))),
        Err(CertError::UnexpectedExtension)
    );
    assert_eq!(
        check_extensions(profile, &without(device(), 0)),
        Err(CertError::Missing(ExtensionId::KeyUsage))
    );
    assert_eq!(
        check_extensions(profile, &without(device(), 1)),
        Err(CertError::Missing(ExtensionId::CertificatePolicies))
    );
    assert_eq!(
        check_extensions(profile, &without(device(), 2)),
        Err(CertError::Missing(ExtensionId::SubjectAlternativeName))
    );
    assert_eq!(
        check_extensions(profile, &without(device(), 3)),
        Err(CertError::Missing(ExtensionId::AuthorityKeyIdentifier))
    );
}

#[test]
fn self_signed_rows_are_enforced() {
    let profile = CertProfile::SelfSignedClient;
    assert_eq!(check_extensions(profile, &self_signed()), Ok(()));
    assert_eq!(
        check_extensions(profile, &with(self_signed(), 0, ext(KEY_USAGE, false))),
        Err(CertError::NotCritical(ExtensionId::KeyUsage))
    );
    assert_eq!(
        check_extensions(
            profile,
            &with(self_signed(), 1, ext(ExtensionKind::CertificatePolicies, false))
        ),
        Err(CertError::NotCritical(ExtensionId::CertificatePolicies))
    );
    assert_eq!(
        check_extensions(
            profile,
            &and(self_signed(), ext(ExtensionKind::SubjectKeyIdentifier, false))
        ),
        Ok(())
    );
    assert_eq!(
        check_extensions(
            profile,
            &and(self_signed(), ext(ExtensionKind::SubjectKeyIdentifier, true))
        ),
        Err(CertError::Critical(ExtensionId::SubjectKeyIdentifier))
    );
    assert_eq!(
        check_extensions(profile, &and(self_signed(), ext(ExtensionKind::PolicyMappings, true))),
        Err(CertError::PolicyMappingsPresent)
    );
    assert_eq!(
        check_extensions(profile, &and(self_signed(), ext(ExtensionKind::NameConstraints, false))),
        Err(CertError::NameConstraintsPresent)
    );
    assert_eq!(
        check_extensions(
            profile,
            &and(self_signed(), ext(ExtensionKind::SubjectAlternativeName, true))
        ),
        Err(CertError::UnexpectedExtension)
    );
    assert_eq!(
        check_extensions(
            profile,
            &and(self_signed(), ext(ExtensionKind::AuthorityKeyIdentifier, false))
        ),
        Err(CertError::UnexpectedExtension)
    );
    assert_eq!(
        check_extensions(profile, &without(self_signed(), 0)),
        Err(CertError::Missing(ExtensionId::KeyUsage))
    );
    assert_eq!(
        check_extensions(profile, &without(self_signed(), 1)),
        Err(CertError::Missing(ExtensionId::CertificatePolicies))
    );
}

#[test]
fn ca_rows_are_enforced() {
    let profile = CertProfile::Ca;
    assert_eq!(check_extensions(profile, &ca()), Ok(()));
    assert_eq!(
        check_extensions(profile, &with(ca(), 0, ext(CA_KEY_USAGE, false))),
        Err(CertError::KeyUsageNotForCa)
    );
    assert_eq!(
        check_extensions(
            profile,
            &with(ca(), 0, ext(ExtensionKind::KeyUsage { key_cert_sign: false, crl_sign: true }, true))
        ),
        Err(CertError::KeyUsageNotForCa)
    );
    assert_eq!(
        check_extensions(
            profile,
            &with(ca(), 0, ext(ExtensionKind::KeyUsage { key_cert_sign: true, crl_sign: false }, true))
        ),
        Err(CertError::KeyUsageNotForCa)
    );
    assert_eq!(
        check_extensions(profile, &with(ca(), 1, ext(ExtensionKind::CertificatePolicies, false))),
        Err(CertError::NotCritical(ExtensionId::CertificatePolicies))
    );
    assert_eq!(
        check_extensions(profile, &with(ca(), 2, ext(CA_CONSTRAINTS, false))),
        Err(CertError::BasicConstraintsNotForCa)
    );
    assert_eq!(
        check_extensions(
            profile,
            &with(ca(), 2, ext(ExtensionKind::BasicConstraints { ca: false, path_len: None }, true))
        ),
        Err(CertError::BasicConstraintsNotForCa)
    );
    assert_eq!(
        check_extensions(
            profile,
            &with(ca(), 2, ext(ExtensionKind::BasicConstraints { ca: true, path_len: Some(3) }, true))
        ),
        Err(CertError::BasicConstraintsNotForCa)
    );
    assert_eq!(
        check_extensions(profile, &with(ca(), 3, ext(ExtensionKind::SubjectKeyIdentifier, true))),
        Err(CertError::Critical(ExtensionId::SubjectKeyIdentifier))
    );
    assert_eq!(
        check_extensions(profile, &and(ca(), ext(ExtensionKind::PolicyMappings, false))),
        Err(CertError::UnexpectedExtension)
    );
    assert_eq!(
        check_extensions(profile, &and(ca(), ext(ExtensionKind::SubjectAlternativeName, true))),
        Err(CertError::UnexpectedExtension)
    );
    assert_eq!(
        check_extensions(profile, &without(ca(), 0)),
        Err(CertError::Missing(ExtensionId::KeyUsage))
    );
    assert_eq!(
        check_extensions(profile, &without(ca(), 1)),
        Err(CertError::Missing(ExtensionId::CertificatePolicies))
    );
    assert_eq!(
        check_extensions(profile, &without(ca(), 2)),
        Err(CertError::Missing(ExtensionId::BasicConstraints))
    );
    assert_eq!(
        check_extensions(profile, &without(ca(), 3)),
        Err(CertError::Missing(ExtensionId::SubjectKeyIdentifier))
    );
}

#[test]
fn the_first_violation_is_reported() {
    let exts = vec![
        ext(ExtensionKind::AuthorityKeyIdentifier, true),
        ext(KEY_USAGE, false),
        ext(ExtensionKind::NameConstraints, true),
    ];
    assert_eq!(
        check_extensions(CertProfile::Device, &exts),
        Err(CertError::Critical(ExtensionId::AuthorityKeyIdentifier))
    );
    assert_eq!(
        check_extensions(CertProfile::Device, &exts[1..]),
        Err(CertError::NotCritical(ExtensionId::KeyUsage))
    );
    assert_eq!(
        check_extensions(CertProfile::Device, &exts[2..]),
        Err(CertError::NameConstraintsPresent)
    );
}

#[test]
fn a_fault_comes_before_a_missing_extension() {
    let exts = vec![ext(ExtensionKind::CertificatePolicies, true), ext(ExtensionKind::Other, false)];
    assert_eq!(check_extensions(CertProfile::Device, &exts), Err(CertError::UnexpectedExtension));
    assert_eq!(
        check_extensions(CertProfile::Device, &exts[..1]),
        Err(CertError::Missing(ExtensionId::KeyUsage))
    );
}

#[test]
fn an_empty_list_lacks_key_usage() {
    assert_eq!(
        check_extensions(CertProfile::Device, &[]),
        Err(CertError::Missing(ExtensionId::KeyUsage))
    );
}

#[test]
fn fault_of_a_single_extension() {
    assert_eq!(extension_fault(CertProfile::Device, &ext(KEY_USAGE, true)), None);
    assert_eq!(
        extension_fault(CertProfile::Device, &ext(CA_CONSTRAINTS, true)),
        Some(CertError::UnexpectedExtension)
    );
    assert_eq!(extension_fault(CertProfile::Ca, &ext(CA_CONSTRAINTS, true)), None);
    assert_eq!(
        extension_fault(CertProfile::Ca, &ext(KEY_USAGE, true)),
        Some(CertError::KeyUsageNotForCa)
    );
    assert_eq!(
        extension_fault(CertProfile::SelfSignedClient, &ext(ExtensionKind::NameConstraints, false)),
        Some(CertError::NameConstraintsPresent)
    );
}

#[test]
fn extension_ids_and_names() {
    assert_eq!(KEY_USAGE.ext_id(), ExtensionId::KeyUsage);
    assert_eq!(CA_CONSTRAINTS.ext_id(), ExtensionId::BasicConstraints);
    assert_eq!(ExtensionKind::Other.ext_id(), ExtensionId::Other);
    assert_eq!(ExtensionId::KeyUsage.name(), "KeyUsage");
    assert_eq!(ExtensionId::NameConstraints.name(), "NameConstraints");
}

#[test]
fn messages_name_the_extension() {
    assert_eq!(
        CertError::Missing(ExtensionId::KeyUsage).message(),
        "KeyUsage extension not present."
    );
    assert_eq!(
        CertError::NotCritical(ExtensionId::CertificatePolicies).message(),
        "CertificatePolicies extension must be critical."
    );
    assert_eq!(
        CertError::Critical(ExtensionId::SubjectKeyIdentifier).message(),
        "SubjectKeyIdentifier extension cannot be critical."
    );
    assert_eq!(
        CertError::KeyUsageNotForCa.message(),
        "KeyUsage extension must be critical and keyCertSign and crlSign must be true."
    );
    assert_eq!(
        CertError::BasicConstraintsNotForCa.message(),
        "BasicConstraints must be critical, cA must be true, and pathLen must be absent."
    );
    assert_eq!(
        CertError::UnexpectedExtension.message(),
        "Unexpected extension or unparsed extension encountered."
    );
    assert_eq!(CertError::Pem.message(), "The certificate is not PEM encoded.");
    assert_eq!(CertError::Der.message(), "The PEM block does not hold an X.509 certificate.");
}
