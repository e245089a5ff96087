use sep2_client::tls::{
    create_client_tls_cfg, create_server_tls_config, get_cipher_suite, tls_profile, TlsRole,
    TlsVersion,
};

#[test]
fn the_mandated_cipher_suite() {
    assert_eq!(get_cipher_suite(false), "ECDHE-ECDSA-AES128-CCM8");
}

#[test]
fn the_cipher_suite_where_ccm8_is_missing() {
    assert_eq!(get_cipher_suite(true), "ECDHE-ECDSA-AES128-GCM-SHA256@SECLEVEL=0");
}

#[test]
fn the_client_profile() {
    let profile = create_client_tls_cfg(false);
    assert_eq!(profile.min_version, TlsVersion::Tls12);
    assert_eq!(profile.max_version, TlsVersion::Tls12);
    assert!(profile.no_compression);
    assert!(profile.no_sslv2);
    assert!(profile.no_sslv3);
    assert_eq!(profile.cipher_list, "ECDHE-ECDSA-AES128-CCM8");
    assert_eq!(profile.security_level, Some(0));
    assert!(profile.verify_peer);
    assert!(!profile.fail_if_no_peer_cert);
    assert!(!profile.verify_hostname);
}

#[test]
fn the_server_profile() {
    let profile = create_server_tls_config(false);
    assert_eq!(profile.min_version, TlsVersion::Tls12);
    assert_eq!(profile.max_version, TlsVersion::Tls12);
    assert_eq!(profile.cipher_list, "ECDHE-ECDSA-AES128-CCM8");
    assert_eq!(profile.security_level, None);
    assert!(!profile.no_compression);
    assert!(!profile.no_sslv2);
    assert!(!profile.no_sslv3);
    assert!(profile.verify_peer);
    assert!(profile.fail_if_no_peer_cert);
    assert!(!profile.verify_hostname);
}

#[test]
fn the_fallback_changes_the_cipher_and_its_level() {
    for role in [TlsRole::Client, TlsRole::Server] {
        let usual = tls_profile(role, false);
        let fallback = tls_profile(role, true);
        assert_eq!(fallback.cipher_list, "ECDHE-ECDSA-AES128-GCM-SHA256@SECLEVEL=0");
        assert_eq!(fallback.security_level, Some(0));
        assert_eq!(fallback.no_compression, usual.no_compression);
        assert_eq!(fallback.min_version, usual.min_version);
        assert_eq!(fallback.max_version, usual.max_version);
        assert_eq!(fallback.verify_peer, usual.verify_peer);
        assert_eq!(fallback.fail_if_no_peer_cert, usual.fail_if_no_peer_cert);
        assert_eq!(fallback.verify_hostname, usual.verify_hostname);
    }
}
