use mysqlclient_sys::mysql_ssl_mode;

#[test]
fn ssl_mode_codes() {
    assert_eq!(mysql_ssl_mode::SSL_MODE_DISABLED.code(), 1);
    assert_eq!(mysql_ssl_mode::SSL_MODE_PREFERRED.code(), 2);
    assert_eq!(mysql_ssl_mode::SSL_MODE_REQUIRED.code(), 3);
    assert_eq!(mysql_ssl_mode::SSL_MODE_VERIFY_CA.code(), 4);
    assert_eq!(mysql_ssl_mode::SSL_MODE_VERIFY_IDENTITY.code(), 5);
}

#[test]
fn ssl_mode_round_trip() {
    for m in [
        mysql_ssl_mode::SSL_MODE_DISABLED,
        mysql_ssl_mode::SSL_MODE_PREFERRED,
        mysql_ssl_mode::SSL_MODE_REQUIRED,
        mysql_ssl_mode::SSL_MODE_VERIFY_CA,
        mysql_ssl_mode::SSL_MODE_VERIFY_IDENTITY,
    ] {
        assert_eq!(mysql_ssl_mode::from_code(m.code()), Some(m));
    }
    assert_eq!(mysql_ssl_mode::from_code(0), None);
    assert_eq!(mysql_ssl_mode::from_code(6), None);
    assert_eq!(mysql_ssl_mode::from_code(u32::MAX), None);
}
