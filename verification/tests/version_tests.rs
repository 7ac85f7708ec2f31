use mysqlclient_sys::version::{
    bindings_file, version_directives, BindingsSource, MysqlVersion, BUNDLED_LIBMYSQL_VERSION,
};
use mysqlclient_sys::version::MysqlVersion::{MariaDb10, Mysql5, Mysql80, Mysql83, Mysql84};

#[test]
fn parse_upstream_versions() {
    assert_eq!(MysqlVersion::parse_version("5.7.42"), Some(MysqlVersion::Mysql5));
    assert_eq!(MysqlVersion::parse_version("8.0.36"), Some(MysqlVersion::Mysql80));
    assert_eq!(MysqlVersion::parse_version("8.3.0"), Some(MysqlVersion::Mysql83));
    assert_eq!(MysqlVersion::parse_version("8.4.0"), Some(MysqlVersion::Mysql84));
    assert_eq!(MysqlVersion::parse_version("10.11.6"), Some(MysqlVersion::MariaDb10));
    assert_eq!(MysqlVersion::parse_version("11.4.2"), Some(MysqlVersion::MariaDb10));
}

#[test]
fn parse_debian_soname_versions() {
    // libmysqlclient20 -> 5.7.x, 21 -> 8.0.x, 23 -> 8.3.0, 24 -> 8.4.0, libmariadb 3.3.8 -> 10.x
    assert_eq!(MysqlVersion::parse_version("20.3.2"), Some(MysqlVersion::Mysql5));
    assert_eq!(MysqlVersion::parse_version("21.3.2"), Some(MysqlVersion::Mysql80));
    assert_eq!(MysqlVersion::parse_version("23.0.0"), Some(MysqlVersion::Mysql83));
    assert_eq!(MysqlVersion::parse_version("24.0.0"), Some(MysqlVersion::Mysql84));
    assert_eq!(MysqlVersion::parse_version("3.3.8"), Some(MysqlVersion::MariaDb10));
}

#[test]
fn parse_macos_majors() {
    assert_eq!(MysqlVersion::parse_version("20"), Some(MysqlVersion::Mysql5));
    assert_eq!(MysqlVersion::parse_version("21"), Some(MysqlVersion::Mysql80));
    assert_eq!(MysqlVersion::parse_version("23"), Some(MysqlVersion::Mysql83));
    assert_eq!(MysqlVersion::parse_version("24"), Some(MysqlVersion::Mysql84));
    assert_eq!(MysqlVersion::parse_version("3"), Some(MysqlVersion::MariaDb10));
}

#[test]
fn parse_unknown_versions() {
    assert_eq!(MysqlVersion::parse_version("9.0.1"), None);
    assert_eq!(MysqlVersion::parse_version("22.0.0"), None);
    assert_eq!(MysqlVersion::parse_version("200"), None);
    assert_eq!(MysqlVersion::parse_version("30"), None);
    assert_eq!(MysqlVersion::parse_version(""), None);
    assert_eq!(MysqlVersion::parse_version("8"), None);
}

#[test]
fn bundled_version_is_mysql_84() {
    assert_eq!(MysqlVersion::parse_version(BUNDLED_LIBMYSQL_VERSION), Some(MysqlVersion::Mysql84));
}

#[test]
fn cfg_names() {
    let names: Vec<&str> = MysqlVersion::all().iter().map(|v| v.as_cfg()).collect();
    assert_eq!(names, vec!["mysql_5_7_x", "mysql_8_0_x", "mysql_8_3_x", "mysql_8_4_x", "mariadb_10_x"]);
}

#[test]
fn bundled_bindings_selection() {
    assert_eq!(bindings_file(Some(Mysql5), "x86_64", "64", false), Some("bindings_5_7_42_x86_64_linux.rs"));
    assert_eq!(bindings_file(Some(Mysql5), "aarch64", "64", false), Some("bindings_5_7_42_x86_64_linux.rs"));
    assert_eq!(bindings_file(Some(Mysql5), "x86_64", "64", true), None);
    assert_eq!(bindings_file(Some(Mysql80), "arm", "32", false), Some("bindings_8_0_37_i686_linux.rs"));
    assert_eq!(bindings_file(Some(Mysql80), "x86", "32", true), Some("bindings_8_0_36_i686_windows.rs"));
    assert_eq!(bindings_file(Some(Mysql80), "aarch64", "64", true), None);
    assert_eq!(bindings_file(Some(Mysql83), "x86", "32", false), None);
    assert_eq!(bindings_file(Some(Mysql83), "x86_64", "64", true), Some("bindings_8_3_0_x86_64_windows.rs"));
    assert_eq!(bindings_file(Some(Mysql84), "x86_64", "64", false), Some("bindings_8_4_0_x86_64_linux.rs"));
    assert_eq!(bindings_file(Some(Mysql84), "x86", "32", true), Some("bindings_8_4_0_i686_windows.rs"));
    assert_eq!(bindings_file(Some(MariaDb10), "arm", "32", false), Some("bindings_mariadb_10_11_armv6_linux.rs"));
    assert_eq!(bindings_file(Some(MariaDb10), "x86", "32", false), Some("bindings_mariadb_10_11_i686_linux.rs"));
    assert_eq!(bindings_file(Some(MariaDb10), "x86_64", "64", true), Some("bindings_mariadb_10_11_x86_64_windows.rs"));
    assert_eq!(bindings_file(Some(MariaDb10), "riscv64", "64", false), None);
    assert_eq!(bindings_file(None, "x86_64", "64", false), None);
}

#[test]
fn version_directives_for_known_version() {
    let d = version_directives("8.0.36", "x86_64", "64", false, false);
    assert_eq!(d.version, Some(MysqlVersion::Mysql80));
    assert_eq!(
        d.lines,
        vec![
            "cargo::rustc-check-cfg=cfg(mysql_5_7_x)",
            "cargo::rustc-check-cfg=cfg(mysql_8_0_x)",
            "cargo::rustc-check-cfg=cfg(mysql_8_3_x)",
            "cargo::rustc-check-cfg=cfg(mysql_8_4_x)",
            "cargo::rustc-check-cfg=cfg(mariadb_10_x)",
            "cargo:rustc-cfg=mysql_8_0_x",
        ]
    );
    assert_eq!(d.bindings, BindingsSource::Bundled("bindings_8_0_36_x86_64_linux.rs"));
}

#[test]
fn version_directives_for_unknown_version() {
    let d = version_directives("9.1.0", "x86_64", "64", false, false);
    assert_eq!(d.version, None);
    assert_eq!(d.lines.len(), 5);
    assert_eq!(d.bindings, BindingsSource::Unsupported);
    let g = version_directives("9.1.0", "x86_64", "64", false, true);
    assert_eq!(g.bindings, BindingsSource::Generated);
    let g = version_directives("8.4.0", "x86_64", "64", false, true);
    assert_eq!(g.bindings, BindingsSource::Generated);
    assert_eq!(g.lines.last().unwrap(), "cargo:rustc-cfg=mysql_8_4_x");
}
