use mysqlclient_sys::link::{
    first_link_source, first_set, libname, libs_directives, link_specifier, next_link_step,
    rerun_if_env_changed_lines, target_key, EnvSetting, LinkError, LinkSource, LinkStep,
    SourceAnswer,
};

#[test]
fn target_keys() {
    assert_eq!(target_key("x86_64-unknown-linux-gnu"), "X86_64_UNKNOWN_LINUX_GNU");
    assert_eq!(target_key("aarch64-apple-darwin"), "AARCH64_APPLE_DARWIN");
    assert_eq!(target_key(""), "");
    assert_eq!(target_key("é-z"), "é_Z");
}

#[test]
fn env_names() {
    assert_eq!(EnvSetting::LibDir.name(), "MYSQLCLIENT_LIB_DIR");
    assert_eq!(EnvSetting::Version.target_name("X86_64_PC_WINDOWS_MSVC"), "MYSQLCLIENT_VERSION_X86_64_PC_WINDOWS_MSVC");
}

#[test]
fn rerun_lines() {
    let l = rerun_if_env_changed_lines("T");
    assert_eq!(
        l,
        vec![
            "cargo::rerun-if-env-changed=MYSQLCLIENT_VERSION",
            "cargo::rerun-if-env-changed=MYSQLCLIENT_INCLUDE_DIR",
            "cargo::rerun-if-env-changed=MYSQLCLIENT_INCLUDE_DIR_T",
            "cargo::rerun-if-env-changed=MYSQLCLIENT_LIB",
            "cargo::rerun-if-env-changed=MYSQLCLIENT_LIB_DIR",
            "cargo::rerun-if-env-changed=MYSQLCLIENT_LIB_DIR_T",
            "cargo::rerun-if-env-changed=MYSQLCLIENT_LIBNAME",
            "cargo::rerun-if-env-changed=MYSQLCLIENT_LIBNAME_T",
            "cargo::rerun-if-env-changed=MYSQLCLIENT_STATIC",
            "cargo::rerun-if-env-changed=MYSQLCLIENT_VERSION_T",
            "cargo::rerun-if-env-changed=MYSQLCLIENT_LIB_T",
            "cargo::rerun-if-env-changed=MYSQLCLIENT_STATIC_T",
        ]
    );
}

#[test]
fn settings() {
    assert_eq!(first_set(Some("a".to_string()), Some("b".to_string())), Some("a".to_string()));
    assert_eq!(first_set(None, Some("b".to_string())), Some("b".to_string()));
    assert_eq!(first_set(None, None), None);
    assert_eq!(libname(None, None), "mysqlclient");
    assert_eq!(libname(None, Some("mariadb".to_string())), "mariadb");
    assert_eq!(link_specifier(false, false), "");
    assert_eq!(link_specifier(false, true), "static=");
    assert_eq!(link_specifier(true, false), "static=");
}

#[test]
fn libs_output() {
    let d = libs_directives("-L/usr/lib/x86_64-linux-gnu -lmysqlclient -lzstd\t-lssl -R/opt/lib\n", "");
    assert!(!d.unexpected);
    assert_eq!(
        d.lines,
        vec![
            "cargo:rustc-link-search=native=/usr/lib/x86_64-linux-gnu",
            "cargo:rustc-link-lib=mysqlclient",
            "cargo:rustc-link-lib=zstd",
            "cargo:rustc-link-lib=ssl",
            "cargo:rustc-link-arg=-Wl,-R/opt/lib",
        ]
    );
    let s = libs_directives("-lmysqlclient", "static=");
    assert_eq!(s.lines, vec!["cargo:rustc-link-lib=static=mysqlclient"]);
    let e = libs_directives("  ", "");
    assert!(!e.unexpected);
    assert!(e.lines.is_empty());
}

#[test]
fn libs_output_unexpected() {
    let d = libs_directives("-L/usr/lib -pthread -lm", "");
    assert!(d.unexpected);
    assert_eq!(d.lines, vec!["cargo:rustc-link-search=native=/usr/lib"]);
}

#[test]
fn link_search_order() {
    let s = first_link_source();
    assert_eq!(s, LinkSource::PkgConfig);
    let mut asked = s;
    let mut order = vec![asked];
    loop {
        match next_link_step(asked, SourceAnswer::NotFound, "mysqlclient", "") {
            LinkStep::Ask(n) => {
                asked = n;
                order.push(n);
            }
            LinkStep::Fail { lines, error } => {
                assert!(lines.is_empty());
                assert_eq!(error, LinkError::NoCompatibleLibrary);
                break;
            }
            LinkStep::Configure { .. } => panic!("nothing was found"),
        }
    }
    assert_eq!(order, vec![LinkSource::PkgConfig, LinkSource::Vcpkg, LinkSource::LibDirEnv, LinkSource::MysqlConfig]);
}

#[test]
fn link_steps_for_answers() {
    match next_link_step(LinkSource::PkgConfig, SourceAnswer::PkgConfig { version: "21.3.2".to_string() }, "mysqlclient", "") {
        LinkStep::Configure { lines, version } => {
            assert!(lines.is_empty());
            assert_eq!(version, "21.3.2");
        }
        _ => panic!("expected configure"),
    }
    match next_link_step(LinkSource::Vcpkg, SourceAnswer::Vcpkg { version: None }, "mysqlclient", "") {
        LinkStep::Fail { error, .. } => assert_eq!(error, LinkError::NoCompatibleLibrary),
        _ => panic!("expected failure"),
    }
    let answer = SourceAnswer::LibDir { path: "/opt/mysql/lib".to_string(), version: Some("8.0.36".to_string()) };
    match next_link_step(LinkSource::LibDirEnv, answer, "mysqlclient", "static=") {
        LinkStep::Configure { lines, version } => {
            assert_eq!(lines, vec!["cargo:rustc-link-search=native=/opt/mysql/lib", "cargo:rustc-link-lib=static=mysqlclient"]);
            assert_eq!(version, "8.0.36");
        }
        _ => panic!("expected configure"),
    }
    let answer = SourceAnswer::LibDir { path: "/opt/lib".to_string(), version: None };
    match next_link_step(LinkSource::LibDirEnv, answer, "mariadb", "") {
        LinkStep::Fail { lines, error } => {
            assert_eq!(lines, vec!["cargo:rustc-link-search=native=/opt/lib", "cargo:rustc-link-lib=mariadb"]);
            assert_eq!(error, LinkError::NoCompatibleLibrary);
        }
        _ => panic!("expected failure"),
    }
    let answer = SourceAnswer::MysqlConfig { libs: "-lmysqlclient -x".to_string(), version: Some("8.0.36".to_string()) };
    match next_link_step(LinkSource::MysqlConfig, answer, "mysqlclient", "") {
        LinkStep::Fail { lines, error } => {
            assert_eq!(lines, vec!["cargo:rustc-link-lib=mysqlclient"]);
            assert_eq!(error, LinkError::UnexpectedMysqlConfigOutput);
        }
        _ => panic!("expected failure"),
    }
    let answer = SourceAnswer::MysqlConfig { libs: "-lmysqlclient".to_string(), version: Some("8.0.36".to_string()) };
    match next_link_step(LinkSource::MysqlConfig, answer, "mysqlclient", "") {
        LinkStep::Configure { lines, version } => {
            assert_eq!(lines, vec!["cargo:rustc-link-lib=mysqlclient"]);
            assert_eq!(version, "8.0.36");
        }
        _ => panic!("expected configure"),
    }
}
