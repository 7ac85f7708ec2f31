use mysqlclient_sys::helper::{
    get_libmysql_version_id, header_path, mariadb_version_header_path, mysql_config,
    mysql_config_arg, mysql_config_value, mysql_config_variable, mysql_version_header_path,
    parse_version_id, try_get_libmysql_version_id, try_parse_version_id, version_line_index,
    CommandOutput,
};

fn lines(v: &[&str]) -> Vec<String> {
    v.iter().map(|s| s.to_string()).collect()
}

#[test]
fn parse_version_id_reads_mariadb_header() {
    let header = lines(&[
        "#ifndef _mariadb_version_h_",
        "#define MARIADB_CLIENT_VERSION_STR \"3.3.8\"",
        "#define MYSQL_VERSION_ID 100511",
        "#define MARIADB_PACKAGE_VERSION_ID 30308",
    ]);
    assert_eq!(parse_version_id(&header, "MYSQL_VERSION_ID"), 100511);
}

#[test]
fn parse_version_id_takes_first_matching_line() {
    let header = lines(&["#define LIBMYSQL_VERSION_ID 80036", "#define LIBMYSQL_VERSION_ID 1"]);
    assert_eq!(parse_version_id(&header, "LIBMYSQL_VERSION_ID"), 80036);
    assert_eq!(version_line_index(&header, "LIBMYSQL_VERSION_ID"), Some(0));
}

#[test]
fn parse_version_id_without_match_is_zero() {
    let header = lines(&["#define SOMETHING 1", "", "nothing here"]);
    assert_eq!(parse_version_id(&header, "MYSQL_VERSION_ID"), 0);
    assert_eq!(parse_version_id(&Vec::new(), "MYSQL_VERSION_ID"), 0);
    assert_eq!(version_line_index(&header, "MYSQL_VERSION_ID"), None);
}

#[test]
fn parse_version_id_trims_whitespace() {
    let header = lines(&["#define MYSQL_VERSION_ID\t  50742 \r"]);
    assert_eq!(parse_version_id(&header, "MYSQL_VERSION_ID"), 50742);
}

#[test]
fn parse_version_id_uses_first_occurrence_in_line() {
    // The text after the first occurrence is "X 7", which is no number.
    let header = lines(&["IDID 9"]);
    assert_eq!(try_parse_version_id(&header, "ID"), None);
    let header = lines(&["x=ID 7"]);
    assert_eq!(try_parse_version_id(&header, "ID"), Some(7));
}

#[test]
fn try_parse_version_id_rejects_non_numbers() {
    assert_eq!(try_parse_version_id(&lines(&["#define MYSQL_VERSION_ID abc"]), "MYSQL_VERSION_ID"), None);
    assert_eq!(try_parse_version_id(&lines(&["#define MYSQL_VERSION_ID"]), "MYSQL_VERSION_ID"), None);
    assert_eq!(try_parse_version_id(&lines(&["MYSQL_VERSION_ID 4294967296"]), "MYSQL_VERSION_ID"), None);
    assert_eq!(try_parse_version_id(&lines(&["MYSQL_VERSION_ID 4294967295"]), "MYSQL_VERSION_ID"), Some(4294967295));
    assert_eq!(try_parse_version_id(&lines(&["MYSQL_VERSION_ID +17"]), "MYSQL_VERSION_ID"), Some(17));
    assert_eq!(try_parse_version_id(&lines(&["MYSQL_VERSION_ID -17"]), "MYSQL_VERSION_ID"), None);
}

#[test]
fn header_paths() {
    assert_eq!(header_path("/usr/include/mysql", "x.h"), "/usr/include/mysql/x.h");
    assert_eq!(mariadb_version_header_path("/usr/include/mariadb"), "/usr/include/mariadb/mariadb_version.h");
    assert_eq!(mysql_version_header_path("/usr/include/mysql"), "/usr/include/mysql/mysql_version.h");
}

#[test]
fn libmysql_version_prefers_mariadb() {
    let maria = Some(lines(&["#define MYSQL_VERSION_ID 100511"]));
    let mysql = Some(lines(&["#define LIBMYSQL_VERSION_ID 80036"]));
    assert_eq!(get_libmysql_version_id(&maria, &mysql), (100511, false, true));
    assert_eq!(get_libmysql_version_id(&None, &mysql), (80036, true, false));
    assert_eq!(get_libmysql_version_id(&None, &None), (0, false, false));
}

#[test]
fn libmysql_version_without_version_line() {
    // The header exists but names no version: 0, with the kind still reported.
    let mysql = Some(lines(&["#define MYSQL_SERVER_VERSION \"8.0.36\""]));
    assert_eq!(get_libmysql_version_id(&None, &mysql), (0, true, false));
    let maria = Some(lines(&["#define LIBMYSQL_VERSION_ID 80036"]));
    // mariadb_version.h is read for MYSQL_VERSION_ID, which occurs inside LIBMYSQL_VERSION_ID.
    assert_eq!(get_libmysql_version_id(&maria, &None), (80036, false, true));
}

#[test]
fn try_libmysql_version_fails_on_bad_number() {
    let maria = Some(lines(&["#define MYSQL_VERSION_ID 10.5"]));
    assert_eq!(try_get_libmysql_version_id(&maria, &None), None);
}

#[test]
fn mysql_config_arguments() {
    assert_eq!(mysql_config_arg("variable", "pkgincludedir"), "--variable=pkgincludedir");
    assert_eq!(mysql_config_arg("libs", "ignored"), "--libs");
    assert_eq!(mysql_config_arg("version", ""), "--version");
}

#[test]
fn mysql_config_value_decodes_and_trims() {
    let out = CommandOutput { success: true, stdout: b"  /usr/include/mysql\n".to_vec() };
    assert_eq!(mysql_config_value(Some(out)), Some("/usr/include/mysql".to_string()));
    let failed = CommandOutput { success: false, stdout: b"/usr/include\n".to_vec() };
    assert_eq!(mysql_config_value(Some(failed)), None);
    let bad_utf8 = CommandOutput { success: true, stdout: vec![0x66, 0xff, 0x66] };
    assert_eq!(mysql_config_value(Some(bad_utf8)), None);
    assert_eq!(mysql_config_value(None), None);
    let unicode = CommandOutput { success: true, stdout: "\u{3000}é\u{a0}".as_bytes().to_vec() };
    assert_eq!(mysql_config_value(Some(unicode)), Some("é".to_string()));
}

#[test]
fn mysql_config_runs_tool_with_argument() {
    let run = |a: String| {
        assert_eq!(a, "--variable=pkglibdir");
        Some(CommandOutput { success: true, stdout: b"/usr/lib/x86_64-linux-gnu\n".to_vec() })
    };
    assert_eq!(mysql_config("variable", "pkglibdir", run), Some("/usr/lib/x86_64-linux-gnu".to_string()));
    let run = |a: String| {
        assert_eq!(a, "--variable=pkgincludedir");
        Some(CommandOutput { success: true, stdout: b"/usr/include/mysql\n".to_vec() })
    };
    assert_eq!(mysql_config_variable("pkgincludedir", run), Some("/usr/include/mysql".to_string()));
    let missing = |_a: String| None;
    assert_eq!(mysql_config_variable("pkgincludedir", missing), None);
    let run = |a: String| {
        assert_eq!(a, "--cflags");
        Some(CommandOutput { success: true, stdout: b"-I/usr/include/mysql\n".to_vec() })
    };
    assert_eq!(mysql_config("cflags", "x", run), Some("-I/usr/include/mysql".to_string()));
}
