use mysqlclient_sys::bindings::{
    bindgen_config, first_include_source, next_include_step, IncludeAnswer, IncludeSource,
    IncludeStep,
};

#[test]
fn generator_setup() {
    let c = bindgen_config();
    assert_eq!(c.header, "bindings/wrapper.h");
    assert_eq!(c.functions, vec!["mysql.*", "mariadb.*"]);
    assert_eq!(c.types, vec!["MYSQL.*", "MARIADB.*", "mysql.*", "mariadb.*"]);
    assert_eq!(c.vars, vec!["MYSQL.*", "MARIADB.*"]);
    assert!(c.non_exhaustive_enums);
}

fn args(s: IncludeStep) -> Vec<String> {
    match s {
        IncludeStep::Args(a) => a,
        IncludeStep::Ask(_) => panic!("expected arguments"),
    }
}

#[test]
fn include_search() {
    let mut asked = first_include_source();
    let mut order = vec![asked];
    loop {
        match next_include_step(asked, IncludeAnswer::NotFound) {
            IncludeStep::Ask(n) => {
                asked = n;
                order.push(n);
            }
            IncludeStep::Args(a) => {
                assert!(a.is_empty());
                break;
            }
        }
    }
    assert_eq!(order, vec![IncludeSource::PkgConfig, IncludeSource::IncludeDirEnv, IncludeSource::MysqlConfig, IncludeSource::Vcpkg]);
}

#[test]
fn include_arguments() {
    let a = args(next_include_step(IncludeSource::PkgConfig, IncludeAnswer::PkgConfig { paths: vec!["/usr/include/mysql".to_string(), "/usr/include".to_string()] }));
    assert_eq!(a, vec!["-I/usr/include/mysql", "-I/usr/include"]);
    let a = args(next_include_step(IncludeSource::IncludeDirEnv, IncludeAnswer::IncludeDir { path: "/opt/include".to_string() }));
    assert_eq!(a, vec!["-I/opt/include"]);
    let a = args(next_include_step(IncludeSource::MysqlConfig, IncludeAnswer::MysqlConfig { flags: "-I/usr/include/mysql".to_string() }));
    assert_eq!(a, vec!["-I/usr/include/mysql"]);
    let a = args(next_include_step(IncludeSource::Vcpkg, IncludeAnswer::Vcpkg { paths: vec!["C:\\vcpkg\\include".to_string()] }));
    assert_eq!(a, vec!["-IC:\\vcpkg\\include\\mysql"]);
}
