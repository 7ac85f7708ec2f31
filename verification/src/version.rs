//! The client library versions that the crate knows, how a version string names one of them,
//! and which bundled bindings fit a version and a target.
use vstd::prelude::*;

use crate::helper::line_views;
use crate::text::{chars_of, has_prefix, str_eq};

verus! {

/// The client library lines that the crate has bindings for.
#[derive(Clone, Copy, Debug, PartialEq, Eq, Structural)]
pub enum MysqlVersion {
    Mysql5,
    Mysql80,
    Mysql83,
    Mysql84,
    MariaDb10,
}

/// Every known version, each once.
pub open spec fn all_versions() -> Seq<MysqlVersion> {
    seq![
        MysqlVersion::Mysql5,
        MysqlVersion::Mysql80,
        MysqlVersion::Mysql83,
        MysqlVersion::Mysql84,
        MysqlVersion::MariaDb10,
    ]
}

/// The version string that the bundled client library has.
pub const BUNDLED_LIBMYSQL_VERSION: &'static str = "8.4.0";

/// `p` is a prefix of `v`.
pub open spec fn starts_with(v: Seq<char>, p: Seq<char>) -> bool {
    p.is_prefix_of(v)
}

impl MysqlVersion {
    /// Every known version, each once.
    pub fn all() -> (r: Vec<MysqlVersion>)
        ensures
            r@ == all_versions(),
    {
        let r = vec![
            MysqlVersion::Mysql5,
            MysqlVersion::Mysql80,
            MysqlVersion::Mysql83,
            MysqlVersion::Mysql84,
            MysqlVersion::MariaDb10,
        ];
        assert(r@ =~= all_versions());
        r
    }

    /// The name of the `cfg` that marks this version.
    pub open spec fn spec_cfg(self) -> Seq<char> {
        match self {
            MysqlVersion::Mysql5 => "mysql_5_7_x"@,
            MysqlVersion::Mysql80 => "mysql_8_0_x"@,
            MysqlVersion::Mysql83 => "mysql_8_3_x"@,
            MysqlVersion::Mysql84 => "mysql_8_4_x"@,
            MysqlVersion::MariaDb10 => "mariadb_10_x"@,
        }
    }

    /// The name of the `cfg` that marks this version.
    pub fn as_cfg(&self) -> (r: &'static str)
        ensures
            r@ == self.spec_cfg(),
    {
        match self {
            MysqlVersion::Mysql5 => "mysql_5_7_x",
            MysqlVersion::Mysql80 => "mysql_8_0_x",
            MysqlVersion::Mysql83 => "mysql_8_3_x",
            MysqlVersion::Mysql84 => "mysql_8_4_x",
            MysqlVersion::MariaDb10 => "mariadb_10_x",
        }
    }

    /// The version that a version string names: an upstream version (`8.0.36`), a Debian
    /// package's SONAME version (`21.3.2`), or a bare SONAME major (`21`).
    pub open spec fn spec_parse(v: Seq<char>) -> Option<MysqlVersion> {
        if starts_with(v, "5.7"@) || starts_with(v, "20."@) || v == "20"@ {
            Some(MysqlVersion::Mysql5)
        } else if starts_with(v, "8.0"@) || starts_with(v, "21."@) || v == "21"@ {
            Some(MysqlVersion::Mysql80)
        } else if starts_with(v, "8.3"@) || starts_with(v, "23."@) || v == "23"@ {
            Some(MysqlVersion::Mysql83)
        } else if starts_with(v, "8.4"@) || starts_with(v, "24."@) || v == "24"@ {
            Some(MysqlVersion::Mysql84)
        } else if starts_with(v, "10."@) || starts_with(v, "11."@) || starts_with(v, "3."@) || v
            == "3"@ {
            Some(MysqlVersion::MariaDb10)
        } else {
            None
        }
    }

    /// The version that `version` names (see [`MysqlVersion::spec_parse`]).
    pub fn parse_version(version: &str) -> (r: Option<MysqlVersion>)
        ensures
            r == Self::spec_parse(version@),
    {
        let v = chars_of(version);
        if starts(&v, "5.7") || starts(&v, "20.") || str_eq(version, "20") {
            Some(MysqlVersion::Mysql5)
        } else if starts(&v, "8.0") || starts(&v, "21.") || str_eq(version, "21") {
            Some(MysqlVersion::Mysql80)
        } else if starts(&v, "8.3") || starts(&v, "23.") || str_eq(version, "23") {
            Some(MysqlVersion::Mysql83)
        } else if starts(&v, "8.4") || starts(&v, "24.") || str_eq(version, "24") {
            Some(MysqlVersion::Mysql84)
        } else if starts(&v, "10.") || starts(&v, "11.") || starts(&v, "3.") || str_eq(
            version,
            "3",
        ) {
            Some(MysqlVersion::MariaDb10)
        } else {
            None
        }
    }
}

/// Whether the characters `v` begin with `p`.
fn starts(v: &Vec<char>, p: &str) -> (r: bool)
    ensures
        r == starts_with(v@, p@),
{
    let pv = chars_of(p);
    has_prefix(v, &pv)
}

/// The bundled bindings file that fits `version` on a target with architecture `arch`,
/// pointer width `ptr_size` (in bits, as text) and the given operating system family.
pub open spec fn spec_bindings_file(
    version: Option<MysqlVersion>,
    arch: Seq<char>,
    ptr_size: Seq<char>,
    windows: bool,
) -> Option<Seq<char>> {
    let x86_64 = arch == "x86_64"@;
    let aarch64 = arch == "aarch64"@;
    let x86 = arch == "x86"@;
    let arm = arch == "arm"@;
    let p64 = ptr_size == "64"@;
    let p32 = ptr_size == "32"@;
    let linux64 = (x86_64 || aarch64) && p64 && !windows;
    let win64 = x86_64 && p64 && windows;
    let win32 = x86 && p32 && windows;
    match version {
        Some(MysqlVersion::Mysql5) => if linux64 {
            Some("bindings_5_7_42_x86_64_linux.rs"@)
        } else {
            None
        },
        Some(MysqlVersion::Mysql80) => if linux64 {
            Some("bindings_8_0_36_x86_64_linux.rs"@)
        } else if (x86 || arm) && p32 && !windows {
            Some("bindings_8_0_37_i686_linux.rs"@)
        } else if win64 {
            Some("bindings_8_0_36_x86_64_windows.rs"@)
        } else if win32 {
            Some("bindings_8_0_36_i686_windows.rs"@)
        } else {
            None
        },
        Some(MysqlVersion::Mysql83) => if linux64 {
            Some("bindings_8_3_0_x86_64_linux.rs"@)
        } else if win64 {
            Some("bindings_8_3_0_x86_64_windows.rs"@)
        } else if win32 {
            Some("bindings_8_3_0_i686_windows.rs"@)
        } else {
            None
        },
        Some(MysqlVersion::Mysql84) => if linux64 {
            Some("bindings_8_4_0_x86_64_linux.rs"@)
        } else if (x86 || arm) && p32 && !windows {
            Some("bindings_8_4_0_i686_linux.rs"@)
        } else if win64 {
            Some("bindings_8_4_0_x86_64_windows.rs"@)
        } else if win32 {
            Some("bindings_8_4_0_i686_windows.rs"@)
        } else {
            None
        },
        Some(MysqlVersion::MariaDb10) => if linux64 {
            Some("bindings_mariadb_10_11_x86_64_linux.rs"@)
        } else if x86 && p32 && !windows {
            Some("bindings_mariadb_10_11_i686_linux.rs"@)
        } else if arm && p32 && !windows {
            Some("bindings_mariadb_10_11_armv6_linux.rs"@)
        } else if win64 {
            Some("bindings_mariadb_10_11_x86_64_windows.rs"@)
        } else if win32 {
            Some("bindings_mariadb_10_11_i686_windows.rs"@)
        } else {
            None
        },
        None => None,
    }
}

/// The characters of an optional static string.
pub open spec fn opt_str_view(s: Option<&'static str>) -> Option<Seq<char>> {
    match s {
        Some(t) => Some(t@),
        None => None,
    }
}

/// The bundled bindings file that fits `version` and the target (see [`spec_bindings_file`]).
pub fn bindings_file(
    version: Option<MysqlVersion>,
    arch: &str,
    ptr_size: &str,
    windows: bool,
) -> (r: Option<&'static str>)
    ensures
        opt_str_view(r) == spec_bindings_file(version, arch@, ptr_size@, windows),
{
    let x86_64 = str_eq(arch, "x86_64");
    let aarch64 = str_eq(arch, "aarch64");
    let x86 = str_eq(arch, "x86");
    let arm = str_eq(arch, "arm");
    let p64 = str_eq(ptr_size, "64");
    let p32 = str_eq(ptr_size, "32");
    let linux64 = (x86_64 || aarch64) && p64 && !windows;
    let win64 = x86_64 && p64 && windows;
    let win32 = x86 && p32 && windows;
    match version {
        Some(MysqlVersion::Mysql5) => if linux64 {
            Some("bindings_5_7_42_x86_64_linux.rs")
        } else {
            None
        },
        Some(MysqlVersion::Mysql80) => if linux64 {
            Some("bindings_8_0_36_x86_64_linux.rs")
        } else if (x86 || arm) && p32 && !windows {
            Some("bindings_8_0_37_i686_linux.rs")
        } else if win64 {
            Some("bindings_8_0_36_x86_64_windows.rs")
        } else if win32 {
            Some("bindings_8_0_36_i686_windows.rs")
        } else {
            None
        },
        Some(MysqlVersion::Mysql83) => if linux64 {
            Some("bindings_8_3_0_x86_64_linux.rs")
        } else if win64 {
            Some("bindings_8_3_0_x86_64_windows.rs")
        } else if win32 {
            Some("bindings_8_3_0_i686_windows.rs")
        } else {
            None
        },
        Some(MysqlVersion::Mysql84) => if linux64 {
            Some("bindings_8_4_0_x86_64_linux.rs")
        } else if (x86 || arm) && p32 && !windows {
            Some("bindings_8_4_0_i686_linux.rs")
        } else if win64 {
            Some("bindings_8_4_0_x86_64_windows.rs")
        } else if win32 {
            Some("bindings_8_4_0_i686_windows.rs")
        } else {
            None
        },
        Some(MysqlVersion::MariaDb10) => if linux64 {
            Some("bindings_mariadb_10_11_x86_64_linux.rs")
        } else if x86 && p32 && !windows {
            Some("bindings_mariadb_10_11_i686_linux.rs")
        } else if arm && p32 && !windows {
            Some("bindings_mariadb_10_11_armv6_linux.rs")
        } else if win64 {
            Some("bindings_mariadb_10_11_x86_64_windows.rs")
        } else if win32 {
            Some("bindings_mariadb_10_11_i686_windows.rs")
        } else {
            None
        },
        None => None,
    }
}

/// Where the Rust bindings of the client library come from.
#[derive(Clone, Copy, Debug, PartialEq, Eq)]
pub enum BindingsSource {
    /// They are generated from the installed headers while building.
    Generated,
    /// The bundled bindings file with this name fits.
    Bundled(&'static str),
    /// No bundled bindings fit and none are generated.
    Unsupported,
}

/// The line that declares the `cfg` of `v` as one that may occur.
pub open spec fn check_cfg_line(v: MysqlVersion) -> Seq<char> {
    "cargo::rustc-check-cfg=cfg("@ + v.spec_cfg() + ")"@
}

/// The line that sets the `cfg` of `v`.
pub open spec fn cfg_line(v: MysqlVersion) -> Seq<char> {
    "cargo:rustc-cfg="@ + v.spec_cfg()
}

/// The lines that the build announces for a version: every known `cfg` as one that may occur,
/// then the `cfg` of the version found, if one was.
pub open spec fn spec_version_lines(version: Option<MysqlVersion>) -> Seq<Seq<char>> {
    all_versions().map_values(|v: MysqlVersion| check_cfg_line(v)) + match version {
        Some(v) => seq![cfg_line(v)],
        None => Seq::<Seq<char>>::empty(),
    }
}

/// What the build does with a version string.
pub struct VersionDirectives {
    /// The version that the string names, if any.
    pub version: Option<MysqlVersion>,
    /// The lines to announce to the build.
    pub lines: Vec<String>,
    /// Where the bindings come from.
    pub bindings: BindingsSource,
}

/// Where the bindings come from for `version` on the given target: generated where the build
/// generates them, else the bundled file that fits, else none.
pub open spec fn spec_bindings_source(
    version: Option<MysqlVersion>,
    arch: Seq<char>,
    ptr_size: Seq<char>,
    windows: bool,
    generate: bool,
    source: BindingsSource,
) -> bool {
    if generate {
        source == BindingsSource::Generated
    } else {
        match spec_bindings_file(version, arch, ptr_size, windows) {
            Some(f) => source matches BindingsSource::Bundled(g) && g@ == f,
            None => source == BindingsSource::Unsupported,
        }
    }
}

/// The line that declares the `cfg` of `v` as one that may occur.
fn check_cfg_directive(v: MysqlVersion) -> (r: String)
    ensures
        r@ == check_cfg_line(v),
{
    let mut s = String::from_str("cargo::rustc-check-cfg=cfg(");
    s.append(v.as_cfg());
    s.append(")");
    s
}

/// What the build does with the version string `version_str` on a target with architecture
/// `arch`, pointer width `ptr_size` and the given operating system family; `generate` tells
/// whether the build generates the bindings itself.
pub fn version_directives(
    version_str: &str,
    arch: &str,
    ptr_size: &str,
    windows: bool,
    generate: bool,
) -> (r: VersionDirectives)
    ensures
        r.version == MysqlVersion::spec_parse(version_str@),
        line_views(r.lines@) == spec_version_lines(r.version),
        spec_bindings_source(r.version, arch@, ptr_size@, windows, generate, r.bindings),
{
    let all = MysqlVersion::all();
    let mut lines: Vec<String> = Vec::new();
    let mut i: usize = 0;
    while i < all.len()
        invariant
            i <= all.len(),
            all@ == all_versions(),
            line_views(lines@) == all_versions().take(i as int).map_values(
                |v: MysqlVersion| check_cfg_line(v),
            ),
        decreases all.len() - i,
    {
        let line = check_cfg_directive(all[i]);
        let ghost before = lines@;
        lines.push(line);
        assert(line_views(lines@) =~= line_views(before).push(line@));
        assert(all_versions().take(i + 1).map_values(|v: MysqlVersion| check_cfg_line(v))
            =~= all_versions().take(i as int).map_values(|v: MysqlVersion| check_cfg_line(v)).push(
            check_cfg_line(all_versions()[i as int]),
        ));
        i = i + 1;
    }
    assert(all_versions().take(5) =~= all_versions());
    let version = MysqlVersion::parse_version(version_str);
    let ghost checks = lines@;
    match version {
        Some(v) => {
            let mut s = String::from_str("cargo:rustc-cfg=");
            s.append(v.as_cfg());
            lines.push(s);
            assert(line_views(lines@) =~= line_views(checks).push(cfg_line(v)));
        },
        None => {
            assert(line_views(lines@) =~= line_views(checks) + Seq::<Seq<char>>::empty());
        },
    }
    let bindings = if generate {
        BindingsSource::Generated
    } else {
        match bindings_file(version, arch, ptr_size, windows) {
            Some(f) => BindingsSource::Bundled(f),
            None => BindingsSource::Unsupported,
        }
    };
    VersionDirectives { version, lines, bindings }
}

/// Every version is listed once, and no two versions share a `cfg`.
pub proof fn lemma_versions_listed_once(v: MysqlVersion, w: MysqlVersion)
    ensures
        all_versions().contains(v),
        forall|i: int, j: int|
            0 <= i < j < all_versions().len() ==> all_versions()[i] != all_versions()[j],
        v.spec_cfg() == w.spec_cfg() ==> v == w,
{
    reveal_strlit("mysql_5_7_x");
    reveal_strlit("mysql_8_0_x");
    reveal_strlit("mysql_8_3_x");
    reveal_strlit("mysql_8_4_x");
    reveal_strlit("mariadb_10_x");
    let a = all_versions();
    match v {
        MysqlVersion::Mysql5 => assert(a[0] == v),
        MysqlVersion::Mysql80 => assert(a[1] == v),
        MysqlVersion::Mysql83 => assert(a[2] == v),
        MysqlVersion::Mysql84 => assert(a[3] == v),
        MysqlVersion::MariaDb10 => assert(a[4] == v),
    }
    if v != w {
        assert(v.spec_cfg() != w.spec_cfg()) by {
            let (x, y) = (v.spec_cfg(), w.spec_cfg());
            if x.len() == y.len() {
                assert(x[6] != y[6] || x[8] != y[8]);
            }
        }
    }
}

proof fn lemma_mismatch(v: Seq<char>, p: Seq<char>)
    requires
        v.len() > 0,
        p.len() > 0,
        v[0] != p[0] || (v.len() > 1 && p.len() > 1 && v[1] != p[1]),
    ensures
        !starts_with(v, p),
        v != p,
{
    if starts_with(v, p) {
        assert(v.subrange(0, p.len() as int)[0] == v[0]);
        if p.len() > 1 {
            assert(v.subrange(0, p.len() as int)[1] == v[1]);
        }
    }
}

proof fn lemma_prefix(v: Seq<char>, p: Seq<char>)
    requires
        p.len() <= v.len(),
        forall|i: int| 0 <= i < p.len() ==> v[i] == p[i],
    ensures
        starts_with(v, p),
{
    assert(p =~= v.subrange(0, p.len() as int));
}

/// A Debian package's SONAME version names the same client library line as its bare major
/// (`21.3.2` and `21` are both MySQL 8.0; `3.3.8` and `3` are both MariaDB 10).
pub proof fn lemma_soname_major(rest: Seq<char>)
    ensures
        MysqlVersion::spec_parse("20"@) == Some(MysqlVersion::Mysql5),
        MysqlVersion::spec_parse("20."@ + rest) == Some(MysqlVersion::Mysql5),
        MysqlVersion::spec_parse("21"@) == Some(MysqlVersion::Mysql80),
        MysqlVersion::spec_parse("21."@ + rest) == Some(MysqlVersion::Mysql80),
        MysqlVersion::spec_parse("23"@) == Some(MysqlVersion::Mysql83),
        MysqlVersion::spec_parse("23."@ + rest) == Some(MysqlVersion::Mysql83),
        MysqlVersion::spec_parse("24"@) == Some(MysqlVersion::Mysql84),
        MysqlVersion::spec_parse("24."@ + rest) == Some(MysqlVersion::Mysql84),
        MysqlVersion::spec_parse("3"@) == Some(MysqlVersion::MariaDb10),
        MysqlVersion::spec_parse("3."@ + rest) == Some(MysqlVersion::MariaDb10),
{
    reveal_strlit("5.7");
    reveal_strlit("20.");
    reveal_strlit("20");
    reveal_strlit("8.0");
    reveal_strlit("21.");
    reveal_strlit("21");
    reveal_strlit("8.3");
    reveal_strlit("23.");
    reveal_strlit("23");
    reveal_strlit("8.4");
    reveal_strlit("24.");
    reveal_strlit("24");
    reveal_strlit("10.");
    reveal_strlit("11.");
    reveal_strlit("3.");
    reveal_strlit("3");
    let v = "20"@;
    lemma_mismatch(v, "5.7"@);
    let full = "20."@ + rest;
    assert(full[0] == "20."@[0] && full[1] == "20."@[1]);
    lemma_mismatch(full, "5.7"@);
    lemma_prefix(full, "20."@);
    let v = "21"@;
    lemma_mismatch(v, "5.7"@);
    lemma_mismatch(v, "20."@);
    lemma_mismatch(v, "20"@);
    lemma_mismatch(v, "8.0"@);
    let full = "21."@ + rest;
    assert(full[0] == "21."@[0] && full[1] == "21."@[1]);
    lemma_mismatch(full, "5.7"@);
    lemma_mismatch(full, "20."@);
    lemma_mismatch(full, "8.0"@);
    lemma_prefix(full, "21."@);
    let v = "23"@;
    lemma_mismatch(v, "5.7"@);
    lemma_mismatch(v, "20."@);
    lemma_mismatch(v, "20"@);
    lemma_mismatch(v, "8.0"@);
    lemma_mismatch(v, "21."@);
    lemma_mismatch(v, "21"@);
    lemma_mismatch(v, "8.3"@);
    let full = "23."@ + rest;
    assert(full[0] == "23."@[0] && full[1] == "23."@[1]);
    lemma_mismatch(full, "5.7"@);
    lemma_mismatch(full, "20."@);
    lemma_mismatch(full, "8.0"@);
    lemma_mismatch(full, "21."@);
    lemma_mismatch(full, "8.3"@);
    lemma_prefix(full, "23."@);
    let v = "24"@;
    lemma_mismatch(v, "5.7"@);
    lemma_mismatch(v, "20."@);
    lemma_mismatch(v, "20"@);
    lemma_mismatch(v, "8.0"@);
    lemma_mismatch(v, "21."@);
    lemma_mismatch(v, "21"@);
    lemma_mismatch(v, "8.3"@);
    lemma_mismatch(v, "23."@);
    lemma_mismatch(v, "23"@);
    lemma_mismatch(v, "8.4"@);
    let full = "24."@ + rest;
    assert(full[0] == "24."@[0] && full[1] == "24."@[1]);
    lemma_mismatch(full, "5.7"@);
    lemma_mismatch(full, "20."@);
    lemma_mismatch(full, "8.0"@);
    lemma_mismatch(full, "21."@);
    lemma_mismatch(full, "8.3"@);
    lemma_mismatch(full, "23."@);
    lemma_mismatch(full, "8.4"@);
    lemma_prefix(full, "24."@);
    let v = "3"@;
    lemma_mismatch(v, "5.7"@);
    lemma_mismatch(v, "20."@);
    lemma_mismatch(v, "20"@);
    lemma_mismatch(v, "8.0"@);
    lemma_mismatch(v, "21."@);
    lemma_mismatch(v, "21"@);
    lemma_mismatch(v, "8.3"@);
    lemma_mismatch(v, "23."@);
    lemma_mismatch(v, "23"@);
    lemma_mismatch(v, "8.4"@);
    lemma_mismatch(v, "24."@);
    lemma_mismatch(v, "24"@);
    lemma_mismatch(v, "10."@);
    lemma_mismatch(v, "11."@);
    let full = "3."@ + rest;
    assert(full[0] == "3."@[0] && full[1] == "3."@[1]);
    lemma_mismatch(full, "5.7"@);
    lemma_mismatch(full, "20."@);
    lemma_mismatch(full, "20"@);
    lemma_mismatch(full, "8.0"@);
    lemma_mismatch(full, "21."@);
    lemma_mismatch(full, "21"@);
    lemma_mismatch(full, "8.3"@);
    lemma_mismatch(full, "23."@);
    lemma_mismatch(full, "23"@);
    lemma_mismatch(full, "8.4"@);
    lemma_mismatch(full, "24."@);
    lemma_mismatch(full, "24"@);
    lemma_mismatch(full, "10."@);
    lemma_mismatch(full, "11."@);
    lemma_prefix(full, "3."@);
}

proof fn lemma_mismatch_at(v: Seq<char>, p: Seq<char>, i: int)
    requires
        0 <= i < v.len(),
        i < p.len(),
        v[i] != p[i],
    ensures
        !starts_with(v, p),
        v != p,
{
    if starts_with(v, p) {
        assert(v.subrange(0, p.len() as int)[i] == v[i]);
    }
}

/// Every upstream version string names its line, whatever follows the major and minor:
/// `5.7.*` is MySQL 5.7, `8.0.*` MySQL 8.0, `8.3.*` MySQL 8.3, `8.4.*` MySQL 8.4, and `10.*` and
/// `11.*` are MariaDB; `9.*` names no known line.
pub proof fn lemma_upstream_versions(rest: Seq<char>)
    ensures
        MysqlVersion::spec_parse("5.7"@ + rest) == Some(MysqlVersion::Mysql5),
        MysqlVersion::spec_parse("8.0"@ + rest) == Some(MysqlVersion::Mysql80),
        MysqlVersion::spec_parse("8.3"@ + rest) == Some(MysqlVersion::Mysql83),
        MysqlVersion::spec_parse("8.4"@ + rest) == Some(MysqlVersion::Mysql84),
        MysqlVersion::spec_parse("10."@ + rest) == Some(MysqlVersion::MariaDb10),
        MysqlVersion::spec_parse("11."@ + rest) == Some(MysqlVersion::MariaDb10),
        MysqlVersion::spec_parse("9."@ + rest) is None,
{
    reveal_strlit("9.");
    reveal_strlit("5.7");
    reveal_strlit("20.");
    reveal_strlit("20");
    reveal_strlit("8.0");
    reveal_strlit("21.");
    reveal_strlit("21");
    reveal_strlit("8.3");
    reveal_strlit("23.");
    reveal_strlit("23");
    reveal_strlit("8.4");
    reveal_strlit("24.");
    reveal_strlit("24");
    reveal_strlit("10.");
    reveal_strlit("11.");
    reveal_strlit("3.");
    reveal_strlit("3");
    let full = "5.7"@ + rest;
    assert(full[0] == "5.7"@[0] && full[1] == "5.7"@[1] && full[2] == "5.7"@[2]);
    lemma_prefix(full, "5.7"@);
    let full = "8.0"@ + rest;
    assert(full[0] == "8.0"@[0] && full[1] == "8.0"@[1] && full[2] == "8.0"@[2]);
    lemma_mismatch_at(full, "5.7"@, 0);
    lemma_mismatch_at(full, "20."@, 0);
    lemma_mismatch_at(full, "20"@, 0);
    lemma_prefix(full, "8.0"@);
    let full = "8.3"@ + rest;
    assert(full[0] == "8.3"@[0] && full[1] == "8.3"@[1] && full[2] == "8.3"@[2]);
    lemma_mismatch_at(full, "5.7"@, 0);
    lemma_mismatch_at(full, "20."@, 0);
    lemma_mismatch_at(full, "20"@, 0);
    lemma_mismatch_at(full, "8.0"@, 2);
    lemma_mismatch_at(full, "21."@, 0);
    lemma_mismatch_at(full, "21"@, 0);
    lemma_prefix(full, "8.3"@);
    let full = "8.4"@ + rest;
    assert(full[0] == "8.4"@[0] && full[1] == "8.4"@[1] && full[2] == "8.4"@[2]);
    lemma_mismatch_at(full, "5.7"@, 0);
    lemma_mismatch_at(full, "20."@, 0);
    lemma_mismatch_at(full, "20"@, 0);
    lemma_mismatch_at(full, "8.0"@, 2);
    lemma_mismatch_at(full, "21."@, 0);
    lemma_mismatch_at(full, "21"@, 0);
    lemma_mismatch_at(full, "8.3"@, 2);
    lemma_mismatch_at(full, "23."@, 0);
    lemma_mismatch_at(full, "23"@, 0);
    lemma_prefix(full, "8.4"@);
    let full = "10."@ + rest;
    assert(full[0] == "10."@[0] && full[1] == "10."@[1] && full[2] == "10."@[2]);
    lemma_mismatch_at(full, "5.7"@, 0);
    lemma_mismatch_at(full, "20."@, 0);
    lemma_mismatch_at(full, "20"@, 0);
    lemma_mismatch_at(full, "8.0"@, 0);
    lemma_mismatch_at(full, "21."@, 0);
    lemma_mismatch_at(full, "21"@, 0);
    lemma_mismatch_at(full, "8.3"@, 0);
    lemma_mismatch_at(full, "23."@, 0);
    lemma_mismatch_at(full, "23"@, 0);
    lemma_mismatch_at(full, "8.4"@, 0);
    lemma_mismatch_at(full, "24."@, 0);
    lemma_mismatch_at(full, "24"@, 0);
    lemma_prefix(full, "10."@);
    let full = "11."@ + rest;
    assert(full[0] == "11."@[0] && full[1] == "11."@[1] && full[2] == "11."@[2]);
    lemma_mismatch_at(full, "5.7"@, 0);
    lemma_mismatch_at(full, "20."@, 0);
    lemma_mismatch_at(full, "20"@, 0);
    lemma_mismatch_at(full, "8.0"@, 0);
    lemma_mismatch_at(full, "21."@, 0);
    lemma_mismatch_at(full, "21"@, 0);
    lemma_mismatch_at(full, "8.3"@, 0);
    lemma_mismatch_at(full, "23."@, 0);
    lemma_mismatch_at(full, "23"@, 0);
    lemma_mismatch_at(full, "8.4"@, 0);
    lemma_mismatch_at(full, "24."@, 0);
    lemma_mismatch_at(full, "24"@, 0);
    lemma_mismatch_at(full, "10."@, 1);
    lemma_prefix(full, "11."@);
    let full = "9."@ + rest;
    assert(full[0] == "9."@[0]);
    lemma_mismatch_at(full, "5.7"@, 0);
    lemma_mismatch_at(full, "20."@, 0);
    lemma_mismatch_at(full, "20"@, 0);
    lemma_mismatch_at(full, "8.0"@, 0);
    lemma_mismatch_at(full, "21."@, 0);
    lemma_mismatch_at(full, "21"@, 0);
    lemma_mismatch_at(full, "8.3"@, 0);
    lemma_mismatch_at(full, "23."@, 0);
    lemma_mismatch_at(full, "23"@, 0);
    lemma_mismatch_at(full, "8.4"@, 0);
    lemma_mismatch_at(full, "24."@, 0);
    lemma_mismatch_at(full, "24"@, 0);
    lemma_mismatch_at(full, "10."@, 0);
    lemma_mismatch_at(full, "11."@, 0);
    lemma_mismatch_at(full, "3."@, 0);
    lemma_mismatch_at(full, "3"@, 0);
}

/// The bundled bindings: each version has 64-bit Linux bindings, shared by x86_64 and aarch64,
/// and the files for the other targets are the ones listed.
pub proof fn lemma_bundled_bindings_table(
    v: MysqlVersion,
    arch: Seq<char>,
    ptr_size: Seq<char>,
    windows: bool,
)
    ensures
        spec_bindings_file(Some(v), "aarch64"@, "64"@, false) == spec_bindings_file(
            Some(v),
            "x86_64"@,
            "64"@,
            false,
        ),
        spec_bindings_file(Some(v), "x86_64"@, "64"@, false) is Some,
        spec_bindings_file(Some(MysqlVersion::Mysql5), "x86_64"@, "64"@, false) == Some(
            "bindings_5_7_42_x86_64_linux.rs"@,
        ),
        spec_bindings_file(Some(MysqlVersion::Mysql80), "x86_64"@, "64"@, false) == Some(
            "bindings_8_0_36_x86_64_linux.rs"@,
        ),
        spec_bindings_file(Some(MysqlVersion::Mysql80), "x86"@, "32"@, false) == Some(
            "bindings_8_0_37_i686_linux.rs"@,
        ),
        spec_bindings_file(Some(MysqlVersion::Mysql80), "arm"@, "32"@, false) == Some(
            "bindings_8_0_37_i686_linux.rs"@,
        ),
        spec_bindings_file(Some(MysqlVersion::Mysql80), "x86_64"@, "64"@, true) == Some(
            "bindings_8_0_36_x86_64_windows.rs"@,
        ),
        spec_bindings_file(Some(MysqlVersion::Mysql80), "x86"@, "32"@, true) == Some(
            "bindings_8_0_36_i686_windows.rs"@,
        ),
        spec_bindings_file(Some(MysqlVersion::Mysql83), "x86_64"@, "64"@, false) == Some(
            "bindings_8_3_0_x86_64_linux.rs"@,
        ),
        spec_bindings_file(Some(MysqlVersion::Mysql83), "x86_64"@, "64"@, true) == Some(
            "bindings_8_3_0_x86_64_windows.rs"@,
        ),
        spec_bindings_file(Some(MysqlVersion::Mysql83), "x86"@, "32"@, true) == Some(
            "bindings_8_3_0_i686_windows.rs"@,
        ),
        spec_bindings_file(Some(MysqlVersion::Mysql84), "x86_64"@, "64"@, false) == Some(
            "bindings_8_4_0_x86_64_linux.rs"@,
        ),
        spec_bindings_file(Some(MysqlVersion::Mysql84), "x86"@, "32"@, false) == Some(
            "bindings_8_4_0_i686_linux.rs"@,
        ),
        spec_bindings_file(Some(MysqlVersion::Mysql84), "arm"@, "32"@, false) == Some(
            "bindings_8_4_0_i686_linux.rs"@,
        ),
        spec_bindings_file(Some(MysqlVersion::Mysql84), "x86_64"@, "64"@, true) == Some(
            "bindings_8_4_0_x86_64_windows.rs"@,
        ),
        spec_bindings_file(Some(MysqlVersion::Mysql84), "x86"@, "32"@, true) == Some(
            "bindings_8_4_0_i686_windows.rs"@,
        ),
        spec_bindings_file(Some(MysqlVersion::MariaDb10), "x86_64"@, "64"@, false) == Some(
            "bindings_mariadb_10_11_x86_64_linux.rs"@,
        ),
        spec_bindings_file(Some(MysqlVersion::MariaDb10), "x86"@, "32"@, false) == Some(
            "bindings_mariadb_10_11_i686_linux.rs"@,
        ),
        spec_bindings_file(Some(MysqlVersion::MariaDb10), "arm"@, "32"@, false) == Some(
            "bindings_mariadb_10_11_armv6_linux.rs"@,
        ),
        spec_bindings_file(Some(MysqlVersion::MariaDb10), "x86_64"@, "64"@, true) == Some(
            "bindings_mariadb_10_11_x86_64_windows.rs"@,
        ),
        spec_bindings_file(Some(MysqlVersion::MariaDb10), "x86"@, "32"@, true) == Some(
            "bindings_mariadb_10_11_i686_windows.rs"@,
        ),
        spec_bindings_file(None, arch, ptr_size, windows) is None,
{
    reveal_strlit("x86_64");
    reveal_strlit("aarch64");
    reveal_strlit("x86");
    reveal_strlit("arm");
    reveal_strlit("64");
    reveal_strlit("32");
    assert("aarch64"@ != "x86_64"@) by {
        assert("aarch64"@[0] != "x86_64"@[0]);
    }
    assert("aarch64"@ != "x86"@) by {
        assert("aarch64"@[0] != "x86"@[0]);
    }
    assert("aarch64"@ != "arm"@) by {
        assert("aarch64"@[1] != "arm"@[1]);
    }
    assert("x86_64"@ != "x86"@) by {
        assert("x86_64"@.len() != "x86"@.len());
    }
    assert("x86_64"@ != "arm"@) by {
        assert("x86_64"@[0] != "arm"@[0]);
    }
    assert("arm"@ != "x86"@) by {
        assert("arm"@[0] != "x86"@[0]);
    }
    assert("64"@ != "32"@) by {
        assert("64"@[0] != "32"@[0]);
    }
}

} // verus!
