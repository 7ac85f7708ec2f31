//! Locating and reading the client library: the version header that its include
//! directory holds, and the answers of the `mysql_config` tool.
use vstd::prelude::*;
use vstd::utf8::{decode_utf8, valid_utf8};

use crate::text::{
    chars_of, find, find_chars, is_white_space, lemma_trim_edges, occurs_at, parse_u32, parse_u32_chars, str_eq, trim, trim_bounds, trim_str,
};

verus! {

/// The characters of each line.
pub open spec fn line_views(lines: Seq<String>) -> Seq<Seq<char>> {
    lines.map_values(|l: String| l@)
}

/// The characters of each line, when there are lines.
pub open spec fn opt_line_views(lines: Option<Vec<String>>) -> Option<Seq<Seq<char>>> {
    match lines {
        Some(v) => Some(line_views(v@)),
        None => None,
    }
}

/// The characters of an optional string.
pub open spec fn opt_string_view(s: Option<String>) -> Option<Seq<char>> {
    match s {
        Some(t) => Some(t@),
        None => None,
    }
}

/// The index of the first line, at or after `i`, in which `pat` occurs.
pub open spec fn first_line_with(lines: Seq<Seq<char>>, pat: Seq<char>, i: int) -> Option<int>
    decreases lines.len() - i,
{
    if i < 0 || i >= lines.len() {
        None
    } else if find(lines[i], pat) is Some {
        Some(i)
    } else {
        first_line_with(lines, pat, i + 1)
    }
}

proof fn lemma_first_line_with(lines: Seq<Seq<char>>, pat: Seq<char>, i: int)
    ensures
        first_line_with(lines, pat, i) matches Some(k) ==> 0 <= k < lines.len() && find(
            lines[k],
            pat,
        ) is Some,
    decreases lines.len() - i,
{
    if 0 <= i < lines.len() && find(lines[i], pat) is None {
        lemma_first_line_with(lines, pat, i + 1);
    }
}

/// What follows the first occurrence of `pat` in `line`, trimmed of whitespace.
pub open spec fn version_field(line: Seq<char>, pat: Seq<char>) -> Seq<char> {
    match find(line, pat) {
        Some(p) => trim(line.skip(p + pat.len())),
        None => line,
    }
}

/// The version number that a header announces after `pat`: `0` when no line holds `pat`;
/// otherwise the text after `pat` on the first line that holds it, read as a `u32`.
/// `None` where that text is no `u32`.
pub open spec fn spec_version_id(lines: Seq<Seq<char>>, pat: Seq<char>) -> Option<u32> {
    match first_line_with(lines, pat, 0) {
        None => Some(0u32),
        Some(i) => parse_u32(version_field(lines[i], pat)),
    }
}

/// Copies `v[a..b]`.
fn copy_range(v: &Vec<char>, a: usize, b: usize) -> (r: Vec<char>)
    requires
        a <= b <= v.len(),
    ensures
        r@ == v@.subrange(a as int, b as int),
{
    let mut r: Vec<char> = Vec::new();
    let mut i = a;
    while i < b
        invariant
            a <= i <= b <= v.len(),
            r@ == v@.subrange(a as int, i as int),
        decreases b - i,
    {
        r.push(v[i]);
        i = i + 1;
    }
    r
}

/// The index of the first line in which `substr` occurs.
pub fn version_line_index(lines: &Vec<String>, substr: &str) -> (r: Option<usize>)
    ensures
        r matches Some(i) ==> i < lines.len() && first_line_with(line_views(lines@), substr@, 0)
            == Some(i as int),
        r is None ==> first_line_with(line_views(lines@), substr@, 0) is None,
{
    let pat = chars_of(substr);
    let n = lines.len();
    let mut i: usize = 0;
    while i < n
        invariant
            i <= n,
            n == lines.len(),
            pat@ == substr@,
            first_line_with(line_views(lines@), substr@, 0) == first_line_with(
                line_views(lines@),
                substr@,
                i as int,
            ),
        decreases n - i,
    {
        let line = chars_of(lines[i].as_str());
        if find_chars(&line, &pat).is_some() {
            return Some(i);
        }
        i = i + 1;
    }
    None
}

/// Reads the version number that `lines` announce after `substr`, or `None` where the text
/// after `substr` is no `u32`.
pub fn try_parse_version_id(lines: &Vec<String>, substr: &str) -> (r: Option<u32>)
    ensures
        r == spec_version_id(line_views(lines@), substr@),
{
    match version_line_index(lines, substr) {
        None => Some(0),
        Some(i) => {
            let line = chars_of(lines[i].as_str());
            let pat = chars_of(substr);
            proof {
                lemma_first_line_with(line_views(lines@), substr@, 0);
            }
            assert(line_views(lines@)[i as int] == line@);
            match find_chars(&line, &pat) {
                Some(p) => {
                    let rest = copy_range(&line, p + pat.len(), line.len());
                    let (a, b) = trim_bounds(&rest);
                    let field = copy_range(&rest, a, b);
                    assert(rest@ =~= line@.skip(p + pat@.len()));
                    parse_u32_chars(&field)
                },
                None => None,
            }
        },
    }
}

/// Reads the version number that the lines of a header announce after `substr`: `0` when no
/// line holds `substr`, else the text after it on the first such line, trimmed, as a `u32`.
pub fn parse_version_id(lines: &Vec<String>, substr: &str) -> (r: u32)
    requires
        spec_version_id(line_views(lines@), substr@) is Some,
    ensures
        spec_version_id(line_views(lines@), substr@) == Some(r),
{
    match try_parse_version_id(lines, substr) {
        Some(v) => v,
        None => 0,
    }
}

/// `dir/file`.
pub open spec fn spec_header_path(dir: Seq<char>, file: Seq<char>) -> Seq<char> {
    dir + "/"@ + file
}

/// The path of `file` in the directory `include_dir`.
pub fn header_path(include_dir: &str, file: &str) -> (r: String)
    ensures
        r@ == spec_header_path(include_dir@, file@),
{
    let mut p = String::from_str(include_dir);
    p.append("/");
    p.append(file);
    p
}

/// The path of MariaDB's version header in `include_dir`.
pub fn mariadb_version_header_path(include_dir: &str) -> (r: String)
    ensures
        r@ == spec_header_path(include_dir@, "mariadb_version.h"@),
{
    header_path(include_dir, "mariadb_version.h")
}

/// The path of MySQL's version header in `include_dir`.
pub fn mysql_version_header_path(include_dir: &str) -> (r: String)
    ensures
        r@ == spec_header_path(include_dir@, "mysql_version.h"@),
{
    header_path(include_dir, "mysql_version.h")
}

/// `(version_id, is_mysql, is_mariadb)` from the version headers of an include directory:
/// `mariadb` holds the lines of `mariadb_version.h` where that file exists, `mysql` those of
/// `mysql_version.h`. MariaDB's header wins; without either header the answer is
/// `(0, false, false)`. `None` where the header's version number is no `u32`.
pub open spec fn spec_libmysql_version(
    mariadb: Option<Seq<Seq<char>>>,
    mysql: Option<Seq<Seq<char>>>,
) -> Option<(u32, bool, bool)> {
    match mariadb {
        Some(l) => match spec_version_id(l, "MYSQL_VERSION_ID"@) {
            Some(v) => Some((v, false, true)),
            None => None,
        },
        None => match mysql {
            Some(l) => match spec_version_id(l, "LIBMYSQL_VERSION_ID"@) {
                Some(v) => Some((v, true, false)),
                None => None,
            },
            None => Some((0u32, false, false)),
        },
    }
}

/// Like [`get_libmysql_version_id`], with `None` where the header's version number is no `u32`.
pub fn try_get_libmysql_version_id(
    mariadb_header: &Option<Vec<String>>,
    mysql_header: &Option<Vec<String>>,
) -> (r: Option<(u32, bool, bool)>)
    ensures
        r == spec_libmysql_version(opt_line_views(*mariadb_header), opt_line_views(*mysql_header)),
{
    match mariadb_header {
        Some(lines) => match try_parse_version_id(lines, "MYSQL_VERSION_ID") {
            Some(v) => Some((v, false, true)),
            None => None,
        },
        None => match mysql_header {
            Some(lines) => match try_parse_version_id(lines, "LIBMYSQL_VERSION_ID") {
                Some(v) => Some((v, true, false)),
                None => None,
            },
            None => Some((0, false, false)),
        },
    }
}

/// `(version_id, is_mysql, is_mariadb)` of the client library whose include directory holds
/// the given version headers (`None` for a header file that does not exist).
pub fn get_libmysql_version_id(
    mariadb_header: &Option<Vec<String>>,
    mysql_header: &Option<Vec<String>>,
) -> (r: (u32, bool, bool))
    requires
        spec_libmysql_version(opt_line_views(*mariadb_header), opt_line_views(*mysql_header)) is Some,
    ensures
        spec_libmysql_version(opt_line_views(*mariadb_header), opt_line_views(*mysql_header))
            == Some(r),
        !(r.1 && r.2),
{
    match try_get_libmysql_version_id(mariadb_header, mysql_header) {
        Some(t) => t,
        None => (0, false, false),
    }
}

/// What a run of the `mysql_config` tool gave back.
pub struct CommandOutput {
    /// Whether the tool exited successfully.
    pub success: bool,
    /// What it wrote to its standard output.
    pub stdout: Vec<u8>,
}

/// The argument that asks `mysql_config` for `arg`: `--variable=NAME` for a variable,
/// `--ARG` otherwise.
pub open spec fn spec_mysql_config_arg(arg: Seq<char>, var_name: Seq<char>) -> Seq<char> {
    if arg == "variable"@ {
        "--variable="@ + var_name
    } else {
        "--"@ + arg
    }
}

/// The value that a run of `mysql_config` answers: its output, decoded as UTF-8 and trimmed,
/// when the run succeeded and the output is UTF-8.
pub open spec fn spec_config_value(out: Option<CommandOutput>) -> Option<Seq<char>> {
    match out {
        Some(o) => if o.success && valid_utf8(o.stdout@) {
            Some(trim(decode_utf8(o.stdout@)))
        } else {
            None
        },
        None => None,
    }
}

/// The argument that asks `mysql_config` for `arg` (`var_name` names the variable where
/// `arg` is `"variable"`).
pub fn mysql_config_arg(arg: &str, var_name: &str) -> (r: String)
    ensures
        r@ == spec_mysql_config_arg(arg@, var_name@),
{
    if str_eq(arg, "variable") {
        let mut s = String::from_str("--variable=");
        s.append(var_name);
        s
    } else {
        let mut s = String::from_str("--");
        s.append(arg);
        s
    }
}

/// `String::from_utf8`: the bytes decoded as UTF-8, `None` where they are not UTF-8.
/// Claims that std's notion of valid UTF-8 and its decoding are vstd's `valid_utf8` and
/// `decode_utf8`.
#[verifier::external_body]
fn utf8_string(bytes: Vec<u8>) -> (r: Option<String>)
    ensures
        r is Some <==> valid_utf8(bytes@),
        r matches Some(s) ==> s@ == decode_utf8(bytes@),
{
    String::from_utf8(bytes).ok()
}

/// The value that a run of `mysql_config` answers (see [`spec_config_value`]).
pub fn mysql_config_value(out: Option<CommandOutput>) -> (r: Option<String>)
    ensures
        opt_string_view(r) == spec_config_value(out),
{
    match out {
        Some(o) => {
            if o.success {
                match utf8_string(o.stdout) {
                    Some(s) => Some(trim_str(s.as_str())),
                    None => None,
                }
            } else {
                None
            }
        },
        None => None,
    }
}

/// Asks `mysql_config` for `arg` (a variable named `var_name` where `arg` is `"variable"`).
/// `run` runs the tool with one argument and hands back what it gave, `None` where it could
/// not be started.
pub fn mysql_config<F: Fn(String) -> Option<CommandOutput>>(
    arg: &str,
    var_name: &str,
    run: F,
) -> (r: Option<String>)
    requires
        forall|a: String| run.requires((a,)),
    ensures
        exists|a: String, out: Option<CommandOutput>|
            a@ == spec_mysql_config_arg(arg@, var_name@) && #[trigger] run.ensures((a,), out)
                && opt_string_view(r) == spec_config_value(out),
{
    let cmd_arg = mysql_config_arg(arg, var_name);
    let ghost a = cmd_arg;
    let out = run(cmd_arg);
    let ghost o = out;
    let r = mysql_config_value(out);
    assert(run.ensures((a,), o));
    r
}

/// Asks `mysql_config` for the variable `var_name`.
pub fn mysql_config_variable<F: Fn(String) -> Option<CommandOutput>>(
    var_name: &str,
    run: F,
) -> (r: Option<String>)
    requires
        forall|a: String| run.requires((a,)),
    ensures
        exists|a: String, out: Option<CommandOutput>|
            a@ == spec_mysql_config_arg("variable"@, var_name@) && #[trigger] run.ensures(
                (a,),
                out,
            ) && opt_string_view(r) == spec_config_value(out),
{
    mysql_config("variable", var_name, run)
}

/// What `mysql_config` answers never begins or ends with whitespace.
pub proof fn lemma_config_value_trimmed(out: Option<CommandOutput>)
    ensures
        spec_config_value(out) matches Some(v) ==> v.len() == 0 || (!is_white_space(v[0])
            && !is_white_space(v.last())),
{
    if let Some(o) = out {
        lemma_trim_edges(decode_utf8(o.stdout@));
    }
}

proof fn lemma_first_line_with_split(
    pre: Seq<Seq<char>>,
    line: Seq<char>,
    post: Seq<Seq<char>>,
    pat: Seq<char>,
    i: int,
)
    requires
        0 <= i <= pre.len(),
        forall|j: int| 0 <= j < pre.len() ==> find(#[trigger] pre[j], pat) is None,
        find(line, pat) is Some,
    ensures
        first_line_with(pre.push(line) + post, pat, i) == Some(pre.len() as int),
    decreases pre.len() - i,
{
    let all = pre.push(line) + post;
    if i < pre.len() {
        assert(all[i] == pre[i]);
        lemma_first_line_with_split(pre, line, post, pat, i + 1);
    } else {
        assert(all[i] == line);
    }
}

proof fn lemma_first_line_with_none(lines: Seq<Seq<char>>, pat: Seq<char>, i: int)
    requires
        0 <= i,
        forall|j: int| 0 <= j < lines.len() ==> find(#[trigger] lines[j], pat) is None,
    ensures
        first_line_with(lines, pat, i) is None,
    decreases lines.len() - i,
{
    if i < lines.len() {
        lemma_first_line_with_none(lines, pat, i + 1);
    }
}

/// The first line that holds the pattern decides the version number, whatever the lines
/// after it hold; where no line holds it, the version number is 0.
pub proof fn lemma_version_from_first_line(
    pre: Seq<Seq<char>>,
    line: Seq<char>,
    post: Seq<Seq<char>>,
    pat: Seq<char>,
)
    ensures
        (forall|j: int| 0 <= j < pre.len() ==> find(#[trigger] pre[j], pat) is None) && find(
            line,
            pat,
        ) is Some ==> spec_version_id(pre.push(line) + post, pat) == parse_u32(
            version_field(line, pat),
        ),
        (forall|j: int| 0 <= j < pre.len() ==> find(#[trigger] pre[j], pat) is None)
            ==> spec_version_id(pre, pat) == Some(0u32),
{
    if forall|j: int| 0 <= j < pre.len() ==> find(#[trigger] pre[j], pat) is None {
        lemma_first_line_with_none(pre, pat, 0);
        if find(line, pat) is Some {
            lemma_first_line_with_split(pre, line, post, pat, 0);
            assert((pre.push(line) + post)[pre.len() as int] == line);
        }
    }
}

} // verus!
