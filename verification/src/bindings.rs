//! What the build hands the bindings generator: the header, the items to keep, and the
//! include directories of the installed client library.
use vstd::prelude::*;

use crate::helper::line_views;

verus! {

/// The header whose declarations the bindings cover.
pub open spec fn spec_wrapper_header() -> Seq<char> {
    "bindings/wrapper.h"@
}

/// The name patterns of the functions that the bindings keep.
pub open spec fn spec_function_patterns() -> Seq<Seq<char>> {
    seq!["mysql.*"@, "mariadb.*"@]
}

/// The name patterns of the types that the bindings keep.
pub open spec fn spec_type_patterns() -> Seq<Seq<char>> {
    seq!["MYSQL.*"@, "MARIADB.*"@, "mysql.*"@, "mariadb.*"@]
}

/// The name patterns of the variables that the bindings keep.
pub open spec fn spec_var_patterns() -> Seq<Seq<char>> {
    seq!["MYSQL.*"@, "MARIADB.*"@]
}

/// The characters of each static string.
pub open spec fn str_views(v: Seq<&'static str>) -> Seq<Seq<char>> {
    v.map_values(|s: &'static str| s@)
}

/// How the bindings generator is set up.
pub struct BindgenConfig {
    /// The header whose declarations the bindings cover.
    pub header: &'static str,
    /// The name patterns of the functions kept.
    pub functions: Vec<&'static str>,
    /// The name patterns of the types kept.
    pub types: Vec<&'static str>,
    /// The name patterns of the variables kept.
    pub vars: Vec<&'static str>,
    /// Whether C enums become Rust enums marked non-exhaustive.
    pub non_exhaustive_enums: bool,
}

/// How the bindings generator is set up.
pub fn bindgen_config() -> (r: BindgenConfig)
    ensures
        r.header@ == spec_wrapper_header(),
        str_views(r.functions@) == spec_function_patterns(),
        str_views(r.types@) == spec_type_patterns(),
        str_views(r.vars@) == spec_var_patterns(),
        r.non_exhaustive_enums,
{
    let functions = vec!["mysql.*", "mariadb.*"];
    let types = vec!["MYSQL.*", "MARIADB.*", "mysql.*", "mariadb.*"];
    let vars = vec!["MYSQL.*", "MARIADB.*"];
    assert(str_views(functions@) =~= spec_function_patterns());
    assert(str_views(types@) =~= spec_type_patterns());
    assert(str_views(vars@) =~= spec_var_patterns());
    BindgenConfig {
        header: "bindings/wrapper.h",
        functions,
        types,
        vars,
        non_exhaustive_enums: true,
    }
}

/// The sources that the build asks for the include directories, in the order asked.
#[derive(Clone, Copy, Debug, PartialEq, Eq, Structural)]
pub enum IncludeSource {
    /// `pkg-config`, for `mysqlclient` and then `libmariadb`.
    PkgConfig,
    /// The `MYSQLCLIENT_INCLUDE_DIR` setting.
    IncludeDirEnv,
    /// `mysql_config --include`.
    MysqlConfig,
    /// `vcpkg` (on MSVC targets only).
    Vcpkg,
}

/// What a source answered.
pub enum IncludeAnswer {
    /// The source knows no include directory.
    NotFound,
    /// `pkg-config` found the library with these include directories.
    PkgConfig { paths: Vec<String> },
    /// `MYSQLCLIENT_INCLUDE_DIR` is set to `path`.
    IncludeDir { path: String },
    /// `mysql_config --include` answered `flags`.
    MysqlConfig { flags: String },
    /// `vcpkg` found the library with these include directories.
    Vcpkg { paths: Vec<String> },
}

/// What the build does next.
pub enum IncludeStep {
    /// Ask this source.
    Ask(IncludeSource),
    /// Hand these arguments to the C parser.
    Args(Vec<String>),
}

/// [`IncludeStep`] over the characters of its strings.
pub enum IncludeStepView {
    Ask(IncludeSource),
    Args(Seq<Seq<char>>),
}

impl IncludeStep {
    /// The step over the characters of its strings.
    pub open spec fn step_view(&self) -> IncludeStepView {
        match self {
            IncludeStep::Ask(s) => IncludeStepView::Ask(*s),
            IncludeStep::Args(a) => IncludeStepView::Args(line_views(a@)),
        }
    }
}

/// The argument that adds `dir` to the C parser's include path.
pub open spec fn include_arg(dir: Seq<char>) -> Seq<char> {
    "-I"@ + dir
}

/// The argument for an include directory that `vcpkg` reports: its `mysql` subdirectory.
pub open spec fn vcpkg_include_arg(dir: Seq<char>) -> Seq<char> {
    "-I"@ + dir + "\\mysql"@
}

/// The source asked first.
pub fn first_include_source() -> (r: IncludeSource)
    ensures
        r == IncludeSource::PkgConfig,
{
    IncludeSource::PkgConfig
}

/// What the build does after `asked` gave `answer`: ask the next source where it found
/// nothing (and hand over no arguments after the last); otherwise hand over the arguments that
/// the answer stands for.
pub open spec fn spec_next_include_step(asked: IncludeSource, answer: IncludeAnswer) -> IncludeStepView {
    match answer {
        IncludeAnswer::NotFound => match asked {
            IncludeSource::PkgConfig => IncludeStepView::Ask(IncludeSource::IncludeDirEnv),
            IncludeSource::IncludeDirEnv => IncludeStepView::Ask(IncludeSource::MysqlConfig),
            IncludeSource::MysqlConfig => IncludeStepView::Ask(IncludeSource::Vcpkg),
            IncludeSource::Vcpkg => IncludeStepView::Args(Seq::empty()),
        },
        IncludeAnswer::PkgConfig { paths } => IncludeStepView::Args(
            line_views(paths@).map_values(|p: Seq<char>| include_arg(p)),
        ),
        IncludeAnswer::IncludeDir { path } => IncludeStepView::Args(seq![include_arg(path@)]),
        IncludeAnswer::MysqlConfig { flags } => IncludeStepView::Args(seq![flags@]),
        IncludeAnswer::Vcpkg { paths } => IncludeStepView::Args(
            line_views(paths@).map_values(|p: Seq<char>| vcpkg_include_arg(p)),
        ),
    }
}

/// The argument that adds `dir` (and `suffix` after it) to the C parser's include path.
fn include_arg_with(dir: &str, suffix: &str) -> (r: String)
    ensures
        r@ == "-I"@ + dir@ + suffix@,
{
    let mut s = String::from_str("-I");
    s.append(dir);
    s.append(suffix);
    s
}

/// The include arguments for each of `paths`, with `suffix` after each directory.
fn include_args(paths: &Vec<String>, suffix: &str) -> (r: Vec<String>)
    ensures
        line_views(r@) == line_views(paths@).map_values(|p: Seq<char>| "-I"@ + p + suffix@),
{
    let mut r: Vec<String> = Vec::new();
    let mut i: usize = 0;
    while i < paths.len()
        invariant
            i <= paths.len(),
            line_views(r@) == line_views(paths@).take(i as int).map_values(
                |p: Seq<char>| "-I"@ + p + suffix@,
            ),
        decreases paths.len() - i,
    {
        let a = include_arg_with(paths[i].as_str(), suffix);
        let ghost before = r@;
        r.push(a);
        assert(line_views(r@) =~= line_views(before).push(a@));
        assert(line_views(paths@).take(i + 1).map_values(|p: Seq<char>| "-I"@ + p + suffix@)
            =~= line_views(paths@).take(i as int).map_values(
            |p: Seq<char>| "-I"@ + p + suffix@,
        ).push("-I"@ + paths@[i as int]@ + suffix@));
        i = i + 1;
    }
    assert(line_views(paths@).take(i as int) =~= line_views(paths@));
    r
}

/// What the build does after the source `asked` gave `answer` (see [`spec_next_include_step`]).
pub fn next_include_step(asked: IncludeSource, answer: IncludeAnswer) -> (r: IncludeStep)
    ensures
        r.step_view() == spec_next_include_step(asked, answer),
{
    match answer {
        IncludeAnswer::NotFound => match asked {
            IncludeSource::PkgConfig => IncludeStep::Ask(IncludeSource::IncludeDirEnv),
            IncludeSource::IncludeDirEnv => IncludeStep::Ask(IncludeSource::MysqlConfig),
            IncludeSource::MysqlConfig => IncludeStep::Ask(IncludeSource::Vcpkg),
            IncludeSource::Vcpkg => {
                let a: Vec<String> = Vec::new();
                assert(line_views(a@) =~= Seq::<Seq<char>>::empty());
                IncludeStep::Args(a)
            },
        },
        IncludeAnswer::PkgConfig { paths } => {
            let a = include_args(&paths, "");
            proof {
                reveal_strlit("");
                assert forall|p: Seq<char>| "-I"@ + p + ""@ == include_arg(p) by {
                    assert("-I"@ + p + ""@ =~= include_arg(p));
                }
            }
            assert(line_views(a@) =~= line_views(paths@).map_values(|p: Seq<char>| include_arg(p)));
            IncludeStep::Args(a)
        },
        IncludeAnswer::IncludeDir { path } => {
            let a = vec![include_arg_with(path.as_str(), "")];
            proof {
                reveal_strlit("");
                assert("-I"@ + path@ + ""@ =~= include_arg(path@));
            }
            assert(line_views(a@) =~= seq![include_arg(path@)]);
            IncludeStep::Args(a)
        },
        IncludeAnswer::MysqlConfig { flags } => {
            let a = vec![flags];
            assert(line_views(a@) =~= seq![a@[0]@]);
            IncludeStep::Args(a)
        },
        IncludeAnswer::Vcpkg { paths } => {
            let a = include_args(&paths, "\\mysql");
            assert(line_views(a@) =~= line_views(paths@).map_values(
                |p: Seq<char>| vcpkg_include_arg(p),
            ));
            IncludeStep::Args(a)
        },
    }
}

/// The position of a source in the order asked.
pub open spec fn include_source_rank(s: IncludeSource) -> int {
    match s {
        IncludeSource::PkgConfig => 0,
        IncludeSource::IncludeDirEnv => 1,
        IncludeSource::MysqlConfig => 2,
        IncludeSource::Vcpkg => 3,
    }
}

/// The search for include directories ends: after a source that found nothing, the build asks
/// a source that comes later in the order, and after the last one it goes on without any.
pub proof fn lemma_include_search_moves_on(asked: IncludeSource, answer: IncludeAnswer)
    ensures
        spec_next_include_step(asked, answer) matches IncludeStepView::Ask(next)
            ==> include_source_rank(asked) < include_source_rank(next) && answer is NotFound,
        answer is NotFound && asked == IncludeSource::Vcpkg ==> spec_next_include_step(
            asked,
            answer,
        ) == IncludeStepView::Args(Seq::empty()),
{
}

} // verus!
