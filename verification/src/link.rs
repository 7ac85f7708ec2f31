//! How the build finds the client library to link: the environment settings it reads, the
//! sources it asks in turn, and the link directives that it derives from their answers.
use vstd::prelude::*;

use crate::helper::line_views;
use crate::text::{chars_of, has_prefix};
use crate::version::starts_with;

verus! {

// ---------------------------------------------------------------------------------------------
// Environment settings
// ---------------------------------------------------------------------------------------------

/// The character that stands for `c` in a target's environment key: ASCII letters upper-cased,
/// `-` replaced by `_`.
pub open spec fn key_char(c: char) -> char {
    if c == '-' {
        '_'
    } else if 'a' <= c <= 'z' {
        ((c as u32) - 32) as char
    } else {
        c
    }
}

/// The key under which settings for the target `target` are read.
pub open spec fn spec_target_key(target: Seq<char>) -> Seq<char> {
    target.map_values(|c: char| key_char(c))
}

/// `String::push`: appends `c`.
#[verifier::external_body]
fn push_char(s: &mut String, c: char)
    ensures
        final(s)@ == old(s)@.push(c),
{
    s.push(c);
}

/// The key under which settings for the target triple `target` are read
/// (`x86_64-unknown-linux-gnu` becomes `X86_64_UNKNOWN_LINUX_GNU`).
pub fn target_key(target: &str) -> (r: String)
    ensures
        r@ == spec_target_key(target@),
{
    let v = chars_of(target);
    let mut r = String::new();
    let mut i: usize = 0;
    while i < v.len()
        invariant
            i <= v.len(),
            v@ == target@,
            r@ == spec_target_key(target@).take(i as int),
        decreases v.len() - i,
    {
        let c = v[i];
        let k = if c == '-' {
            '_'
        } else if 'a' <= c && c <= 'z' {
            let b = (c as u32 - 32) as u8;
            assert(b as char == ((c as u32) - 32) as char);
            b as char
        } else {
            c
        };
        let ghost before = r@;
        push_char(&mut r, k);
        assert(spec_target_key(target@).take(i + 1) =~= before.push(k));
        i = i + 1;
    }
    assert(spec_target_key(target@).take(v.len() as int) =~= spec_target_key(target@));
    r
}

/// The environment settings that the build reads.
#[derive(Clone, Copy, Debug, PartialEq, Eq, Structural)]
pub enum EnvSetting {
    Version,
    IncludeDir,
    Lib,
    LibDir,
    LibName,
    Static,
}

impl EnvSetting {
    /// The name of the setting's environment variable.
    pub open spec fn spec_name(self) -> Seq<char> {
        match self {
            EnvSetting::Version => "MYSQLCLIENT_VERSION"@,
            EnvSetting::IncludeDir => "MYSQLCLIENT_INCLUDE_DIR"@,
            EnvSetting::Lib => "MYSQLCLIENT_LIB"@,
            EnvSetting::LibDir => "MYSQLCLIENT_LIB_DIR"@,
            EnvSetting::LibName => "MYSQLCLIENT_LIBNAME"@,
            EnvSetting::Static => "MYSQLCLIENT_STATIC"@,
        }
    }

    /// The name of the setting's environment variable.
    pub fn name(self) -> (r: &'static str)
        ensures
            r@ == self.spec_name(),
    {
        match self {
            EnvSetting::Version => "MYSQLCLIENT_VERSION",
            EnvSetting::IncludeDir => "MYSQLCLIENT_INCLUDE_DIR",
            EnvSetting::Lib => "MYSQLCLIENT_LIB",
            EnvSetting::LibDir => "MYSQLCLIENT_LIB_DIR",
            EnvSetting::LibName => "MYSQLCLIENT_LIBNAME",
            EnvSetting::Static => "MYSQLCLIENT_STATIC",
        }
    }

    /// The name of the setting's environment variable for one target: the name, `_`, and the
    /// target's key.
    pub open spec fn spec_target_name(self, key: Seq<char>) -> Seq<char> {
        self.spec_name() + "_"@ + key
    }

    /// The name of the setting's environment variable for the target whose key is `key`.
    pub fn target_name(self, key: &str) -> (r: String)
        ensures
            r@ == self.spec_target_name(key@),
    {
        let mut s = String::from_str(self.name());
        s.append("_");
        s.append(key);
        s
    }
}

/// The environment variables whose change makes the build run again, in the order announced.
pub open spec fn spec_watched_env(key: Seq<char>) -> Seq<Seq<char>> {
    seq![
        EnvSetting::Version.spec_name(),
        EnvSetting::IncludeDir.spec_name(),
        EnvSetting::IncludeDir.spec_target_name(key),
        EnvSetting::Lib.spec_name(),
        EnvSetting::LibDir.spec_name(),
        EnvSetting::LibDir.spec_target_name(key),
        EnvSetting::LibName.spec_name(),
        EnvSetting::LibName.spec_target_name(key),
        EnvSetting::Static.spec_name(),
        EnvSetting::Version.spec_target_name(key),
        EnvSetting::Lib.spec_target_name(key),
        EnvSetting::Static.spec_target_name(key),
    ]
}

/// The line that makes the build run again when the variable `name` changes.
pub open spec fn rerun_line(name: Seq<char>) -> Seq<char> {
    "cargo::rerun-if-env-changed="@ + name
}

/// The lines that make the build run again when a watched environment variable changes, for
/// the target whose key is `key`.
pub fn rerun_if_env_changed_lines(key: &str) -> (r: Vec<String>)
    ensures
        line_views(r@) == spec_watched_env(key@).map_values(|n: Seq<char>| rerun_line(n)),
{
    let names: Vec<String> = vec![
        String::from_str(EnvSetting::Version.name()),
        String::from_str(EnvSetting::IncludeDir.name()),
        EnvSetting::IncludeDir.target_name(key),
        String::from_str(EnvSetting::Lib.name()),
        String::from_str(EnvSetting::LibDir.name()),
        EnvSetting::LibDir.target_name(key),
        String::from_str(EnvSetting::LibName.name()),
        EnvSetting::LibName.target_name(key),
        String::from_str(EnvSetting::Static.name()),
        EnvSetting::Version.target_name(key),
        EnvSetting::Lib.target_name(key),
        EnvSetting::Static.target_name(key),
    ];
    assert(line_views(names@) =~= spec_watched_env(key@));
    let mut r: Vec<String> = Vec::new();
    let mut i: usize = 0;
    while i < names.len()
        invariant
            i <= names.len(),
            line_views(names@) == spec_watched_env(key@),
            line_views(r@) == spec_watched_env(key@).take(i as int).map_values(
                |n: Seq<char>| rerun_line(n),
            ),
        decreases names.len() - i,
    {
        let mut line = String::from_str("cargo::rerun-if-env-changed=");
        line.append(names[i].as_str());
        let ghost before = r@;
        assert(line_views(names@)[i as int] == names@[i as int]@);
        r.push(line);
        assert(line_views(r@) =~= line_views(before).push(line@));
        assert(spec_watched_env(key@).take(i + 1).map_values(|n: Seq<char>| rerun_line(n))
            =~= spec_watched_env(key@).take(i as int).map_values(|n: Seq<char>| rerun_line(n)).push(
            rerun_line(spec_watched_env(key@)[i as int]),
        ));
        i = i + 1;
    }
    assert(spec_watched_env(key@).take(12) =~= spec_watched_env(key@));
    r
}

/// The first of two settings that is set.
pub open spec fn spec_first_set(plain: Option<Seq<char>>, targeted: Option<Seq<char>>) -> Option<
    Seq<char>,
> {
    match plain {
        Some(v) => Some(v),
        None => targeted,
    }
}

/// The characters of an optional string.
pub open spec fn opt_view(s: Option<String>) -> Option<Seq<char>> {
    match s {
        Some(t) => Some(t@),
        None => None,
    }
}

/// The value of a setting: its plain variable where that is set, else its variable for the
/// target.
pub fn first_set(plain: Option<String>, targeted: Option<String>) -> (r: Option<String>)
    ensures
        opt_view(r) == spec_first_set(opt_view(plain), opt_view(targeted)),
{
    match plain {
        Some(v) => Some(v),
        None => targeted,
    }
}

/// The name of the library to link: the `MYSQLCLIENT_LIBNAME` setting where set, else
/// `mysqlclient`.
pub open spec fn spec_libname(plain: Option<Seq<char>>, targeted: Option<Seq<char>>) -> Seq<
    char,
> {
    match spec_first_set(plain, targeted) {
        Some(n) => n,
        None => "mysqlclient"@,
    }
}

/// The name of the library to link, from the plain and the targeted `MYSQLCLIENT_LIBNAME`
/// settings.
pub fn libname(plain: Option<String>, targeted: Option<String>) -> (r: String)
    ensures
        r@ == spec_libname(opt_view(plain), opt_view(targeted)),
{
    match first_set(plain, targeted) {
        Some(n) => n,
        None => String::from_str("mysqlclient"),
    }
}

/// How the library is linked: `static=` where either `MYSQLCLIENT_STATIC` setting is set,
/// else the default.
pub open spec fn spec_link_specifier(static_set: bool, static_target_set: bool) -> Seq<char> {
    if static_set || static_target_set {
        "static="@
    } else {
        ""@
    }
}

/// How the library is linked, from whether the plain and the targeted `MYSQLCLIENT_STATIC`
/// settings are set.
pub fn link_specifier(static_set: bool, static_target_set: bool) -> (r: &'static str)
    ensures
        r@ == spec_link_specifier(static_set, static_target_set),
{
    if static_set || static_target_set {
        "static="
    } else {
        ""
    }
}

// ---------------------------------------------------------------------------------------------
// The output of `mysql_config --libs`
// ---------------------------------------------------------------------------------------------

/// ASCII whitespace, as `split_ascii_whitespace` understands it.
pub open spec fn is_ascii_space(c: char) -> bool {
    c == ' ' || c == '\t' || c == '\n' || c == '\x0C' || c == '\r'
}

/// The end of the word that starts at `i`.
pub open spec fn word_end(s: Seq<char>, i: int) -> int
    decreases s.len() - i,
{
    if 0 <= i < s.len() && !is_ascii_space(s[i]) {
        word_end(s, i + 1)
    } else {
        i
    }
}

/// The word that starts at `i` ends within `s`, after `i` where `s[i]` is no space, and
/// holds no space.
pub proof fn lemma_word_end(s: Seq<char>, i: int)
    requires
        0 <= i <= s.len(),
    ensures
        i <= word_end(s, i) <= s.len(),
        i < s.len() && !is_ascii_space(s[i]) ==> i < word_end(s, i),
        forall|j: int| i <= j < word_end(s, i) ==> !is_ascii_space(#[trigger] s[j]),
    decreases s.len() - i,
{
    if i < s.len() && !is_ascii_space(s[i]) {
        lemma_word_end(s, i + 1);
    }
}

/// The words of `s` from position `i` on: its maximal runs of characters other than ASCII
/// whitespace, in order.
pub open spec fn words_from(s: Seq<char>, i: int) -> Seq<Seq<char>>
    decreases s.len() - i,
{
    if i < 0 || i >= s.len() {
        Seq::empty()
    } else if is_ascii_space(s[i]) {
        words_from(s, i + 1)
    } else {
        proof {
            lemma_word_end(s, i);
        }
        seq![s.subrange(i, word_end(s, i))] + words_from(s, word_end(s, i))
    }
}

/// The words of `s`, as `split_ascii_whitespace` yields them.
pub open spec fn words(s: Seq<char>) -> Seq<Seq<char>> {
    words_from(s, 0)
}

/// The characters of each word.
pub open spec fn word_views(w: Seq<Vec<char>>) -> Seq<Seq<char>> {
    w.map_values(|v: Vec<char>| v@)
}

/// Splits `s` into its words.
pub fn split_words(s: &Vec<char>) -> (r: Vec<Vec<char>>)
    ensures
        word_views(r@) == words(s@),
{
    let n = s.len();
    let mut r: Vec<Vec<char>> = Vec::new();
    let mut i: usize = 0;
    while i < n
        invariant
            i <= n,
            n == s.len(),
            words(s@) == word_views(r@) + words_from(s@, i as int),
        decreases n - i,
    {
        if s[i] == ' ' || s[i] == '\t' || s[i] == '\n' || s[i] == '\x0C' || s[i] == '\r' {
            i = i + 1;
        } else {
            proof {
                lemma_word_end(s@, i as int);
            }
            let mut j = i;
            let mut w: Vec<char> = Vec::new();
            while j < n && !(s[j] == ' ' || s[j] == '\t' || s[j] == '\n' || s[j] == '\x0C' || s[j]
                == '\r')
                invariant
                    i <= j <= n,
                    n == s.len(),
                    word_end(s@, i as int) == word_end(s@, j as int),
                    w@ == s@.subrange(i as int, j as int),
                decreases n - j,
            {
                w.push(s[j]);
                j = j + 1;
            }
            let ghost before = r@;
            r.push(w);
            assert(word_views(r@) =~= word_views(before).push(w@));
            assert(words(s@) =~= word_views(r@) + words_from(s@, j as int));
            i = j;
        }
    }
    assert(words(s@) =~= word_views(r@));
    r
}

/// The link directive that a word of `mysql_config --libs` stands for: `-lNAME` links the
/// library, `-LPATH` searches the directory, `-RPATH` passes a run-time search path to the
/// linker. `None` for any other word.
pub open spec fn libs_directive(word: Seq<char>, link_specifier: Seq<char>) -> Option<Seq<char>> {
    if starts_with(word, "-l"@) {
        Some("cargo:rustc-link-lib="@ + link_specifier + word.skip("-l"@.len() as int))
    } else if starts_with(word, "-L"@) {
        Some("cargo:rustc-link-search=native="@ + word.skip("-L"@.len() as int))
    } else if starts_with(word, "-R"@) {
        Some("cargo:rustc-link-arg=-Wl,-R"@ + word.skip("-R"@.len() as int))
    } else {
        None
    }
}

/// The index of the first word, at or after `i`, that stands for no link directive.
pub open spec fn first_unexpected(ws: Seq<Seq<char>>, link_specifier: Seq<char>, i: int) -> Option<
    int,
>
    decreases ws.len() - i,
{
    if i < 0 || i >= ws.len() {
        None
    } else if libs_directive(ws[i], link_specifier) is None {
        Some(i)
    } else {
        first_unexpected(ws, link_specifier, i + 1)
    }
}

/// The directives for the words before the first unexpected one.
pub open spec fn spec_libs_lines(ws: Seq<Seq<char>>, link_specifier: Seq<char>) -> Seq<Seq<char>> {
    let m = match first_unexpected(ws, link_specifier, 0) {
        Some(k) => k,
        None => ws.len() as int,
    };
    ws.take(m).map_values(|w: Seq<char>| libs_directive(w, link_specifier)->0)
}

/// What the build makes of the output of `mysql_config --libs`.
pub struct LibsDirectives {
    /// The link directives for the words before the first unexpected one.
    pub lines: Vec<String>,
    /// Whether some word stands for no link directive.
    pub unexpected: bool,
}

/// `w` without its first `k` characters.
fn skip_chars(w: &Vec<char>, k: usize) -> (r: String)
    requires
        k <= w.len(),
    ensures
        r@ == w@.skip(k as int),
{
    let mut r = String::new();
    let mut i = k;
    while i < w.len()
        invariant
            k <= i <= w.len(),
            r@ == w@.subrange(k as int, i as int),
        decreases w.len() - i,
    {
        push_char(&mut r, w[i]);
        assert(r@ =~= w@.subrange(k as int, i + 1));
        i = i + 1;
    }
    assert(w@.skip(k as int) =~= w@.subrange(k as int, w.len() as int));
    r
}

/// The link directive that the word `w` stands for (see [`libs_directive`]).
pub fn libs_word_directive(w: &Vec<char>, link_specifier: &str) -> (r: Option<String>)
    ensures
        opt_view(r) == libs_directive(w@, link_specifier@),
{
    let lower = chars_of("-l");
    let upper = chars_of("-L");
    let run = chars_of("-R");
    if has_prefix(w, &lower) {
        let mut s = String::from_str("cargo:rustc-link-lib=");
        s.append(link_specifier);
        let rest = skip_chars(w, lower.len());
        s.append(rest.as_str());
        Some(s)
    } else if has_prefix(w, &upper) {
        let mut s = String::from_str("cargo:rustc-link-search=native=");
        let rest = skip_chars(w, upper.len());
        s.append(rest.as_str());
        Some(s)
    } else if has_prefix(w, &run) {
        let mut s = String::from_str("cargo:rustc-link-arg=-Wl,-R");
        let rest = skip_chars(w, run.len());
        s.append(rest.as_str());
        Some(s)
    } else {
        None
    }
}

/// The link directives that the output of `mysql_config --libs` stands for, up to its first
/// unexpected word, and whether there is one.
pub fn libs_directives(output: &str, link_specifier: &str) -> (r: LibsDirectives)
    ensures
        line_views(r.lines@) == spec_libs_lines(words(output@), link_specifier@),
        r.unexpected == (first_unexpected(words(output@), link_specifier@, 0) is Some),
{
    let v = chars_of(output);
    let ws = split_words(&v);
    let ghost wv = words(output@);
    let mut lines: Vec<String> = Vec::new();
    let mut i: usize = 0;
    while i < ws.len()
        invariant
            i <= ws.len(),
            word_views(ws@) == wv,
            wv == words(output@),
            first_unexpected(wv, link_specifier@, 0) == first_unexpected(
                wv,
                link_specifier@,
                i as int,
            ),
            line_views(lines@) == wv.take(i as int).map_values(
                |w: Seq<char>| libs_directive(w, link_specifier@)->0,
            ),
        decreases ws.len() - i,
    {
        assert(word_views(ws@)[i as int] == ws@[i as int]@);
        match libs_word_directive(&ws[i], link_specifier) {
            Some(d) => {
                let ghost before = lines@;
                lines.push(d);
                assert(line_views(lines@) =~= line_views(before).push(d@));
                assert(wv.take(i + 1).map_values(
                    |w: Seq<char>| libs_directive(w, link_specifier@)->0,
                ) =~= wv.take(i as int).map_values(
                    |w: Seq<char>| libs_directive(w, link_specifier@)->0,
                ).push(libs_directive(wv[i as int], link_specifier@)->0));
                i = i + 1;
            },
            None => {
                return LibsDirectives { lines, unexpected: true };
            },
        }
    }
    assert(wv.take(i as int) =~= wv);
    LibsDirectives { lines, unexpected: false }
}

// ---------------------------------------------------------------------------------------------
// Finding the library
// ---------------------------------------------------------------------------------------------

/// The sources that the build asks for the client library, in the order asked.
#[derive(Clone, Copy, Debug, PartialEq, Eq, Structural)]
pub enum LinkSource {
    /// `pkg-config`, for `mysqlclient` and then `libmariadb`.
    PkgConfig,
    /// `vcpkg` (on MSVC targets only).
    Vcpkg,
    /// The `MYSQLCLIENT_LIB_DIR` setting.
    LibDirEnv,
    /// The `mysql_config` tool.
    MysqlConfig,
}

/// The position of a source in the order asked.
pub open spec fn source_rank(s: LinkSource) -> int {
    match s {
        LinkSource::PkgConfig => 0,
        LinkSource::Vcpkg => 1,
        LinkSource::LibDirEnv => 2,
        LinkSource::MysqlConfig => 3,
    }
}

/// What a source answered.
#[allow(inconsistent_fields)]
pub enum SourceAnswer {
    /// The source knows no client library.
    NotFound,
    /// `pkg-config` found the library, in this version; it announced the link directives
    /// itself.
    PkgConfig { version: String },
    /// `vcpkg` found the library and announced the link directives itself; `version` is the
    /// `MYSQLCLIENT_VERSION` setting.
    Vcpkg { version: Option<String> },
    /// `MYSQLCLIENT_LIB_DIR` is set to `path`; `version` is the `MYSQLCLIENT_VERSION` setting.
    LibDir { path: String, version: Option<String> },
    /// `mysql_config --libs` answered `libs`; `version` is what `mysql_config --version`
    /// answered.
    MysqlConfig { libs: String, version: Option<String> },
}

/// Why no library could be configured.
#[derive(Clone, Copy, Debug, PartialEq, Eq, Structural)]
pub enum LinkError {
    /// `mysql_config --libs` answered a word that stands for no link directive.
    UnexpectedMysqlConfigOutput,
    /// No source gave both a library and its version.
    NoCompatibleLibrary,
}

/// What the build does next.
pub enum LinkStep {
    /// Ask this source.
    Ask(LinkSource),
    /// Announce `lines`, then configure the bindings for the version string `version`.
    Configure { lines: Vec<String>, version: String },
    /// Announce `lines`, then stop with `error`.
    Fail { lines: Vec<String>, error: LinkError },
}

/// [`LinkStep`] over the characters of its strings.
pub enum LinkStepView {
    Ask(LinkSource),
    Configure(Seq<Seq<char>>, Seq<char>),
    Fail(Seq<Seq<char>>, LinkError),
}

impl LinkStep {
    /// The step over the characters of its strings.
    pub open spec fn step_view(&self) -> LinkStepView {
        match self {
            LinkStep::Ask(s) => LinkStepView::Ask(*s),
            LinkStep::Configure { lines, version } => LinkStepView::Configure(
                line_views(lines@),
                version@,
            ),
            LinkStep::Fail { lines, error } => LinkStepView::Fail(line_views(lines@), *error),
        }
    }
}

/// The source asked first.
pub fn first_link_source() -> (r: LinkSource)
    ensures
        source_rank(r) == 0,
{
    LinkSource::PkgConfig
}

/// The directives for a library found in the directory `path`.
pub open spec fn lib_dir_lines(path: Seq<char>, libname: Seq<char>, link_specifier: Seq<char>) -> Seq<
    Seq<char>,
> {
    seq![
        "cargo:rustc-link-search=native="@ + path,
        "cargo:rustc-link-lib="@ + link_specifier + libname,
    ]
}

/// Configure with `lines` and `version` where the version is known, else fail.
pub open spec fn configure_or_fail(lines: Seq<Seq<char>>, version: Option<Seq<char>>) -> LinkStepView {
    match version {
        Some(v) => LinkStepView::Configure(lines, v),
        None => LinkStepView::Fail(lines, LinkError::NoCompatibleLibrary),
    }
}

/// What the build does after `asked` gave `answer`: ask the next source where it found
/// nothing (and fail after the last); otherwise announce the link directives that the answer
/// stands for and configure with the version found, or fail where there is no version or
/// `mysql_config` gave an unexpected word.
pub open spec fn spec_next_link_step(
    asked: LinkSource,
    answer: SourceAnswer,
    libname: Seq<char>,
    link_specifier: Seq<char>,
) -> LinkStepView {
    match answer {
        SourceAnswer::NotFound => match asked {
            LinkSource::PkgConfig => LinkStepView::Ask(LinkSource::Vcpkg),
            LinkSource::Vcpkg => LinkStepView::Ask(LinkSource::LibDirEnv),
            LinkSource::LibDirEnv => LinkStepView::Ask(LinkSource::MysqlConfig),
            LinkSource::MysqlConfig => LinkStepView::Fail(
                Seq::empty(),
                LinkError::NoCompatibleLibrary,
            ),
        },
        SourceAnswer::PkgConfig { version } => LinkStepView::Configure(Seq::empty(), version@),
        SourceAnswer::Vcpkg { version } => configure_or_fail(Seq::empty(), opt_view(version)),
        SourceAnswer::LibDir { path, version } => configure_or_fail(
            lib_dir_lines(path@, libname, link_specifier),
            opt_view(version),
        ),
        SourceAnswer::MysqlConfig { libs, version } => {
            let lines = spec_libs_lines(words(libs@), link_specifier);
            if first_unexpected(words(libs@), link_specifier, 0) is Some {
                LinkStepView::Fail(lines, LinkError::UnexpectedMysqlConfigOutput)
            } else {
                configure_or_fail(lines, opt_view(version))
            }
        },
    }
}

/// What the build does after the source `asked` gave `answer`, linking the library named
/// `libname` in the way `link_specifier` says (see [`spec_next_link_step`]).
pub fn next_link_step(
    asked: LinkSource,
    answer: SourceAnswer,
    libname: &str,
    link_specifier: &str,
) -> (r: LinkStep)
    ensures
        r.step_view() == spec_next_link_step(asked, answer, libname@, link_specifier@),
{
    match answer {
        SourceAnswer::NotFound => match asked {
            LinkSource::PkgConfig => LinkStep::Ask(LinkSource::Vcpkg),
            LinkSource::Vcpkg => LinkStep::Ask(LinkSource::LibDirEnv),
            LinkSource::LibDirEnv => LinkStep::Ask(LinkSource::MysqlConfig),
            LinkSource::MysqlConfig => {
                let lines: Vec<String> = Vec::new();
                assert(line_views(lines@) =~= Seq::<Seq<char>>::empty());
                LinkStep::Fail { lines, error: LinkError::NoCompatibleLibrary }
            },
        },
        SourceAnswer::PkgConfig { version } => {
            let lines: Vec<String> = Vec::new();
            assert(line_views(lines@) =~= Seq::<Seq<char>>::empty());
            LinkStep::Configure { lines, version }
        },
        SourceAnswer::Vcpkg { version } => {
            let lines: Vec<String> = Vec::new();
            assert(line_views(lines@) =~= Seq::<Seq<char>>::empty());
            configure_with(lines, version)
        },
        SourceAnswer::LibDir { path, version } => {
            let mut search = String::from_str("cargo:rustc-link-search=native=");
            search.append(path.as_str());
            let mut lib = String::from_str("cargo:rustc-link-lib=");
            lib.append(link_specifier);
            lib.append(libname);
            let lines = vec![search, lib];
            assert(line_views(lines@) =~= lib_dir_lines(path@, libname@, link_specifier@));
            configure_with(lines, version)
        },
        SourceAnswer::MysqlConfig { libs, version } => {
            let d = libs_directives(libs.as_str(), link_specifier);
            if d.unexpected {
                LinkStep::Fail { lines: d.lines, error: LinkError::UnexpectedMysqlConfigOutput }
            } else {
                configure_with(d.lines, version)
            }
        },
    }
}

/// Configure with `lines` and `version` where the version is known, else fail.
fn configure_with(lines: Vec<String>, version: Option<String>) -> (r: LinkStep)
    ensures
        r.step_view() == configure_or_fail(line_views(lines@), opt_view(version)),
{
    match version {
        Some(v) => LinkStep::Configure { lines, version: v },
        None => LinkStep::Fail { lines, error: LinkError::NoCompatibleLibrary },
    }
}

/// The search for the library ends: after a source that found nothing, the build asks a
/// source that comes later in the order, and after the last one it stops.
pub proof fn lemma_link_search_moves_on(
    asked: LinkSource,
    answer: SourceAnswer,
    libname: Seq<char>,
    link_specifier: Seq<char>,
)
    ensures
        spec_next_link_step(asked, answer, libname, link_specifier) matches LinkStepView::Ask(next)
            ==> source_rank(asked) < source_rank(next) && answer is NotFound,
        answer is NotFound && asked == LinkSource::MysqlConfig ==> spec_next_link_step(
            asked,
            answer,
            libname,
            link_specifier,
        ) is Fail,
{
}

/// A source that found the library together with its version configures exactly that
/// version: `pkg-config` always, `vcpkg` and `MYSQLCLIENT_LIB_DIR` whenever the version setting
/// is there, and `mysql_config` whenever its link words are all understood and it told the
/// version. Without a version these sources fail.
pub proof fn lemma_found_version_configures(
    asked: LinkSource,
    answer: SourceAnswer,
    libname: Seq<char>,
    link_specifier: Seq<char>,
)
    ensures
        answer matches SourceAnswer::PkgConfig { version } ==> spec_next_link_step(
            asked,
            answer,
            libname,
            link_specifier,
        ) == LinkStepView::Configure(Seq::empty(), version@),
        answer matches SourceAnswer::Vcpkg { version } ==> (match version {
            Some(v) => spec_next_link_step(asked, answer, libname, link_specifier)
                == LinkStepView::Configure(Seq::empty(), v@),
            None => spec_next_link_step(asked, answer, libname, link_specifier)
                == LinkStepView::Fail(Seq::empty(), LinkError::NoCompatibleLibrary),
        }),
        answer matches SourceAnswer::LibDir { path, version } ==> (match version {
            Some(v) => spec_next_link_step(asked, answer, libname, link_specifier)
                matches LinkStepView::Configure(lines, w) && w == v@ && lines.len() == 2,
            None => spec_next_link_step(asked, answer, libname, link_specifier)
                matches LinkStepView::Fail(_, e) && e == LinkError::NoCompatibleLibrary,
        }),
        answer matches SourceAnswer::MysqlConfig { libs, version } ==> (first_unexpected(
            words(libs@),
            link_specifier,
            0,
        ) is None ==> match version {
            Some(v) => spec_next_link_step(asked, answer, libname, link_specifier)
                matches LinkStepView::Configure(_, w) && w == v@,
            None => spec_next_link_step(asked, answer, libname, link_specifier)
                matches LinkStepView::Fail(_, e) && e == LinkError::NoCompatibleLibrary,
        }),
{
}

/// The library name is the plain `MYSQLCLIENT_LIBNAME` setting where that is set, else the one
/// for the target, and `mysqlclient` only where neither is set.
pub proof fn lemma_libname_choice(n: Seq<char>, t: Seq<char>)
    ensures
        spec_libname(Some(n), None) == n,
        spec_libname(Some(n), Some(t)) == n,
        spec_libname(None, Some(t)) == t,
        spec_libname(None, None) == "mysqlclient"@,
{
}

/// `-lNAME` links the library `NAME` in the given way, `-LPATH` searches `PATH`, and `-RPATH`
/// passes `PATH` to the linker as a run-time search path, whatever the name or path.
pub proof fn lemma_libs_words(name: Seq<char>, link_specifier: Seq<char>)
    ensures
        libs_directive("-l"@ + name, link_specifier) == Some(
            "cargo:rustc-link-lib="@ + link_specifier + name,
        ),
        libs_directive("-L"@ + name, link_specifier) == Some(
            "cargo:rustc-link-search=native="@ + name,
        ),
        libs_directive("-R"@ + name, link_specifier) == Some(
            "cargo:rustc-link-arg=-Wl,-R"@ + name,
        ),
{
    reveal_strlit("-l");
    reveal_strlit("-L");
    reveal_strlit("-R");
    let (l, u, r) = ("-l"@ + name, "-L"@ + name, "-R"@ + name);
    assert("-l"@ =~= l.subrange(0, 2));
    assert(l.skip(2) =~= name);
    assert("-L"@ =~= u.subrange(0, 2));
    assert(u.skip(2) =~= name);
    assert(!starts_with(u, "-l"@)) by {
        assert(u.subrange(0, 2)[1] != "-l"@[1]);
    }
    assert("-R"@ =~= r.subrange(0, 2));
    assert(r.skip(2) =~= name);
    assert(!starts_with(r, "-l"@)) by {
        assert(r.subrange(0, 2)[1] != "-l"@[1]);
    }
    assert(!starts_with(r, "-L"@)) by {
        assert(r.subrange(0, 2)[1] != "-L"@[1]);
    }
}

} // verus!
