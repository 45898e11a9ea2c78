//! The argument vector of one run of the tool, as a function of the options.
//!
//! The grammar, in invocation order:
//!
//! ```text
//! outdated --fail-on-updates --output <report-path> --output-format json
//!   [--include-auto-references]
//!   --pre-release {Never|Auto|Always}
//!   [--include <name>]*
//!   [--exclude <name>]*
//!   [--transitive --transitive-depth <uint>]
//!   --version-lock {None|Major|Minor}
//!   [<input-dir>]
//! ```
use crate::options::{DotnetOutdatedOptions, OptionsView, PreRelease, VersionLock};
use crate::text::{decimal, decimal_string, lemma_decimal_starts_with_digit};
use vstd::prelude::*;
use vstd::string::*;

verus! {

/// The subcommand and the flags every run carries: fail on updates, and write
/// a JSON report to `output_file`.
pub open spec fn launch_args(output_file: Seq<char>) -> Seq<Seq<char>> {
    seq![
        "outdated"@,
        "--fail-on-updates"@,
        "--output"@,
        output_file,
        "--output-format"@,
        "json"@,
    ]
}

/// The auto-reference flag, present exactly when it is wanted.
pub open spec fn auto_reference_args(wanted: bool) -> Seq<Seq<char>> {
    if wanted {
        seq!["--include-auto-references"@]
    } else {
        Seq::empty()
    }
}

/// The pre-release flag with its value.
pub open spec fn pre_release_args(policy: PreRelease) -> Seq<Seq<char>> {
    seq!["--pre-release"@, policy.rendering()]
}

/// One `flag name` pair per name, in the order of `names`.
pub open spec fn filter_args(flag: Seq<char>, names: Seq<Seq<char>>) -> Seq<Seq<char>> {
    Seq::new(
        2 * names.len(),
        |i: int|
            if i % 2 == 0 {
                flag
            } else {
                names[i / 2]
            },
    )
}

/// The transitive flag together with the depth flag and its numeral, or nothing.
pub open spec fn transitive_args(wanted: bool, depth: nat) -> Seq<Seq<char>> {
    if wanted {
        seq!["--transitive"@, "--transitive-depth"@, decimal(depth)]
    } else {
        Seq::empty()
    }
}

/// The version-lock flag with its value.
pub open spec fn version_lock_args(lock: VersionLock) -> Seq<Seq<char>> {
    seq!["--version-lock"@, lock.rendering()]
}

/// The trailing positional argument: the input directory, when one is set.
pub open spec fn input_dir_args(dir: Option<Seq<char>>) -> Seq<Seq<char>> {
    match dir {
        Some(d) => seq![d],
        None => Seq::empty(),
    }
}

/// Everything up to and including the version lock: the part of the argument
/// vector that is made of flags and their values.
pub open spec fn flag_args(o: OptionsView, output_file: Seq<char>) -> Seq<Seq<char>> {
    launch_args(output_file) + auto_reference_args(o.include_auto_references)
        + pre_release_args(o.pre_release) + filter_args("--include"@, o.include_packages)
        + filter_args("--exclude"@, o.exclude) + transitive_args(o.transitive, o.transitive_depth)
        + version_lock_args(o.version_lock)
}

/// The whole argument vector for options `o` and report path `output_file`.
pub open spec fn spec_outdated_args(o: OptionsView, output_file: Seq<char>) -> Seq<Seq<char>> {
    flag_args(o, output_file) + input_dir_args(o.input_dir)
}

/// Adding one more name to a filter adds one more `flag name` pair at the end.
pub proof fn lemma_filter_args_push(flag: Seq<char>, names: Seq<Seq<char>>, name: Seq<char>)
    ensures
        filter_args(flag, names.push(name)) == filter_args(flag, names) + seq![flag, name],
{
    let longer = filter_args(flag, names.push(name));
    let joined = filter_args(flag, names) + seq![flag, name];
    assert(longer.len() == joined.len());
    assert forall|i: int| 0 <= i < longer.len() implies longer[i] == joined[i] by {
        if i < 2 * names.len() {
            assert(i / 2 < names.len());
            assert(names.push(name)[i / 2] == names[i / 2]);
        } else if i == 2 * names.len() {
            assert(i % 2 == 0);
        } else {
            assert(i == 2 * names.len() + 1);
            assert(i % 2 == 1);
            assert(i / 2 == names.len());
        }
    }
    assert(longer =~= joined);
}

/// How many elements of `args` are exactly `token`.
pub open spec fn occurrences(args: Seq<Seq<char>>, token: Seq<char>) -> nat
    decreases args.len(),
{
    if args.len() == 0 {
        0
    } else {
        occurrences(args.drop_last(), token) + if args.last() == token {
            1nat
        } else {
            0nat
        }
    }
}

/// Whether none of the texts that the caller supplies verbatim (the report
/// path, the package names, the input directory) is itself `token`.
pub open spec fn caller_texts_avoid(o: OptionsView, output_file: Seq<char>, token: Seq<char>) -> bool {
    &&& output_file != token
    &&& !o.include_packages.contains(token)
    &&& !o.exclude.contains(token)
    &&& o.input_dir != Some(token)
}

/// Where the pre-release flag stands.
pub open spec fn pre_release_index(o: OptionsView) -> int {
    if o.include_auto_references {
        7
    } else {
        6
    }
}

/// Where the first `--include` flag stands, if there is any.
pub open spec fn include_index(o: OptionsView) -> int {
    pre_release_index(o) + 2
}

/// Where the first `--exclude` flag stands, if there is any.
pub open spec fn exclude_index(o: OptionsView) -> int {
    include_index(o) + 2 * o.include_packages.len()
}

/// Where the transitive flag stands, if it is there.
pub open spec fn transitive_index(o: OptionsView) -> int {
    exclude_index(o) + 2 * o.exclude.len()
}

/// Where the version-lock flag stands.
pub open spec fn version_lock_index(o: OptionsView) -> int {
    transitive_index(o) + if o.transitive {
        3int
    } else {
        0int
    }
}

proof fn lemma_occurrences_concat(a: Seq<Seq<char>>, b: Seq<Seq<char>>, token: Seq<char>)
    ensures
        occurrences(a + b, token) == occurrences(a, token) + occurrences(b, token),
    decreases b.len(),
{
    if b.len() == 0 {
        assert(a + b =~= a);
    } else {
        assert((a + b).drop_last() =~= a + b.drop_last());
        lemma_occurrences_concat(a, b.drop_last(), token);
    }
}

proof fn lemma_occurrences_none(s: Seq<Seq<char>>, token: Seq<char>)
    requires
        forall|i: int| 0 <= i < s.len() ==> s[i] != token,
    ensures
        occurrences(s, token) == 0,
    decreases s.len(),
{
    if s.len() > 0 {
        lemma_occurrences_none(s.drop_last(), token);
    }
}

proof fn lemma_occurrences_contains(s: Seq<Seq<char>>, token: Seq<char>)
    ensures
        s.contains(token) <==> occurrences(s, token) > 0,
    decreases s.len(),
{
    if s.len() > 0 {
        let front = s.drop_last();
        lemma_occurrences_contains(front, token);
        if s.contains(token) {
            let i = choose|i: int| 0 <= i < s.len() && s[i] == token;
            if i < s.len() - 1 {
                assert(front[i] == token);
            }
        }
        if front.contains(token) {
            let i = choose|i: int| 0 <= i < front.len() && front[i] == token;
            assert(s[i] == token);
        }
        if s.last() == token {
            assert(s[s.len() - 1] == token);
        }
    }
}

proof fn lemma_occurrences_single(only: Seq<char>, token: Seq<char>)
    ensures
        occurrences(seq![only], token) == if only == token {
            1nat
        } else {
            0nat
        },
{
    let s = seq![only];
    assert(s.drop_last() =~= Seq::<Seq<char>>::empty());
    assert(occurrences(Seq::<Seq<char>>::empty(), token) == 0);
    assert(s.last() == only);
}

proof fn lemma_occurrences_pair(first: Seq<char>, second: Seq<char>, token: Seq<char>)
    ensures
        occurrences(seq![first, second], token) == (if first == token {
            1nat
        } else {
            0nat
        }) + (if second == token {
            1nat
        } else {
            0nat
        }),
{
    assert(seq![first, second] =~= seq![first] + seq![second]);
    lemma_occurrences_concat(seq![first], seq![second], token);
    lemma_occurrences_single(first, token);
    lemma_occurrences_single(second, token);
}

proof fn lemma_filter_occurrences(flag: Seq<char>, names: Seq<Seq<char>>, token: Seq<char>)
    requires
        !names.contains(token),
    ensures
        occurrences(filter_args(flag, names), token) == if flag == token {
            names.len()
        } else {
            0
        },
    decreases names.len(),
{
    if names.len() == 0 {
        assert(filter_args(flag, names) =~= Seq::<Seq<char>>::empty());
    } else {
        let shorter = names.drop_last();
        assert(names =~= shorter.push(names.last()));
        assert forall|i: int| 0 <= i < shorter.len() implies shorter[i] != token by {
            assert(names[i] == shorter[i]);
        }
        lemma_filter_occurrences(flag, shorter, token);
        lemma_filter_args_push(flag, shorter, names.last());
        lemma_occurrences_concat(filter_args(flag, shorter), seq![flag, names.last()], token);
        lemma_occurrences_pair(flag, names.last(), token);
        assert(names[names.len() - 1] != token);
    }
}

/// Brings the spelling of every fixed token of the grammar into scope.
proof fn lemma_token_spellings()
    ensures
        "outdated"@.len() == 8,
        "--fail-on-updates"@.len() == 17,
        "--output"@.len() == 8,
        "--output"@[0] == '-',
        "outdated"@[0] == 'o',
        "--output-format"@.len() == 15,
        "json"@.len() == 4,
        "--include-auto-references"@.len() == 25,
        "--pre-release"@.len() == 13,
        "--include"@.len() == 9,
        "--include"@[2] == 'i',
        "--exclude"@.len() == 9,
        "--exclude"@[2] == 'e',
        "--transitive"@.len() == 12,
        "--transitive-depth"@.len() == 18,
        "--version-lock"@.len() == 14,
        "Never"@.len() == 5,
        "Auto"@.len() == 4,
        "Always"@.len() == 6,
        "None"@.len() == 4,
        "Major"@.len() == 5,
        "Minor"@.len() == 5,
        "--include-auto-references"@[0] == '-',
        "--pre-release"@[0] == '-',
        "--include"@[0] == '-',
        "--exclude"@[0] == '-',
        "--transitive"@[0] == '-',
        "--transitive-depth"@[0] == '-',
        "--version-lock"@[0] == '-',
{
    reveal_strlit("outdated");
    reveal_strlit("--fail-on-updates");
    reveal_strlit("--output");
    reveal_strlit("--output-format");
    reveal_strlit("json");
    reveal_strlit("--include-auto-references");
    reveal_strlit("--pre-release");
    reveal_strlit("--include");
    reveal_strlit("--exclude");
    reveal_strlit("--transitive");
    reveal_strlit("--transitive-depth");
    reveal_strlit("--version-lock");
    reveal_strlit("Never");
    reveal_strlit("Auto");
    reveal_strlit("Always");
    reveal_strlit("None");
    reveal_strlit("Major");
    reveal_strlit("Minor");
}

/// A numeral is never a flag: it starts with a digit, a flag with a dash.
proof fn lemma_decimal_is_no_flag(n: nat, token: Seq<char>)
    requires
        token.len() > 0,
        token[0] == '-',
    ensures
        decimal(n) != token,
{
    lemma_decimal_starts_with_digit(n);
}

/// The number of times `token` stands in the argument vector is the sum over
/// the parts of the grammar.
proof fn lemma_occurrences_by_part(o: OptionsView, output_file: Seq<char>, token: Seq<char>)
    ensures
        occurrences(spec_outdated_args(o, output_file), token) == occurrences(
            launch_args(output_file),
            token,
        ) + occurrences(auto_reference_args(o.include_auto_references), token) + occurrences(
            pre_release_args(o.pre_release),
            token,
        ) + occurrences(filter_args("--include"@, o.include_packages), token) + occurrences(
            filter_args("--exclude"@, o.exclude),
            token,
        ) + occurrences(transitive_args(o.transitive, o.transitive_depth), token) + occurrences(
            version_lock_args(o.version_lock),
            token,
        ) + occurrences(input_dir_args(o.input_dir), token),
{
    let a = launch_args(output_file);
    let b = auto_reference_args(o.include_auto_references);
    let c = pre_release_args(o.pre_release);
    let d = filter_args("--include"@, o.include_packages);
    let e = filter_args("--exclude"@, o.exclude);
    let f = transitive_args(o.transitive, o.transitive_depth);
    let g = version_lock_args(o.version_lock);
    let h = input_dir_args(o.input_dir);
    lemma_occurrences_concat(a, b, token);
    lemma_occurrences_concat(a + b, c, token);
    lemma_occurrences_concat(a + b + c, d, token);
    lemma_occurrences_concat(a + b + c + d, e, token);
    lemma_occurrences_concat(a + b + c + d + e, f, token);
    lemma_occurrences_concat(a + b + c + d + e + f, g, token);
    lemma_occurrences_concat(a + b + c + d + e + f + g, h, token);
}

/// How often a flag of the grammar stands in the argument vector, when no
/// text of the caller is that flag: the launch part holds none of them, every
/// other part as many as the grammar says.
proof fn lemma_flag_occurrences(o: OptionsView, output_file: Seq<char>, token: Seq<char>)
    requires
        caller_texts_avoid(o, output_file, token),
        token == "--include-auto-references"@ || token == "--pre-release"@ || token == "--include"@
            || token == "--exclude"@ || token == "--transitive"@ || token
            == "--transitive-depth"@ || token == "--version-lock"@,
    ensures
        occurrences(spec_outdated_args(o, output_file), token) == (if token
            == "--include-auto-references"@ && o.include_auto_references {
            1nat
        } else {
            0nat
        }) + (if token == "--pre-release"@ {
            1nat
        } else {
            0nat
        }) + (if token == "--include"@ {
            o.include_packages.len()
        } else {
            0nat
        }) + (if token == "--exclude"@ {
            o.exclude.len()
        } else {
            0nat
        }) + (if (token == "--transitive"@ || token == "--transitive-depth"@) && o.transitive {
            1nat
        } else {
            0nat
        }) + (if token == "--version-lock"@ {
            1nat
        } else {
            0nat
        }),
{
    lemma_token_spellings();
    lemma_occurrences_by_part(o, output_file, token);
    lemma_occurrences_none(launch_args(output_file), token);
    if o.include_auto_references {
        lemma_occurrences_single("--include-auto-references"@, token);
    }
    lemma_occurrences_pair("--pre-release"@, o.pre_release.rendering(), token);
    lemma_filter_occurrences("--include"@, o.include_packages, token);
    lemma_filter_occurrences("--exclude"@, o.exclude, token);
    if o.transitive {
        let numeral = decimal(o.transitive_depth);
        lemma_decimal_is_no_flag(o.transitive_depth, token);
        assert(transitive_args(true, o.transitive_depth) =~= seq![
            "--transitive"@,
            "--transitive-depth"@,
        ] + seq![numeral]);
        lemma_occurrences_concat(
            seq!["--transitive"@, "--transitive-depth"@],
            seq![numeral],
            token,
        );
        lemma_occurrences_pair("--transitive"@, "--transitive-depth"@, token);
        lemma_occurrences_none(seq![numeral], token);
    }
    lemma_occurrences_pair("--version-lock"@, o.version_lock.rendering(), token);
    match o.input_dir {
        Some(d) => {
            lemma_occurrences_none(seq![d], token);
        },
        None => {},
    }
}

/// The pre-release flag and the version-lock flag each stand at their place,
/// each followed by one of the three renderings of its policy.
pub proof fn lemma_policy_flags_placed(o: OptionsView, output_file: Seq<char>)
    ensures
        ({
            let args = spec_outdated_args(o, output_file);
            let p = pre_release_index(o);
            let v = version_lock_index(o);
            &&& 0 <= p && p + 1 < v && v + 1 < args.len()
            &&& args[p] == "--pre-release"@
            &&& args[p + 1] == o.pre_release.rendering()
            &&& args[v] == "--version-lock"@
            &&& args[v + 1] == o.version_lock.rendering()
        }),
        o.pre_release.rendering() == "Never"@ || o.pre_release.rendering() == "Auto"@
            || o.pre_release.rendering() == "Always"@,
        o.version_lock.rendering() == "None"@ || o.version_lock.rendering() == "Major"@
            || o.version_lock.rendering() == "Minor"@,
{
}

/// When no text of the caller is one of the two flags itself, the argument
/// vector holds `--pre-release` exactly once and `--version-lock` exactly once.
pub proof fn lemma_policy_flags_once(o: OptionsView, output_file: Seq<char>)
    requires
        caller_texts_avoid(o, output_file, "--pre-release"@),
        caller_texts_avoid(o, output_file, "--version-lock"@),
    ensures
        occurrences(spec_outdated_args(o, output_file), "--pre-release"@) == 1,
        occurrences(spec_outdated_args(o, output_file), "--version-lock"@) == 1,
{
    lemma_token_spellings();
    lemma_flag_occurrences(o, output_file, "--pre-release"@);
    lemma_flag_occurrences(o, output_file, "--version-lock"@);
}

/// When no text of the caller is the flag itself, `--include-auto-references`
/// stands in the argument vector exactly when the option is set, and then
/// once, right behind the launch part.
pub proof fn lemma_auto_reference_flag(o: OptionsView, output_file: Seq<char>)
    requires
        caller_texts_avoid(o, output_file, "--include-auto-references"@),
    ensures
        spec_outdated_args(o, output_file).contains("--include-auto-references"@)
            <==> o.include_auto_references,
        occurrences(spec_outdated_args(o, output_file), "--include-auto-references"@) <= 1,
        o.include_auto_references ==> spec_outdated_args(o, output_file)[6]
            == "--include-auto-references"@,
{
    lemma_token_spellings();
    lemma_flag_occurrences(o, output_file, "--include-auto-references"@);
    lemma_occurrences_contains(spec_outdated_args(o, output_file), "--include-auto-references"@);
}

/// Every package name of the two filters stands in the argument vector right
/// behind its flag, the pairs in the order of the names, the `--include` pairs
/// before the `--exclude` pairs.
pub proof fn lemma_filters_paired(o: OptionsView, output_file: Seq<char>)
    ensures
        forall|i: int|
            0 <= i < o.include_packages.len() ==> {
                &&& spec_outdated_args(o, output_file)[include_index(o) + 2 * i] == "--include"@
                &&& #[trigger] spec_outdated_args(o, output_file)[include_index(o) + 2 * i + 1]
                    == o.include_packages[i]
            },
        forall|i: int|
            0 <= i < o.exclude.len() ==> {
                &&& spec_outdated_args(o, output_file)[exclude_index(o) + 2 * i] == "--exclude"@
                &&& #[trigger] spec_outdated_args(o, output_file)[exclude_index(o) + 2 * i + 1]
                    == o.exclude[i]
            },
{
    let args = spec_outdated_args(o, output_file);
    let included = filter_args("--include"@, o.include_packages);
    let excluded = filter_args("--exclude"@, o.exclude);
    assert forall|i: int| 0 <= i < o.include_packages.len() implies {
        &&& args[include_index(o) + 2 * i] == "--include"@
        &&& #[trigger] args[include_index(o) + 2 * i + 1] == o.include_packages[i]
    } by {
        assert(args[include_index(o) + 2 * i] == included[2 * i]);
        assert(args[include_index(o) + 2 * i + 1] == included[2 * i + 1]);
        assert((2 * i) % 2 == 0);
        assert((2 * i + 1) % 2 == 1);
        assert((2 * i + 1) / 2 == i);
    }
    assert forall|i: int| 0 <= i < o.exclude.len() implies {
        &&& args[exclude_index(o) + 2 * i] == "--exclude"@
        &&& #[trigger] args[exclude_index(o) + 2 * i + 1] == o.exclude[i]
    } by {
        assert(args[exclude_index(o) + 2 * i] == excluded[2 * i]);
        assert(args[exclude_index(o) + 2 * i + 1] == excluded[2 * i + 1]);
        assert((2 * i) % 2 == 0);
        assert((2 * i + 1) % 2 == 1);
        assert((2 * i + 1) / 2 == i);
    }
}

/// When no text of the caller is one of the two flags itself, the argument
/// vector holds as many `--include` flags as there are names to look at, and as
/// many `--exclude` flags as there are names to leave out.
pub proof fn lemma_filters_counted(o: OptionsView, output_file: Seq<char>)
    requires
        caller_texts_avoid(o, output_file, "--include"@),
        caller_texts_avoid(o, output_file, "--exclude"@),
    ensures
        occurrences(spec_outdated_args(o, output_file), "--include"@) == o.include_packages.len(),
        occurrences(spec_outdated_args(o, output_file), "--exclude"@) == o.exclude.len(),
{
    lemma_token_spellings();
    lemma_flag_occurrences(o, output_file, "--include"@);
    lemma_flag_occurrences(o, output_file, "--exclude"@);
}

/// When no text of the caller is one of the two flags itself, `--transitive`
/// and `--transitive-depth` stand in the argument vector together or not at
/// all: both exactly when the option is set, and then once each, side by
/// side, with the numeral of the depth behind them.
pub proof fn lemma_transitive_flags_together(o: OptionsView, output_file: Seq<char>)
    requires
        caller_texts_avoid(o, output_file, "--transitive"@),
        caller_texts_avoid(o, output_file, "--transitive-depth"@),
    ensures
        spec_outdated_args(o, output_file).contains("--transitive-depth"@) <==> spec_outdated_args(
            o,
            output_file,
        ).contains("--transitive"@),
        spec_outdated_args(o, output_file).contains("--transitive"@) <==> o.transitive,
        occurrences(spec_outdated_args(o, output_file), "--transitive"@) <= 1,
        occurrences(spec_outdated_args(o, output_file), "--transitive-depth"@) <= 1,
        o.transitive ==> {
            let args = spec_outdated_args(o, output_file);
            let t = transitive_index(o);
            &&& args[t] == "--transitive"@
            &&& args[t + 1] == "--transitive-depth"@
            &&& args[t + 2] == decimal(o.transitive_depth)
        },
{
    lemma_token_spellings();
    lemma_flag_occurrences(o, output_file, "--transitive"@);
    lemma_flag_occurrences(o, output_file, "--transitive-depth"@);
    lemma_occurrences_contains(spec_outdated_args(o, output_file), "--transitive"@);
    lemma_occurrences_contains(spec_outdated_args(o, output_file), "--transitive-depth"@);
}

/// The input directory is the one argument behind the version lock: it is
/// there exactly when a directory is set, and it is that directory, unchanged.
pub proof fn lemma_input_dir_trails(o: OptionsView, output_file: Seq<char>)
    ensures
        ({
            let args = spec_outdated_args(o, output_file);
            let end = version_lock_index(o) + 2;
            &&& args.subrange(0, end) == flag_args(o, output_file)
            &&& args.subrange(end, args.len() as int) == input_dir_args(o.input_dir)
            &&& (o.input_dir is Some <==> args.len() == end + 1)
            &&& (o.input_dir is None <==> args.len() == end)
            &&& (o.input_dir matches Some(dir) ==> args.last() == dir)
        }),
{
    let args = spec_outdated_args(o, output_file);
    let end = version_lock_index(o) + 2;
    assert(flag_args(o, output_file).len() == end);
    assert(args.subrange(0, end) =~= flag_args(o, output_file));
    assert(args.subrange(end, args.len() as int) =~= input_dir_args(o.input_dir));
}

fn push_text(args: &mut Vec<String>, text: &str)
    ensures
        final(args).deep_view() == old(args).deep_view().push(text@),
{
    args.push(String::from_str(text));
    assert(args.deep_view() =~= old(args).deep_view().push(text@));
}

fn push_filter(args: &mut Vec<String>, flag: &str, names: &Vec<String>)
    ensures
        final(args).deep_view() == old(args).deep_view() + filter_args(flag@, names.deep_view()),
{
    let mut i: usize = 0;
    assert(names.deep_view().take(0) =~= Seq::<Seq<char>>::empty());
    assert(filter_args(flag@, Seq::<Seq<char>>::empty()) =~= Seq::<Seq<char>>::empty());
    assert(args.deep_view() =~= old(args).deep_view() + filter_args(
        flag@,
        names.deep_view().take(0),
    ));
    while i < names.len()
        invariant
            i <= names.len(),
            args.deep_view() == old(args).deep_view() + filter_args(
                flag@,
                names.deep_view().take(i as int),
            ),
        decreases names.len() - i,
    {
        let ghost before = args.deep_view();
        push_text(args, flag);
        push_text(args, names[i].as_str());
        proof {
            let seen = names.deep_view().take(i as int);
            let name = names@[i as int]@;
            assert(names.deep_view()[i as int] == name);
            assert(names.deep_view().take(i + 1) =~= seen.push(name));
            lemma_filter_args_push(flag@, seen, name);
            assert(args.deep_view() =~= before + seq![flag@, name]);
            assert(args.deep_view() =~= old(args).deep_view() + filter_args(
                flag@,
                names.deep_view().take(i + 1),
            ));
        }
        i += 1;
    }
    assert(names.deep_view().take(names.len() as int) =~= names.deep_view());
}

/// Renders `options` as the argument vector of one run that writes its report
/// to `output_file`.
pub fn outdated_args(options: &DotnetOutdatedOptions, output_file: &str) -> (args: Vec<String>)
    ensures
        args.deep_view() == spec_outdated_args(options@, output_file@),
{
    let mut args: Vec<String> = Vec::new();
    assert(args.deep_view() =~= Seq::<Seq<char>>::empty());
    push_text(&mut args, "outdated");
    push_text(&mut args, "--fail-on-updates");
    push_text(&mut args, "--output");
    push_text(&mut args, output_file);
    push_text(&mut args, "--output-format");
    push_text(&mut args, "json");
    assert(args.deep_view() =~= launch_args(output_file@));
    let ghost launch = args.deep_view();

    if options.include_auto_references {
        push_text(&mut args, "--include-auto-references");
    }
    assert(args.deep_view() =~= launch + auto_reference_args(options@.include_auto_references));
    let ghost auto = args.deep_view();

    push_text(&mut args, "--pre-release");
    push_text(&mut args, options.pre_release.as_str());
    assert(args.deep_view() =~= auto + pre_release_args(options@.pre_release));

    push_filter(&mut args, "--include", &options.include_packages);
    push_filter(&mut args, "--exclude", &options.exclude);
    let ghost filtered = args.deep_view();

    if options.transitive {
        push_text(&mut args, "--transitive");
        push_text(&mut args, "--transitive-depth");
        let depth = decimal_string(options.transitive_depth);
        push_text(&mut args, depth.as_str());
    }
    assert(args.deep_view() =~= filtered + transitive_args(
        options@.transitive,
        options@.transitive_depth,
    ));
    let ghost deep = args.deep_view();

    push_text(&mut args, "--version-lock");
    push_text(&mut args, options.version_lock.as_str());
    assert(args.deep_view() =~= deep + version_lock_args(options@.version_lock));
    assert(args.deep_view() == flag_args(options@, output_file@));
    let ghost flags = args.deep_view();

    match &options.input_dir {
        Some(dir) => {
            push_text(&mut args, dir.as_str());
        },
        None => {},
    }
    assert(args.deep_view() =~= flags + input_dir_args(options@.input_dir));
    args
}

} // verus!
