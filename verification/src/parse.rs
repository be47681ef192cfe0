use crate::opts::Opts;
use vstd::prelude::*;

verus! {

/// Why parsing failed: no project name was ever given, or a token began
/// with the flag prefix without being a recognized flag.
#[derive(Clone, Copy, Debug, PartialEq, Eq, Structural)]
pub enum ParseError {
    MissingName,
    UnknownFlag,
}

/// What the argument list came to: a configuration to scaffold with, a
/// request for the help text, or a fatal input error.
#[derive(Debug, PartialEq)]
pub enum ParseOutcome {
    Parsed(Opts),
    Help,
    Failed(ParseError),
}

/// The mathematical shape of a parse outcome, over sequences of characters.
pub enum ParseOutcomeV {
    Parsed { name: Seq<char>, git: bool },
    Help,
    Failed(ParseError),
}

/// A token that begins with the flag prefix `-`.
pub open spec fn is_flag_token(t: Seq<char>) -> bool {
    t.len() > 0 && t[0] == '-'
}

/// One left-to-right scan of the argument tokens, carrying the name seen so
/// far and the version-control choice. `-g` turns version control on; `-h`
/// ends the scan with a request for help; a token without the flag prefix
/// becomes the project name, a later one overwriting an earlier one; any
/// other flag is fatal at once. A scan that runs out of tokens without a
/// name fails for want of one.
pub open spec fn scan_args(args: Seq<Seq<char>>, name: Option<Seq<char>>, git: bool) -> ParseOutcomeV
    decreases args.len(),
{
    if args.len() == 0 {
        match name {
            Some(n) => ParseOutcomeV::Parsed { name: n, git },
            None => ParseOutcomeV::Failed(ParseError::MissingName),
        }
    } else if args[0] == "-g"@ {
        scan_args(args.drop_first(), name, true)
    } else if args[0] == "-h"@ {
        ParseOutcomeV::Help
    } else if is_flag_token(args[0]) {
        ParseOutcomeV::Failed(ParseError::UnknownFlag)
    } else {
        scan_args(args.drop_first(), Some(args[0]), git)
    }
}

/// What parsing an argument list (the tokens after the program name) means.
/// An empty list fails for want of a project name.
pub open spec fn parse_args_spec(args: Seq<Seq<char>>) -> ParseOutcomeV {
    scan_args(args, None, false)
}

/// The characters of each argument.
pub open spec fn arg_views(args: Seq<String>) -> Seq<Seq<char>> {
    args.map_values(|s: String| s@)
}

/// The characters of the name accumulator.
pub open spec fn name_views(name: Option<String>) -> Option<Seq<char>> {
    match name {
        Some(s) => Some(s@),
        None => None,
    }
}

/// The mathematical shape of an executable parse outcome. A `Parsed`
/// configuration without a name has no meaningful shape; `parse_args` never
/// returns one.
pub open spec fn outcome_views(r: ParseOutcome) -> ParseOutcomeV {
    match r {
        ParseOutcome::Parsed(o) => ParseOutcomeV::Parsed {
            name: match o.project_name {
                Some(s) => s@,
                None => Seq::empty(),
            },
            git: o.git_project,
        },
        ParseOutcome::Help => ParseOutcomeV::Help,
        ParseOutcome::Failed(e) => ParseOutcomeV::Failed(e),
    }
}

/// Character-for-character equality of two string slices.
pub fn str_eq(a: &str, b: &str) -> (r: bool)
    ensures
        r == (a@ == b@),
{
    let alen = a.unicode_len();
    let blen = b.unicode_len();
    if alen != blen {
        return false;
    }
    let mut i: usize = 0;
    while i < alen
        invariant
            alen == a@.len(),
            alen == b@.len(),
            0 <= i <= alen,
            forall|j: int| 0 <= j < i ==> a@[j] == b@[j],
        decreases alen - i,
    {
        if a.get_char(i) != b.get_char(i) {
            return false;
        }
        i += 1;
    }
    proof {
        assert(a@ =~= b@);
    }
    true
}

/// Whether a token carries the flag prefix.
pub fn starts_with_dash(s: &str) -> (r: bool)
    ensures
        r == is_flag_token(s@),
{
    if s.unicode_len() == 0 {
        false
    } else {
        s.get_char(0) == '-'
    }
}

/// Parses the argument tokens that follow the program name, exactly as
/// [`parse_args_spec`] states.
pub fn parse_args(args: &Vec<String>) -> (r: ParseOutcome)
    ensures
        outcome_views(r) == parse_args_spec(arg_views(args@)),
        r matches ParseOutcome::Parsed(o) ==> o.project_name is Some,
{
    let n = args.len();
    let mut name: Option<String> = None;
    let mut git: bool = false;
    let mut i: usize = 0;
    proof {
        assert(arg_views(args@).subrange(0, n as int) =~= arg_views(args@));
    }
    while i < n
        invariant
            n == args.len(),
            0 <= i <= n,
            parse_args_spec(arg_views(args@)) == scan_args(
                arg_views(args@).subrange(i as int, n as int),
                name_views(name),
                git,
            ),
        decreases n - i,
    {
        let ghost rest = arg_views(args@).subrange(i as int, n as int);
        proof {
            assert(rest[0] == args@[i as int]@);
            assert(rest.drop_first() =~= arg_views(args@).subrange(i as int + 1, n as int));
        }
        let t = &args[i];
        if str_eq(t.as_str(), "-g") {
            git = true;
        } else if str_eq(t.as_str(), "-h") {
            return ParseOutcome::Help;
        } else if starts_with_dash(t.as_str()) {
            return ParseOutcome::Failed(ParseError::UnknownFlag);
        } else {
            name = Some(t.clone());
        }
        i += 1;
    }
    proof {
        assert(arg_views(args@).subrange(n as int, n as int) =~= Seq::<Seq<char>>::empty());
    }
    match name {
        Some(s) => ParseOutcome::Parsed(Opts { project_name: Some(s), git_project: git }),
        None => ParseOutcome::Failed(ParseError::MissingName),
    }
}

/// The longest project name the tool accepts, in characters.
pub const NAME_LEN_MAX: usize = 30;

/// Whether a parsed project name is short enough to scaffold with; a longer
/// one is fatal before anything touches the filesystem.
pub fn name_length_ok(pn: &str) -> (r: bool)
    ensures
        r == (pn@.len() <= NAME_LEN_MAX),
{
    pn.unicode_len() <= NAME_LEN_MAX
}

/// The wording of each fatal parse error.
pub open spec fn parse_error_text(e: ParseError) -> Seq<char> {
    match e {
        ParseError::MissingName => "project_name missing"@,
        ParseError::UnknownFlag => "Unknown flag"@,
    }
}

/// The message reported for a fatal parse error.
pub fn parse_error_message(e: &ParseError) -> (r: String)
    ensures
        r@ == parse_error_text(*e),
{
    match e {
        ParseError::MissingName => String::from_str("project_name missing"),
        ParseError::UnknownFlag => String::from_str("Unknown flag"),
    }
}

/// The usage text, parameterized by the name the program was invoked under.
pub open spec fn usage_text(program: Seq<char>) -> Seq<char> {
    "usage\n  "@ + program
        + " project_name [flags] ...\n\nflags\n-g   make it an git project\n-h   print help message\n"@
}

/// Renders the usage text shown by the help flag and on input errors.
pub fn usage(program: &str) -> (r: String)
    ensures
        r@ == usage_text(program@),
{
    let mut s = String::new();
    s.append("usage\n  ");
    s.append(program);
    s.append(" project_name [flags] ...\n\nflags\n-g   make it an git project\n-h   print help message\n");
    proof {
        assert(s@ =~= usage_text(program@));
    }
    s
}

/// Law: an argument list holding exactly one token, a valid project name of
/// one to thirty characters that does not start with the flag prefix,
/// parses successfully and yields that exact name, with version control off.
pub proof fn lemma_valid_name_parses(name: Seq<char>)
    requires
        1 <= name.len() <= 30,
        name[0] != '-',
    ensures
        parse_args_spec(seq![name]) == (ParseOutcomeV::Parsed { name, git: false }),
{
    reveal_strlit("-g");
    reveal_strlit("-h");
    let args = seq![name];
    assert(args[0] == name);
    assert(name != "-g"@) by {
        if name == "-g"@ {
            assert(name[0] == '-');
        }
    }
    assert(name != "-h"@) by {
        if name == "-h"@ {
            assert(name[0] == '-');
        }
    }
    assert(!is_flag_token(name));
    assert(args.drop_first() =~= Seq::<Seq<char>>::empty());
    assert(scan_args(args.drop_first(), Some(name), false) == (ParseOutcomeV::Parsed {
        name,
        git: false,
    }));
}

/// Law: the help flag is honoured wherever it stands, as long as every
/// token before it is the version-control flag or an ordinary name token;
/// the outcome is then a request for help, whatever else the list holds.
pub proof fn lemma_help_flag(args: Seq<Seq<char>>, k: int)
    requires
        0 <= k < args.len(),
        args[k] == "-h"@,
        forall|j: int| 0 <= j < k ==> #[trigger] args[j] == "-g"@ || !is_flag_token(args[j]),
    ensures
        parse_args_spec(args) == ParseOutcomeV::Help,
{
    lemma_scan_reaches_help(args, k, None, false);
}

/// The induction behind [`lemma_help_flag`]: the scan reaches the help
/// token from any accumulator state.
proof fn lemma_scan_reaches_help(args: Seq<Seq<char>>, k: int, name: Option<Seq<char>>, git: bool)
    requires
        0 <= k < args.len(),
        args[k] == "-h"@,
        forall|j: int| 0 <= j < k ==> #[trigger] args[j] == "-g"@ || !is_flag_token(args[j]),
    ensures
        scan_args(args, name, git) == ParseOutcomeV::Help,
    decreases k,
{
    reveal_strlit("-g");
    reveal_strlit("-h");
    assert("-h"@[0] == '-');
    if k == 0 {
        assert(args[0] != "-g"@) by {
            assert("-h"@[1] == 'h');
            assert("-g"@[1] == 'g');
        }
    } else {
        let rest = args.drop_first();
        assert(rest =~= args.subrange(1, args.len() as int));
        assert(rest[k - 1] == args[k]);
        assert(forall|j: int| 0 <= j < k - 1 ==> #[trigger] rest[j] == args[j + 1]);
        assert(args[0] == "-g"@ || !is_flag_token(args[0]));
        if args[0] == "-g"@ {
            lemma_scan_reaches_help(rest, k - 1, name, true);
        } else {
            assert(args[0] != "-h"@) by {
                assert(is_flag_token("-h"@));
            }
            lemma_scan_reaches_help(rest, k - 1, Some(args[0]), git);
        }
    }
}

} // verus!
