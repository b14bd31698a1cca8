//! Argument-vector assembly for the external migration tool.
//!
//! An invocation request is an ordered sequence of string tokens; order is
//! exactly the order the external tool will parse, and nothing is deduplicated
//! or validated. Each builder states the produced token sequence in full.

use vstd::prelude::*;

verus! {

/// The token sequence that a vector of argument strings denotes.
pub open spec fn views_of(v: Seq<String>) -> Seq<Seq<char>> {
    v.map_values(|s: String| s@)
}

/// Name of the external migration tool's executable.
pub open spec fn spec_tool_name() -> Seq<char> {
    "pgcopydb"@
}

/// Tokens contributed by an optional named argument: a flag token and the
/// value token when the value is present, nothing when it is absent.
pub open spec fn opt_named(flag: Seq<char>, value: Option<String>) -> Seq<Seq<char>> {
    match value {
        Some(s) => seq![flag, s@],
        None => seq![],
    }
}

/// The argument vector of the help subcommand: exactly one token.
pub open spec fn help_request() -> Seq<Seq<char>> {
    seq!["help"@]
}

/// Builds the help invocation's argument vector.
pub fn help_args() -> (r: Vec<String>)
    ensures
        views_of(r@) == help_request(),
{
    let mut v: Vec<String> = Vec::new();
    v.push("help".to_owned());
    proof {
        assert(views_of(v@) =~= help_request());
    }
    v
}

/// The argument vector of the clone subcommand: the subcommand token, the
/// optional source and target endpoints (each expanded to a flag and a value
/// when present), then the caller's passthrough arguments verbatim.
pub open spec fn clone_request(
    source: Option<String>,
    target: Option<String>,
    extra: Seq<String>,
) -> Seq<Seq<char>> {
    seq!["clone"@] + opt_named("--source"@, source) + opt_named("--target"@, target) + views_of(
        extra,
    )
}

/// The argument vector of the list-progress subcommand: the two subcommand
/// tokens, the optional source endpoint, then the two fixed flags.
pub open spec fn list_progress_request(source: Option<String>) -> Seq<Seq<char>> {
    seq!["list"@, "progress"@] + opt_named("--source"@, source) + seq!["--json"@, "--summary"@]
}

/// Appends one fixed token.
fn push_token(v: &mut Vec<String>, tok: &str)
    ensures
        views_of(final(v)@) == views_of(old(v)@).push(tok@),
{
    v.push(tok.to_owned());
    proof {
        assert(views_of(v@) =~= views_of(old(v)@).push(tok@));
    }
}

/// Appends an optional named argument: flag and value when present, nothing
/// when absent.
fn push_opt_named(v: &mut Vec<String>, flag: &str, value: Option<String>)
    ensures
        views_of(final(v)@) == views_of(old(v)@) + opt_named(flag@, value),
{
    match value {
        Some(s) => {
            v.push(flag.to_owned());
            v.push(s);
            proof {
                assert(views_of(v@) =~= views_of(old(v)@) + opt_named(flag@, value));
            }
        },
        None => {
            proof {
                assert(views_of(v@) =~= views_of(old(v)@) + opt_named(flag@, value));
            }
        },
    }
}

/// Appends a whole argument vector, verbatim and in order.
fn push_all(v: &mut Vec<String>, rest: Vec<String>)
    ensures
        views_of(final(v)@) == views_of(old(v)@) + views_of(rest@),
{
    let mut tail = rest;
    v.append(&mut tail);
    proof {
        assert(views_of(v@) =~= views_of(old(v)@) + views_of(rest@));
    }
}

/// Builds the clone invocation's argument vector.
pub fn clone_args(source: Option<String>, target: Option<String>, extra: Vec<String>) -> (r: Vec<
    String,
>)
    ensures
        views_of(r@) == clone_request(source, target, extra@),
{
    let mut v: Vec<String> = Vec::new();
    push_token(&mut v, "clone");
    push_opt_named(&mut v, "--source", source);
    push_opt_named(&mut v, "--target", target);
    push_all(&mut v, extra);
    proof {
        assert(views_of(v@) =~= clone_request(source, target, extra@));
    }
    v
}

/// Builds the list-progress invocation's argument vector.
pub fn list_progress_args(source: Option<String>) -> (r: Vec<String>)
    ensures
        views_of(r@) == list_progress_request(source),
{
    let mut v: Vec<String> = Vec::new();
    push_token(&mut v, "list");
    push_token(&mut v, "progress");
    push_opt_named(&mut v, "--source", source);
    push_token(&mut v, "--json");
    push_token(&mut v, "--summary");
    proof {
        assert(views_of(v@) =~= list_progress_request(source));
    }
    v
}

/// One invocation of the external tool: the fixed executable name and the
/// caller's argument vector, owned for the lifetime of a single spawn.
#[derive(Debug)]
pub struct Invocation {
    /// The executable to locate on the search path.
    pub program: String,
    /// The arguments, in the exact order the tool will parse them.
    pub args: Vec<String>,
}

impl Invocation {
    /// The complete command line: the program name followed by the arguments.
    pub open spec fn tokens(self) -> Seq<Seq<char>> {
        seq![self.program@] + views_of(self.args@)
    }
}

/// Builds the invocation for the given argument vector: the fixed tool name
/// followed by exactly the given arguments, in order — nothing reordered,
/// deduplicated, or inserted.
pub fn invocation(args: Vec<String>) -> (r: Invocation)
    ensures
        r.program@ == spec_tool_name(),
        r.args@ == args@,
        r.tokens() == seq![spec_tool_name()] + views_of(args@),
{
    let r = Invocation { program: "pgcopydb".to_owned(), args };
    proof {
        assert(r.tokens() =~= seq![spec_tool_name()] + views_of(r.args@));
    }
    r
}

} // verus!
