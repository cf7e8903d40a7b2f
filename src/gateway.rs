use vstd::prelude::*;
use crate::event::default_branch;

verus! {

#[verifier::external_type_specification]
#[verifier::external_body]
pub struct ExJsonValue(serde_json::Value);

#[verifier::external_type_specification]
#[verifier::external_body]
pub struct ExJsonError(serde_json::Error);

/// The JSON value that serde_json reads from a text, or `None` where it refuses
/// the text (not JSON, trailing characters, nesting beyond its depth limit).
pub uninterp spec fn json_parse(text: Seq<char>) -> Option<serde_json::Value>;

/// The members of a JSON object whose values are strings, by key (empty for a
/// value that is not an object).
pub uninterp spec fn json_string_members(v: serde_json::Value) -> Map<Seq<char>, Seq<char>>;

/// Relies on `serde_json::from_str` into a `Value`: reading is a function of the
/// text alone, so the same text gives the same value or the same refusal.
#[verifier::external_body]
fn parse_json(text: &str) -> (r: Result<serde_json::Value, serde_json::Error>)
    ensures
        match r {
            Ok(v) => json_parse(text@) == Some(v),
            Err(_) => json_parse(text@) is None,
        },
{
    serde_json::from_str(text)
}

/// Relies on `Value`'s `Index<&str>` (the member of an object, `Null` for a missing
/// key or a non-object) and `Value::as_str` (`Some` only for a string): together,
/// the member `key` of an object when that member is a string, else `None`.
#[verifier::external_body]
fn string_member(v: &serde_json::Value, key: &str) -> (r: Option<String>)
    ensures
        match r {
            Some(s) => json_string_members(*v).contains_key(key@)
                && json_string_members(*v)[key@] == s@,
            None => !json_string_members(*v).contains_key(key@),
        },
{
    v[key].as_str().map(String::from)
}

/// The text of each argument.
pub open spec fn arg_texts(args: Seq<String>) -> Seq<Seq<char>> {
    args.map_values(|a: String| a@)
}

/// The base branch that the client's `pr view --json baseRefName` output names,
/// when it is a JSON object whose `baseRefName` member is a string.
pub open spec fn base_ref_name_in(output: Seq<char>) -> Option<Seq<char>> {
    match json_parse(output) {
        Some(v) => if json_string_members(v).contains_key("baseRefName"@) {
            Some(json_string_members(v)["baseRefName"@])
        } else {
            None
        },
        None => None,
    }
}

/// The branch that a base-branch lookup settles on: the named branch, or
/// `"main"` when the client failed, its output could not be read as JSON, or it named none.
pub open spec fn resolved_branch(view: Result<Seq<char>, Seq<char>>) -> Seq<char> {
    match view {
        Ok(output) => match base_ref_name_in(output) {
            Some(b) => b,
            None => default_branch(),
        },
        Err(_) => default_branch(),
    }
}

/// The text of the client's output, or of its failure.
pub open spec fn view_texts(view: Result<String, String>) -> Result<Seq<char>, Seq<char>> {
    match view {
        Ok(o) => Ok(o@),
        Err(e) => Err(e@),
    }
}

/// An operation of the hosting service's command-line client.
#[derive(Debug, Clone, Copy, PartialEq, Eq, Structural)]
pub enum GhOperation {
    Comment,
    Close,
    AddLabel,
    ViewBaseBranch,
}

/// One invocation of the command-line client: what it does, its arguments, and
/// the token that it runs with.
pub struct GhRequest {
    pub operation: GhOperation,
    pub args: Vec<String>,
    pub token: String,
}

/// Why a base-branch lookup found no branch.
#[derive(Debug)]
pub enum LookupFailure {
    /// The client did not succeed; its message.
    CommandFailed(String),
    /// The client's output could not be read as JSON.
    InvalidJson(serde_json::Error),
    /// The output had no string member `baseRefName`.
    MissingBaseRefName,
}

/// The hosting service, reached through its command-line client.
pub struct GitHub;

fn text(s: &str) -> (r: String)
    ensures
        r@ == s@,
{
    String::from_str(s)
}

impl GitHub {
    /// Posts `body` as a comment on pull request `pr`.
    pub fn comment(pr: &str, body: &str, token: &str) -> (r: GhRequest)
        ensures
            r.operation == GhOperation::Comment,
            arg_texts(r.args@) == seq!["pr"@, "comment"@, pr@, "--body"@, body@],
            r.token@ == token@,
    {
        let mut args: Vec<String> = Vec::new();
        args.push(text("pr"));
        args.push(text("comment"));
        args.push(text(pr));
        args.push(text("--body"));
        args.push(text(body));
        assert(arg_texts(args@) =~= seq!["pr"@, "comment"@, pr@, "--body"@, body@]);
        GhRequest { operation: GhOperation::Comment, args, token: text(token) }
    }

    /// Closes pull request `pr`.
    pub fn close(pr: &str, token: &str) -> (r: GhRequest)
        ensures
            r.operation == GhOperation::Close,
            arg_texts(r.args@) == seq!["pr"@, "close"@, pr@],
            r.token@ == token@,
    {
        let mut args: Vec<String> = Vec::new();
        args.push(text("pr"));
        args.push(text("close"));
        args.push(text(pr));
        assert(arg_texts(args@) =~= seq!["pr"@, "close"@, pr@]);
        GhRequest { operation: GhOperation::Close, args, token: text(token) }
    }

    /// Adds `label` to pull request `pr`.
    pub fn add_label(pr: &str, label: &str, token: &str) -> (r: GhRequest)
        ensures
            r.operation == GhOperation::AddLabel,
            arg_texts(r.args@) == seq!["pr"@, "edit"@, pr@, "--add-label"@, label@],
            r.token@ == token@,
    {
        let mut args: Vec<String> = Vec::new();
        args.push(text("pr"));
        args.push(text("edit"));
        args.push(text(pr));
        args.push(text("--add-label"));
        args.push(text(label));
        assert(arg_texts(args@) =~= seq!["pr"@, "edit"@, pr@, "--add-label"@, label@]);
        GhRequest { operation: GhOperation::AddLabel, args, token: text(token) }
    }

    /// Asks for the base branch of pull request `pr`, as JSON.
    pub fn view_base_branch(pr: &str, token: &str) -> (r: GhRequest)
        ensures
            r.operation == GhOperation::ViewBaseBranch,
            arg_texts(r.args@) == seq!["pr"@, "view"@, pr@, "--json"@, "baseRefName"@],
            r.token@ == token@,
    {
        let mut args: Vec<String> = Vec::new();
        args.push(text("pr"));
        args.push(text("view"));
        args.push(text(pr));
        args.push(text("--json"));
        args.push(text("baseRefName"));
        assert(arg_texts(args@) =~= seq!["pr"@, "view"@, pr@, "--json"@, "baseRefName"@]);
        GhRequest { operation: GhOperation::ViewBaseBranch, args, token: text(token) }
    }

    /// Reads the base branch out of the client's reply to a
    /// `view_base_branch` request, or says why there is none.
    pub fn lookup_base_branch(view: &Result<String, String>) -> (r: Result<String, LookupFailure>)
        ensures
            match view {
                Err(e) => r matches Err(LookupFailure::CommandFailed(m)) && m@ == e@,
                Ok(output) => match json_parse(output@) {
                    None => r matches Err(LookupFailure::InvalidJson(_)),
                    Some(_) => match base_ref_name_in(output@) {
                        Some(b) => r matches Ok(x) && x@ == b,
                        None => r matches Err(LookupFailure::MissingBaseRefName),
                    },
                },
            },
    {
        match view {
            Err(e) => Err(LookupFailure::CommandFailed(e.clone())),
            Ok(output) => match parse_json(output.as_str()) {
                Err(err) => Err(LookupFailure::InvalidJson(err)),
                Ok(v) => match string_member(&v, "baseRefName") {
                    Some(b) => Ok(b),
                    None => Err(LookupFailure::MissingBaseRefName),
                },
            },
        }
    }

    /// The branch to use after a lookup: the one found, or `"main"`.
    pub fn branch_or_default(lookup: Result<String, LookupFailure>) -> (r: String)
        ensures
            match lookup {
                Ok(b) => r@ == b@,
                Err(_) => r@ == default_branch(),
            },
    {
        match lookup {
            Ok(b) => b,
            Err(_) => {
                proof {
                    reveal_strlit("main");
                }
                text("main")
            },
        }
    }

    /// The base branch that the client's reply to a `view_base_branch` request
    /// names; `"main"` when the client failed, its output could not be read as JSON, or the
    /// output names no branch.
    pub fn get_pr_base_branch(view: &Result<String, String>) -> (r: String)
        ensures
            r@ == resolved_branch(view_texts(*view)),
    {
        GitHub::branch_or_default(GitHub::lookup_base_branch(view))
    }
}

} // verus!
