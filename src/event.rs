use vstd::prelude::*;

verus! {

/// The head commit of a pull request.
pub struct Head {
    pub sha: String,
}

/// The pull request that triggered the run.
pub struct PullRequest {
    pub number: u32,
    pub head: Head,
    pub body: Option<String>,
}

/// The event part of the payload.
pub struct Event {
    pub pull_request: PullRequest,
}

/// The context of one automation run, read from the runner's event payload.
pub struct GitHubAction {
    pub repository: String,
    pub base_ref: Option<String>,
    pub event: Event,
}

/// The repository identifier holds no `/`, so it has no owner and no name.
#[derive(Debug, Clone, Copy, PartialEq, Eq, Structural)]
pub enum RepositoryFormatError {
    MissingSeparator,
}

/// The branch taken when none is declared.
pub open spec fn default_branch() -> Seq<char> {
    seq!['m', 'a', 'i', 'n']
}

/// Position of the first `/` at or after `from`, or the length when there is none.
pub open spec fn next_slash(s: Seq<char>, from: int) -> int
    decreases s.len() - from,
{
    if from >= s.len() {
        s.len() as int
    } else if s[from] == '/' {
        from
    } else {
        next_slash(s, from + 1)
    }
}

/// The segment of `s` that starts at `from` and runs to the next `/` or the end.
pub open spec fn segment_from(s: Seq<char>, from: int) -> Seq<char> {
    s.subrange(from, next_slash(s, from))
}

/// The owner: the first `/`-separated segment, when the identifier has a `/`.
pub open spec fn owner_of(s: Seq<char>) -> Option<Seq<char>> {
    if next_slash(s, 0) < s.len() {
        Some(segment_from(s, 0))
    } else {
        None
    }
}

/// The name: the second `/`-separated segment, when the identifier has a `/`.
pub open spec fn name_of(s: Seq<char>) -> Option<Seq<char>> {
    if next_slash(s, 0) < s.len() {
        Some(segment_from(s, next_slash(s, 0) + 1))
    } else {
        None
    }
}

pub open spec fn has_no_slash(s: Seq<char>) -> bool {
    forall|i: int| 0 <= i < s.len() ==> s[i] != '/'
}

/// The branch a payload resolves to without asking the service.
pub open spec fn declared_or_default(base_ref: Option<Seq<char>>) -> Seq<char> {
    match base_ref {
        Some(b) => b,
        None => default_branch(),
    }
}

proof fn lemma_next_slash_bounds(s: Seq<char>, from: int)
    requires
        0 <= from <= s.len(),
    ensures
        from <= next_slash(s, from) <= s.len(),
        forall|i: int| from <= i < next_slash(s, from) ==> s[i] != '/',
        next_slash(s, from) < s.len() ==> s[next_slash(s, from)] == '/',
    decreases s.len() - from,
{
    if from < s.len() && s[from] != '/' {
        lemma_next_slash_bounds(s, from + 1);
    }
}

proof fn lemma_next_slash_skips(s: Seq<char>, from: int, to: int)
    requires
        0 <= from <= to <= s.len(),
        forall|i: int| from <= i < to ==> s[i] != '/',
    ensures
        next_slash(s, from) == next_slash(s, to),
    decreases to - from,
{
    if from < to {
        lemma_next_slash_skips(s, from + 1, to);
    }
}

/// An identifier `"<owner>/<name>"` whose two parts are non-empty and hold no `/`
/// has exactly those parts as its owner and its name.
pub proof fn lemma_segments_of_joined(owner: Seq<char>, name: Seq<char>)
    requires
        owner.len() > 0,
        name.len() > 0,
        has_no_slash(owner),
        has_no_slash(name),
    ensures
        owner_of(owner + seq!['/'] + name) == Some(owner),
        name_of(owner + seq!['/'] + name) == Some(name),
{
    let s = owner + seq!['/'] + name;
    let k = owner.len() as int;
    assert forall|i: int| 0 <= i < k implies s[i] != '/' by {
        assert(s[i] == owner[i]);
    }
    lemma_next_slash_skips(s, 0, k);
    assert(s[k] == '/');
    assert forall|i: int| k + 1 <= i < s.len() implies s[i] != '/' by {
        assert(s[i] == name[i - k - 1]);
    }
    lemma_next_slash_skips(s, k + 1, s.len() as int);
    assert(s.subrange(0, k) =~= owner);
    assert(s.subrange(k + 1, s.len() as int) =~= name);
}

/// An identifier with no `/` (a single segment, or the empty text) has neither an
/// owner nor a name.
pub proof fn lemma_no_separator(s: Seq<char>)
    requires
        has_no_slash(s),
    ensures
        owner_of(s) is None,
        name_of(s) is None,
{
    lemma_next_slash_skips(s, 0, s.len() as int);
}

/// Scans `s` from `from` to the next `/`, or to the end.
fn find_slash(s: &str, from: usize) -> (r: usize)
    requires
        from <= s@.len(),
    ensures
        r as int == next_slash(s@, from as int),
{
    let len = s.unicode_len();
    let mut i: usize = from;
    while i < len && s.get_char(i) != '/'
        invariant
            len == s@.len(),
            from <= i <= len,
            forall|k: int| from <= k < i ==> s@[k] != '/',
        decreases len - i,
    {
        i = i + 1;
    }
    proof {
        lemma_next_slash_skips(s@, from as int, i as int);
    }
    i
}

impl GitHubAction {
    pub fn new(repository: String, base_ref: Option<String>, event: Event) -> (r: GitHubAction)
        ensures
            r.repository == repository,
            r.base_ref == base_ref,
            r.event == event,
    {
        GitHubAction { repository, base_ref, event }
    }

    /// The owner: the identifier's first `/`-separated segment.
    pub fn repo_owner(&self) -> (r: Result<String, RepositoryFormatError>)
        ensures
            match owner_of(self.repository@) {
                Some(o) => r matches Ok(x) && x@ == o,
                None => r == Err::<String, RepositoryFormatError>(RepositoryFormatError::MissingSeparator),
            },
    {
        let s = self.repository.as_str();
        let len = s.unicode_len();
        let end = find_slash(s, 0);
        if end < len {
            proof {
                lemma_next_slash_bounds(s@, 0);
            }
            Ok(s.substring_char(0, end).to_owned())
        } else {
            Err(RepositoryFormatError::MissingSeparator)
        }
    }

    /// The repository's name: the identifier's second `/`-separated segment.
    pub fn repo_name(&self) -> (r: Result<String, RepositoryFormatError>)
        ensures
            match name_of(self.repository@) {
                Some(n) => r matches Ok(x) && x@ == n,
                None => r == Err::<String, RepositoryFormatError>(RepositoryFormatError::MissingSeparator),
            },
    {
        let s = self.repository.as_str();
        let len = s.unicode_len();
        let first = find_slash(s, 0);
        if first < len {
            let end = find_slash(s, first + 1);
            proof {
                lemma_next_slash_bounds(s@, first as int + 1);
            }
            Ok(s.substring_char(first + 1, end).to_owned())
        } else {
            Err(RepositoryFormatError::MissingSeparator)
        }
    }

    /// The declared base branch, or `"main"` when the payload declares none.
    pub fn base_branch(&self) -> (r: &str)
        ensures
            r@ == declared_or_default(
                match self.base_ref {
                    Some(b) => Some(b@),
                    None => None,
                },
            ),
    {
        match &self.base_ref {
            Some(b) => b.as_str(),
            None => {
                proof {
                    reveal_strlit("main");
                }
                "main"
            },
        }
    }
}

} // verus!
