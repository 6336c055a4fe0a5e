//! What to export: the repository, perhaps one issue of it, and which issues of a listing.

use crate::error::{ErrorView, ExportError};
use crate::text::{
    chars_of, decimal, lemma_unsigned_value_of_decimal, parse_u64, same_text, text_of, u64_value,
};
use vstd::prelude::*;
use vstd::string::*;

verus! {

/// Which issues of a repository a listing holds.
#[derive(Debug, Clone, Copy, PartialEq, Eq, Structural)]
pub enum State {
    Open,
    Closed,
    All,
}

impl State {
    /// The word that stands for the state, on the command line and in a request.
    pub open spec fn text(self) -> Seq<char> {
        match self {
            State::Open => "open"@,
            State::Closed => "closed"@,
            State::All => "all"@,
        }
    }

    /// The state that the word `s` stands for, if it is one of the three.
    pub open spec fn parse(s: Seq<char>) -> Option<State> {
        if s == "open"@ {
            Some(State::Open)
        } else if s == "closed"@ {
            Some(State::Closed)
        } else if s == "all"@ {
            Some(State::All)
        } else {
            None
        }
    }

    /// The message for a word that names no state.
    pub open spec fn unknown(s: Seq<char>) -> ErrorView {
        ErrorView::ArgumentError("unknown state: "@ + s)
    }

    /// Reads a state from its word. The word is taken as it stands: no other case, no spaces.
    pub fn from_str(s: &str) -> (result: Result<State, ExportError>)
        ensures
            match State::parse(s@) {
                Some(state) => result == Ok::<State, ExportError>(state),
                None => result matches Err(e) && e@ == State::unknown(s@),
            },
    {
        if same_text(s, "open") {
            Ok(State::Open)
        } else if same_text(s, "closed") {
            Ok(State::Closed)
        } else if same_text(s, "all") {
            Ok(State::All)
        } else {
            let mut message = "unknown state: ".to_owned();
            message.append(s);
            Err(ExportError::ArgumentError(message))
        }
    }

    /// The word that stands for the state.
    pub fn as_str(&self) -> (word: &'static str)
        ensures
            word@ == self.text(),
    {
        match self {
            State::Open => "open",
            State::Closed => "closed",
            State::All => "all",
        }
    }
}

/// Every state is read back from its own word.
pub proof fn lemma_state_round_trip(state: State)
    ensures
        State::parse(state.text()) == Some(state),
{
    reveal_strlit("open");
    reveal_strlit("closed");
    reveal_strlit("all");
    assert("open"@.len() == 4 && "closed"@.len() == 6 && "all"@.len() == 3);
}

/// The position of the first `c` in `s`, or the length of `s` where it holds none.
pub open spec fn first_index(s: Seq<char>, c: char) -> int
    decreases s.len(),
{
    if s.len() == 0 || s[0] == c {
        0
    } else {
        1 + first_index(s.drop_first(), c)
    }
}

/// `first_index` is a position in `s` or its length, no `c` stands before it, and one stands at
/// it unless it is the length.
pub proof fn lemma_first_index(s: Seq<char>, c: char)
    ensures
        0 <= first_index(s, c) <= s.len(),
        forall|j: int| 0 <= j < first_index(s, c) ==> s[j] != c,
        first_index(s, c) < s.len() ==> s[first_index(s, c)] == c,
    decreases s.len(),
{
    if !(s.len() == 0 || s[0] == c) {
        let rest = s.drop_first();
        lemma_first_index(rest, c);
        assert forall|j: int| 0 <= j < first_index(s, c) implies s[j] != c by {
            if j > 0 {
                assert(s[j] == rest[j - 1]);
            }
        }
    }
}

/// A position with a `c` at it and none before it is the first index.
pub proof fn lemma_first_index_is(s: Seq<char>, c: char, i: int)
    requires
        0 <= i <= s.len(),
        forall|j: int| 0 <= j < i ==> s[j] != c,
        i < s.len() ==> s[i] == c,
    ensures
        first_index(s, c) == i,
{
    lemma_first_index(s, c);
}

/// The position of the first `c` among the characters from `from` up to `to`.
pub fn find_char(chars: &Vec<char>, from: usize, to: usize, c: char) -> (at: usize)
    requires
        from <= to <= chars.len(),
    ensures
        from <= at <= to,
        at - from == first_index(chars@.subrange(from as int, to as int), c),
{
    let ghost s = chars@.subrange(from as int, to as int);
    let mut at: usize = from;
    while at < to && chars[at] != c
        invariant
            from <= at <= to <= chars.len(),
            s == chars@.subrange(from as int, to as int),
            forall|j: int| 0 <= j < at - from ==> s[j] != c,
        decreases to - at,
    {
        at = at + 1;
    }
    proof {
        lemma_first_index_is(s, c, at - from);
    }
    at
}

/// A query as text: the owner, the repository and, where one issue is asked for, its number.
pub struct QueryView {
    pub owner: Seq<char>,
    pub repo: Seq<char>,
    pub issue_number: Option<u64>,
}

impl QueryView {
    /// Owner and repository are not empty, and an issue number is positive.
    pub open spec fn valid(self) -> bool {
        &&& self.owner.len() > 0
        &&& self.repo.len() > 0
        &&& self.issue_number matches Some(n) ==> n > 0
    }
}

/// The repository to export from and, where only one issue is wanted, its number.
#[derive(Debug, PartialEq, Eq)]
pub struct Query {
    owner: String,
    repo: String,
    issue_number: Option<u64>,
}

impl View for Query {
    type V = QueryView;

    closed spec fn view(&self) -> QueryView {
        QueryView { owner: self.owner@, repo: self.repo@, issue_number: self.issue_number }
    }
}

impl Clone for Query {
    fn clone(&self) -> (copy: Query)
        ensures
            copy@ == self@,
    {
        proof {
            use_type_invariant(self);
        }
        Query {
            owner: self.owner.clone(),
            repo: self.repo.clone(),
            issue_number: self.issue_number,
        }
    }
}

impl Query {
    #[verifier::type_invariant]
    spec fn well_formed(self) -> bool {
        self@.valid()
    }

    /// The message for a text that is no query.
    pub open spec fn invalid(s: Seq<char>) -> ErrorView {
        ErrorView::ArgumentError("invalid query: "@ + s)
    }

    /// The message for an issue part that is no positive number.
    pub open spec fn invalid_issue(part: Seq<char>) -> ErrorView {
        ErrorView::ArgumentError("failed to parse issue "@ + part + " as integer"@)
    }

    /// What a text means as a query.
    ///
    /// The owner is what stands before the first `/`. In what follows it, the repository is
    /// what stands before the first `#`, and the issue number what stands behind it. A text
    /// without `/`, or with an empty owner or repository, is no query. The issue part, where
    /// there is one, has to be decimal digits, with or without one `+` before them, that stand
    /// for a positive number which fits in 64 bits.
    pub open spec fn parse(s: Seq<char>) -> Result<QueryView, ErrorView> {
        let slash = first_index(s, '/');
        let rest = s.skip(slash + 1);
        let hash = first_index(rest, '#');
        let owner = s.take(slash);
        let repo = rest.take(hash);
        let part = rest.skip(hash + 1);
        if slash == s.len() || owner.len() == 0 || repo.len() == 0 {
            Err(Query::invalid(s))
        } else if hash == rest.len() {
            Ok(QueryView { owner, repo, issue_number: None })
        } else {
            match u64_value(part) {
                Some(n) => if n > 0 {
                    Ok(QueryView { owner, repo, issue_number: Some(n) })
                } else {
                    Err(Query::invalid_issue(part))
                },
                None => Err(Query::invalid_issue(part)),
            }
        }
    }

    /// Reads a query of the form `owner/repo` or `owner/repo#number`.
    pub fn from_str(s: &str) -> (result: Result<Query, ExportError>)
        ensures
            match Query::parse(s@) {
                Ok(query) => result matches Ok(q) && q@ == query,
                Err(error) => result matches Err(e) && e@ == error,
            },
            result matches Ok(q) ==> q@.valid(),
    {
        let chars = chars_of(s);
        let len = chars.len();
        let slash = find_char(&chars, 0, len, '/');
        assert(chars@.subrange(0, len as int) =~= s@);
        if slash == len || slash == 0 {
            return Err(Query::invalid_query(s));
        }
        let ghost rest = s@.skip(slash + 1);
        assert(chars@.subrange(slash + 1, len as int) =~= rest);
        let hash = find_char(&chars, slash + 1, len, '#');
        if hash == slash + 1 {
            return Err(Query::invalid_query(s));
        }
        let owner = text_of(&chars, 0, slash);
        let repo = text_of(&chars, slash + 1, hash);
        assert(owner@ =~= s@.take(slash as int));
        assert(repo@ =~= rest.take(hash - slash - 1));
        if hash == len {
            return Ok(Query { owner, repo, issue_number: None });
        }
        assert(chars@.subrange(hash + 1, len as int) =~= rest.skip(hash - slash));
        match parse_u64(&chars, hash + 1, len) {
            Some(n) => {
                if n > 0 {
                    Ok(Query { owner, repo, issue_number: Some(n) })
                } else {
                    Err(Query::invalid_issue_number(&chars, hash + 1))
                }
            },
            None => Err(Query::invalid_issue_number(&chars, hash + 1)),
        }
    }

    fn invalid_query(s: &str) -> (error: ExportError)
        ensures
            error@ == Query::invalid(s@),
    {
        let mut message = "invalid query: ".to_owned();
        message.append(s);
        ExportError::ArgumentError(message)
    }

    fn invalid_issue_number(chars: &Vec<char>, from: usize) -> (error: ExportError)
        requires
            from <= chars.len(),
        ensures
            error@ == Query::invalid_issue(chars@.subrange(from as int, chars.len() as int)),
    {
        let part = text_of(chars, from, chars.len());
        let mut message = "failed to parse issue ".to_owned();
        message.append(part.as_str());
        message.append(" as integer");
        ExportError::ArgumentError(message)
    }

    /// The owner of the repository.
    pub fn owner(&self) -> (owner: &str)
        ensures
            owner@ == self@.owner,
            owner@.len() > 0,
    {
        proof {
            use_type_invariant(self);
        }
        self.owner.as_str()
    }

    /// The name of the repository.
    pub fn repo(&self) -> (repo: &str)
        ensures
            repo@ == self@.repo,
            repo@.len() > 0,
    {
        proof {
            use_type_invariant(self);
        }
        self.repo.as_str()
    }

    /// The number of the one issue that is asked for, if one is.
    pub fn issue_number(&self) -> (number: Option<u64>)
        ensures
            number == self@.issue_number,
            number matches Some(n) ==> n > 0,
    {
        proof {
            use_type_invariant(self);
        }
        self.issue_number
    }
}

/// Whether `c` occurs nowhere in `s`.
pub open spec fn lacks(s: Seq<char>, c: char) -> bool {
    forall|i: int| 0 <= i < s.len() ==> s[i] != c
}

/// A text that is put together from a head without `c`, then `c`, then a tail, comes apart at
/// that `c` into the same head and tail.
pub proof fn lemma_split_at_first(head: Seq<char>, c: char, tail: Seq<char>)
    requires
        lacks(head, c),
    ensures
        first_index(head + seq![c] + tail, c) == head.len(),
        (head + seq![c] + tail).take(head.len() as int) == head,
        (head + seq![c] + tail).skip(head.len() as int + 1) == tail,
{
    let s = head + seq![c] + tail;
    assert forall|j: int| 0 <= j < head.len() implies s[j] != c by {
        assert(s[j] == head[j]);
    }
    lemma_first_index_is(s, c, head.len() as int);
    assert(s.take(head.len() as int) =~= head);
    assert(s.skip(head.len() as int + 1) =~= tail);
}

/// A text `owner/repo`, with neither part empty, no `/` in the owner and no `#` in the
/// repository, is the query for that repository, with no issue number.
pub proof fn lemma_parse_repository(owner: Seq<char>, repo: Seq<char>)
    requires
        owner.len() > 0,
        repo.len() > 0,
        lacks(owner, '/'),
        lacks(repo, '#'),
    ensures
        Query::parse(owner + seq!['/'] + repo) == Ok::<QueryView, ErrorView>(
            QueryView { owner, repo, issue_number: None },
        ),
{
    lemma_split_at_first(owner, '/', repo);
    lemma_first_index_is(repo, '#', repo.len() as int);
    assert(repo.take(repo.len() as int) =~= repo);
}

/// A text `owner/repo#N`, where `N` is the numeral of a positive number, is the query for
/// issue `N` of that repository.
pub proof fn lemma_parse_issue(owner: Seq<char>, repo: Seq<char>, number: u64)
    requires
        owner.len() > 0,
        repo.len() > 0,
        lacks(owner, '/'),
        lacks(repo, '#'),
        number > 0,
    ensures
        Query::parse(owner + seq!['/'] + (repo + seq!['#'] + decimal(number as nat))) == Ok::<
            QueryView,
            ErrorView,
        >(QueryView { owner, repo, issue_number: Some(number) }),
{
    let rest = repo + seq!['#'] + decimal(number as nat);
    lemma_split_at_first(owner, '/', rest);
    lemma_split_at_first(repo, '#', decimal(number as nat));
    lemma_unsigned_value_of_decimal(number as nat);
}

/// A text `owner/repo#part` whose last part is not a positive number that fits in 64 bits is
/// refused, and the message names the part.
pub proof fn lemma_parse_refuses_issue(owner: Seq<char>, repo: Seq<char>, part: Seq<char>)
    requires
        owner.len() > 0,
        repo.len() > 0,
        lacks(owner, '/'),
        lacks(repo, '#'),
        u64_value(part) is None || u64_value(part) == Some(0u64),
    ensures
        Query::parse(owner + seq!['/'] + (repo + seq!['#'] + part)) == Err::<QueryView, ErrorView>(
            Query::invalid_issue(part),
        ),
{
    let rest = repo + seq!['#'] + part;
    lemma_split_at_first(owner, '/', rest);
    lemma_split_at_first(repo, '#', part);
}

/// A text without `/`, one that begins with `/`, and one in which `#` or nothing follows the
/// first `/`, is refused as a whole.
pub proof fn lemma_parse_refuses_query(s: Seq<char>)
    requires
        ({
            ||| lacks(s, '/')
            ||| s.len() > 0 && s[0] == '/'
            ||| first_index(s, '/') + 1 == s.len()
            ||| first_index(s, '/') + 1 < s.len() && s[first_index(s, '/') + 1] == '#'
        }),
    ensures
        Query::parse(s) == Err::<QueryView, ErrorView>(Query::invalid(s)),
{
    lemma_first_index(s, '/');
    let slash = first_index(s, '/');
    if lacks(s, '/') {
        lemma_first_index_is(s, '/', s.len() as int);
    } else if slash < s.len() && slash > 0 {
        let rest = s.skip(slash + 1);
        if slash + 1 < s.len() {
            assert(rest[0] == s[slash + 1]);
        }
        lemma_first_index_is(rest, '#', 0);
    }
}

} // verus!
