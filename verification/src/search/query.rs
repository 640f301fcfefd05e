//! Search queries: an ordered list of qualifiers and its rendering.

use vstd::prelude::*;
use vstd::string::*;

verus! {

/// The token of one qualifier: the key, a colon, and the value.
pub open spec fn token(key: Seq<char>, value: Seq<char>) -> Seq<char> {
    key + seq![':'] + value
}

/// The value that names a repository: the owner, a slash, and the name.
pub open spec fn repo_path(owner: Seq<char>, name: Seq<char>) -> Seq<char> {
    owner + seq!['/'] + name
}

/// The tokens in their order, with one space between neighbours and nothing
/// before the first or after the last.
pub open spec fn joined(tokens: Seq<Seq<char>>) -> Seq<char>
    decreases tokens.len(),
{
    if tokens.len() == 0 {
        Seq::empty()
    } else if tokens.len() == 1 {
        tokens[0]
    } else {
        joined(tokens.drop_last()) + seq![' '] + tokens.last()
    }
}

/// White space: what separates the tokens of a search text.
pub open spec fn blank(c: char) -> bool {
    c == ' ' || c == '\t' || c == '\n' || c == '\r'
}

/// A piece of text that can stand as one token: it is not empty and holds no
/// white space.
pub open spec fn solid(text: Seq<char>) -> bool {
    text.len() > 0 && forall|i: int| 0 <= i < text.len() ==> !blank(#[trigger] text[i])
}

/// The words of a text: its longest runs of characters that are not white
/// space, from left to right.
pub open spec fn words(text: Seq<char>) -> Seq<Seq<char>>
    decreases text.len(),
{
    if text.len() == 0 {
        Seq::empty()
    } else {
        let before = words(text.drop_last());
        if blank(text.last()) {
            before
        } else if text.len() >= 2 && !blank(text[text.len() - 2]) {
            before.drop_last().push(before.last().push(text.last()))
        } else {
            before.push(seq![text.last()])
        }
    }
}

/// A search query under construction.
///
/// A query is the list of the qualifier tokens that were added to it, oldest
/// first. Values are taken as they are given: a value that holds white space
/// has to be quoted by the caller.
#[derive(Debug)]
pub struct Query {
    tokens: Vec<String>,
}

impl View for Query {
    type V = Seq<Seq<char>>;

    /// The tokens of the query, in the order in which they were added.
    closed spec fn view(&self) -> Seq<Seq<char>> {
        Seq::new(self.tokens@.len(), |i: int| self.tokens@[i]@)
    }
}

impl Default for Query {
    /// A query without qualifiers.
    fn default() -> (query: Query)
        ensures
            query@ == Seq::<Seq<char>>::empty(),
    {
        Query::new()
    }
}

impl Query {
    /// The text that the query renders to.
    pub open spec fn rendered(&self) -> Seq<char> {
        joined(self@)
    }

    /// A query without qualifiers.
    pub fn new() -> (query: Query)
        ensures
            query@ == Seq::<Seq<char>>::empty(),
    {
        Query { tokens: Vec::new() }
    }

    /// Adds the qualifier `key:value` after those that the query holds.
    pub fn qualifier(self, key: &str, value: &str) -> (query: Query)
        ensures
            query@ == self@.push(token(key@, value@)),
    {
        proof {
            reveal_strlit(":");
        }
        let mut text = String::from_str(key);
        text.append(":");
        text.append(value);
        assert(text@ =~= token(key@, value@));
        let mut tokens = self.tokens;
        tokens.push(text);
        Query { tokens }
    }

    /// Restricts the search to the repository `name` of `owner`.
    pub fn repo(self, owner: &str, name: &str) -> (query: Query)
        ensures
            query@ == self@.push(token("repo"@, repo_path(owner@, name@))),
    {
        proof {
            reveal_strlit("/");
        }
        let mut path = String::from_str(owner);
        path.append("/");
        path.append(name);
        assert(path@ =~= repo_path(owner@, name@));
        self.qualifier("repo", path.as_str())
    }

    /// Adds an `is:` qualifier, such as `is:pr` or `is:merged`. Each call adds
    /// a token of its own.
    pub fn is(self, value: &str) -> (query: Query)
        ensures
            query@ == self@.push(token("is"@, value@)),
    {
        self.qualifier("is", value)
    }

    /// Restricts the search to what the user `login` owns.
    pub fn user(self, login: &str) -> (query: Query)
        ensures
            query@ == self@.push(token("user"@, login@)),
    {
        self.qualifier("user", login)
    }

    /// Restricts the search to what the organization `name` owns.
    pub fn org(self, name: &str) -> (query: Query)
        ensures
            query@ == self@.push(token("org"@, name@)),
    {
        self.qualifier("org", name)
    }

    /// Restricts the search to items that `login` created.
    pub fn author(self, login: &str) -> (query: Query)
        ensures
            query@ == self@.push(token("author"@, login@)),
    {
        self.qualifier("author", login)
    }

    /// Restricts the search to items that are assigned to `login`.
    pub fn assignee(self, login: &str) -> (query: Query)
        ensures
            query@ == self@.push(token("assignee"@, login@)),
    {
        self.qualifier("assignee", login)
    }

    /// Restricts the search to items that carry the label `name`.
    pub fn label(self, name: &str) -> (query: Query)
        ensures
            query@ == self@.push(token("label"@, name@)),
    {
        self.qualifier("label", name)
    }

    /// Restricts the search to repositories written in `name`.
    pub fn language(self, name: &str) -> (query: Query)
        ensures
            query@ == self@.push(token("language"@, name@)),
    {
        self.qualifier("language", name)
    }

    /// Restricts the search to items in the state `value`, such as `open`
    /// or `closed`.
    pub fn state(self, value: &str) -> (query: Query)
        ensures
            query@ == self@.push(token("state"@, value@)),
    {
        self.qualifier("state", value)
    }

    /// The number of qualifiers in the query.
    pub fn len(&self) -> (n: usize)
        ensures
            n == self@.len(),
    {
        self.tokens.len()
    }

    /// Renders the query: its tokens in the order in which they were added,
    /// separated by single spaces.
    pub fn to_string(&self) -> (text: String)
        ensures
            text@ == self.rendered(),
    {
        proof {
            reveal_strlit(" ");
        }
        let mut text = String::new();
        let mut i: usize = 0;
        while i < self.tokens.len()
            invariant
                i <= self.tokens@.len(),
                " "@ == seq![' '],
                text@ == joined(self@.take(i as int)),
            decreases self.tokens@.len() - i,
        {
            assert(self@.take(i + 1).drop_last() =~= self@.take(i as int));
            if i > 0 {
                text.append(" ");
            }
            text.append(self.tokens[i].as_str());
            i += 1;
        }
        assert(self@.take(i as int) =~= self@);
        text
    }
}

/// Rendering is idempotent: two renderings of one query, with nothing added
/// to it in between, are the same text.
pub proof fn lemma_rendering_is_idempotent(query: Query, first: String, second: String)
    requires
        first@ == query.rendered(),
        second@ == query.rendered(),
    ensures
        first@ == second@,
{
}

/// Adding a token to a query adds it to the end of the rendering, after one
/// space where the query already held a token.
pub proof fn lemma_joined_push(tokens: Seq<Seq<char>>, added: Seq<char>)
    ensures
        joined(tokens.push(added)) == if tokens.len() == 0 {
            added
        } else {
            joined(tokens) + seq![' '] + added
        },
{
    assert(tokens.push(added).drop_last() =~= tokens);
}

/// A solid piece of text that follows the start of a text, or white space,
/// is one more word of the text.
proof fn lemma_words_append(before: Seq<char>, word: Seq<char>)
    requires
        before.len() == 0 || blank(before.last()),
        solid(word),
    ensures
        words(before + word) == words(before).push(word),
    decreases word.len(),
{
    let text = before + word;
    if word.len() == 1 {
        // The word is its one character, which starts a new word of the text.
        assert(text.drop_last() =~= before);
        assert(word =~= seq![word.last()]);
    } else {
        // All but the last character are one more word of the text, by
        // induction; the last character then extends that word.
        let shorter = word.drop_last();
        assert(solid(shorter));
        lemma_words_append(before, shorter);
        assert(text.drop_last() =~= before + shorter);
        assert(shorter.push(word.last()) =~= word);
    }
}

/// Every token of a query is one word of the rendering: where each token is
/// solid, the words of the rendering are the tokens, in their order.
pub proof fn lemma_tokens_are_the_words(tokens: Seq<Seq<char>>)
    requires
        forall|i: int| 0 <= i < tokens.len() ==> solid(#[trigger] tokens[i]),
    ensures
        words(joined(tokens)) == tokens,
    decreases tokens.len(),
{
    if tokens.len() == 1 {
        lemma_words_append(Seq::empty(), tokens[0]);
    } else if tokens.len() > 1 {
        // The space after the earlier tokens adds no word, and the last token
        // follows that space.
        let earlier = tokens.drop_last();
        lemma_tokens_are_the_words(earlier);
        let spaced = joined(earlier) + seq![' '];
        assert(spaced.drop_last() =~= joined(earlier));
        lemma_words_append(spaced, tokens.last());
    }
}

/// The rendering of a query with solid tokens has no white space at either
/// end.
pub proof fn lemma_rendering_has_no_outer_space(tokens: Seq<Seq<char>>)
    requires
        tokens.len() > 0,
        forall|i: int| 0 <= i < tokens.len() ==> solid(#[trigger] tokens[i]),
    ensures
        joined(tokens).len() > 0,
        !blank(joined(tokens).first()),
        !blank(joined(tokens).last()),
    decreases tokens.len(),
{
    if tokens.len() > 1 {
        lemma_rendering_has_no_outer_space(tokens.drop_last());
    }
}

/// A token is solid where its key and its value are: the colon between them
/// is no white space.
pub proof fn lemma_token_is_solid(key: Seq<char>, value: Seq<char>)
    requires
        solid(key),
        solid(value),
    ensures
        solid(token(key, value)),
{
    let text = token(key, value);
    assert forall|i: int| 0 <= i < text.len() implies !blank(#[trigger] text[i]) by {
        if i < key.len() {
            assert(text[i] == key[i]);
        } else if i > key.len() {
            assert(text[i] == value[i - key.len() - 1]);
        }
    }
}

/// The value that names a repository is solid where the owner and the name
/// are: the slash between them is no white space.
pub proof fn lemma_repo_path_is_solid(owner: Seq<char>, name: Seq<char>)
    requires
        solid(owner),
        solid(name),
    ensures
        solid(repo_path(owner, name)),
{
    let text = repo_path(owner, name);
    assert forall|i: int| 0 <= i < text.len() implies !blank(#[trigger] text[i]) by {
        if i < owner.len() {
            assert(text[i] == owner[i]);
        } else if i > owner.len() {
            assert(text[i] == name[i - owner.len() - 1]);
        }
    }
}

} // verus!
