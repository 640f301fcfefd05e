use github_stats::Query;

#[test]
fn empty_query_renders_to_nothing() {
    let query = Query::new();
    assert_eq!(query.len(), 0);
    assert_eq!(query.to_string(), "");
}

#[test]
fn single_qualifier_has_no_separator() {
    let query = Query::new().is("issue");
    assert_eq!(query.len(), 1);
    assert_eq!(query.to_string(), "is:issue");
}

#[test]
fn merged_pull_requests_of_a_repository() {
    let query = Query::new().repo("rust-lang", "rust").is("pr").is("merged");
    let text = query.to_string();
    assert_eq!(text, "repo:rust-lang/rust is:pr is:merged");
    let tokens: Vec<&str> = text.split(' ').collect();
    assert_eq!(tokens, vec!["repo:rust-lang/rust", "is:pr", "is:merged"]);
    assert_eq!(text.trim(), text);
}

#[test]
fn rendering_twice_gives_the_same_text() {
    let query = Query::new().repo("rust-lang", "cargo").is("issue").is("open");
    let first = query.to_string();
    let second = query.to_string();
    assert_eq!(first, second);
    assert_eq!(first, "repo:rust-lang/cargo is:issue is:open");
}

#[test]
fn tokens_keep_the_order_of_the_calls() {
    let forward = Query::new().is("pr").repo("a", "b");
    let backward = Query::new().repo("a", "b").is("pr");
    assert_eq!(forward.to_string(), "is:pr repo:a/b");
    assert_eq!(backward.to_string(), "repo:a/b is:pr");
}

#[test]
fn repeated_is_adds_a_token_each_time() {
    let query = Query::new().is("pr").is("pr");
    assert_eq!(query.len(), 2);
    assert_eq!(query.to_string(), "is:pr is:pr");
}

#[test]
fn qualifier_takes_any_key() {
    let query = Query::new().qualifier("label", "bug").qualifier("author", "octocat");
    assert_eq!(query.to_string(), "label:bug author:octocat");
}

#[test]
fn values_are_not_checked_or_changed() {
    let query = Query::new().qualifier("label", "\"help wanted\"").is("");
    assert_eq!(query.to_string(), "label:\"help wanted\" is:");
    let spaced = Query::new().repo("some owner", "a/b");
    assert_eq!(spaced.to_string(), "repo:some owner/a/b");
}

#[test]
fn default_query_is_empty() {
    let query = Query::default();
    assert_eq!(query.len(), 0);
    assert_eq!(query.to_string(), "");
}

#[test]
fn qualifier_families_render_their_key() {
    assert_eq!(Query::new().user("octocat").to_string(), "user:octocat");
    assert_eq!(Query::new().org("rust-lang").to_string(), "org:rust-lang");
    assert_eq!(Query::new().author("octocat").to_string(), "author:octocat");
    assert_eq!(Query::new().assignee("octocat").to_string(), "assignee:octocat");
    assert_eq!(Query::new().label("bug").to_string(), "label:bug");
    assert_eq!(Query::new().language("rust").to_string(), "language:rust");
    assert_eq!(Query::new().state("open").to_string(), "state:open");
}

#[test]
fn qualifier_families_chain_left_to_right() {
    let query = Query::new()
        .org("rust-lang")
        .is("issue")
        .state("open")
        .label("E-easy")
        .author("octocat")
        .assignee("hubot")
        .language("rust")
        .user("octocat");
    assert_eq!(query.len(), 8);
    assert_eq!(
        query.to_string(),
        "org:rust-lang is:issue state:open label:E-easy author:octocat assignee:hubot language:rust user:octocat"
    );
}

#[test]
fn words_of_the_rendering_are_the_tokens() {
    let query = Query::new().repo("rust-lang", "rust").is("pr").label("T-compiler").is("merged");
    let text = query.to_string();
    let words: Vec<&str> = text.split_whitespace().collect();
    assert_eq!(words, vec!["repo:rust-lang/rust", "is:pr", "label:T-compiler", "is:merged"]);
    assert_eq!(words.len(), query.len());
}

#[test]
fn value_with_white_space_makes_more_words_than_tokens() {
    let query = Query::new().label("help wanted").is("open");
    let text = query.to_string();
    assert_eq!(text, "label:help wanted is:open");
    assert_eq!(query.len(), 2);
    assert_eq!(text.split_whitespace().count(), 3);
}
