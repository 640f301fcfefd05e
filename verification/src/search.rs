//! Search requests and their results.

use crate::decode::agrees;
use crate::decode::array_field;
use crate::decode::lookup_array;
use crate::decode::lookup_u64;
use crate::decode::member_of;
use crate::decode::missing_field;
use crate::decode::require;
use crate::decode::required;
use crate::decode::u64_field;
use crate::decode::Field;
use crate::json::error_text;
use crate::json::json_document;
use crate::json::json_error_text;
use crate::json::json_of;
use crate::json::parse;
use crate::search::query::joined;
use crate::text::decimal;
use crate::text::lemma_decimal_is_injective;
use crate::text::push_decimal;
use serde_json::Value;
use vstd::prelude::*;
use vstd::string::*;

pub mod query;

pub use query::Query;

verus! {

/// What went wrong with a request.
#[derive(Clone, Copy, Debug, PartialEq, Eq, Structural)]
pub enum ErrorKind {
    /// The call over the network did not complete.
    Transport,
    /// The response body is not JSON, or not JSON of the expected shape.
    Decode,
}

/// The model of a `SearchError`.
pub struct ErrorModel {
    pub kind: ErrorKind,
    pub message: Seq<char>,
}

/// The failure of a search or of a lookup: its kind, and the message of
/// whatever failed.
#[derive(Debug)]
pub struct SearchError {
    kind: ErrorKind,
    message: String,
}

impl View for SearchError {
    type V = ErrorModel;

    closed spec fn view(&self) -> ErrorModel {
        ErrorModel { kind: self.kind, message: self.message@ }
    }
}

impl SearchError {
    /// The error for a network call that did not complete.
    pub fn transport(message: String) -> (error: SearchError)
        ensures
            error@ == (ErrorModel { kind: ErrorKind::Transport, message: message@ }),
    {
        SearchError { kind: ErrorKind::Transport, message }
    }

    /// The error for a response body that could not be decoded.
    pub fn decode(message: String) -> (error: SearchError)
        ensures
            error@ == (ErrorModel { kind: ErrorKind::Decode, message: message@ }),
    {
        SearchError { kind: ErrorKind::Decode, message }
    }

    /// The kind of the failure.
    pub fn kind(&self) -> (kind: ErrorKind)
        ensures
            kind == self@.kind,
    {
        self.kind
    }

    /// The message of the failure.
    pub fn message(&self) -> (message: &str)
        ensures
            message@ == self@.message,
    {
        self.message.as_str()
    }

    /// The error as text: its message.
    pub fn to_string(&self) -> (text: String)
        ensures
            text@ == self@.message,
    {
        self.message.clone()
    }
}

/// The model of a `Search`: the area that is searched, the rendered query,
/// the page size and the page index.
pub struct SearchModel {
    pub search_area: Seq<char>,
    pub query: Seq<char>,
    pub per_page: usize,
    pub page: usize,
}

/// The page after `page`: one more, and the same at the largest index.
pub open spec fn next_of(page: usize) -> usize {
    if page < usize::MAX {
        (page + 1) as usize
    } else {
        page
    }
}

/// The page before `page`: one less, and the same at index zero.
pub open spec fn prev_of(page: usize) -> usize {
    if page > 0 {
        (page - 1) as usize
    } else {
        page
    }
}

/// The page that `calls` steps forward from `page` lead to.
pub open spec fn advanced(page: usize, calls: nat) -> usize
    decreases calls,
{
    if calls == 0 {
        page
    } else {
        next_of(advanced(page, (calls - 1) as nat))
    }
}

/// The page that `calls` steps backward from `page` lead to.
pub open spec fn retreated(page: usize, calls: nat) -> usize
    decreases calls,
{
    if calls == 0 {
        page
    } else {
        prev_of(retreated(page, (calls - 1) as nat))
    }
}

/// A request that a transport can be expected to take: the page size and the
/// page index are both at least one.
pub open spec fn in_range(request: SearchModel) -> bool {
    request.per_page >= 1 && request.page >= 1
}

/// The URL that a search request is sent to. The query stands in it as it was
/// rendered: escaping it for transmission is left to the transport.
pub open spec fn request_url(request: SearchModel) -> Seq<char> {
    "https://api.github.com/search/"@ + request.search_area + "?per_page="@ + decimal(
        request.per_page as nat,
    ) + "&page="@ + decimal(request.page as nat) + "&q="@ + request.query
}

/// A search request: what to search for, and which page of the results to
/// fetch.
pub struct Search {
    search_area: String,
    query: String,
    per_page: usize,
    page: usize,
}

impl View for Search {
    type V = SearchModel;

    closed spec fn view(&self) -> SearchModel {
        SearchModel {
            search_area: self.search_area@,
            query: self.query@,
            per_page: self.per_page,
            page: self.page,
        }
    }
}

impl Search {
    /// A request for the first page of ten results in `area`. The query is
    /// rendered here, once: the request keeps the text and not the query.
    pub fn new(area: &str, query: &Query) -> (search: Search)
        ensures
            search@ == (SearchModel {
                search_area: area@,
                query: joined(query@),
                per_page: 10,
                page: 1,
            }),
            in_range(search@),
    {
        Search {
            search_area: String::from_str(area),
            query: query.to_string(),
            per_page: 10,
            page: 1,
        }
    }

    /// The rendered query that the request was made with.
    pub fn get_query(&self) -> (query: &str)
        ensures
            query@ == self@.query,
    {
        self.query.as_str()
    }

    /// The area that the request searches.
    pub fn get_search_area(&self) -> (area: &str)
        ensures
            area@ == self@.search_area,
    {
        self.search_area.as_str()
    }

    /// The page size of the request.
    pub fn get_per_page(&self) -> (per_page: usize)
        ensures
            per_page == self@.per_page,
    {
        self.per_page
    }

    /// The page index of the request.
    pub fn get_page(&self) -> (page: usize)
        ensures
            page == self@.page,
    {
        self.page
    }

    /// Sets the page size. Any number is taken, zero too.
    pub fn per_page(self, per_page: usize) -> (search: Search)
        ensures
            search@ == (SearchModel { per_page, ..self@ }),
    {
        let mut search = self;
        search.per_page = per_page;
        search
    }

    /// Sets the page index. Any number is taken, zero too.
    pub fn page(self, page: usize) -> (search: Search)
        ensures
            search@ == (SearchModel { page, ..self@ }),
    {
        let mut search = self;
        search.page = page;
        search
    }

    /// Moves one page forward. At the largest index the request stays as it
    /// is.
    pub fn next_page(&mut self)
        ensures
            final(self)@ == (SearchModel { page: next_of(old(self)@.page), ..old(self)@ }),
            old(self)@.page <= final(self)@.page,
            old(self)@.page == usize::MAX ==> final(self)@ == old(self)@,
            in_range(old(self)@) ==> in_range(final(self)@),
    {
        if self.page < usize::MAX {
            self.page += 1;
        }
    }

    /// Moves one page backward. At index zero the request stays as it is: the
    /// floor is zero, although the first page of results has index one.
    pub fn prev_page(&mut self)
        ensures
            final(self)@ == (SearchModel { page: prev_of(old(self)@.page), ..old(self)@ }),
            final(self)@.page <= old(self)@.page,
            old(self)@.page == 0 ==> final(self)@ == old(self)@,
    {
        if self.page > 0 {
            self.page -= 1;
        }
    }

    /// Runs the search: renders the URL, has `transport` fetch it, once, and
    /// decodes the body that came back. An error of the transport is
    /// returned as it is.
    pub fn search(&self, transport: impl Fn(&str) -> Result<String, SearchError>) -> (result:
        Result<SearchResults, SearchError>)
        requires
            forall|url: &str| url@ == request_url(self@) ==> call_requires(transport, (url,)),
        ensures
            exists|url: &str, response: Result<String, SearchError>|
                url@ == request_url(self@) && call_ensures(transport, (url,), response)
                    && results_of_response(response, result),
    {
        let url = self.to_string();
        let response = transport(url.as_str());
        SearchResults::from_response(response)
    }

    /// The URL of the request.
    pub fn to_string(&self) -> (url: String)
        ensures
            url@ == request_url(self@),
    {
        let mut url = String::from_str("https://api.github.com/search/");
        url.append(self.search_area.as_str());
        url.append("?per_page=");
        push_decimal(&mut url, self.per_page);
        url.append("&page=");
        push_decimal(&mut url, self.page);
        url.append("&q=");
        url.append(self.query.as_str());
        url
    }
}

/// Steps forward add up until the largest index is reached, and stay there.
pub proof fn lemma_advanced_saturates(page: usize, calls: nat)
    ensures
        advanced(page, calls) == if page + calls <= usize::MAX {
            page + calls
        } else {
            usize::MAX as int
        },
    decreases calls,
{
    if calls > 0 {
        lemma_advanced_saturates(page, (calls - 1) as nat);
    }
}

/// Steps backward take away until index zero is reached, and stay there.
pub proof fn lemma_retreated_saturates(page: usize, calls: nat)
    ensures
        retreated(page, calls) == if page >= calls {
            page - calls
        } else {
            0
        },
    decreases calls,
{
    if calls > 0 {
        lemma_retreated_saturates(page, (calls - 1) as nat);
    }
}

/// Repeated steps forward never decrease the page: more steps lead at least
/// as far as fewer, and no step leads below the page it started from.
pub proof fn lemma_advanced_never_decreases(page: usize, fewer: nat, more: nat)
    requires
        fewer <= more,
    ensures
        page <= advanced(page, fewer) <= advanced(page, more),
{
    lemma_advanced_saturates(page, fewer);
    lemma_advanced_saturates(page, more);
}

/// A step backward undoes a step forward, and a step forward a step backward,
/// wherever the first of the two moved the page.
pub proof fn lemma_steps_undo_each_other(page: usize)
    ensures
        page < usize::MAX ==> prev_of(next_of(page)) == page,
        page > 0 ==> next_of(prev_of(page)) == page,
{
}

/// Every page has a URL of its own: two requests that differ in the page
/// index alone go to different URLs.
pub proof fn lemma_pages_have_their_own_urls(request: SearchModel, one: usize, other: usize)
    requires
        request_url(SearchModel { page: one, ..request }) == request_url(
            SearchModel { page: other, ..request },
        ),
    ensures
        one == other,
{
    let head = "https://api.github.com/search/"@ + request.search_area + "?per_page="@ + decimal(
        request.per_page as nat,
    ) + "&page="@;
    let tail = "&q="@ + request.query;
    let first = decimal(one as nat);
    let second = decimal(other as nat);
    let left = request_url(SearchModel { page: one, ..request });
    let right = request_url(SearchModel { page: other, ..request });
    // Both URLs are the same head, the page in decimal, and the same tail:
    // the two decimal texts have one length and the same characters.
    assert(left =~= head + first + tail);
    assert(right =~= head + second + tail);
    assert(first =~= second) by {
        assert forall|i: int| 0 <= i < first.len() implies first[i] == second[i] by {
            assert(left[head.len() + i] == first[i]);
            assert(right[head.len() + i] == second[i]);
        }
    }
    lemma_decimal_is_injective(one as nat, other as nat);
}

/// A request that was made and not changed since goes to the URL of its area
/// with the page size ten, the page index one and the query as rendered.
pub proof fn lemma_fresh_request_url(area: Seq<char>, query: Seq<char>)
    ensures
        request_url(SearchModel { search_area: area, query, per_page: 10, page: 1 })
            == "https://api.github.com/search/"@ + area + "?per_page=10&page=1&q="@ + query,
{
    reveal_strlit("?per_page=");
    reveal_strlit("&page=");
    reveal_strlit("&q=");
    reveal_strlit("?per_page=10&page=1&q=");
    reveal_with_fuel(decimal, 2);
    let head = "https://api.github.com/search/"@ + area;
    let middle = "?per_page="@ + decimal(10) + "&page="@ + decimal(1) + "&q="@;
    assert(middle =~= "?per_page=10&page=1&q="@);
    assert(request_url(SearchModel { search_area: area, query, per_page: 10, page: 1 })
        =~= head + middle + query);
}

/// The model of a `SearchResults`.
pub struct ResultsModel {
    pub total_count: u64,
    pub items: Seq<Value>,
}

/// What a search response decodes to, given the lookups of its two members:
/// the count is asked for first, then the items.
pub open spec fn results_outcome(total_count: Field<u64>, items: Field<Seq<Value>>) -> Result<
    ResultsModel,
    Seq<char>,
> {
    match required(total_count, "total_count"@, "an unsigned integer"@) {
        Err(message) => Err(message),
        Ok(count) => match required(items, "items"@, "an array"@) {
            Err(message) => Err(message),
            Ok(elements) => Ok(ResultsModel { total_count: count, items: elements }),
        },
    }
}

/// What a parsed response document decodes to.
pub open spec fn results_of(doc: Value) -> Result<ResultsModel, Seq<char>> {
    results_outcome(u64_field(doc, "total_count"@), array_field(doc, "items"@))
}

/// `result` is what the answer `response` of a transport decodes to: the
/// transport's own error where the call did not complete, and otherwise what
/// the body decodes to.
pub open spec fn results_of_response(
    response: Result<String, SearchError>,
    result: Result<SearchResults, SearchError>,
) -> bool {
    match response {
        Err(error) => result == Err::<SearchResults, SearchError>(error),
        Ok(body) => match json_document(body@) {
            Ok(doc) => agrees(result, results_of(doc)),
            Err(error) => agrees(result, Err(json_error_text(error))),
        },
    }
}

/// A response decodes exactly when both of its members were found with their
/// types, and the result set then holds what the two lookups gave.
pub proof fn lemma_results_need_both_members(total_count: Field<u64>, items: Field<Seq<Value>>)
    ensures
        results_outcome(total_count, items) is Ok <==> total_count is Found && items is Found,
        results_outcome(total_count, items) matches Ok(results) ==> total_count == Field::Found(
            results.total_count,
        ) && items == Field::Found(results.items),
{
}

/// Members other than the two that a result set is made of are passed over:
/// two documents with the same `total_count` and the same `items` decode
/// alike.
pub proof fn lemma_results_pass_other_members_over(one: Value, other: Value)
    requires
        member_of(one, "total_count"@) == member_of(other, "total_count"@),
        member_of(one, "items"@) == member_of(other, "items"@),
    ensures
        results_of(one) == results_of(other),
{
}

/// A document that is no JSON object does not decode: its first member is
/// missing.
pub proof fn lemma_only_objects_decode(doc: Value)
    requires
        !(json_of(doc) is Object),
    ensures
        results_of(doc) == Err::<ResultsModel, Seq<char>>(missing_field("total_count"@)),
{
}

/// One page of search results, with the number of all matches.
#[derive(Debug)]
pub struct SearchResults {
    total_count: u64,
    items: Vec<Value>,
}

impl View for SearchResults {
    type V = ResultsModel;

    closed spec fn view(&self) -> ResultsModel {
        ResultsModel { total_count: self.total_count, items: self.items@ }
    }
}

impl SearchResults {
    /// Puts a result set together from the lookups of the two members of a
    /// response. The first member that was not found, or not of its type,
    /// gives the error.
    pub fn assemble(total_count: Field<u64>, items: Field<Vec<Value>>) -> (result: Result<
        SearchResults,
        SearchError,
    >)
        ensures
            agrees(result, results_outcome(total_count, items@)),
    {
        let count = match require(total_count, "total_count", "an unsigned integer") {
            Ok(count) => count,
            Err(error) => {
                return Err(error);
            },
        };
        let elements = match require(items, "items", "an array") {
            Ok(elements) => elements,
            Err(error) => {
                return Err(error);
            },
        };
        Ok(SearchResults { total_count: count, items: elements })
    }

    /// Decodes a parsed response: a JSON object with the members
    /// `total_count`, an unsigned integer, and `items`, an array. Other
    /// members are passed over.
    pub fn from_value(doc: &Value) -> (result: Result<SearchResults, SearchError>)
        ensures
            agrees(result, results_of(*doc)),
    {
        SearchResults::assemble(lookup_u64(doc, "total_count"), lookup_array(doc, "items"))
    }

    /// Decodes a response body. A body that is not JSON gives a decode error
    /// with the parser's message; a body that is JSON decodes as
    /// `from_value` says.
    pub fn from_json(body: &str) -> (result: Result<SearchResults, SearchError>)
        ensures
            match json_document(body@) {
                Ok(doc) => agrees(result, results_of(doc)),
                Err(error) => agrees(result, Err(json_error_text(error))),
            },
    {
        match parse(body) {
            Ok(doc) => SearchResults::from_value(&doc),
            Err(error) => Err(SearchError::decode(error_text(&error))),
        }
    }

    /// Decodes what a transport answered: the body where the call completed,
    /// and otherwise the transport's error as it is.
    pub fn from_response(response: Result<String, SearchError>) -> (result: Result<
        SearchResults,
        SearchError,
    >)
        ensures
            results_of_response(response, result),
    {
        match response {
            Ok(body) => SearchResults::from_json(body.as_str()),
            Err(error) => Err(error),
        }
    }

    /// The number of all matches of the query, whatever the page size.
    pub fn total_count(&self) -> (count: u64)
        ensures
            count == self@.total_count,
    {
        self.total_count
    }

    /// The matches on this page, as the response gave them.
    pub fn items(&self) -> (items: &Vec<Value>)
        ensures
            items@ == self@.items,
    {
        &self.items
    }
}

} // verus!
