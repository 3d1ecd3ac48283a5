//! The repository listings asked of GitHub's GraphQL interface: the text of
//! each query, the cache key and fingerprint it is stored under, the headers
//! of a request, and the walk through the pages of a listing.
//!
//! Sending a request is left to the embedding program.

use crate::fingerprint::{fingerprint, fingerprint_of};
use vstd::prelude::*;
use vstd::string::StringExecFns;
use vstd::utf8::encode_utf8;

verus! {

/// One listing to ask for.
#[derive(Clone, Debug, PartialEq, Eq)]
pub struct Query {
    /// The cache key of the listing.
    pub name: String,
    /// The user or organization whose repositories are listed.
    pub login: String,
    /// The text of the GraphQL query.
    pub query: String,
    /// Where a response holds the paging information, as a JSON pointer.
    pub page_info_ptr: String,
    /// Where a response holds the repositories, as a JSON pointer.
    pub nodes_ptr: String,
}

/// What a [`Query`] holds, as plain text.
pub struct QueryView {
    pub name: Seq<char>,
    pub login: Seq<char>,
    pub query: Seq<char>,
    pub page_info_ptr: Seq<char>,
    pub nodes_ptr: Seq<char>,
}

impl View for Query {
    type V = QueryView;

    open spec fn view(&self) -> QueryView {
        QueryView {
            name: self.name@,
            login: self.login@,
            query: self.query@,
            page_info_ptr: self.page_info_ptr@,
            nodes_ptr: self.nodes_ptr@,
        }
    }
}

/// The text of the query that lists the repositories of an owner of the
/// given kind, a hundred to a page.
pub open spec fn query_text(kind: Seq<char>) -> Seq<char> {
    "\nquery($login: String!, $after: String) {\n    "@ + kind
        + "(login: $login) {\n        repositories(first: 100, after: $after) {\n            nodes {\n                owner {\n                    login\n                }\n                name\n                description\n                url\n                isFork\n                isArchived\n                isPrivate\n                pushedAt\n            }\n            pageInfo {\n                endCursor\n                hasNextPage\n            }\n        }\n    }\n}"@
}

/// The listing of the repositories of `login`, an owner of the given kind:
/// it is cached under the login followed by `_repos`, and the paging
/// information and the repositories of a response are found under
/// `/data/`, the kind and `/repositories/`.
pub open spec fn repos_of(kind: Seq<char>, login: Seq<char>) -> QueryView {
    QueryView {
        name: login + "_repos"@,
        login,
        query: query_text(kind),
        page_info_ptr: "/data/"@ + kind + "/repositories/pageInfo"@,
        nodes_ptr: "/data/"@ + kind + "/repositories/nodes"@,
    }
}

impl Query {
    /// The fingerprint of the listing: the hash of its cache key, its login
    /// and its query text, each in UTF-8 and in this order.
    pub fn checksum(&self) -> (sum: [u8; 20])
        ensures
            sum@ == fingerprint_of(
                encode_utf8(self.name@),
                encode_utf8(self.login@),
                encode_utf8(self.query@),
            ),
    {
        fingerprint(
            self.name.as_str().as_bytes(),
            self.login.as_str().as_bytes(),
            self.query.as_str().as_bytes(),
        )
    }
}

/// The listing of the repositories of the user `user`.
pub fn user_repos(user: &str) -> (listing: Query)
    ensures
        listing@ == repos_of("user"@, user@),
{
    repos("user", user)
}

/// The listing of the repositories of the organization `org`.
pub fn org_repos(org: &str) -> (listing: Query)
    ensures
        listing@ == repos_of("organization"@, org@),
{
    repos("organization", org)
}

/// The listing of the repositories of `login`, an owner of the given kind.
pub fn repos(kind: &str, login: &str) -> (listing: Query)
    ensures
        listing@ == repos_of(kind@, login@),
{
    let mut name = String::from_str(login);
    name.append("_repos");
    let mut query = String::from_str("\nquery($login: String!, $after: String) {\n    ");
    query.append(kind);
    query.append(
        "(login: $login) {\n        repositories(first: 100, after: $after) {\n            nodes {\n                owner {\n                    login\n                }\n                name\n                description\n                url\n                isFork\n                isArchived\n                isPrivate\n                pushedAt\n            }\n            pageInfo {\n                endCursor\n                hasNextPage\n            }\n        }\n    }\n}",
    );
    let mut page_info_ptr = String::from_str("/data/");
    page_info_ptr.append(kind);
    page_info_ptr.append("/repositories/pageInfo");
    let mut nodes_ptr = String::from_str("/data/");
    nodes_ptr.append(kind);
    nodes_ptr.append("/repositories/nodes");
    Query { name, login: String::from_str(login), query, page_info_ptr, nodes_ptr }
}

/// The header that authorizes a request with `token`.
pub fn authorization_header(token: &str) -> (header: String)
    ensures
        header@ == "Authorization: Bearer "@ + token@,
{
    let mut header = String::from_str("Authorization: Bearer ");
    header.append(token);
    header
}

/// The header that names the program sending a request: the package's name
/// and version, joined by a slash.
pub fn user_agent_header(package: &str, version: &str) -> (header: String)
    ensures
        header@ == "User-Agent: "@ + package@ + "/"@ + version@,
{
    let mut header = String::from_str("User-Agent: ");
    header.append(package);
    header.append("/");
    header.append(version);
    header
}

/// The paging information of one response.
#[derive(Clone, Debug, PartialEq, Eq)]
pub struct PageInfo {
    /// The cursor after the last repository of the page.
    pub cursor: String,
    /// Whether there is another page.
    pub has_next: bool,
}

/// What the caller reports to the walk through the pages of a listing.
#[derive(Debug, PartialEq, Eq)]
pub enum PageEvent<R> {
    /// The walk begins.
    Start,
    /// A page was fetched: this is the response, and its paging information.
    Page { response: R, info: PageInfo },
    /// The page could not be fetched, or held no paging information.
    Failed,
}

/// What the walk asks its caller to do next, or its end.
#[derive(Debug, PartialEq, Eq)]
pub enum PageAction<R> {
    /// Fetch the page after the cursor `after`, or the first page if there
    /// is none.
    Fetch { after: Option<String> },
    /// The walk is over: these are the responses of all pages, in order.
    Done(Vec<R>),
    /// The walk is over: it failed.
    Fail,
}

/// The walk through the pages of a listing: the responses gathered so far.
#[derive(Debug, PartialEq, Eq)]
pub struct Pages<R> {
    pub responses: Vec<R>,
}

impl<R> PageAction<R> {
    /// The action with texts and responses as plain sequences.
    pub open spec fn plain(self) -> PlainAction<R> {
        match self {
            PageAction::Fetch { after: Some(cursor) } => PlainAction::Fetch { after: Some(cursor@) },
            PageAction::Fetch { after: None } => PlainAction::Fetch { after: None },
            PageAction::Done(responses) => PlainAction::Done(responses@),
            PageAction::Fail => PlainAction::Fail,
        }
    }
}

/// A [`PageAction`] with texts and responses as plain sequences.
pub enum PlainAction<R> {
    Fetch { after: Option<Seq<char>> },
    Done(Seq<R>),
    Fail,
}

/// What the walk does on an event, given the responses gathered so far: the
/// responses gathered after it, and the action.
///
/// The walk begins with the first page. Each page is added to the responses;
/// if it has a successor, that one is fetched from the page's cursor on,
/// and if not, the walk is done. A page that fails ends the walk.
pub open spec fn walk<R>(gathered: Seq<R>, event: PageEvent<R>) -> (Seq<R>, PlainAction<R>) {
    match event {
        PageEvent::Start => (gathered, PlainAction::Fetch { after: None }),
        PageEvent::Page { response, info } => if info.has_next {
            (gathered.push(response), PlainAction::Fetch { after: Some(info.cursor@) })
        } else {
            (Seq::empty(), PlainAction::Done(gathered.push(response)))
        },
        PageEvent::Failed => (Seq::empty(), PlainAction::Fail),
    }
}

impl<R> Pages<R> {
    /// A walk that has gathered nothing yet.
    pub fn new() -> (pages: Pages<R>)
        ensures
            pages.responses@ == Seq::<R>::empty(),
    {
        Pages { responses: Vec::new() }
    }
}

/// Advances the walk through the pages of a listing by one event, as
/// [`walk`] defines it.
///
/// The caller starts with [`PageEvent::Start`], fetches each page asked for
/// and reports it, until the action is [`PageAction::Done`] or
/// [`PageAction::Fail`].
pub fn fetch_all<R>(pages: Pages<R>, event: PageEvent<R>) -> (next: (Pages<R>, PageAction<R>))
    ensures
        (next.0.responses@, next.1.plain()) == walk(pages.responses@, event),
{
    let mut responses = pages.responses;
    match event {
        PageEvent::Start => (Pages { responses }, PageAction::Fetch { after: None }),
        PageEvent::Page { response, info } => {
            responses.push(response);
            if info.has_next {
                (Pages { responses }, PageAction::Fetch { after: Some(info.cursor) })
            } else {
                (Pages { responses: Vec::new() }, PageAction::Done(responses))
            }
        },
        PageEvent::Failed => (Pages { responses: Vec::new() }, PageAction::Fail),
    }
}

} // verus!
