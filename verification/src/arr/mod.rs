//! What Sonarr and Radarr share: the wire models, the rules of the protocol
//! and the texts their screens show. Radarr is a Sonarr fork, so both speak
//! the same `/api/v3`: the status mapping, the paginated queue envelope and
//! the release/grab requests are written once here. The API key rides only in
//! a header, never in a path or a query, so no line that prints one can leak
//! it.

use serde_json::Value;
use vstd::prelude::*;
use vstd::string::*;

use crate::arr::models::Page;
use crate::json::{
    int_value, ints_value, json_int, json_ints, json_object_of, json_text, json_with_member,
    object_of, set_member, text_value,
};
use crate::text::{decimal, decimal_int, opt_text, push_decimal, push_int};

pub mod calendar;
pub mod display;
pub mod models;
pub mod rows;

verus! {

/// What can go wrong with a server.
#[derive(Debug)]
pub enum Error {
    /// The host could not be understood; holds why.
    InvalidHost(String),
    MissingApiKey,
    Unauthorized,
    /// The server answered with an error; holds the status as it is shown
    /// ("404 Not Found").
    Status(String),
    /// The server could not be reached; holds why.
    Http(String),
}

impl Error {
    /// The sentence shown for the error.
    pub open spec fn text(self) -> Seq<char> {
        match self {
            Error::InvalidHost(why) => why@,
            Error::MissingApiKey => "no API key stored"@,
            Error::Unauthorized => "API key rejected by server"@,
            Error::Status(status) => "server returned "@ + status@,
            Error::Http(why) => "cannot reach server: "@ + why@,
        }
    }

    /// The sentence shown for the error.
    pub fn message(&self) -> (text: String)
        ensures
            text@ == self.text(),
    {
        match self {
            Error::InvalidHost(why) => why.clone(),
            Error::MissingApiKey => "no API key stored".to_owned(),
            Error::Unauthorized => "API key rejected by server".to_owned(),
            Error::Status(status) => "server returned ".to_owned().concat(status.as_str()),
            Error::Http(why) => "cannot reach server: ".to_owned().concat(why.as_str()),
        }
    }
}

/// Interactive search fans out to every indexer and only answers when the
/// slowest one does; the blanket request timeout would cut it off. In seconds.
pub const RELEASE_SEARCH_TIMEOUT: u64 = 120;

/// The queue endpoint is paginated; one page this size covers any sane queue.
pub const QUEUE_PAGE_SIZE: usize = 1000;

/// A server misreporting its total can never chain-fetch forever.
pub const QUEUE_MAX_PAGES: usize = 5;

/// Map an answer's status: 401 and 403 mean the key was rejected, so the UI
/// can drop back to the setup screen; any other status outside 200..=299 is an
/// error that carries the status line.
pub fn check_status(code: u16, line: String) -> (r: Result<(), Error>)
    ensures
        r is Ok <==> 200 <= code <= 299,
        code == 401 || code == 403 ==> r == Err::<(), Error>(Error::Unauthorized),
        !(200 <= code <= 299) && code != 401 && code != 403 ==> r == Err::<(), Error>(
            Error::Status(line),
        ),
{
    if code == 401 || code == 403 {
        Err(Error::Unauthorized)
    } else if 200 <= code && code <= 299 {
        Ok(())
    } else {
        Err(Error::Status(line))
    }
}

/// The key to connect with: the typed one, or the stored one where none was
/// typed; an empty key is none.
pub fn usable_key(typed: Option<String>, stored: Option<String>) -> (key: Option<String>)
    ensures
        opt_text(key) == (match if typed is Some {
            opt_text(typed)
        } else {
            opt_text(stored)
        } {
            Some(key) => if key.len() > 0 {
                Some(key)
            } else {
                None
            },
            None => None,
        }),
{
    let key: Option<String> = match typed {
        Some(key) => Some(key),
        None => stored,
    };
    match key {
        Some(key) => if key.as_str().is_empty() {
            None
        } else {
            Some(key)
        },
        None => None,
    }
}

/// The verb of a request.
#[derive(Debug, Clone, Copy, PartialEq, Eq, Structural)]
pub enum Method {
    Get,
    Post,
    Put,
    Delete,
}

/// One request to the API, to be sent with the key in the `X-Api-Key` header.
#[derive(Debug)]
pub struct ApiRequest {
    pub method: Method,
    /// Below the host, starting with a slash.
    pub path: String,
    pub query: Vec<(String, String)>,
    pub body: Option<Value>,
    /// Seconds, where the blanket timeout does not fit.
    pub timeout: Option<u64>,
}

/// A request as values.
#[verifier::ext_equal]
pub struct ApiRequestModel {
    pub method: Method,
    pub path: Seq<char>,
    pub query: Seq<(Seq<char>, Seq<char>)>,
    pub body: Option<Value>,
    pub timeout: Option<u64>,
}

/// Query parameters as texts.
pub open spec fn pairs(query: Seq<(String, String)>) -> Seq<(Seq<char>, Seq<char>)> {
    query.map_values(|pair: (String, String)| (pair.0@, pair.1@))
}

impl View for ApiRequest {
    type V = ApiRequestModel;

    open spec fn view(&self) -> ApiRequestModel {
        ApiRequestModel {
            method: self.method,
            path: self.path@,
            query: pairs(self.query@),
            body: self.body,
            timeout: self.timeout,
        }
    }
}

/// The address of a path on a host.
pub fn address(host: &str, path: &str) -> (url: String)
    ensures
        url@ == host@ + path@,
{
    host.to_owned().concat(path)
}

fn get(path: &str) -> (request: ApiRequest)
    ensures
        request@ == (ApiRequestModel {
            method: Method::Get,
            path: path@,
            query: Seq::empty(),
            body: None,
            timeout: None,
        }),
{
    let request = ApiRequest {
        method: Method::Get,
        path: path.to_owned(),
        query: Vec::new(),
        body: None,
        timeout: None,
    };
    assert(request@.query =~= Seq::empty());
    request
}

/// The call that validates a key.
pub fn status_request() -> (request: ApiRequest)
    ensures
        request@ == (ApiRequestModel {
            method: Method::Get,
            path: "/api/v3/system/status"@,
            query: Seq::empty(),
            body: None,
            timeout: None,
        }),
{
    get("/api/v3/system/status")
}

/// The configured library roots, offered as add targets.
pub fn get_root_folders() -> (request: ApiRequest)
    ensures
        request@ == (ApiRequestModel {
            method: Method::Get,
            path: "/api/v3/rootfolder"@,
            query: Seq::empty(),
            body: None,
            timeout: None,
        }),
{
    get("/api/v3/rootfolder")
}

/// The quality profiles, offered as add targets.
pub fn get_quality_profiles() -> (request: ApiRequest)
    ensures
        request@ == (ApiRequestModel {
            method: Method::Get,
            path: "/api/v3/qualityprofile"@,
            query: Seq::empty(),
            body: None,
            timeout: None,
        }),
{
    get("/api/v3/qualityprofile")
}

/// Poll one command's status by id.
pub fn get_command(command_id: i64) -> (request: ApiRequest)
    ensures
        request@ == (ApiRequestModel {
            method: Method::Get,
            path: "/api/v3/command/"@ + decimal_int(command_id as int),
            query: Seq::empty(),
            body: None,
            timeout: None,
        }),
{
    let mut path = "/api/v3/command/".to_owned();
    push_int(&mut path, command_id);
    get(path.as_str())
}

/// Grab a release from the latest interactive search; the server looks the
/// release up in its cache by guid + indexer.
pub fn grab_release(guid: &str, indexer_id: i64) -> (request: ApiRequest)
    ensures
        request@ == (ApiRequestModel {
            method: Method::Post,
            path: "/api/v3/release"@,
            query: Seq::empty(),
            body: Some(
                json_with_member(
                    json_object_of("guid"@, json_text(guid@)),
                    "indexerId"@,
                    json_int(indexer_id as int),
                ),
            ),
            timeout: None,
        }),
{
    let mut body = object_of("guid", text_value(guid));
    set_member(&mut body, "indexerId", int_value(indexer_id));
    let mut request = get("/api/v3/release");
    request.method = Method::Post;
    request.body = Some(body);
    request
}

/// The word for a flag in a query.
pub open spec fn flag_text(flag: bool) -> Seq<char> {
    if flag {
        "true"@
    } else {
        "false"@
    }
}

fn flag(name: &str, on: bool) -> (pair: (String, String))
    ensures
        pair.0@ == name@,
        pair.1@ == flag_text(on),
{
    (
        name.to_owned(),
        if on {
            "true".to_owned()
        } else {
            "false".to_owned()
        },
    )
}

/// Remove queue items by id via the bulk endpoint (which also covers the
/// single-item case). `remove_from_client` deletes the partial data from the
/// download client; `blocklist` marks the release so it is not grabbed again.
pub fn delete_queue_items(ids: Vec<i64>, remove_from_client: bool, blocklist: bool) -> (request:
    ApiRequest)
    ensures
        request@ == (ApiRequestModel {
            method: Method::Delete,
            path: "/api/v3/queue/bulk"@,
            query: seq![
                ("removeFromClient"@, flag_text(remove_from_client)),
                ("blocklist"@, flag_text(blocklist)),
            ],
            body: Some(json_object_of("ids"@, json_ints(ids@))),
            timeout: None,
        }),
{
    let mut query: Vec<(String, String)> = Vec::new();
    query.push(flag("removeFromClient", remove_from_client));
    query.push(flag("blocklist", blocklist));
    let request = ApiRequest {
        method: Method::Delete,
        path: "/api/v3/queue/bulk".to_owned(),
        query,
        body: Some(object_of("ids", ints_value(ids))),
        timeout: None,
    };
    assert(request@.query =~= seq![
        ("removeFromClient"@, flag_text(remove_from_client)),
        ("blocklist"@, flag_text(blocklist)),
    ]);
    request
}

// Pagination.

/// Where following a paginated list stands.
#[derive(Debug, Clone, Copy, PartialEq, Eq, Structural)]
pub enum Paging {
    /// The page with this number, counted from 1, is to be fetched next.
    Fetch(usize),
    /// Every record is in hand.
    Complete,
    /// The page cap clipped the results.
    Clipped,
}

/// A paginated list being followed to completion.
pub struct Pages<T> {
    pub records: Vec<T>,
    pub page_size: usize,
    pub max_pages: usize,
    pub next: Paging,
}

/// Whether a page is the last: every record is in hand, or the page is short
/// (which also ends a list whose total is misreported).
pub open spec fn is_last_page(have: nat, total: int, page_len: nat, page_size: nat) -> bool {
    have >= total || page_len < page_size
}

/// What is to be done after a page.
pub open spec fn paging_after(
    page: usize,
    max_pages: usize,
    have: nat,
    total: int,
    page_len: nat,
    page_size: nat,
) -> Paging {
    if is_last_page(have, total, page_len, page_size) {
        Paging::Complete
    } else if page >= max_pages {
        Paging::Clipped
    } else {
        Paging::Fetch((page + 1) as usize)
    }
}

impl<T> Pages<T> {
    /// The page to fetch lies between the first and the cap.
    pub open spec fn wf(self) -> bool {
        self.next matches Paging::Fetch(page) ==> 1 <= page <= self.max_pages
    }

    /// The start of a list: nothing in hand, the first page next (none at all
    /// where the cap allows none).
    pub fn new(page_size: usize, max_pages: usize) -> (pages: Self)
        ensures
            pages.wf(),
            pages.records@ == Seq::<T>::empty(),
            pages.page_size == page_size,
            pages.max_pages == max_pages,
            pages.next == if max_pages == 0 {
                Paging::Clipped
            } else {
                Paging::Fetch(1)
            },
    {
        Pages {
            records: Vec::new(),
            page_size,
            max_pages,
            next: if max_pages == 0 {
                Paging::Clipped
            } else {
                Paging::Fetch(1)
            },
        }
    }

    /// A page arrived: its records follow those in hand, and the list ends or
    /// goes on. A page nobody asked for changes nothing.
    pub fn on_page(&mut self, page: Page<T>)
        requires
            old(self).wf(),
        ensures
            final(self).wf(),
            final(self).page_size == old(self).page_size,
            final(self).max_pages == old(self).max_pages,
            match old(self).next {
                Paging::Fetch(number) => {
                    &&& final(self).records@ == old(self).records@ + page.records@
                    &&& final(self).next == paging_after(
                        number,
                        old(self).max_pages,
                        final(self).records@.len(),
                        page.total_records as int,
                        page.records@.len(),
                        old(self).page_size as nat,
                    )
                },
                _ => *final(self) == *old(self),
            },
    {
        let Paging::Fetch(number) = self.next else {
            return;
        };
        let page_len: usize = page.records.len();
        let total: i64 = page.total_records;
        let mut more: Vec<T> = page.records;
        self.records.append(&mut more);
        let all_in: bool = total <= 0 || self.records.len() as u64 >= total as u64;
        self.next = if all_in || page_len < self.page_size {
            Paging::Complete
        } else if number >= self.max_pages {
            Paging::Clipped
        } else {
            Paging::Fetch(number + 1)
        };
    }
}

/// Following a list ends, whatever totals the server reports: a page is only
/// followed by the next one, and none beyond the cap is fetched.
pub proof fn law_lists_end(
    page: usize,
    max_pages: usize,
    have: nat,
    total: int,
    page_len: nat,
    page_size: nat,
)
    ensures
        paging_after(page, max_pages, have, total, page_len, page_size) matches Paging::Fetch(
            next,
        ) ==> next == page + 1 && next <= max_pages,
        page_len < page_size ==> paging_after(
            page,
            max_pages,
            have,
            total,
            page_len,
            page_size,
        ) == Paging::Complete,
{
}

/// The query of one page on top of a list's own parameters.
pub open spec fn page_query(
    number: usize,
    page_size: usize,
    own: Seq<(Seq<char>, Seq<char>)>,
) -> Seq<(Seq<char>, Seq<char>)> {
    seq![("page"@, decimal(number as nat)), ("pageSize"@, decimal(page_size as nat))] + own
}

/// The request for one page of a list.
pub fn page_request(path: &str, own: &Vec<(String, String)>, number: usize, page_size: usize) -> (
request: ApiRequest)
    ensures
        request@ == (ApiRequestModel {
            method: Method::Get,
            path: path@,
            query: page_query(number, page_size, pairs(own@)),
            body: None,
            timeout: None,
        }),
{
    let mut request = get(path);
    let mut value = String::new();
    push_decimal(&mut value, number as u64);
    assert(value@ =~= decimal(number as nat));
    request.query.push(("page".to_owned(), value));
    let mut value = String::new();
    push_decimal(&mut value, page_size as u64);
    assert(value@ =~= decimal(page_size as nat));
    request.query.push(("pageSize".to_owned(), value));
    let mut i: usize = 0;
    let ghost head = request@;
    assert(head.query =~= page_query(number, page_size, Seq::empty()));
    while i < own.len()
        invariant
            i <= own@.len(),
            request@ == (ApiRequestModel {
                query: page_query(number, page_size, pairs(own@).take(i as int)),
                ..head
            }),
        decreases own@.len() - i,
    {
        let ghost before = request.query@;
        request.query.push((own[i].0.clone(), own[i].1.clone()));
        assert(pairs(request.query@) =~= pairs(before).push(pairs(own@)[i as int]));
        assert(request@.query =~= page_query(number, page_size, pairs(own@).take(i + 1)));
        i += 1;
    }
    assert(pairs(own@).take(i as int) =~= pairs(own@));
    request
}

/// The request for one page of the download queue; callers filter on their
/// side, which sidesteps version differences in the server-side filters.
pub fn get_queue(own: &Vec<(String, String)>, number: usize) -> (request: ApiRequest)
    ensures
        request@ == (ApiRequestModel {
            method: Method::Get,
            path: "/api/v3/queue"@,
            query: page_query(number, QUEUE_PAGE_SIZE, pairs(own@)),
            body: None,
            timeout: None,
        }),
{
    page_request("/api/v3/queue", own, number, QUEUE_PAGE_SIZE)
}

/// A list is complete once all that the server counts is in hand, or a page came
/// back short; it is clipped only at the last page that may be fetched, and goes
/// on otherwise.
pub proof fn law_lists_go_on_until_all_is_in_hand(
    page: usize,
    max_pages: usize,
    have: nat,
    total: int,
    page_len: nat,
    page_size: nat,
)
    ensures
        ({
            let next = paging_after(page, max_pages, have, total, page_len, page_size);
            &&& next is Complete <==> have >= total || page_len < page_size
            &&& next is Clipped <==> have < total && page_len >= page_size && page >= max_pages
            &&& next is Fetch <==> have < total && page_len >= page_size && page < max_pages
        }),
{
}

/// A page is asked for by its number and its size, before anything else.
pub proof fn law_pages_are_asked_for_by_number(
    number: usize,
    page_size: usize,
    own: Seq<(Seq<char>, Seq<char>)>,
)
    ensures
        ({
            let query = page_query(number, page_size, own);
            &&& query.len() == own.len() + 2
            &&& query[0] == ("page"@, decimal(number as nat))
            &&& query[1] == ("pageSize"@, decimal(page_size as nat))
            &&& query.skip(2) == own
        }),
{
    assert(page_query(number, page_size, own).skip(2) =~= own);
}

} // verus!
