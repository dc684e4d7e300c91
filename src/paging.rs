use vstd::prelude::*;

use crate::error::{ErrorKind, ErrorView, ServiceError};
use crate::json::{
    array_member, check_reply, clean_reply, is_success, json_array_lengths, json_text_array_lengths,
    json_text_keys, json_text_strings, protocol_rejection, json_keys, json_object_text,
    json_string_members, string_member, JsonObject,
};
use crate::text::{decimal, decimal_of};

verus! {

/// What one page of a listing holds: its items, and the cursor of the next
/// page if the provider gave one.
pub struct PageBody {
    pub items: Vec<serde_json::Value>,
    pub next_page_token: Option<String>,
}

/// The mathematical value of a [`PageBody`].
pub struct PageView {
    pub items: Seq<serde_json::Value>,
    pub next: Option<Seq<char>>,
}

impl View for PageBody {
    type V = PageView;

    open spec fn view(&self) -> PageView {
        PageView {
            items: self.items@,
            next: match self.next_page_token {
                Some(t) => Some(t@),
                None => None,
            },
        }
    }
}

/// Whether `page` is what the decoded reply `obj` holds: as many items as its
/// `items` array (none without one), and its `nextPageToken` string.
pub open spec fn page_of(obj: JsonObject, page: PageView) -> bool {
    &&& page.items.len() == (if json_array_lengths(obj).contains_key("items"@) {
        json_array_lengths(obj)["items"@]
    } else {
        0
    })
    &&& page.next == json_string_members(obj).get("nextPageToken"@)
}

/// Whether `page` is what the reply body `text` holds, read as `page_of`
/// reads a decoded object.
pub open spec fn page_of_text(text: Seq<char>, page: PageView) -> bool {
    &&& page.items.len() == (if json_text_array_lengths(text).contains_key("items"@) {
        json_text_array_lengths(text)["items"@]
    } else {
        0
    })
    &&& page.next == json_text_strings(text).get("nextPageToken"@)
}

impl PageBody {
    /// Reads the items and the next-page cursor out of a decoded reply.
    pub fn from_object(obj: &JsonObject) -> (r: PageBody)
        ensures
            page_of(*obj, r@),
    {
        let items = match array_member(obj, "items") {
            Some(v) => v,
            None => Vec::new(),
        };
        let next_page_token = string_member(obj, "nextPageToken");
        PageBody { items, next_page_token }
    }
}

/// Where a listing stands.
pub enum FetchStatus {
    /// Another page is to be requested.
    Fetching,
    /// The listing is complete.
    Done,
    /// A request failed; nothing of the listing is returned.
    Failed(ServiceError),
}

pub enum FetchStatusView {
    Fetching,
    Done,
    Failed(ErrorView),
}

/// The mathematical value of a [`PageFetcher`].
pub struct FetchView {
    pub api_key: Seq<char>,
    pub channel_id: Seq<char>,
    pub target: nat,
    pub items: Seq<serde_json::Value>,
    pub cursor: Seq<char>,
    pub status: FetchStatusView,
}

/// A cursor-paginated listing of a channel's videos. It asks for pages one
/// after the other, each with the cursor that the previous one gave, and stops
/// once it holds more items than the target or the provider gives no cursor.
pub struct PageFetcher {
    api_key: String,
    channel_id: String,
    max_results: u32,
    items: Vec<serde_json::Value>,
    page_token: String,
    status: FetchStatus,
}

impl View for PageFetcher {
    type V = FetchView;

    closed spec fn view(&self) -> FetchView {
        FetchView {
            api_key: self.api_key@,
            channel_id: self.channel_id@,
            target: self.max_results as nat,
            items: self.items@,
            cursor: self.page_token@,
            status: match self.status {
                FetchStatus::Fetching => FetchStatusView::Fetching,
                FetchStatus::Done => FetchStatusView::Done,
                FetchStatus::Failed(e) => FetchStatusView::Failed(e@),
            },
        }
    }
}

/// The listing state before any page: no items, the empty cursor.
pub open spec fn fetch_start(api_key: Seq<char>, channel_id: Seq<char>, target: nat) -> FetchView {
    FetchView {
        api_key,
        channel_id,
        target,
        items: Seq::empty(),
        cursor: Seq::empty(),
        status: FetchStatusView::Fetching,
    }
}

/// The state after a page is received: its items are appended; the listing
/// goes on only with a new cursor and while it holds no more than the target.
/// A finished listing is left as it is.
pub open spec fn after_page(v: FetchView, page: PageView) -> FetchView {
    if !(v.status is Fetching) {
        v
    } else {
        let items = v.items + page.items;
        match page.next {
            Some(t) => FetchView {
                items,
                cursor: t,
                status: if items.len() > v.target {
                    FetchStatusView::Done
                } else {
                    FetchStatusView::Fetching
                },
                ..v
            },
            None => FetchView { items, status: FetchStatusView::Done, ..v },
        }
    }
}

/// The state after a request failed: the listing fails, unless it was over.
pub open spec fn after_failure(v: FetchView, e: ErrorView) -> FetchView {
    if !(v.status is Fetching) {
        v
    } else {
        FetchView { status: FetchStatusView::Failed(e), ..v }
    }
}

/// A listing that goes on holds no more than the target.
pub open spec fn under_target(v: FetchView) -> bool {
    v.status is Fetching ==> v.items.len() <= v.target
}

/// What a finished listing returns: all items, or the error alone.
pub open spec fn fetch_outcome(v: FetchView) -> Result<Seq<serde_json::Value>, ErrorView> {
    match v.status {
        FetchStatusView::Failed(e) => Err(e),
        _ => Ok(v.items),
    }
}

/// The search request for one page.
pub open spec fn search_url(api_key: Seq<char>, channel_id: Seq<char>, max_results: nat, cursor: Seq<char>) -> Seq<char> {
    "https://www.googleapis.com/youtube/v3/search?key="@ + api_key + "&channelId="@ + channel_id
        + "&part=snippet,id&order=date&maxResults="@ + decimal_of(max_results)
        + "&type=video&pageToken="@ + cursor
}

impl PageFetcher {
    /// Starts a listing of `channel_id` that aims at more than `max_results`
    /// items, with pages of `max_results`.
    pub fn new(api_key: &str, channel_id: &str, max_results: u32) -> (r: PageFetcher)
        ensures
            r@ == fetch_start(api_key@, channel_id@, max_results as nat),
            under_target(r@),
    {
        PageFetcher {
            api_key: String::from_str(api_key),
            channel_id: String::from_str(channel_id),
            max_results,
            items: Vec::new(),
            page_token: String::new(),
            status: FetchStatus::Fetching,
        }
    }

    /// Whether the listing is over, by success or by failure.
    pub fn is_finished(&self) -> (r: bool)
        ensures
            r == !(self@.status is Fetching),
    {
        match self.status {
            FetchStatus::Fetching => false,
            _ => true,
        }
    }

    /// The URL of the next page to request, while the listing goes on.
    pub fn next_request(&self) -> (r: Option<String>)
        ensures
            r is Some <==> self@.status is Fetching,
            r matches Some(u) ==> u@ == search_url(
                self@.api_key,
                self@.channel_id,
                self@.target,
                self@.cursor,
            ),
    {
        match self.status {
            FetchStatus::Fetching => {},
            _ => {
                return None;
            },
        }
        let mut u = String::from_str("https://www.googleapis.com/youtube/v3/search?key=");
        u.append(self.api_key.as_str());
        u.append("&channelId=");
        u.append(self.channel_id.as_str());
        u.append("&part=snippet,id&order=date&maxResults=");
        let n = decimal(self.max_results);
        u.append(n.as_str());
        u.append("&type=video&pageToken=");
        u.append(self.page_token.as_str());
        Some(u)
    }

    /// Takes in a received page.
    pub fn handle_page(&mut self, page: PageBody)
        ensures
            final(self)@ == after_page(old(self)@, page@),
            under_target(final(self)@),
    {
        match self.status {
            FetchStatus::Fetching => {},
            _ => {
                return;
            },
        }
        let mut items = page.items;
        self.items.append(&mut items);
        match page.next_page_token {
            Some(t) => {
                self.page_token = t;
                if self.items.len() > self.max_results as usize {
                    self.status = FetchStatus::Done;
                }
            },
            None => {
                self.status = FetchStatus::Done;
            },
        }
    }

    /// Takes in a failed request.
    pub fn handle_failure(&mut self, e: ServiceError)
        ensures
            final(self)@ == after_failure(old(self)@, e@),
            under_target(final(self)@),
    {
        match self.status {
            FetchStatus::Fetching => {
                self.status = FetchStatus::Failed(e);
            },
            _ => {},
        }
    }

    /// Takes in the reply to the last request: its status and its body. A
    /// failing status, a body that is not a JSON object, or a body with an
    /// `error` member fails the listing; any other reply is a page.
    pub fn receive(&mut self, status: u16, body: &String)
        ensures
            clean_reply(status, body@) ==> exists|p: PageView|
                page_of_text(body@, p) && #[trigger] after_page(old(self)@, p) == final(self)@,
            !is_success(status) || (json_object_text(body@) && json_text_keys(body@).contains(
                "error"@,
            )) ==> final(self)@ == after_failure(old(self)@, protocol_rejection(status, body@)),
            is_success(status) && !json_object_text(body@) ==> exists|m: Seq<char>|
                final(self)@ == #[trigger] after_failure(old(self)@, ErrorView::MalformedJson(m)),
            under_target(final(self)@),
    {
        let ghost before = self@;
        match check_reply(status, body) {
            Ok(obj) => {
                let page = PageBody::from_object(&obj);
                let ghost p = page@;
                self.handle_page(page);
                assert(page_of_text(body@, p) && after_page(before, p) == self@);
            },
            Err(e) => {
                let ghost ev = e@;
                self.handle_failure(e);
                proof {
                    if is_success(status) && !json_object_text(body@) {
                        let m = ev->MalformedJson_0;
                        assert(self@ == after_failure(before, ErrorView::MalformedJson(m)));
                    }
                }
            },
        }
    }

    /// What the listing came to: every item received, or the error alone.
    pub fn finish(self) -> (r: Result<Vec<serde_json::Value>, ServiceError>)
        requires
            !(self@.status is Fetching),
        ensures
            match fetch_outcome(self@) {
                Ok(items) => r matches Ok(v) && v@ == items,
                Err(e) => r matches Err(x) && x@ == e,
            },
    {
        match self.status {
            FetchStatus::Failed(e) => Err(e),
            _ => Ok(self.items),
        }
    }
}

/// The state after the given pages are received in order.
pub open spec fn run_pages(v: FetchView, pages: Seq<PageView>) -> FetchView
    decreases pages.len(),
{
    if pages.len() == 0 {
        v
    } else {
        after_page(run_pages(v, pages.drop_last()), pages.last())
    }
}

/// A listing that is over stays as it is, whatever pages come after.
pub proof fn lemma_finished_listing_is_final(v: FetchView, pages: Seq<PageView>)
    requires
        !(v.status is Fetching),
    ensures
        run_pages(v, pages) == v,
    decreases pages.len(),
{
    if pages.len() > 0 {
        lemma_finished_listing_is_final(v, pages.drop_last());
    }
}

/// Once the provider omits the next-page cursor the listing is over: no
/// further page is requested, and pages after that one change nothing.
pub proof fn lemma_no_request_after_missing_cursor(v: FetchView, pages: Seq<PageView>, i: int)
    requires
        0 <= i < pages.len(),
        pages[i].next is None,
    ensures
        !(run_pages(v, pages.take(i + 1)).status is Fetching),
        run_pages(v, pages) == run_pages(v, pages.take(i + 1)),
    decreases pages.len(),
{
    let pre = pages.take(i + 1);
    assert(pre.drop_last() == pages.take(i));
    assert(pre.last() == pages[i]);
    if pages.len() == i + 1 {
        assert(pages == pre);
    } else {
        lemma_no_request_after_missing_cursor(v, pages.drop_last(), i);
        assert(pages.drop_last().take(i + 1) == pre);
    }
}

/// The bounds that every listing state keeps: while it goes on it holds no
/// more than the target; once complete, no more than one page beyond it.
pub open spec fn within_bounds(v: FetchView, page_size: nat) -> bool {
    &&& v.status is Fetching ==> v.items.len() <= v.target
    &&& v.status is Done ==> v.items.len() <= v.target + page_size
}

proof fn lemma_run_keeps_bounds(v: FetchView, pages: Seq<PageView>, page_size: nat)
    requires
        v.status is Fetching,
        v.items.len() <= v.target,
        forall|i: int| 0 <= i < pages.len() ==> pages[i].items.len() <= page_size,
    ensures
        within_bounds(run_pages(v, pages), page_size),
        run_pages(v, pages).target == v.target,
        (forall|i: int| 0 <= i < pages.len() ==> pages[i].next is Some) && run_pages(
            v,
            pages,
        ).status is Done ==> run_pages(v, pages).items.len() > v.target,
        !(run_pages(v, pages).status is Failed),
    decreases pages.len(),
{
    if pages.len() > 0 {
        let rest = pages.drop_last();
        assert forall|i: int| 0 <= i < rest.len() implies rest[i].items.len() <= page_size by {
            assert(rest[i] == pages[i]);
        }
        lemma_run_keeps_bounds(v, rest, page_size);
        if forall|i: int| 0 <= i < pages.len() ==> pages[i].next is Some {
            assert forall|i: int| 0 <= i < rest.len() implies rest[i].next is Some by {
                assert(rest[i] == pages[i]);
            }
            assert(pages.last().next is Some);
        }
        assert(pages.last() == pages[pages.len() - 1]);
    }
}

/// A listing that starts from nothing and completes, where no page holds more
/// than `page_size` items, holds at most one page beyond the target; and when
/// the provider never omits the cursor it holds more than the target, so more
/// than the target less one page.
pub proof fn lemma_listing_length(
    api_key: Seq<char>,
    channel_id: Seq<char>,
    target: nat,
    pages: Seq<PageView>,
    page_size: nat,
)
    requires
        forall|i: int| 0 <= i < pages.len() ==> pages[i].items.len() <= page_size,
    ensures
        ({
            let w = run_pages(fetch_start(api_key, channel_id, target), pages);
            &&& w.status is Done ==> w.items.len() <= target + page_size
            &&& w.status is Done && (forall|i: int| 0 <= i < pages.len() ==> pages[i].next is Some)
                ==> target - page_size < w.items.len() && target < w.items.len()
        }),
{
    lemma_run_keeps_bounds(fetch_start(api_key, channel_id, target), pages, page_size);
}

/// A reply with a failing status, or whose body decodes to an object with an
/// `error` member, fails the listing with a protocol error: whatever pages
/// came before, the listing then returns that error and no items, and later
/// pages change nothing.
pub proof fn lemma_rejected_reply_fails_listing(
    v: FetchView,
    status: u16,
    body: Seq<char>,
    later: Seq<PageView>,
)
    requires
        v.status is Fetching,
        !is_success(status) || (json_object_text(body) && json_text_keys(body).contains("error"@)),
    ensures
        protocol_rejection(status, body).kind() == ErrorKind::Protocol,
        ({
            let e = protocol_rejection(status, body);
            let w = after_failure(v, e);
            &&& fetch_outcome(w) == Err::<Seq<serde_json::Value>, ErrorView>(e)
            &&& run_pages(w, later) == w
        }),
{
    lemma_finished_listing_is_final(after_failure(v, protocol_rejection(status, body)), later);
}

proof fn lemma_run_under_target(v: FetchView, pages: Seq<PageView>)
    requires
        v.status is Fetching,
        v.items.len() <= v.target,
    ensures
        under_target(run_pages(v, pages)),
        !(run_pages(v, pages).status is Failed),
        run_pages(v, pages).target == v.target,
    decreases pages.len(),
{
    if pages.len() > 0 {
        lemma_run_under_target(v, pages.drop_last());
    }
}

/// A listing that starts from nothing and completes ends on its `n`-th page,
/// the last one requested. Before that request it held no more than the
/// target; that page brought it to its final length; and where that page
/// still gave a cursor, the listing holds more than the target and at most
/// that page beyond it.
pub proof fn lemma_last_page_overshoot(
    api_key: Seq<char>,
    channel_id: Seq<char>,
    target: nat,
    pages: Seq<PageView>,
) -> (n: int)
    requires
        run_pages(fetch_start(api_key, channel_id, target), pages).status is Done,
    ensures
        0 < n <= pages.len(),
        ({
            let start = fetch_start(api_key, channel_id, target);
            let before = run_pages(start, pages.take(n - 1));
            let w = run_pages(start, pages);
            &&& before.status is Fetching
            &&& before.items.len() <= target
            &&& run_pages(start, pages.take(n)) == w
            &&& w.items.len() == before.items.len() + pages[n - 1].items.len()
            &&& pages[n - 1].next is Some ==> target < w.items.len() <= target
                + pages[n - 1].items.len()
        }),
    decreases pages.len(),
{
    let start = fetch_start(api_key, channel_id, target);
    let rest = pages.drop_last();
    lemma_run_under_target(start, rest);
    if run_pages(start, rest).status is Done {
        let n = lemma_last_page_overshoot(api_key, channel_id, target, rest);
        assert(rest.take(n - 1) == pages.take(n - 1));
        assert(rest.take(n) == pages.take(n));
        n
    } else {
        let n = pages.len() as int;
        assert(pages.take(n - 1) == rest);
        assert(pages.take(n) == pages);
        assert(pages[n - 1] == pages.last());
        n
    }
}

} // verus!
