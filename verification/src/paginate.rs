//! Reading a whole collection page by page.

use crate::batch::{chunk_count, lemma_chunk_bounds};
use crate::http::{
    bearer_header, bearer_value, is_success, status_is_success, HttpStatusError, Reply,
};
use crate::objects::{PageView, PagingObject};
use vstd::prelude::*;

verus! {

/// Why a fetch produced no items.
#[derive(Clone, Copy, Debug, PartialEq, Eq, Structural)]
pub enum FetchError {
    /// A page request got no response.
    Transport,
    /// The service answered a page request with a status outside 2xx.
    Status(HttpStatusError),
    /// A 2xx answer was not a page, or it confirmed a limit of zero while
    /// items remained, so that no further request could make progress.
    MalformedPageResponse,
}

/// One page request: a GET of `url` with the query parameters `offset` and
/// `limit`, and `authorization` as the `Authorization` header.
#[derive(Clone, Debug, PartialEq, Eq)]
pub struct PageRequest {
    pub url: String,
    pub authorization: String,
    pub offset: usize,
    pub limit: u8,
}

/// What a fetch in progress amounts to.
pub ghost struct FetchView<T> {
    /// The address of the collection.
    pub url: Seq<char>,
    /// The `Authorization` header value sent with every request.
    pub authorization: Seq<char>,
    /// The page size that the caller asked for.
    pub page_size: nat,
    /// The limit and the total that the first page reported, once it came.
    pub confirmed: Option<(nat, nat)>,
    /// The offset of the request in flight.
    pub offset: nat,
    /// The items of the pages received so far, in order.
    pub items: Seq<T>,
}

impl<T> FetchView<T> {
    /// The limit of the request in flight: the caller's page size for the
    /// first request, the limit that the service confirmed for the others.
    pub open spec fn limit(self) -> nat {
        match self.confirmed {
            Some((limit, _)) => limit,
            None => self.page_size,
        }
    }

    /// The state in which a fetch starts: nothing received, the first
    /// request at offset zero in flight.
    pub open spec fn initial(url: Seq<char>, authorization: Seq<char>, page_size: nat) -> Self {
        FetchView { url, authorization, page_size, confirmed: None, offset: 0, items: Seq::empty() }
    }

    /// What follows when `page` answers the request in flight. The limit and
    /// total of the first page govern the whole fetch. The page's items are
    /// appended, the offset advances by the governing limit, and the fetch
    /// is finished once the offset has reached the total. A governing limit
    /// of zero that leaves items unread fails the fetch: no further request
    /// could advance.
    pub open spec fn accept(self, page: PageView<T>) -> FetchOutcome<T> {
        let (limit, total) = match self.confirmed {
            Some(c) => c,
            None => (page.limit, page.total),
        };
        let items = self.items + page.items;
        if self.offset + limit >= total {
            FetchOutcome::Finished(items)
        } else if limit == 0 {
            FetchOutcome::Failed(FetchError::MalformedPageResponse)
        } else {
            FetchOutcome::Request(
                FetchView {
                    confirmed: Some((limit, total)),
                    offset: self.offset + limit,
                    items,
                    ..self
                },
            )
        }
    }

    /// What follows when `reply` is what the caller observed.
    pub open spec fn receive(self, reply: Reply<PagingObject<T>>) -> FetchOutcome<T> {
        match reply {
            Reply::Unreachable => FetchOutcome::Failed(FetchError::Transport),
            Reply::Answered { status, body } => if !is_success(status) {
                FetchOutcome::Failed(FetchError::Status(HttpStatusError { status }))
            } else {
                match body {
                    Some(page) => self.accept(page@),
                    None => FetchOutcome::Failed(FetchError::MalformedPageResponse),
                }
            },
        }
    }
}

/// What a step of a fetch amounts to.
pub ghost enum FetchOutcome<T> {
    /// Another request is in flight.
    Request(FetchView<T>),
    /// The collection was read; these are its items.
    Finished(Seq<T>),
    /// The fetch was given up; what had been received is discarded.
    Failed(FetchError),
}

/// A fetch in progress. It exists only while a request is waiting to be
/// sent or answered.
#[derive(Debug)]
pub struct Paginator<T> {
    url: String,
    authorization: String,
    page_size: u8,
    confirmed: Option<(u8, usize)>,
    offset: usize,
    items: Vec<T>,
}

/// What to do next in a fetch.
#[derive(Debug)]
pub enum FetchStep<T> {
    /// Send the paginator's pending request and report the reply to it.
    Request(Paginator<T>),
    /// The collection was read; these are its items, in the order in which
    /// the service sent them.
    Finished(Vec<T>),
    /// The fetch was given up.
    Failed(FetchError),
}

impl<T> View for Paginator<T> {
    type V = FetchView<T>;

    closed spec fn view(&self) -> FetchView<T> {
        FetchView {
            url: self.url@,
            authorization: self.authorization@,
            page_size: self.page_size as nat,
            confirmed: match self.confirmed {
                Some((limit, total)) => Some((limit as nat, total as nat)),
                None => None,
            },
            offset: self.offset as nat,
            items: self.items@,
        }
    }
}

impl<T> FetchStep<T> {
    /// Whether this step is `outcome`.
    pub open spec fn is_outcome(self, outcome: FetchOutcome<T>) -> bool {
        match outcome {
            FetchOutcome::Request(next) => self matches FetchStep::Request(p) && p@ == next,
            FetchOutcome::Finished(items) => self matches FetchStep::Finished(v) && v@ == items,
            FetchOutcome::Failed(e) => self matches FetchStep::Failed(f) && f == e,
        }
    }
}

impl<T> Paginator<T> {
    #[verifier::type_invariant]
    spec fn valid(self) -> bool {
        match self.confirmed {
            Some((limit, total)) => limit > 0 && self.offset < total,
            None => self.offset == 0,
        }
    }

    /// Starts reading the collection at `url` in pages of `page_size`,
    /// presenting `token` as the bearer credential. One request is always
    /// made, also for a collection that turns out to be empty.
    pub fn start(url: &str, token: &str, page_size: u8) -> (p: Paginator<T>)
        ensures
            p@ == FetchView::<T>::initial(url@, bearer_value(token@), page_size as nat),
    {
        Paginator {
            url: String::from_str(url),
            authorization: bearer_header(token),
            page_size,
            confirmed: None,
            offset: 0,
            items: Vec::new(),
        }
    }

    /// The request to send now.
    pub fn pending(&self) -> (request: PageRequest)
        ensures
            request.url@ == self@.url,
            request.authorization@ == self@.authorization,
            request.offset == self@.offset,
            request.limit == self@.limit(),
    {
        let limit = match self.confirmed {
            Some((limit, _)) => limit,
            None => self.page_size,
        };
        PageRequest {
            url: self.url.clone(),
            authorization: self.authorization.clone(),
            offset: self.offset,
            limit,
        }
    }

    /// Takes the reply to the pending request. Any failure gives the whole
    /// fetch up and drops what was received before it.
    pub fn advance(self, reply: Reply<PagingObject<T>>) -> (step: FetchStep<T>)
        ensures
            step.is_outcome(self@.receive(reply)),
    {
        proof {
            use_type_invariant(&self);
        }
        match reply {
            Reply::Unreachable => FetchStep::Failed(FetchError::Transport),
            Reply::Answered { status, body } => {
                if !status_is_success(status) {
                    return FetchStep::Failed(FetchError::Status(HttpStatusError { status }));
                }
                match body {
                    None => FetchStep::Failed(FetchError::MalformedPageResponse),
                    Some(page) => {
                        let (limit, total) = match self.confirmed {
                            Some(c) => c,
                            None => (page.limit, page.total),
                        };
                        let ghost before = self@;
                        let ghost received = page@;
                        let mut items = self.items;
                        let mut fresh = page.items;
                        items.append(&mut fresh);
                        if self.offset >= total || total - self.offset <= limit as usize {
                            FetchStep::Finished(items)
                        } else if limit == 0 {
                            FetchStep::Failed(FetchError::MalformedPageResponse)
                        } else {
                            let next = Paginator {
                                url: self.url,
                                authorization: self.authorization,
                                page_size: self.page_size,
                                confirmed: Some((limit, total)),
                                offset: self.offset + limit as usize,
                                items,
                            };
                            assert(next@ == before.accept(received)->Request_0);
                            FetchStep::Request(next)
                        }
                    },
                }
            },
        }
    }
}

/// The page that a service answers with when it holds the collection `all`,
/// lowers every limit above `cap` to `cap`, and hands out the items from
/// the offset on, up to the limit.
pub open spec fn served_page<T>(all: Seq<T>, cap: nat, offset: nat, limit: nat) -> PageView<T> {
    let granted = if limit <= cap {
        limit
    } else {
        cap
    };
    let from = if offset <= all.len() {
        offset
    } else {
        all.len()
    };
    let to = if offset + granted <= all.len() {
        offset + granted
    } else {
        all.len()
    };
    PageView { items: all.subrange(from as int, to as int), limit: granted, total: all.len() }
}

/// How far the request in flight is from the end of the collection.
pub open spec fn distance<T>(p: FetchView<T>, len: nat) -> int {
    match p.confirmed {
        Some((_, total)) => total - p.offset,
        None => len - p.offset,
    }
}

/// The course of a fetch from the state `p` on against such a service: how
/// it ends, and the requests made on the way, each as its offset and limit.
pub open spec fn fetch_against<T>(all: Seq<T>, cap: nat, p: FetchView<T>) -> (
    FetchOutcome<T>,
    Seq<(nat, nat)>,
)
    decreases distance(p, all.len()),
{
    let request = (p.offset, p.limit());
    match p.accept(served_page(all, cap, p.offset, p.limit())) {
        FetchOutcome::Request(next) => {
            let (end, later) = fetch_against(all, cap, next);
            (end, seq![request] + later)
        },
        end => (end, seq![request]),
    }
}

/// From a state reached after `k` pages of a governing limit, the fetch
/// reads the rest of the collection with requests at the multiples of that
/// limit.
proof fn lemma_fetch_rest<T>(all: Seq<T>, cap: nat, p: FetchView<T>, limit: nat, k: nat)
    requires
        0 < limit <= cap,
        p.confirmed == Some((limit, all.len())),
        p.offset == k * limit,
        p.offset < all.len(),
        p.items == all.take(p.offset as int),
    ensures
        fetch_against(all, cap, p).0 == FetchOutcome::Finished(all),
        fetch_against(all, cap, p).1.len() == chunk_count(all.len(), limit) - k,
        forall|j: int|
            0 <= j < fetch_against(all, cap, p).1.len() ==> #[trigger] fetch_against(
                all,
                cap,
                p,
            ).1[j] == (((k + j) * limit) as nat, limit),
    decreases all.len() - p.offset,
{
    let page = served_page(all, cap, p.offset, limit);
    lemma_chunk_bounds(all.len(), limit, k);
    lemma_chunk_bounds(all.len(), limit, k + 1);
    if p.offset + limit >= all.len() {
        assert(p.items + page.items =~= all);
    } else {
        let next = p.accept(page)->Request_0;
        assert(next.items =~= all.take(next.offset as int));
        lemma_fetch_rest(all, cap, next, limit, k + 1);
        let later = fetch_against(all, cap, next).1;
        let requests = fetch_against(all, cap, p).1;
        assert(requests == seq![(p.offset, limit)] + later);
        assert forall|j: int| 0 <= j < requests.len() implies #[trigger] requests[j] == ((
            (k + j) * limit) as nat, limit) by {
            if j > 0 {
                assert(requests[j] == later[j - 1]);
                assert((k + 1 + (j - 1)) * limit == (k + j) * limit);
            }
        }
    }
}

/// Against a service that holds `all` and caps limits at `cap`, a fetch with
/// any page size returns exactly `all`, in order: as many items as the
/// collection's total, the pages joined as they came. The first request is
/// made at offset zero with the caller's page size, also when the
/// collection is empty. Every later request uses the limit that the first
/// page confirmed, as its limit and as the step between offsets, whatever
/// page size was asked for.
pub proof fn lemma_fetch_returns_collection<T>(
    all: Seq<T>,
    cap: nat,
    url: Seq<char>,
    authorization: Seq<char>,
    page_size: nat,
)
    requires
        cap > 0,
        page_size > 0,
    ensures
        ({
            let limit = if page_size <= cap {
                page_size
            } else {
                cap
            };
            let (end, requests) = fetch_against(
                all,
                cap,
                FetchView::initial(url, authorization, page_size),
            );
            &&& end == FetchOutcome::Finished(all)
            &&& requests.len() == if all.len() == 0 {
                1
            } else {
                chunk_count(all.len(), limit)
            }
            &&& requests[0] == (0nat, page_size)
            &&& forall|j: int|
                1 <= j < requests.len() ==> #[trigger] requests[j] == ((j * limit) as nat, limit)
        }),
{
    let limit = if page_size <= cap {
        page_size
    } else {
        cap
    };
    let p = FetchView::<T>::initial(url, authorization, page_size);
    let page = served_page(all, cap, 0, page_size);
    lemma_chunk_bounds(all.len(), limit, 0);
    lemma_chunk_bounds(all.len(), limit, 1);
    assert(0 * limit == 0 && 1 * limit == limit) by (nonlinear_arith);
    if limit >= all.len() {
        assert(p.items + page.items =~= all);
    } else {
        let next = p.accept(page)->Request_0;
        assert(next.items =~= all.take(next.offset as int));
        lemma_fetch_rest(all, cap, next, limit, 1);
        let later = fetch_against(all, cap, next).1;
        let requests = fetch_against(all, cap, p).1;
        assert(requests == seq![(0nat, page_size)] + later);
        assert forall|j: int| 1 <= j < requests.len() implies #[trigger] requests[j] == ((j
            * limit) as nat, limit) by {
            assert(requests[j] == later[j - 1]);
            assert((1 + (j - 1)) * limit == j * limit);
        }
    }
}

} // verus!
