//! Writing an ordered list of identifiers in bounded chunks: the splitting,
//! and the sequence of requests with its stop on the first failure.

use crate::http::{
    bearer_header, bearer_value, is_success, status_is_success, HttpStatusError, Reply,
};
use vstd::prelude::*;

verus! {

/// Why a chunked write stopped before every chunk was written.
#[derive(Clone, Copy, Debug, PartialEq, Eq, Structural)]
pub enum WriteError {
    /// The chunk size was zero, so the identifiers cannot be split.
    ZeroChunkSize,
    /// A request got no response.
    Transport,
    /// The service answered a request with a status outside 2xx.
    Status(HttpStatusError),
}

/// One write request: the identifiers of one chunk, to be posted as a JSON
/// array to `url` with `authorization` as the `Authorization` header.
#[derive(Clone, Debug, PartialEq, Eq)]
pub struct WriteRequest {
    pub url: String,
    pub authorization: String,
    pub ids: Vec<String>,
}

/// A chunked write in progress. It exists only while a chunk is waiting to
/// be sent or answered: the chunks before `sent()` were written, and chunk
/// number `sent()` is the one in flight.
#[derive(Debug)]
pub struct BatchWriter {
    url: String,
    authorization: String,
    ids: Vec<String>,
    chunk_size: usize,
    sent: usize,
    start: usize,
}

/// What to do next in a chunked write.
#[derive(Debug)]
pub enum WriteStep {
    /// Send the writer's pending request and report the reply to it.
    Send(BatchWriter),
    /// Every chunk was written; nothing more is sent.
    Finished,
    /// The write stopped; no further chunk is sent.
    Failed(WriteError),
}

/// How many chunks of at most `size` items a sequence of `n` items needs:
/// `n / size`, rounded up.
pub open spec fn chunk_count(n: nat, size: nat) -> nat
    recommends
        size > 0,
{
    ((n + size - 1) / (size as int)) as nat
}

/// Where chunk number `k` starts in a sequence of `n` items.
pub open spec fn chunk_start(n: nat, size: nat, k: nat) -> nat {
    if k * size <= n {
        k * size
    } else {
        n
    }
}

/// Chunk number `k` of `ids`: the items from `k * size` up to, but not
/// including, `(k + 1) * size`, cut off at the end of the sequence.
pub open spec fn chunk_at<T>(ids: Seq<T>, size: nat, k: nat) -> Seq<T> {
    ids.subrange(
        chunk_start(ids.len(), size, k) as int,
        chunk_start(ids.len(), size, k + 1) as int,
    )
}

/// The chunks of `ids`, in order.
pub open spec fn chunks_of<T>(ids: Seq<T>, size: nat) -> Seq<Seq<T>> {
    Seq::new(chunk_count(ids.len(), size), |k: int| chunk_at(ids, size, k as nat))
}

/// The views of a list of chunks.
pub open spec fn chunk_views<T>(chunks: Seq<Vec<T>>) -> Seq<Seq<T>> {
    Seq::new(chunks.len(), |k: int| chunks[k]@)
}

/// What a step of a write amounts to.
pub ghost enum WriteOutcome {
    /// The chunk of this number is sent next.
    Send(nat),
    /// Every chunk was written.
    Finished,
    /// The write stopped with the chunks from the one in flight on unsent
    /// or unconfirmed.
    Failed(WriteError),
}

/// The step that a writer takes on `reply` when it has written `sent` of
/// `count` chunks and the next one is in flight: stop on the first failure,
/// go on to the next chunk after a success, finish after the last.
pub open spec fn write_outcome(sent: nat, count: nat, reply: Reply<()>) -> WriteOutcome {
    match reply {
        Reply::Unreachable => WriteOutcome::Failed(WriteError::Transport),
        Reply::Answered { status, .. } => if !is_success(status) {
            WriteOutcome::Failed(WriteError::Status(HttpStatusError { status }))
        } else if sent + 1 < count {
            WriteOutcome::Send((sent + 1) as nat)
        } else {
            WriteOutcome::Finished
        },
    }
}

/// Copies the items of `ids` from index `from` up to, but not including,
/// index `to`.
fn copy_range(ids: &Vec<String>, from: usize, to: usize) -> (copy: Vec<String>)
    requires
        from <= to <= ids@.len(),
    ensures
        copy@ == ids@.subrange(from as int, to as int),
{
    let mut copy: Vec<String> = Vec::new();
    let mut i: usize = from;
    while i < to
        invariant
            from <= i <= to <= ids@.len(),
            copy@ == ids@.subrange(from as int, i as int),
        decreases to - i,
    {
        copy.push(ids[i].clone());
        i += 1;
        assert(copy@ =~= ids@.subrange(from as int, i as int));
    }
    copy
}

impl BatchWriter {
    #[verifier::type_invariant]
    spec fn valid(self) -> bool {
        &&& self.chunk_size > 0
        &&& self.start == self.sent * self.chunk_size
        &&& self.start < self.ids@.len()
    }

    /// The address that every chunk is posted to.
    pub closed spec fn url(self) -> Seq<char> {
        self.url@
    }

    /// The `Authorization` header value sent with every chunk.
    pub closed spec fn authorization(self) -> Seq<char> {
        self.authorization@
    }

    /// All the identifiers to write, in order.
    pub closed spec fn ids(self) -> Seq<String> {
        self.ids@
    }

    /// The largest number of identifiers in one request.
    pub closed spec fn chunk_size(self) -> nat {
        self.chunk_size as nat
    }

    /// How many chunks were written so far.
    pub closed spec fn sent(self) -> nat {
        self.sent as nat
    }

    /// How many chunks the write consists of.
    pub open spec fn count(self) -> nat {
        chunk_count(self.ids().len(), self.chunk_size())
    }

    /// Whether `step` is the step `outcome`, taken by a writer over the
    /// same address, credential, identifiers and chunk size as `self`.
    pub open spec fn leads_to(self, step: WriteStep, outcome: WriteOutcome) -> bool {
        match outcome {
            WriteOutcome::Send(k) => step matches WriteStep::Send(w) && w.url() == self.url()
                && w.authorization() == self.authorization() && w.ids() == self.ids()
                && w.chunk_size() == self.chunk_size() && w.sent() == k && k < w.count(),
            WriteOutcome::Finished => step is Finished,
            WriteOutcome::Failed(e) => step == WriteStep::Failed(e),
        }
    }

    /// Starts writing `ids` to `url` in chunks of at most `chunk_size`,
    /// presenting `token` as the bearer credential. Nothing is sent for an
    /// empty list; a zero chunk size is refused.
    pub fn start(url: &str, token: &str, ids: &Vec<String>, chunk_size: usize) -> (step: WriteStep)
        ensures
            chunk_size == 0 ==> step == WriteStep::Failed(WriteError::ZeroChunkSize),
            chunk_size > 0 && ids@.len() == 0 ==> step is Finished,
            chunk_size > 0 && ids@.len() > 0 ==> (step matches WriteStep::Send(w) && w.url() == url@
                && w.authorization() == bearer_value(token@) && w.ids() == ids@ && w.chunk_size()
                == chunk_size && w.sent() == 0 && 0 < w.count()),
    {
        if chunk_size == 0 {
            return WriteStep::Failed(WriteError::ZeroChunkSize);
        }
        if ids.len() == 0 {
            return WriteStep::Finished;
        }
        proof {
            lemma_chunk_bounds(ids@.len(), chunk_size as nat, 0);
            assert(0 * chunk_size == 0) by (nonlinear_arith);
        }
        let all = copy_range(ids, 0, ids.len());
        assert(all@ =~= ids@);
        WriteStep::Send(
            BatchWriter {
                url: String::from_str(url),
                authorization: bearer_header(token),
                ids: all,
                chunk_size,
                sent: 0,
                start: 0,
            },
        )
    }

    /// The request to send now: chunk number `sent()`.
    pub fn pending(&self) -> (request: WriteRequest)
        ensures
            request.url@ == self.url(),
            request.authorization@ == self.authorization(),
            request.ids@ == chunk_at(self.ids(), self.chunk_size(), self.sent()),
            1 <= request.ids@.len() <= self.chunk_size(),
    {
        proof {
            use_type_invariant(self);
            lemma_chunk_bounds(self.ids@.len(), self.chunk_size as nat, self.sent as nat);
        }
        let n = self.ids.len();
        let end: usize = if n - self.start > self.chunk_size {
            self.start + self.chunk_size
        } else {
            n
        };
        WriteRequest {
            url: self.url.clone(),
            authorization: self.authorization.clone(),
            ids: copy_range(&self.ids, self.start, end),
        }
    }

    /// Takes the reply to the pending request. A missing response or a
    /// status outside 2xx stops the write at once, with the chunks after
    /// this one unsent; a success moves on to the next chunk, or finishes
    /// after the last.
    pub fn advance(self, reply: Reply<()>) -> (step: WriteStep)
        ensures
            self.leads_to(step, write_outcome(self.sent(), self.count(), reply)),
    {
        proof {
            use_type_invariant(&self);
            lemma_chunk_bounds(self.ids@.len(), self.chunk_size as nat, self.sent as nat);
            lemma_chunk_bounds(self.ids@.len(), self.chunk_size as nat, (self.sent + 1) as nat);
            assert(self.sent <= self.sent * self.chunk_size) by (nonlinear_arith)
                requires
                    self.chunk_size > 0,
            ;
        }
        match reply {
            Reply::Unreachable => WriteStep::Failed(WriteError::Transport),
            Reply::Answered { status, body: _ } => {
                if !status_is_success(status) {
                    WriteStep::Failed(WriteError::Status(HttpStatusError { status }))
                } else if self.ids.len() - self.start > self.chunk_size {
                    let next = BatchWriter {
                        url: self.url,
                        authorization: self.authorization,
                        ids: self.ids,
                        chunk_size: self.chunk_size,
                        sent: self.sent + 1,
                        start: self.start + self.chunk_size,
                    };
                    WriteStep::Send(next)
                } else {
                    WriteStep::Finished
                }
            },
        }
    }
}

/// Splits `ids` into consecutive chunks of at most `chunk_size` items,
/// keeping their order. Returns `None` exactly when `chunk_size` is zero,
/// for which no splitting exists.
pub fn split_chunks(ids: &Vec<String>, chunk_size: usize) -> (r: Option<Vec<Vec<String>>>)
    ensures
        chunk_size == 0 <==> r is None,
        r matches Some(chunks) ==> chunk_views(chunks@) == chunks_of(
            ids@,
            chunk_size as nat,
        ),
{
    if chunk_size == 0 {
        return None;
    }
    let n = ids.len();
    let ghost size = chunk_size as nat;
    let mut chunks: Vec<Vec<String>> = Vec::new();
    let mut start: usize = 0;
    proof {
        lemma_chunk_bounds(n as nat, size, 0);
        assert(0 * size == 0) by (nonlinear_arith);
    }
    while start < n
        invariant
            n == ids@.len(),
            size == chunk_size,
            size > 0,
            start <= n,
            start < n ==> start == chunks@.len() * size,
            start == n ==> chunks@.len() == chunk_count(n as nat, size),
            chunks@.len() <= chunk_count(n as nat, size),
            forall|k: int|
                0 <= k < chunks@.len() ==> (#[trigger] chunks@[k])@ == chunk_at(
                    ids@,
                    size,
                    k as nat,
                ),
        decreases n - start,
    {
        let ghost k = chunks@.len();
        let end: usize = if n - start > chunk_size {
            start + chunk_size
        } else {
            n
        };
        proof {
            lemma_chunk_bounds(n as nat, size, k);
        }
        chunks.push(copy_range(ids, start, end));
        start = end;
    }
    assert(chunk_views(chunks@) =~= chunks_of(ids@, size));
    Some(chunks)
}

/// Chunk `k` starts inside a sequence of `n` items exactly when `k` is
/// below the chunk count, and the chunk that ends the sequence is the last.
pub proof fn lemma_chunk_bounds(n: nat, size: nat, k: nat)
    requires
        size > 0,
    ensures
        k * size < n <==> k < chunk_count(n, size),
        k * size < n && n - k * size <= size ==> k + 1 == chunk_count(n, size),
        k * size < n && n - k * size > size ==> (k + 1) * size < n,
        (k + 1) * size == k * size + size,
        n == 0 ==> chunk_count(n, size) == 0,
{
    let c = chunk_count(n, size);
    let m = (n + size - 1) as int;
    let d = size as int;
    assert((k + 1) * size == k * size + size) by (nonlinear_arith);
    assert(m == d * (m / d) + m % d && 0 <= m % d < d) by (nonlinear_arith)
        requires
            d > 0,
    ;
    assert(c == m / d) by (nonlinear_arith)
        requires
            c == ((m / d) as nat),
            m >= 0,
            d > 0,
    ;
    assert(k * size < n <==> k < c) by (nonlinear_arith)
        requires
            m == d * c + m % d,
            0 <= m % d < d,
            m == n + size - 1,
            d == size,
            size > 0,
    ;
    assert(k * size < n && n - k * size <= size ==> k + 1 == c) by (nonlinear_arith)
        requires
            m == d * c + m % d,
            0 <= m % d < d,
            m == n + size - 1,
            d == size,
            size > 0,
    ;
    assert(n == 0 ==> c == 0) by (nonlinear_arith)
        requires
            m == d * c + m % d,
            0 <= m % d < d,
            m == n + size - 1,
            d == size,
            size > 0,
    ;
}

/// The first `j` chunks, joined, are the items before chunk `j` starts.
proof fn lemma_chunk_prefix<T>(ids: Seq<T>, size: nat, j: nat)
    requires
        size > 0,
        j <= chunk_count(ids.len(), size),
    ensures
        chunks_of(ids, size).take(j as int).flatten() == ids.take(
            chunk_start(ids.len(), size, j) as int,
        ),
    decreases j,
{
    let all = chunks_of(ids, size);
    if j == 0 {
        assert(0 * size == 0) by (nonlinear_arith);
        assert(all.take(0) =~= Seq::<Seq<T>>::empty());
        assert(all.take(0).flatten() =~= ids.take(0));
    } else {
        let i = (j - 1) as nat;
        lemma_chunk_prefix(ids, size, i);
        lemma_chunk_bounds(ids.len(), size, i);
        assert(all.take(j as int) =~= all.take(i as int).push(all[i as int]));
        all.take(i as int).lemma_flatten_push(all[i as int]);
        assert(all[i as int] == chunk_at(ids, size, i));
        assert(ids.take(chunk_start(ids.len(), size, i) as int) + chunk_at(ids, size, i)
            =~= ids.take(chunk_start(ids.len(), size, j) as int));
    }
}

/// Chunking is a partition: the number of chunks is the length divided by
/// the chunk size, rounded up; no chunk is empty or longer than the chunk
/// size, and all but the last are full; and the chunks, joined in order,
/// give back `ids`.
pub proof fn lemma_chunks_partition<T>(ids: Seq<T>, size: nat)
    requires
        size > 0,
    ensures
        chunks_of(ids, size).len() == chunk_count(ids.len(), size),
        (chunk_count(ids.len(), size) - 1) * size < ids.len() || ids.len() == 0,
        ids.len() <= chunk_count(ids.len(), size) * size,
        forall|k: int|
            0 <= k < chunks_of(ids, size).len() ==> 1 <= (#[trigger] chunks_of(
                ids,
                size,
            )[k]).len() <= size,
        forall|k: int|
            0 <= k < chunks_of(ids, size).len() - 1 ==> (#[trigger] chunks_of(
                ids,
                size,
            )[k]).len() == size,
        chunks_of(ids, size).flatten() == ids,
{
    let n = ids.len();
    let c = chunk_count(n, size);
    let all = chunks_of(ids, size);
    lemma_chunk_bounds(n, size, c);
    if c > 0 {
        lemma_chunk_bounds(n, size, (c - 1) as nat);
    }
    assert forall|k: int| 0 <= k < all.len() implies 1 <= (#[trigger] all[k]).len() <= size by {
        lemma_chunk_bounds(n, size, k as nat);
    }
    assert forall|k: int| 0 <= k < all.len() - 1 implies (#[trigger] all[k]).len() == size by {
        lemma_chunk_bounds(n, size, k as nat);
        lemma_chunk_bounds(n, size, (k + 1) as nat);
    }
    lemma_chunk_prefix(ids, size, c);
    assert(all.take(c as int) =~= all);
    assert(ids.take(chunk_start(n, size, c) as int) =~= ids);
}

} // verus!
