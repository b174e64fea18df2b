//! Splitting a log-batch request that exceeds the service's limits.
use vstd::prelude::*;

verus! {

/// Most entries of all kinds in one log-batch request.
pub const LOG_BATCH_MAX_TOTAL: usize = 1000;

/// Most metrics in one log-batch request.
pub const LOG_BATCH_MAX_METRICS: usize = 1000;

/// Most params in one log-batch request.
pub const LOG_BATCH_MAX_PARAMS: usize = 100;

/// Most tags in one log-batch request.
pub const LOG_BATCH_MAX_TAGS: usize = 100;

/// The index range `start..end` of a list.
#[derive(Debug, Clone, Copy, PartialEq, Eq, Structural)]
pub struct Span {
    pub start: usize,
    pub end: usize,
}

/// The slices of metrics, params and tags that one request carries.
#[derive(Debug, Clone, Copy, PartialEq, Eq, Structural)]
pub struct BatchChunk {
    pub metrics: Span,
    pub params: Span,
    pub tags: Span,
}

/// The three lists a log-batch request carries.
#[derive(Debug, Clone, Copy, PartialEq, Eq, Structural)]
pub enum Part {
    Metrics,
    Params,
    Tags,
}

pub open spec fn empty_span() -> Span {
    Span { start: 0, end: 0 }
}

/// The span of `part` in a chunk.
pub open spec fn part_span(c: BatchChunk, part: Part) -> Span {
    match part {
        Part::Metrics => c.metrics,
        Part::Params => c.params,
        Part::Tags => c.tags,
    }
}

/// A chunk that carries `s` of `part` and nothing else.
pub open spec fn only(part: Part, s: Span) -> BatchChunk {
    match part {
        Part::Metrics => BatchChunk { metrics: s, params: empty_span(), tags: empty_span() },
        Part::Params => BatchChunk { metrics: empty_span(), params: s, tags: empty_span() },
        Part::Tags => BatchChunk { metrics: empty_span(), params: empty_span(), tags: s },
    }
}

/// The `i`-th piece of `0..n` cut every `size` entries.
pub open spec fn piece(i: int, size: int, n: int) -> Span {
    Span {
        start: (i * size) as usize,
        end: if (i + 1) * size <= n {
            ((i + 1) * size) as usize
        } else {
            n as usize
        },
    }
}

/// How many pieces of at most `size` entries `n` entries take.
pub open spec fn pieces_needed(n: int, size: int) -> int {
    (n + size - 1) / size
}

/// The chunks that send `n` entries of `part`, `size` at a time.
pub open spec fn part_chunks(part: Part, n: int, size: int) -> Seq<BatchChunk> {
    Seq::new(pieces_needed(n, size) as nat, |i: int| only(part, piece(i, size, n)))
}

/// Whether all entries fit in a single request.
pub open spec fn fits_one_request(nm: int, np: int, nt: int) -> bool {
    &&& nm + np + nt <= LOG_BATCH_MAX_TOTAL
    &&& nm <= LOG_BATCH_MAX_METRICS
    &&& np <= LOG_BATCH_MAX_PARAMS
    &&& nt <= LOG_BATCH_MAX_TAGS
}

/// The requests that send `nm` metrics, `np` params and `nt` tags: none when
/// there is nothing to send, one when everything fits the limits, else the
/// metrics, then the params, then the tags, each in pieces as large as the
/// limit of its kind allows.
pub open spec fn batch_plan(nm: int, np: int, nt: int) -> Seq<BatchChunk> {
    if nm + np + nt == 0 {
        Seq::empty()
    } else if fits_one_request(nm, np, nt) {
        seq![
            BatchChunk {
                metrics: Span { start: 0, end: nm as usize },
                params: Span { start: 0, end: np as usize },
                tags: Span { start: 0, end: nt as usize },
            },
        ]
    } else {
        part_chunks(Part::Metrics, nm, LOG_BATCH_MAX_METRICS as int) + part_chunks(
            Part::Params,
            np,
            LOG_BATCH_MAX_PARAMS as int,
        ) + part_chunks(Part::Tags, nt, LOG_BATCH_MAX_TAGS as int)
    }
}

proof fn lemma_pieces_needed(n: int, size: int, k: int)
    requires
        size > 0,
        k >= 0,
        (k == 0 && n == 0) || (k > 0 && (k - 1) * size < n <= k * size),
    ensures
        pieces_needed(n, size) == k,
{
    if k > 0 {
        assert((k - 1) * size + size == k * size) by (nonlinear_arith);
        assert(n + size - 1 >= k * size) by (nonlinear_arith)
            requires
                (k - 1) * size < n,
                (k - 1) * size + size == k * size,
        ;
        assert(n + size - 1 < (k + 1) * size) by (nonlinear_arith)
            requires
                n <= k * size,
                size > 0,
        ;
        assert((n + size - 1) / size == k) by (nonlinear_arith)
            requires
                k * size <= n + size - 1 < (k + 1) * size,
                size > 0,
        ;
    } else {
        assert((size - 1) / size == 0) by (nonlinear_arith)
            requires
                size > 0,
        ;
    }
}

/// Whether index `j` lies in `s`.
pub open spec fn holds(s: Span, j: int) -> bool {
    s.start <= j < s.end
}

/// The length of the list of `part`.
pub open spec fn part_len(part: Part, nm: int, np: int, nt: int) -> int {
    match part {
        Part::Metrics => nm,
        Part::Params => np,
        Part::Tags => nt,
    }
}

/// The limit of `part` in one request.
pub open spec fn part_limit(part: Part) -> int {
    match part {
        Part::Metrics => LOG_BATCH_MAX_METRICS as int,
        Part::Params => LOG_BATCH_MAX_PARAMS as int,
        Part::Tags => LOG_BATCH_MAX_TAGS as int,
    }
}

pub open spec fn span_len(s: Span) -> int {
    s.end - s.start
}

proof fn lemma_piece_bounds(i: int, size: int, n: int)
    requires
        size > 0,
        n >= 0,
        0 <= i < pieces_needed(n, size),
        n <= isize::MAX,
    ensures
        i * size < n,
        piece(i, size, n).start == i * size,
        i * size < piece(i, size, n).end <= n,
        piece(i, size, n).end <= (i + 1) * size,
        span_len(piece(i, size, n)) <= size,
{
    assert(i * size < n) by (nonlinear_arith)
        requires
            0 <= i < (n + size - 1) / size,
            size > 0,
            n >= 0,
    ;
    assert((i + 1) * size == i * size + size) by (nonlinear_arith);
}

proof fn lemma_plan_part_chunk(nm: int, np: int, nt: int, i: int)
    requires
        0 <= nm,
        0 <= np,
        0 <= nt,
        nm + np + nt <= isize::MAX,
        !fits_one_request(nm, np, nt),
        0 <= i < batch_plan(nm, np, nt).len(),
    ensures
        ({
            let a = pieces_needed(nm, LOG_BATCH_MAX_METRICS as int);
            let b = pieces_needed(np, LOG_BATCH_MAX_PARAMS as int);
            let c = batch_plan(nm, np, nt)[i];
            &&& 0 <= a
            &&& 0 <= b
            &&& i < a ==> c == only(Part::Metrics, piece(i, LOG_BATCH_MAX_METRICS as int, nm))
            &&& a <= i < a + b ==> c == only(
                Part::Params,
                piece(i - a, LOG_BATCH_MAX_PARAMS as int, np),
            )
            &&& a + b <= i ==> c == only(
                Part::Tags,
                piece(i - a - b, LOG_BATCH_MAX_TAGS as int, nt),
            )
            &&& a + b <= i ==> i - a - b < pieces_needed(nt, LOG_BATCH_MAX_TAGS as int)
        }),
{
    let a = pieces_needed(nm, LOG_BATCH_MAX_METRICS as int);
    let b = pieces_needed(np, LOG_BATCH_MAX_PARAMS as int);
    assert(a >= 0 && b >= 0);
    assert(pieces_needed(nt, LOG_BATCH_MAX_TAGS as int) >= 0);
}

/// Every request of a plan carries something and keeps within the
/// service's limits, and its ranges lie inside the lists.
pub proof fn lemma_plan_within_limits(nm: int, np: int, nt: int, i: int)
    requires
        0 <= nm,
        0 <= np,
        0 <= nt,
        nm + np + nt <= isize::MAX,
        0 <= i < batch_plan(nm, np, nt).len(),
    ensures
        ({
            let c = batch_plan(nm, np, nt)[i];
            &&& c.metrics.start <= c.metrics.end <= nm
            &&& c.params.start <= c.params.end <= np
            &&& c.tags.start <= c.tags.end <= nt
            &&& span_len(c.metrics) <= LOG_BATCH_MAX_METRICS
            &&& span_len(c.params) <= LOG_BATCH_MAX_PARAMS
            &&& span_len(c.tags) <= LOG_BATCH_MAX_TAGS
            &&& 0 < span_len(c.metrics) + span_len(c.params) + span_len(c.tags) <= LOG_BATCH_MAX_TOTAL
        }),
{
    if nm + np + nt != 0 && !fits_one_request(nm, np, nt) {
        lemma_plan_part_chunk(nm, np, nt, i);
        let a = pieces_needed(nm, LOG_BATCH_MAX_METRICS as int);
        let b = pieces_needed(np, LOG_BATCH_MAX_PARAMS as int);
        if i < a {
            lemma_piece_bounds(i, LOG_BATCH_MAX_METRICS as int, nm);
        } else if i < a + b {
            lemma_piece_bounds(i - a, LOG_BATCH_MAX_PARAMS as int, np);
        } else {
            lemma_piece_bounds(i - a - b, LOG_BATCH_MAX_TAGS as int, nt);
        }
    }
}

proof fn lemma_piece_holds(i: int, size: int, n: int, j: int)
    requires
        size > 0,
        0 <= j < n <= isize::MAX,
        0 <= i < pieces_needed(n, size),
    ensures
        holds(piece(i, size, n), j) <==> i == j / size,
{
    lemma_piece_bounds(i, size, n);
    assert(holds(piece(i, size, n), j) <==> i * size <= j < (i + 1) * size);
    assert(i * size <= j < (i + 1) * size <==> i == j / size) by (nonlinear_arith)
        requires
            size > 0,
            j >= 0,
            i >= 0,
    ;
}

/// Each entry of each list is sent in exactly one request of the plan.
pub proof fn lemma_plan_sends_each_once(nm: int, np: int, nt: int, part: Part, j: int)
    requires
        0 <= nm,
        0 <= np,
        0 <= nt,
        nm + np + nt <= isize::MAX,
        0 <= j < part_len(part, nm, np, nt),
    ensures
        exists|i: int|
            0 <= i < batch_plan(nm, np, nt).len() && holds(
                part_span(#[trigger] batch_plan(nm, np, nt)[i], part),
                j,
            ),
        forall|i1: int, i2: int|
            0 <= i1 < batch_plan(nm, np, nt).len() && 0 <= i2 < batch_plan(nm, np, nt).len()
                && holds(part_span(#[trigger] batch_plan(nm, np, nt)[i1], part), j) && holds(
                part_span(#[trigger] batch_plan(nm, np, nt)[i2], part),
                j,
            ) ==> i1 == i2,
{
    let plan = batch_plan(nm, np, nt);
    if fits_one_request(nm, np, nt) {
        assert(holds(part_span(plan[0], part), j));
    } else {
        let a = pieces_needed(nm, LOG_BATCH_MAX_METRICS as int);
        let b = pieces_needed(np, LOG_BATCH_MAX_PARAMS as int);
        let size = part_limit(part);
        let n = part_len(part, nm, np, nt);
        let offset = match part {
            Part::Metrics => 0,
            Part::Params => a,
            Part::Tags => a + b,
        };
        let w = j / size;
        assert(0 <= w < pieces_needed(n, size)) by (nonlinear_arith)
            requires
                0 <= j < n,
                size > 0,
                w == j / size,
                pieces_needed(n, size) == (n + size - 1) / size,
        ;
        lemma_plan_part_chunk(nm, np, nt, offset + w);
        lemma_piece_holds(w, size, n, j);
        assert(holds(part_span(plan[offset + w], part), j));
        assert forall|i1: int, i2: int|
            0 <= i1 < plan.len() && 0 <= i2 < plan.len() && holds(
                part_span(#[trigger] plan[i1], part),
                j,
            ) && holds(part_span(#[trigger] plan[i2], part), j) implies i1 == i2 by {
            lemma_plan_part_chunk(nm, np, nt, i1);
            lemma_plan_part_chunk(nm, np, nt, i2);
            if i1 - offset >= 0 && i1 - offset < pieces_needed(n, size) {
                lemma_piece_holds(i1 - offset, size, n, j);
            }
            if i2 - offset >= 0 && i2 - offset < pieces_needed(n, size) {
                lemma_piece_holds(i2 - offset, size, n, j);
            }
        }
    }
}

/// Requests keep each list's order: a later request carries later entries.
pub proof fn lemma_plan_keeps_order(nm: int, np: int, nt: int, part: Part, i1: int, i2: int)
    requires
        0 <= nm,
        0 <= np,
        0 <= nt,
        nm + np + nt <= isize::MAX,
        0 <= i1 < i2 < batch_plan(nm, np, nt).len(),
        span_len(part_span(batch_plan(nm, np, nt)[i1], part)) > 0,
        span_len(part_span(batch_plan(nm, np, nt)[i2], part)) > 0,
    ensures
        part_span(batch_plan(nm, np, nt)[i1], part).end <= part_span(
            batch_plan(nm, np, nt)[i2],
            part,
        ).start,
{
    let a = pieces_needed(nm, LOG_BATCH_MAX_METRICS as int);
    let b = pieces_needed(np, LOG_BATCH_MAX_PARAMS as int);
    lemma_plan_part_chunk(nm, np, nt, i1);
    lemma_plan_part_chunk(nm, np, nt, i2);
    let size = part_limit(part);
    let offset = match part {
        Part::Metrics => 0,
        Part::Params => a,
        Part::Tags => a + b,
    };
    let k1 = i1 - offset;
    let k2 = i2 - offset;
    assert(k1 * size + size <= k2 * size) by (nonlinear_arith)
        requires
            k1 < k2,
            size > 0,
    ;
    assert((k1 + 1) * size == k1 * size + size) by (nonlinear_arith);
    assert(k2 * size >= 0) by (nonlinear_arith)
        requires
            k2 >= 0,
            size > 0,
    ;
}

fn only_chunk(part: Part, s: Span) -> (r: BatchChunk)
    ensures
        r == only(part, s),
{
    let e = Span { start: 0, end: 0 };
    match part {
        Part::Metrics => BatchChunk { metrics: s, params: e, tags: e },
        Part::Params => BatchChunk { metrics: e, params: s, tags: e },
        Part::Tags => BatchChunk { metrics: e, params: e, tags: s },
    }
}

/// Appends the chunks that send `n` entries of `part`, `size` at a time.
fn push_part(plan: &mut Vec<BatchChunk>, part: Part, n: usize, size: usize)
    requires
        0 < size <= LOG_BATCH_MAX_TOTAL,
        n <= usize::MAX - size,
    ensures
        final(plan)@ == old(plan)@ + part_chunks(part, n as int, size as int),
{
    let ghost base = plan@;
    let mut end: usize = 0;
    let ghost mut k: int = 0;
    while end < n
        invariant
            0 < size <= LOG_BATCH_MAX_TOTAL,
            n <= usize::MAX - size,
            plan@ == base + Seq::new(k as nat, |i: int| only(part, piece(i, size as int, n as int))),
            end <= n,
            k >= 0,
            end == if k * size <= n {
                k * size
            } else {
                n as int
            },
            k == 0 || (k - 1) * size < n,
        decreases n - end,
    {
        let start = end;
        proof {
            assert((k + 1) * size == k * size + size) by (nonlinear_arith);
            assert(k * size <= n) by {
                if k * size > n {
                    assert(end == n);
                }
            }
        }
        end = if n - end > size {
            end + size
        } else {
            n
        };
        plan.push(only_chunk(part, Span { start, end }));
        proof {
            assert(piece(k, size as int, n as int) == Span { start, end });
            k = k + 1;
            assert(plan@ =~= base + Seq::new(k as nat, |i: int| only(part, piece(i, size as int, n as int))));
        }
    }
    proof {
        lemma_pieces_needed(n as int, size as int, k);
        assert(plan@ =~= base + part_chunks(part, n as int, size as int));
    }
}

/// The requests into which a log batch of `n_metrics` metrics, `n_params`
/// params and `n_tags` tags is split, as index ranges of the three lists.
pub fn plan_log_batch(n_metrics: usize, n_params: usize, n_tags: usize) -> (r: Vec<BatchChunk>)
    requires
        n_metrics + n_params + n_tags <= isize::MAX,
    ensures
        r@ == batch_plan(n_metrics as int, n_params as int, n_tags as int),
{
    let mut plan: Vec<BatchChunk> = Vec::new();
    let len_sum: usize = n_metrics + n_params + n_tags;
    if len_sum == 0 {
        return plan;
    }
    if len_sum <= LOG_BATCH_MAX_TOTAL && n_metrics <= LOG_BATCH_MAX_METRICS && n_params
        <= LOG_BATCH_MAX_PARAMS && n_tags <= LOG_BATCH_MAX_TAGS {
        plan.push(
            BatchChunk {
                metrics: Span { start: 0, end: n_metrics },
                params: Span { start: 0, end: n_params },
                tags: Span { start: 0, end: n_tags },
            },
        );
        proof {
            assert(plan@ =~= batch_plan(n_metrics as int, n_params as int, n_tags as int));
        }
        return plan;
    }
    push_part(&mut plan, Part::Metrics, n_metrics, LOG_BATCH_MAX_METRICS);
    push_part(&mut plan, Part::Params, n_params, LOG_BATCH_MAX_PARAMS);
    push_part(&mut plan, Part::Tags, n_tags, LOG_BATCH_MAX_TAGS);
    proof {
        assert(plan@ =~= batch_plan(n_metrics as int, n_params as int, n_tags as int));
    }
    plan
}

} // verus!
