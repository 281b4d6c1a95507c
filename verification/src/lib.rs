//! Runtime tracing for async runtimes: span recording, per-shard span
//! queues, a Perfetto trace encoder, and the helpers around them.
//!
//! The tracing state that a process shares is a [`Tracer`]: whether tracing
//! is on, the span queue of every shard, and the spans handed on to the
//! consumer that have not been collected yet.
use vstd::prelude::*;

pub mod backend;
pub mod config;
pub mod flight_recorder;
pub mod hopframe;
pub mod span;
pub mod span_queue;
pub mod task_trace;
pub mod tracing_perfetto;
pub mod utils;

use crate::backend::perfetto::{is_thread_descriptor, thread_descriptor};
use crate::config::Config;
use crate::span::{RawSpan, Type};
use crate::span_queue::{
    command_spans, find_non_slice, add_outcome, has_non_slice, lemma_non_slice_concat, Command,
    DescriptorTable, SpanQueueStore, DEFAULT_BATCH_SIZE,
};

verus! {

/// The number of span queue shards unless the configuration says otherwise.
pub const DEFAULT_NUM_SHARD: usize = 16;

/// The queue a shard holds after `span` is pushed onto `q`, and the spans
/// handed on to the consumer by that push.
pub open spec fn push_outcome(q: Seq<RawSpan>, span: RawSpan) -> (Seq<RawSpan>, Seq<RawSpan>) {
    if q.len() + 1 == DEFAULT_BATCH_SIZE {
        (Seq::empty(), q.push(span))
    } else {
        (q.push(span), Seq::empty())
    }
}

/// The queue and the spans handed on after pushing every item of `items`,
/// in order, onto queue `q`.
pub open spec fn push_all_outcome(q: Seq<RawSpan>, items: Seq<RawSpan>) -> (Seq<RawSpan>, Seq<RawSpan>)
    decreases items.len(),
{
    if items.len() == 0 {
        (q, Seq::empty())
    } else {
        let (q1, out1) = push_all_outcome(q, items.drop_last());
        let (q2, out2) = push_outcome(q1, items.last());
        (q2, out1 + out2)
    }
}

/// Batching keeps order and loses nothing: after any pushes onto a queue,
/// the spans handed on followed by those still queued are the spans that
/// were queued followed by those pushed, and the queue still holds less than
/// a batch.
pub proof fn law_batching_keeps_order(q: Seq<RawSpan>, items: Seq<RawSpan>)
    requires
        q.len() < DEFAULT_BATCH_SIZE,
    ensures
        ({
            let (rest, out) = push_all_outcome(q, items);
            &&& out + rest == q + items
            &&& rest.len() < DEFAULT_BATCH_SIZE
        }),
    decreases items.len(),
{
    if items.len() > 0 {
        let dl = items.drop_last();
        law_batching_keeps_order(q, dl);
        let (q1, out1) = push_all_outcome(q, dl);
        let (q2, out2) = push_outcome(q1, items.last());
        assert(out2 + q2 =~= q1.push(items.last()));
        assert(out1 + out2 + q2 =~= (q + dl).push(items.last()));
        assert((q + dl).push(items.last()) =~= q + items);
    }
}

/// All spans of `queues`, queue after queue.
pub open spec fn flatten(queues: Seq<Seq<RawSpan>>) -> Seq<RawSpan>
    decreases queues.len(),
{
    if queues.len() == 0 {
        Seq::empty()
    } else {
        flatten(queues.drop_last()) + queues.last()
    }
}

/// `n` empty queues.
pub open spec fn empty_queues(n: nat) -> Seq<Seq<RawSpan>> {
    Seq::new(n, |i: int| Seq::<RawSpan>::empty())
}

/// Replacing queue `i` by `x` swaps its spans for those of `x`, counted as a multiset.
pub proof fn lemma_flatten_update(queues: Seq<Seq<RawSpan>>, i: int, x: Seq<RawSpan>)
    requires
        0 <= i < queues.len(),
    ensures
        flatten(queues.update(i, x)).to_multiset().add(queues[i].to_multiset()) =~= flatten(
            queues,
        ).to_multiset().add(x.to_multiset()),
    decreases queues.len(),
{
    broadcast use vstd::multiset::group_multiset_axioms;

    let n = queues.len() - 1;
    let updated = queues.update(i, x);
    let dl = queues.drop_last();
    assert(flatten(queues) == flatten(dl) + queues[n]);
    vstd::seq_lib::lemma_multiset_commutative(flatten(dl), queues[n]);
    if i == n {
        assert(updated.drop_last() =~= dl);
        assert(flatten(updated) == flatten(dl) + x);
        vstd::seq_lib::lemma_multiset_commutative(flatten(dl), x);
        assert forall|v: RawSpan|
            #![trigger flatten(updated).to_multiset().count(v)]
            flatten(updated).to_multiset().add(queues[i].to_multiset()).count(v) == flatten(
                queues,
            ).to_multiset().add(x.to_multiset()).count(v) by {}
    } else {
        let rest = dl.update(i, x);
        assert(updated.drop_last() =~= rest);
        assert(flatten(updated) == flatten(rest) + queues[n]);
        lemma_flatten_update(dl, i, x);
        vstd::seq_lib::lemma_multiset_commutative(flatten(rest), queues[n]);
        assert(dl[i] == queues[i]);
        assert forall|v: RawSpan|
            #![trigger flatten(updated).to_multiset().count(v)]
            flatten(updated).to_multiset().add(queues[i].to_multiset()).count(v) == flatten(
                queues,
            ).to_multiset().add(x.to_multiset()).count(v) by {
            assert(flatten(rest).to_multiset().add(dl[i].to_multiset()).count(v) == flatten(
                dl,
            ).to_multiset().add(x.to_multiset()).count(v));
        }
    }
}

/// Pushing `span` onto queue `i` keeps every pending span and adds `span`:
/// what the push hands on joins the sent spans, the rest stays queued.
pub proof fn lemma_push_keeps_pending(
    sent: Seq<RawSpan>,
    queues: Seq<Seq<RawSpan>>,
    i: int,
    span: RawSpan,
)
    requires
        0 <= i < queues.len(),
    ensures
        ({
            let (q, out) = push_outcome(queues[i], span);
            ((sent + out) + flatten(queues.update(i, q))).to_multiset() =~= (sent + flatten(
                queues,
            )).to_multiset().insert(span)
        }),
{
    broadcast use vstd::multiset::group_multiset_axioms, vstd::seq_lib::lemma_multiset_commutative,
        vstd::seq_lib::to_multiset_build;

    broadcast use vstd::seq_lib::to_multiset_len;

    let (q, out) = push_outcome(queues[i], span);
    let up = flatten(queues.update(i, q));
    let f = flatten(queues);
    lemma_flatten_update(queues, i, q);
    let e = Seq::<RawSpan>::empty();
    assert(e.to_multiset().len() == 0);
    assert(e.to_multiset() =~= vstd::multiset::Multiset::<RawSpan>::empty());
    vstd::seq_lib::to_multiset_build(queues[i], span);
    assert(out.to_multiset().add(q.to_multiset()) =~= queues[i].push(span).to_multiset());
    vstd::seq_lib::lemma_multiset_commutative(sent + out, up);
    vstd::seq_lib::lemma_multiset_commutative(sent, out);
    vstd::seq_lib::lemma_multiset_commutative(sent, f);
    assert forall|v: RawSpan|
        #![trigger ((sent + out) + up).to_multiset().count(v)]
        ((sent + out) + up).to_multiset().count(v) == (sent + f).to_multiset().insert(span).count(
            v,
        ) by {
        assert(up.to_multiset().add(queues[i].to_multiset()).count(v) == f.to_multiset().add(
            q.to_multiset(),
        ).count(v));
        assert(out.to_multiset().add(q.to_multiset()).count(v) == queues[i].push(
            span,
        ).to_multiset().count(v));
    }
}

/// The tracing state of a process.
pub struct Tracer {
    enabled: bool,
    store: SpanQueueStore,
    outbox: Vec<RawSpan>,
}

impl Tracer {
    /// Whether spans are being recorded.
    pub closed spec fn spec_enabled(&self) -> bool {
        self.enabled
    }

    /// The spans waiting in each shard's queue.
    pub closed spec fn queues(&self) -> Seq<Seq<RawSpan>> {
        self.store.queues()
    }

    /// The spans handed on to the consumer and not collected yet, in order.
    pub closed spec fn sent(&self) -> Seq<RawSpan> {
        self.outbox@
    }

    /// The number of shards.
    pub closed spec fn shard_num(&self) -> nat {
        self.store.spec_shard_num()
    }

    /// The shard whose queue serves thread `thread_id`.
    pub open spec fn shard_of(&self, thread_id: int) -> int {
        thread_id % (self.shard_num() as int)
    }

    /// Every shard has its queue.
    #[verifier::type_invariant]
    spec fn well_formed(&self) -> bool {
        self.store.queues().len() == self.store.spec_shard_num()
    }

    /// Every span recorded and not yet collected: those handed on first,
    /// then those of each queue in shard order.
    pub open spec fn pending(&self) -> Seq<RawSpan> {
        self.sent() + flatten(self.queues())
    }
}

/// A span being timed. It belongs to the shard whose queue receives it when it ends.
pub struct Span {
    inner: Option<RawSpan>,
    shard: usize,
}

impl Span {
    /// The span being timed, or nothing when tracing was off at its start.
    pub closed spec fn spec_inner(&self) -> Option<RawSpan> {
        self.inner
    }

    /// The shard that receives the span when it ends.
    pub closed spec fn spec_shard(&self) -> nat {
        self.shard as nat
    }

    /// The shard that receives the span when it ends.
    pub fn shard(&self) -> (res: usize)
        ensures
            res == self.spec_shard(),
    {
        self.shard
    }
}

/// Initialize tracing: the state starts with tracing off, the configured
/// number of shards (sixteen by default), and every queue empty.
pub fn initialize(config: &Config) -> (res: Tracer)
    ensures
        !res.spec_enabled(),
        res.shard_num() == match config.spec_num_shard() {
            Some(n) => n,
            None => DEFAULT_NUM_SHARD,
        },
        res.queues() == empty_queues(res.shard_num()),
        res.sent() == Seq::<RawSpan>::empty(),
{
    let num_shards = match config.num_shard() {
        Some(n) => n,
        None => DEFAULT_NUM_SHARD,
    };
    let mut store = SpanQueueStore::new(num_shards);
    let mut i: usize = 0;
    while i < num_shards
        invariant
            i <= num_shards,
            store.spec_shard_num() == num_shards,
            store.queues() == empty_queues(i as nat),
        decreases num_shards - i,
    {
        store.register();
        assert(store.queues() =~= empty_queues((i + 1) as nat));
        i = i + 1;
    }
    Tracer { enabled: false, store, outbox: Vec::new() }
}

/// The number of shards.
pub fn num_shards(tracer: &Tracer) -> (res: usize)
    ensures
        res == tracer.shard_num(),
{
    proof {
        use_type_invariant(tracer);
    }
    tracer.store.len()
}

/// Whether tracing is enabled or not.
pub fn enabled(tracer: &Tracer) -> (res: bool)
    ensures
        res == tracer.spec_enabled(),
{
    tracer.enabled
}

fn set_enabled(tracer: &mut Tracer, set: bool)
    ensures
        final(tracer).spec_enabled() == set,
        final(tracer).queues() == old(tracer).queues(),
        final(tracer).sent() == old(tracer).sent(),
        final(tracer).shard_num() == old(tracer).shard_num(),
{
    proof {
        use_type_invariant(&*tracer);
    }
    tracer.enabled = set;
}

/// Stop tracing.
///
/// This hands over the spans that the consumer holds (returned, in the
/// order they were handed on), but not the spans still queued by the
/// worker threads' shards.
pub fn stop(tracer: &mut Tracer) -> (res: Vec<RawSpan>)
    ensures
        !final(tracer).spec_enabled(),
        final(tracer).queues() == old(tracer).queues(),
        final(tracer).sent() == Seq::<RawSpan>::empty(),
        res@ == old(tracer).sent(),
        final(tracer).shard_num() == old(tracer).shard_num(),
{
    set_enabled(tracer, false);
    proof {
        use_type_invariant(&*tracer);
    }
    let mut handed: Vec<RawSpan> = Vec::new();
    std::mem::swap(&mut handed, &mut tracer.outbox);
    handed
}

/// Start tracing.
pub fn start(tracer: &mut Tracer)
    ensures
        final(tracer).spec_enabled(),
        final(tracer).queues() == old(tracer).queues(),
        final(tracer).sent() == old(tracer).sent(),
        final(tracer).shard_num() == old(tracer).shard_num(),
{
    set_enabled(tracer, true);
}

/// Hands the spans of `cmd` to the consumer.
fn send_command(tracer: &mut Tracer, cmd: Command)
    ensures
        final(tracer).sent() == old(tracer).sent() + command_spans(Some(cmd)),
        final(tracer).spec_enabled() == old(tracer).spec_enabled(),
        final(tracer).queues() == old(tracer).queues(),
        final(tracer).shard_num() == old(tracer).shard_num(),
{
    proof {
        use_type_invariant(&*tracer);
    }
    let mut outbox: Vec<RawSpan> = Vec::new();
    std::mem::swap(&mut outbox, &mut tracer.outbox);
    match cmd {
        Command::SendSpans(mut spans) => outbox.append(&mut spans),
    }
    tracer.outbox = outbox;
}

/// Queues `span` on the shard that serves `index`.
fn push_span(tracer: &mut Tracer, index: usize, span: RawSpan)
    requires
        old(tracer).shard_num() > 0,
    ensures
        final(tracer).spec_enabled() == old(tracer).spec_enabled(),
        final(tracer).shard_num() == old(tracer).shard_num(),
        ({
            let i = old(tracer).shard_of(index as int);
            let (q, out) = push_outcome(old(tracer).queues()[i], span);
            &&& final(tracer).queues() == old(tracer).queues().update(i, q)
            &&& final(tracer).sent() == old(tracer).sent() + out
        }),
{
    let ghost i = tracer.shard_of(index as int);
    proof {
        use_type_invariant(&*tracer);
    }
    let mut store = SpanQueueStore::new(0);
    std::mem::swap(&mut store, &mut tracer.store);
    let cmd = store.push(index, span);
    tracer.store = store;
    match cmd {
        Some(c) => send_command(tracer, c),
        None => {},
    }
    assert(tracer.queues() =~= old(tracer).queues().update(
        i,
        push_outcome(old(tracer).queues()[i], span).0,
    ));
    assert(tracer.sent() =~= old(tracer).sent() + push_outcome(old(tracer).queues()[i], span).1);
}

/// Create a span of type `typ` on thread `thread_id`, started at `now`.
///
/// When tracing is on, the thread's first span (`thread_initialized` is
/// false) first adds the thread's descriptor, named `thread_name` or after
/// the thread id, to `descriptors` (see [`DescriptorTable::add_descriptor`]). The
/// second result says whether the thread has registered its descriptor by
/// now. No span is queued here; when tracing is off, nothing changes.
pub fn span(
    tracer: &Tracer,
    descriptors: &mut DescriptorTable,
    typ: Type,
    thread_id: usize,
    thread_initialized: bool,
    thread_name: Option<String>,
    now: u64,
) -> (res: (Span, bool))
    requires
        tracer.shard_num() > 0,
    ensures
        res.0.spec_shard() == tracer.shard_of(thread_id as int),
        !tracer.spec_enabled() ==> {
            &&& res.0.spec_inner() is None
            &&& res.1 == thread_initialized
            &&& final(descriptors).entries() == old(descriptors).entries()
        },
        tracer.spec_enabled() ==> {
            &&& res.0.spec_inner() == Some(
                RawSpan { typ, thread_id: thread_id as u64, start: now, end: 0 },
            )
            &&& res.1
        },
        tracer.spec_enabled() && thread_initialized ==> final(descriptors).entries() == old(
            descriptors,
        ).entries(),
        tracer.spec_enabled() && !thread_initialized ==> exists|d: RawSpan|
            {
                &&& #[trigger] is_thread_descriptor(d, thread_id as u64, thread_name)
                &&& final(descriptors).entries() == add_outcome(old(descriptors).entries(), d)
            },
{
    proof {
        use_type_invariant(tracer);
    }
    let shard = thread_id % tracer.store.len();
    if enabled(tracer) {
        // Is this the first time this thread is creating a span?
        if !thread_initialized {
            let descriptor = thread_descriptor(thread_id as u64, thread_name);
            let ghost d = descriptor;
            descriptors.add_descriptor(descriptor);
            assert(is_thread_descriptor(d, thread_id as u64, thread_name));
        }
        let inner = RawSpan { typ, thread_id: thread_id as u64, start: now, end: 0 };
        (Span { inner: Some(inner), shard }, true)
    } else {
        (Span { inner: None, shard }, thread_initialized)
    }
}

/// End `span` at `now`: while tracing is on, a recording span is queued on
/// its shard with its end time set; otherwise nothing happens.
pub fn end_span(tracer: &mut Tracer, span: Span, now: u64)
    requires
        span.spec_shard() < old(tracer).shard_num(),
    ensures
        final(tracer).spec_enabled() == old(tracer).spec_enabled(),
        final(tracer).shard_num() == old(tracer).shard_num(),
        !old(tracer).spec_enabled() || span.spec_inner() is None ==> {
            &&& final(tracer).queues() == old(tracer).queues()
            &&& final(tracer).sent() == old(tracer).sent()
        },
        old(tracer).spec_enabled() && span.spec_inner() is Some ==> {
            let s = span.spec_inner().unwrap();
            let ended = RawSpan { end: now, ..s };
            let i = span.spec_shard() as int;
            let (q, out) = push_outcome(old(tracer).queues()[i], ended);
            &&& final(tracer).queues() == old(tracer).queues().update(i, q)
            &&& final(tracer).sent() == old(tracer).sent() + out
            &&& final(tracer).pending().to_multiset() == old(tracer).pending().to_multiset().insert(ended)
        },
{
    proof {
        use_type_invariant(&*tracer);
    }
    if !enabled(tracer) {
        return;
    }
    let Span { inner, shard } = span;
    match inner {
        None => {},
        Some(s) => {
            let ended = RawSpan { end: now, ..s };
            proof {
                vstd::arithmetic::div_mod::lemma_small_mod(shard as nat, tracer.shard_num());
            }
            push_span(tracer, shard, ended);
            proof {
                lemma_push_keeps_pending(old(tracer).sent(), old(tracer).queues(), shard as int, ended);
            }
        },
    }
}

/// Flush all spans: every shard's queue is emptied, and every span recorded
/// and not yet collected is returned, those handed on first, then each
/// queue in shard order. Tracing is stopped while the queues are emptied
/// and is on afterwards.
pub fn flush(tracer: &mut Tracer) -> (res: Vec<RawSpan>)
    ensures
        final(tracer).spec_enabled(),
        final(tracer).shard_num() == old(tracer).shard_num(),
        final(tracer).queues() == empty_queues(old(tracer).shard_num()),
        final(tracer).sent() == Seq::<RawSpan>::empty(),
        res@ == old(tracer).pending(),
{
    // 1. take what the consumer holds, then flush the local span queues.
    let mut collected = stop(tracer);
    proof {
        use_type_invariant(&*tracer);
    }
    let mut store = SpanQueueStore::new(0);
    std::mem::swap(&mut store, &mut tracer.store);
    let len = store.len();
    let mut index: usize = 0;
    while index < len
        invariant
            len == old(tracer).queues().len() == old(tracer).shard_num(),
            index <= len,
            store.spec_shard_num() == old(tracer).shard_num(),
            store.queues().len() == len,
            forall|j: int|
                0 <= j < len ==> #[trigger] store.queues()[j] == if j < index {
                    Seq::<RawSpan>::empty()
                } else {
                    old(tracer).queues()[j]
                },
            tracer.sent() == flatten(old(tracer).queues().take(index as int)),
        decreases len - index,
    {
        proof {
            vstd::arithmetic::div_mod::lemma_small_mod(index as nat, len as nat);
            assert(old(tracer).queues().take(index + 1).drop_last() =~= old(tracer).queues().take(
                index as int,
            ));
        }
        let cmd = store.flush(index);
        send_command(tracer, cmd);
        assert(tracer.sent() =~= flatten(old(tracer).queues().take(index + 1)));
        index = index + 1;
    }
    tracer.store = store;
    start(tracer);
    assert(old(tracer).queues().take(len as int) =~= old(tracer).queues());
    assert(tracer.queues() =~= empty_queues(old(tracer).shard_num()));
    // 2. hand over everything collected.
    proof {
        use_type_invariant(&*tracer);
    }
    let mut queued: Vec<RawSpan> = Vec::new();
    std::mem::swap(&mut queued, &mut tracer.outbox);
    collected.append(&mut queued);
    collected
}

/// Whether a pending span cannot be shown as a slice of a Perfetto trace
/// (a descriptor or a runtime start).
pub fn has_pending_non_slice(tracer: &Tracer) -> (res: bool)
    ensures
        res == has_non_slice(tracer.pending()),
{
    proof {
        use_type_invariant(tracer);
    }
    let mut found = find_non_slice(&tracer.outbox);
    let len = tracer.store.len();
    let ghost qs = tracer.queues();
    let mut index: usize = 0;
    while index < len
        invariant
            len == qs.len() == tracer.shard_num(),
            qs == tracer.queues(),
            index <= len,
            found == has_non_slice(tracer.sent() + flatten(qs.take(index as int))),
        decreases len - index,
    {
        proof {
            vstd::arithmetic::div_mod::lemma_small_mod(index as nat, len as nat);
            let prev = qs.take(index as int);
            let next = qs.take(index + 1);
            assert(next.drop_last() =~= prev);
            assert(flatten(next) == flatten(prev) + qs[index as int]);
            assert(tracer.sent() + flatten(next) =~= (tracer.sent() + flatten(prev)) + qs[index as int]);
            lemma_non_slice_concat(tracer.sent() + flatten(prev), qs[index as int]);
        }
        let queue_has = tracer.store.get(index).has_non_slice();
        found = found || queue_has;
        index = index + 1;
    }
    assert(qs.take(len as int) =~= qs);
    found
}

/// Every span that ends while tracing is on is returned by the next flush,
/// together with every span that was pending before it ended: ending a
/// span adds exactly that span to the pending spans (see [`end_span`]) and
/// a flush returns exactly the pending spans (see [`flush`]).
pub proof fn law_ended_span_reaches_flush(
    before: Tracer,
    after: Tracer,
    ended: RawSpan,
    flushed: Seq<RawSpan>,
)
    requires
        after.pending().to_multiset() == before.pending().to_multiset().insert(ended),
        flushed == after.pending(),
    ensures
        flushed.contains(ended),
        forall|s: RawSpan| before.pending().contains(s) ==> flushed.contains(s),
        flushed.len() == before.pending().len() + 1,
{
    broadcast use vstd::multiset::group_multiset_axioms, vstd::seq_lib::group_to_multiset_ensures;

    assert(flushed.to_multiset().count(ended) > 0);
    assert(flushed.to_multiset().len() == flushed.len());
    assert(before.pending().to_multiset().len() == before.pending().len());
    assert(before.pending().to_multiset().insert(ended).len() == before.pending().len() + 1);
    assert forall|s: RawSpan| before.pending().contains(s) implies flushed.contains(s) by {
        assert(before.pending().to_multiset().count(s) > 0);
        assert(flushed.to_multiset().count(s) > 0);
    }
}

} // verus!
