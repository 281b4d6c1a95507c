//! Per-shard span queues that batch finished spans, and the table of track
//! descriptors waiting to be written.
use vstd::prelude::*;

use crate::span::{is_descriptor, RawSpan, Type};

verus! {

/// A queue hands its spans on once it holds this many.
pub const DEFAULT_BATCH_SIZE: usize = 16384 / 16;

/// What a span queue asks of the consumer.
pub enum Command {
    SendSpans(Vec<RawSpan>),
}

/// The spans that a command (if any) hands to the consumer.
pub open spec fn command_spans(cmd: Option<Command>) -> Seq<RawSpan> {
    match cmd {
        Some(Command::SendSpans(spans)) => spans@,
        None => Seq::empty(),
    }
}

/// Whether a span of type `t` can be shown as a timed slice: it is no
/// descriptor and no runtime start.
pub open spec fn is_slice(t: Type) -> bool {
    !is_descriptor(t) && !(t is RuntimeStart)
}

/// Whether some span of `spans` cannot be shown as a slice.
pub open spec fn has_non_slice(spans: Seq<RawSpan>) -> bool {
    exists|i: int| 0 <= i < spans.len() && !is_slice((#[trigger] spans[i]).typ)
}

/// Only descriptors and runtime starts are not slices: a task, a park or a
/// runtime terminate span is always written as a begin and an end packet,
/// so spans holding none of the others have no non-slice.
pub proof fn law_timed_spans_are_slices(t: Type, spans: Seq<RawSpan>)
    ensures
        is_slice(t) <==> (t is RunTask || t is RuntimePark || t is RuntimeTerminate),
        (forall|i: int|
            0 <= i < spans.len() ==> (#[trigger] spans[i]).typ is RunTask || spans[i].typ is RuntimePark
                || spans[i].typ is RuntimeTerminate) ==> !has_non_slice(spans),
{
    if forall|i: int|
        0 <= i < spans.len() ==> (#[trigger] spans[i]).typ is RunTask || spans[i].typ is RuntimePark
            || spans[i].typ is RuntimeTerminate {
        if has_non_slice(spans) {
            let i = choose|i: int| 0 <= i < spans.len() && !is_slice((#[trigger] spans[i]).typ);
            assert(spans[i].typ is RunTask || spans[i].typ is RuntimePark || spans[i].typ is RuntimeTerminate);
        }
    }
}

/// A non-slice is among `a + b` exactly when it is among `a` or among `b`.
pub proof fn lemma_non_slice_concat(a: Seq<RawSpan>, b: Seq<RawSpan>)
    ensures
        has_non_slice(a + b) == (has_non_slice(a) || has_non_slice(b)),
{
    let c = a + b;
    if has_non_slice(c) {
        let i = choose|i: int| 0 <= i < c.len() && !is_slice((#[trigger] c[i]).typ);
        if i < a.len() {
            assert(a[i] == c[i]);
        } else {
            assert(b[i - a.len()] == c[i]);
        }
    }
    if has_non_slice(a) {
        let i = choose|i: int| 0 <= i < a.len() && !is_slice((#[trigger] a[i]).typ);
        assert(c[i] == a[i]);
    }
    if has_non_slice(b) {
        let i = choose|i: int| 0 <= i < b.len() && !is_slice((#[trigger] b[i]).typ);
        assert(c[i + a.len()] == b[i]);
    }
}

/// Whether some span of `spans` cannot be shown as a slice.
pub fn find_non_slice(spans: &Vec<RawSpan>) -> (res: bool)
    ensures
        res == has_non_slice(spans@),
{
    let mut i: usize = 0;
    while i < spans.len()
        invariant
            i <= spans@.len(),
            forall|j: int| 0 <= j < i ==> is_slice((#[trigger] spans@[j]).typ),
        decreases spans@.len() - i,
    {
        let slice = match &spans[i].typ {
            Type::RuntimeStart(_) | Type::ThreadDiscriptor(_) | Type::ProcessDiscriptor(_) => false,
            _ => true,
        };
        if !slice {
            assert(!is_slice((spans@[i as int]).typ));
            return true;
        }
        i = i + 1;
    }
    false
}

/// A queue of finished spans of one shard, handed on in batches.
pub struct SpanQueue {
    spans: Vec<RawSpan>,
}

impl SpanQueue {
    /// The spans waiting in the queue, oldest first.
    pub closed spec fn view(&self) -> Seq<RawSpan> {
        self.spans@
    }

    /// A queue never holds a whole batch: a full batch is handed on at once.
    #[verifier::type_invariant]
    spec fn below_batch(&self) -> bool {
        self.spans@.len() < DEFAULT_BATCH_SIZE
    }

    pub fn new() -> (res: Self)
        ensures
            res.view() == Seq::<RawSpan>::empty(),
    {
        SpanQueue { spans: Vec::with_capacity(DEFAULT_BATCH_SIZE) }
    }

    /// Queues `span`; when that completes a batch, the whole batch is handed
    /// on and the queue starts empty again.
    pub fn push(&mut self, span: RawSpan) -> (cmd: Option<Command>)
        ensures
            old(self).view().len() + 1 == DEFAULT_BATCH_SIZE ==> {
                &&& cmd is Some
                &&& command_spans(cmd) == old(self).view().push(span)
                &&& final(self).view() == Seq::<RawSpan>::empty()
            },
            old(self).view().len() + 1 != DEFAULT_BATCH_SIZE ==> {
                &&& cmd is None
                &&& final(self).view() == old(self).view().push(span)
            },
    {
        proof {
            use_type_invariant(&*self);
        }
        let mut spans: Vec<RawSpan> = Vec::new();
        std::mem::swap(&mut spans, &mut self.spans);
        spans.push(span);
        if spans.len() == DEFAULT_BATCH_SIZE {
            self.spans = Vec::with_capacity(DEFAULT_BATCH_SIZE);
            Some(Command::SendSpans(spans))
        } else {
            self.spans = spans;
            None
        }
    }

    /// Whether a queued span cannot be shown as a slice.
    pub fn has_non_slice(&self) -> (res: bool)
        ensures
            res == has_non_slice(self.view()),
    {
        find_non_slice(&self.spans)
    }

    /// Hands on every queued span, oldest first, and empties the queue.
    pub fn flush(&mut self) -> (cmd: Command)
        ensures
            final(self).view() == Seq::<RawSpan>::empty(),
            command_spans(Some(cmd)) == old(self).view(),
    {
        let mut spans: Vec<RawSpan> = Vec::with_capacity(DEFAULT_BATCH_SIZE);
        std::mem::swap(&mut spans, &mut self.spans);
        Command::SendSpans(spans)
    }
}

/// The span queues of all shards.
pub struct SpanQueueStore {
    span_queues: Vec<SpanQueue>,
    shard_num: usize,
}

impl SpanQueueStore {
    /// The spans waiting in each queue, in registration order.
    pub closed spec fn queues(&self) -> Seq<Seq<RawSpan>> {
        Seq::new(self.span_queues@.len(), |i: int| self.span_queues@[i].view())
    }

    /// The number of shards that indices are taken modulo.
    pub closed spec fn spec_shard_num(&self) -> nat {
        self.shard_num as nat
    }

    /// The queue that serves `index`.
    pub open spec fn shard_of(&self, index: int) -> int {
        index % (self.spec_shard_num() as int)
    }

    /// An empty store whose indices are taken modulo `shard_num`.
    pub fn new(shard_num: usize) -> (res: SpanQueueStore)
        ensures
            res.queues() == Seq::<Seq<RawSpan>>::empty(),
            res.spec_shard_num() == shard_num,
    {
        let res = SpanQueueStore { span_queues: Vec::new(), shard_num };
        assert(res.queues() =~= Seq::<Seq<RawSpan>>::empty());
        res
    }

    /// Adds one more (empty) queue.
    pub fn register(&mut self)
        ensures
            final(self).queues() == old(self).queues().push(Seq::<RawSpan>::empty()),
            final(self).spec_shard_num() == old(self).spec_shard_num(),
    {
        let queue = SpanQueue::new();
        self.span_queues.push(queue);
        assert(self.queues() =~= old(self).queues().push(Seq::<RawSpan>::empty()));
    }

    pub fn len(&self) -> (res: usize)
        ensures
            res == self.queues().len(),
    {
        self.span_queues.len()
    }

    /// The queue that serves `index`.
    pub fn get(&self, index: usize) -> (res: &SpanQueue)
        requires
            self.spec_shard_num() > 0,
            self.spec_shard_num() <= self.queues().len(),
        ensures
            res.view() == self.queues()[self.shard_of(index as int)],
    {
        let index = index % self.shard_num;
        &self.span_queues[index]
    }

    /// Queues `span` on the queue that serves `index`.
    pub fn push(&mut self, index: usize, span: RawSpan) -> (cmd: Option<Command>)
        requires
            old(self).spec_shard_num() > 0,
            old(self).spec_shard_num() <= old(self).queues().len(),
        ensures
            final(self).spec_shard_num() == old(self).spec_shard_num(),
            final(self).queues().len() == old(self).queues().len(),
            ({
                let i = old(self).shard_of(index as int);
                let q = old(self).queues()[i];
                &&& forall|j: int|
                    0 <= j < old(self).queues().len() && j != i ==> #[trigger] final(self).queues()[j]
                        == old(self).queues()[j]
                &&& q.len() + 1 == DEFAULT_BATCH_SIZE ==> {
                    &&& cmd is Some
                    &&& command_spans(cmd) == q.push(span)
                    &&& final(self).queues()[i] == Seq::<RawSpan>::empty()
                }
                &&& q.len() + 1 != DEFAULT_BATCH_SIZE ==> {
                    &&& cmd is None
                    &&& final(self).queues()[i] == q.push(span)
                }
            }),
    {
        let index = index % self.shard_num;
        let cmd = self.span_queues[index].push(span);
        cmd
    }

    /// Hands on every span queued for `index` and empties that queue.
    pub fn flush(&mut self, index: usize) -> (cmd: Command)
        requires
            old(self).spec_shard_num() > 0,
            old(self).spec_shard_num() <= old(self).queues().len(),
        ensures
            final(self).spec_shard_num() == old(self).spec_shard_num(),
            final(self).queues() == old(self).queues().update(
                old(self).shard_of(index as int),
                Seq::<RawSpan>::empty(),
            ),
            command_spans(Some(cmd)) == old(self).queues()[old(self).shard_of(index as int)],
    {
        let index = index % self.shard_num;
        let cmd = self.span_queues[index].flush();
        assert(self.queues() =~= old(self).queues().update(index as int, Seq::<RawSpan>::empty()));
        cmd
    }
}

/// Two optional strings with the same characters.
pub open spec fn same_text(a: Option<String>, b: Option<String>) -> bool {
    match (a, b) {
        (Some(x), Some(y)) => x@ == y@,
        (None, None) => true,
        _ => false,
    }
}

/// Two span types that compare equal field by field, strings by their characters.
pub open spec fn same_type(a: Type, b: Type) -> bool {
    match (a, b) {
        (Type::RunTask(x), Type::RunTask(y)) => {
            &&& x.id == y.id
            &&& same_text(x.name, y.name)
            &&& match (x.file, y.file) {
                (Some(f), Some(g)) => f@ == g@,
                (None, None) => true,
                _ => false,
            }
            &&& x.line == y.line
            &&& x.col == y.col
            &&& same_text(x.backtrace, y.backtrace)
        },
        (Type::RuntimeStart(_), Type::RuntimeStart(_)) => true,
        (Type::RuntimeTerminate(_), Type::RuntimeTerminate(_)) => true,
        (Type::RuntimePark(_), Type::RuntimePark(_)) => true,
        (Type::ThreadDiscriptor(x), Type::ThreadDiscriptor(y)) => x.thread_name@ == y.thread_name@,
        (Type::ProcessDiscriptor(_), Type::ProcessDiscriptor(_)) => true,
        _ => false,
    }
}

/// Two spans that compare equal field by field, strings by their characters.
pub open spec fn same_span(a: RawSpan, b: RawSpan) -> bool {
    &&& same_type(a.typ, b.typ)
    &&& a.thread_id == b.thread_id
    &&& a.start == b.start
    &&& a.end == b.end
}

/// Whether some entry of `entries` holds a span equal to `span`.
pub open spec fn has_span(entries: Seq<(RawSpan, bool)>, span: RawSpan) -> bool {
    exists|i: int| 0 <= i < entries.len() && same_span(#[trigger] entries[i].0, span)
}

/// The spans of the entries not yet written out, in table order.
pub open spec fn unflushed(entries: Seq<(RawSpan, bool)>) -> Seq<RawSpan>
    decreases entries.len(),
{
    if entries.len() == 0 {
        Seq::empty()
    } else {
        let rest = unflushed(entries.drop_last());
        if entries.last().1 {
            rest
        } else {
            rest.push(entries.last().0)
        }
    }
}

/// The same entries, every one marked as written out.
pub open spec fn all_flushed(entries: Seq<(RawSpan, bool)>) -> Seq<(RawSpan, bool)> {
    Seq::new(entries.len(), |i: int| (entries[i].0, true))
}

/// Whether two optional strings hold the same characters.
fn same_text_exec(a: &Option<String>, b: &Option<String>) -> (res: bool)
    ensures
        res == same_text(*a, *b),
{
    match (a, b) {
        (Some(x), Some(y)) => x.eq(y),
        (None, None) => true,
        _ => false,
    }
}

/// Whether two optional string slices hold the same characters.
fn same_file(a: Option<&'static str>, b: Option<&'static str>) -> (res: bool)
    ensures
        res == match (a, b) {
            (Some(f), Some(g)) => f@ == g@,
            (None, None) => true,
            _ => false,
        },
{
    match (a, b) {
        (Some(f), Some(g)) => {
            let f: String = f.to_owned();
            let g: String = g.to_owned();
            f == g
        },
        (None, None) => true,
        _ => false,
    }
}

/// Whether two spans are equal: field by field, strings by their characters.
pub fn spans_equal(a: &RawSpan, b: &RawSpan) -> (res: bool)
    ensures
        res == same_span(*a, *b),
{
    if a.thread_id != b.thread_id || a.start != b.start || a.end != b.end {
        return false;
    }
    match (&a.typ, &b.typ) {
        (Type::RunTask(x), Type::RunTask(y)) => {
            x.id == y.id && same_text_exec(&x.name, &y.name) && same_file(x.file, y.file)
                && x.line == y.line && x.col == y.col && same_text_exec(
                &x.backtrace,
                &y.backtrace,
            )
        },
        (Type::RuntimeStart(_), Type::RuntimeStart(_)) => true,
        (Type::RuntimeTerminate(_), Type::RuntimeTerminate(_)) => true,
        (Type::RuntimePark(_), Type::RuntimePark(_)) => true,
        (Type::ThreadDiscriptor(x), Type::ThreadDiscriptor(y)) => x.thread_name == y.thread_name,
        (Type::ProcessDiscriptor(_), Type::ProcessDiscriptor(_)) => true,
        _ => false,
    }
}

/// Spans that are all descriptors.
pub open spec fn are_descriptors(spans: Seq<RawSpan>) -> bool {
    forall|i: int| 0 <= i < spans.len() ==> is_descriptor(#[trigger] spans[i].typ)
}

/// A table in which no two entries hold equal spans.
pub open spec fn table_well_formed(entries: Seq<(RawSpan, bool)>) -> bool {
    forall|i: int, j: int|
        0 <= i < j < entries.len() ==> !same_span(#[trigger] entries[i].0, #[trigger] entries[j].0)
}

/// The spans not yet written out of `entries` plus one more entry.
pub proof fn lemma_unflushed_push(entries: Seq<(RawSpan, bool)>, e: (RawSpan, bool))
    ensures
        unflushed(entries.push(e)) == if e.1 {
            unflushed(entries)
        } else {
            unflushed(entries).push(e.0)
        },
{
    assert(entries.push(e).drop_last() =~= entries);
}

/// An entry not yet written out is among the unflushed spans.
pub proof fn lemma_unflushed_holds(entries: Seq<(RawSpan, bool)>, i: int)
    requires
        0 <= i < entries.len(),
        !entries[i].1,
    ensures
        exists|k: int|
            0 <= k < unflushed(entries).len() && #[trigger] unflushed(entries)[k] == entries[i].0,
    decreases entries.len(),
{
    let rest = unflushed(entries.drop_last());
    if i == entries.len() - 1 {
        assert(unflushed(entries)[rest.len() as int] == entries[i].0);
    } else {
        lemma_unflushed_holds(entries.drop_last(), i);
        let k = choose|k: int|
            0 <= k < rest.len() && #[trigger] rest[k] == entries.drop_last()[i].0;
        assert(unflushed(entries)[k] == entries[i].0);
    }
}

/// The table after adding `span`: an entry with an equal span keeps its span
/// and is marked as not written out; otherwise `span` is appended as not
/// written out.
pub open spec fn add_outcome(entries: Seq<(RawSpan, bool)>, span: RawSpan) -> Seq<(RawSpan, bool)> {
    if has_span(entries, span) {
        Seq::new(
            entries.len(),
            |i: int|
                if same_span(entries[i].0, span) {
                    (entries[i].0, false)
                } else {
                    entries[i]
                },
        )
    } else {
        entries.push((span, false))
    }
}

/// Adding a span touches no other entry: every entry whose span differs
/// keeps its span and its written-out flag, an entry with an equal span
/// keeps its span and is marked not written, and a new span is appended
/// last. So after a drain, adding a new descriptor makes the next drain
/// return exactly that descriptor.
pub proof fn law_add_changes_no_other_entry(entries: Seq<(RawSpan, bool)>, span: RawSpan)
    ensures
        ({
            let a = add_outcome(entries, span);
            &&& a.len() == if has_span(entries, span) {
                entries.len()
            } else {
                entries.len() + 1
            }
            &&& forall|i: int|
                0 <= i < entries.len() && !same_span(entries[i].0, span) ==> #[trigger] a[i]
                    == entries[i]
            &&& forall|i: int|
                0 <= i < entries.len() && same_span(entries[i].0, span) ==> #[trigger] a[i] == (
                    entries[i].0,
                    false,
                )
            &&& !has_span(entries, span) ==> a[entries.len() as int] == (span, false)
        }),
        !has_span(entries, span) ==> unflushed(add_outcome(all_flushed(entries), span)) == seq![
            span,
        ],
{
    if !has_span(entries, span) {
        let f = all_flushed(entries);
        if has_span(f, span) {
            let i = choose|i: int| 0 <= i < f.len() && same_span(#[trigger] f[i].0, span);
            assert(same_span(entries[i].0, span));
        }
        lemma_unflushed_push(f, (span, false));
        law_drain_twice_yields_nothing(entries);
        assert(add_outcome(f, span) == f.push((span, false)));
        assert(unflushed(f).push(span) =~= seq![span]);
    }
}

/// Once a drain marks every entry written out, a second drain returns nothing.
pub proof fn law_drain_twice_yields_nothing(entries: Seq<(RawSpan, bool)>)
    ensures
        unflushed(all_flushed(entries)) == Seq::<RawSpan>::empty(),
    decreases entries.len(),
{
    if entries.len() > 0 {
        assert(all_flushed(entries).drop_last() =~= all_flushed(entries.drop_last()));
        law_drain_twice_yields_nothing(entries.drop_last());
    }
}

/// Each descriptor is returned by exactly one drain: after adding a span to
/// any table, the next drain returns a span equal to it, and a drain after
/// that returns nothing unless more are added.
pub proof fn law_added_descriptor_drained_once(entries: Seq<(RawSpan, bool)>, span: RawSpan)
    ensures
        exists|k: int|
            0 <= k < unflushed(add_outcome(entries, span)).len() && same_span(
                #[trigger] unflushed(add_outcome(entries, span))[k],
                span,
            ),
        unflushed(all_flushed(add_outcome(entries, span))) == Seq::<RawSpan>::empty(),
{
    let a = add_outcome(entries, span);
    if has_span(entries, span) {
        let i = choose|i: int| 0 <= i < entries.len() && same_span(#[trigger] entries[i].0, span);
        assert(a[i] == (entries[i].0, false));
        lemma_unflushed_holds(a, i);
        let k = choose|k: int| 0 <= k < unflushed(a).len() && #[trigger] unflushed(a)[k] == a[i].0;
        assert(same_span(unflushed(a)[k], span));
    } else {
        lemma_unflushed_push(entries, (span, false));
        let u = unflushed(a);
        assert(u[u.len() - 1] == span);
        assert(same_span(u[u.len() - 1], span));
    }
    law_drain_twice_yields_nothing(a);
}

/// The track descriptors seen so far, each with whether it has been written
/// out; no two entries hold equal spans.
pub struct DescriptorTable {
    entries: Vec<(RawSpan, bool)>,
}

impl DescriptorTable {
    pub closed spec fn entries(&self) -> Seq<(RawSpan, bool)> {
        self.entries@
    }

    #[verifier::type_invariant]
    spec fn no_two_equal(&self) -> bool {
        table_well_formed(self.entries@)
    }

    /// No two entries hold equal spans.
    pub open spec fn well_formed(&self) -> bool {
        table_well_formed(self.entries())
    }

    pub fn new() -> (res: Self)
        ensures
            res.well_formed(),
            res.entries() == Seq::<(RawSpan, bool)>::empty(),
    {
        DescriptorTable { entries: Vec::new() }
    }

    /// Whether the table holds a span equal to `span`.
    pub fn contains(&self, span: &RawSpan) -> (res: bool)
        ensures
            res == has_span(self.entries(), *span),
    {
        let mut i: usize = 0;
        while i < self.entries.len()
            invariant
                i <= self.entries@.len(),
                forall|j: int| 0 <= j < i ==> !same_span(#[trigger] self.entries@[j].0, *span),
            decreases self.entries@.len() - i,
        {
            if spans_equal(&self.entries[i].0, span) {
                assert(same_span(self.entries@[i as int].0, *span));
                return true;
            }
            i = i + 1;
        }
        false
    }

    /// Records `span` as not written out yet: an entry with an equal span is
    /// marked so, otherwise `span` is added.
    pub fn add_descriptor(&mut self, span: RawSpan)
        ensures
            final(self).well_formed(),
            final(self).entries() == add_outcome(old(self).entries(), span),
    {
        proof {
            use_type_invariant(&*self);
        }
        let mut entries: Vec<(RawSpan, bool)> = Vec::new();
        std::mem::swap(&mut entries, &mut self.entries);
        let ghost e = entries@;
        let n = entries.len();
        let mut i: usize = 0;
        while i < n
            invariant
                n == e.len(),
                entries@ == e,
                e == old(self).entries@,
                table_well_formed(e),
                i <= n,
                forall|j: int| 0 <= j < i ==> !same_span(#[trigger] e[j].0, span),
            decreases n - i,
        {
            if spans_equal(&entries[i].0, &span) {
                entries[i].1 = false;
                proof {
                    assert(has_span(e, span));
                    assert forall|j: int| 0 <= j < n && j != i implies !same_span(
                        #[trigger] e[j].0,
                        span,
                    ) by {
                        if j < i {
                            assert(!same_span(e[j].0, e[i as int].0));
                        } else {
                            assert(!same_span(e[i as int].0, e[j].0));
                        }
                    }
                    assert(entries@ =~= add_outcome(e, span));
                    assert forall|a: int, b: int| 0 <= a < b < n implies !same_span(
                        #[trigger] entries@[a].0,
                        #[trigger] entries@[b].0,
                    ) by {
                        assert(entries@[a].0 == e[a].0 && entries@[b].0 == e[b].0);
                    }
                }
                self.entries = entries;
                return;
            }
            i = i + 1;
        }
        entries.push((span, false));
        proof {
            assert(!has_span(e, span));
            let f = entries@;
            assert forall|a: int, b: int| 0 <= a < b < f.len() implies !same_span(
                #[trigger] f[a].0,
                #[trigger] f[b].0,
            ) by {
                if b == f.len() - 1 {
                    assert(!same_span(e[a].0, span));
                } else {
                    assert(f[a] == e[a] && f[b] == e[b]);
                }
            }
        }
        self.entries = entries;
    }

    /// Whether every span not yet written out is a descriptor.
    pub fn unflushed_are_descriptors(&self) -> (res: bool)
        ensures
            res == are_descriptors(unflushed(self.entries())),
    {
        let mut ok = true;
        let mut i: usize = 0;
        let ghost e = self.entries@;
        while i < self.entries.len()
            invariant
                i <= e.len(),
                e == self.entries@,
                ok == are_descriptors(unflushed(e.take(i as int))),
            decreases e.len() - i,
        {
            proof {
                assert(e.take(i + 1) =~= e.take(i as int).push(e[i as int]));
                lemma_unflushed_push(e.take(i as int), e[i as int]);
                let u = unflushed(e.take(i as int));
                if !e[i as int].1 {
                    let w = u.push(e[i as int].0);
                    assert(are_descriptors(w) == (are_descriptors(u) && is_descriptor(
                        e[i as int].0.typ,
                    ))) by {
                        if are_descriptors(u) && is_descriptor(e[i as int].0.typ) {
                            assert forall|j: int| 0 <= j < w.len() implies is_descriptor(
                                #[trigger] w[j].typ,
                            ) by {
                                if j < u.len() {
                                    assert(w[j] == u[j]);
                                }
                            }
                        }
                        if are_descriptors(w) {
                            assert forall|j: int| 0 <= j < u.len() implies is_descriptor(
                                #[trigger] u[j].typ,
                            ) by {
                                assert(w[j] == u[j]);
                            }
                            assert(w[w.len() - 1] == e[i as int].0);
                        }
                    }
                }
            }
            if !self.entries[i].1 && !self.entries[i].0.typ.is_descriptor() {
                ok = false;
            }
            i = i + 1;
        }
        proof {
            assert(e.take(e.len() as int) =~= e);
        }
        ok
    }

    /// Marks every descriptor as written out and returns those that were not, in table order.
    pub fn drain_descriptors(&mut self) -> (res: Vec<RawSpan>)
        ensures
            final(self).well_formed(),
            res@ == unflushed(old(self).entries()),
            final(self).entries() == all_flushed(old(self).entries()),
    {
        proof {
            use_type_invariant(&*self);
        }
        let mut entries: Vec<(RawSpan, bool)> = Vec::new();
        std::mem::swap(&mut entries, &mut self.entries);
        let ghost e = entries@;
        let mut out: Vec<RawSpan> = Vec::new();
        let mut i: usize = 0;
        let n = entries.len();
        while i < n
            invariant
                n == entries@.len() == e.len(),
                i <= n,
                out@ == unflushed(e.take(i as int)),
                forall|j: int|
                    0 <= j < n ==> #[trigger] entries@[j] == if j < i {
                        (e[j].0, true)
                    } else {
                        e[j]
                    },
            decreases n - i,
        {
            assert(e.take(i + 1).drop_last() =~= e.take(i as int));
            let flushed = entries[i].1;
            if !flushed {
                let span = entries[i].0.copy();
                out.push(span);
                entries[i].1 = true;
            }
            i = i + 1;
        }
        assert(e.take(n as int) =~= e);
        assert(entries@ =~= all_flushed(e));
        assert forall|a: int, b: int| 0 <= a < b < n implies !same_span(
            #[trigger] entries@[a].0,
            #[trigger] entries@[b].0,
        ) by {
            assert(entries@[a].0 == e[a].0 && entries@[b].0 == e[b].0);
        }
        self.entries = entries;
        out
    }
}

} // verus!
