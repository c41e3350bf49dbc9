//! The ingestion/dispatch pipeline: classification, the bounded queue and
//! the publish worker's policy.
//!
//! One dispatcher consumes the inbound stream and forwards transaction and
//! block-meta updates onto a bounded queue; one worker drains the queue,
//! formats each message and publishes the record. The queue is the sole
//! backpressure valve: a full queue refuses the item and the producer must
//! wait, it never drops. The `Shutdown` sentinel is the last value the
//! worker consumes, and a failed publish is fatal: no further publish is
//! ever attempted.

use vstd::prelude::*;
use crate::format::{
    block_meta_partition_key, format_block_meta, format_transaction, transaction_partition_key,
    AccountUpdate, BlockMetaUpdate, SlotUpdate, TransactionUpdate,
};
use crate::format::{block_meta_record_matches, tx_record_payload_matches};
use crate::encode::b58_of;
use crate::json::{empty_object, JsonValue};

verus! {

/// Capacity of the bounded queue between dispatcher and worker.
pub const CHANNEL_SIZE: usize = 50000;

/// Seconds between two upstream-lag samples.
pub const LAG_WINDOW_SECS: u64 = 5;

/// The update kinds the upstream feed emits. Only transactions and block
/// metadata travel on to the queue in this version; every other kind is
/// acknowledged and discarded without side effects.
#[derive(Debug, PartialEq)]
pub enum UpdateEnvelope {
    Account(AccountUpdate),
    Slot(SlotUpdate),
    Transaction(TransactionUpdate),
    TransactionStatus,
    Entry,
    Block,
    BlockMeta(BlockMetaUpdate),
    Ping,
    Pong,
}

/// The messages carried on the bounded queue. `Shutdown` is the sentinel
/// enqueued after the producer has stopped; it is the last value the
/// consumer observes.
#[derive(Debug, PartialEq)]
pub enum ProcessingMessage {
    Transaction(TransactionUpdate),
    BlockMetadata(BlockMetaUpdate),
    Shutdown,
}

/// One record published to the bus: a partition key and a JSON-like
/// payload, never mutated after creation.
#[derive(Debug, PartialEq)]
pub struct CanonicalRecord {
    pub key: String,
    pub payload: JsonValue,
}

/// Sort an update: transactions and block metadata become queue messages,
/// everything else is discarded.
pub fn classify_update(update: UpdateEnvelope) -> (r: Option<ProcessingMessage>)
    ensures
        (update matches UpdateEnvelope::Transaction(t)
            ==> r == Some(ProcessingMessage::Transaction(t))),
        (update matches UpdateEnvelope::BlockMeta(b)
            ==> r == Some(ProcessingMessage::BlockMetadata(b))),
        (!(update is Transaction) && !(update is BlockMeta) ==> r is None),
{
    match update {
        UpdateEnvelope::Transaction(t) => Option::Some(ProcessingMessage::Transaction(t)),
        UpdateEnvelope::BlockMeta(b) => Option::Some(ProcessingMessage::BlockMetadata(b)),
        UpdateEnvelope::Account(_) => Option::None,
        UpdateEnvelope::Slot(_) => Option::None,
        UpdateEnvelope::TransactionStatus => Option::None,
        UpdateEnvelope::Entry => Option::None,
        UpdateEnvelope::Block => Option::None,
        UpdateEnvelope::Pong => Option::None,
        UpdateEnvelope::Ping => Option::None,
    }
}

/// The bounded single-producer/single-consumer queue, modelled as the
/// sequence of messages in flight. Fixed capacity bounds memory growth
/// under a publish slowdown; a full queue refuses the item rather than
/// dropping it.
pub struct MessageQueue {
    items: Vec<ProcessingMessage>,
    capacity: usize,
}

impl MessageQueue {
    /// The messages in flight, oldest first.
    pub closed spec fn contents(&self) -> Seq<ProcessingMessage> {
        self.items@
    }

    /// The fixed capacity the queue was created with.
    pub closed spec fn cap(&self) -> int {
        self.capacity as int
    }

    pub fn new(capacity: usize) -> (q: Self)
        requires
            capacity >= 1,
        ensures
            q.contents() == Seq::<ProcessingMessage>::empty(),
            q.cap() == capacity,
    {
        let q = MessageQueue { items: Vec::new(), capacity };
        proof {
            assert(q.contents() =~= Seq::<ProcessingMessage>::empty());
        }
        q
    }

    pub fn len(&self) -> (n: usize)
        ensures
            n == self.contents().len(),
    {
        self.items.len()
    }

    pub fn is_empty(&self) -> (r: bool)
        ensures
            r == (self.contents().len() == 0),
    {
        self.items.len() == 0
    }

    pub fn is_full(&self) -> (r: bool)
        ensures
            r == (self.contents().len() >= self.cap()),
    {
        self.items.len() >= self.capacity
    }

    /// Offer a message to the queue. A full queue refuses it and is left
    /// unchanged — the producer suspends and offers it again once the
    /// consumer has freed capacity; under backpressure no message is ever
    /// dropped.
    pub fn try_enqueue(&mut self, m: ProcessingMessage) -> (ok: bool)
        ensures
            final(self).cap() == old(self).cap(),
            ok == (old(self).contents().len() < old(self).cap()),
            ok ==> final(self).contents() == old(self).contents().push(m),
            !ok ==> final(self).contents() == old(self).contents(),
    {
        if self.items.len() < self.capacity {
            self.items.push(m);
            true
        } else {
            false
        }
    }

    /// Take the oldest message, if any: strict first-in/first-out order.
    pub fn dequeue(&mut self) -> (r: Option<ProcessingMessage>)
        ensures
            final(self).cap() == old(self).cap(),
            old(self).contents().len() == 0 ==> r is None && final(self).contents()
                == old(self).contents(),
            old(self).contents().len() > 0 ==> r == Some(old(self).contents()[0])
                && final(self).contents() == old(self).contents().skip(1),
    {
        if self.items.len() == 0 {
            Option::None
        } else {
            let m = self.items.remove(0);
            proof {
                assert(self.items@ =~= old(self).contents().skip(1));
            }
            Option::Some(m)
        }
    }
}

/// The dispatcher's lifecycle: it runs, then drains once the stream ends
/// or the consumer side closes, then stops — one direction, no cycle.
#[derive(Debug, Clone, Copy, PartialEq, Eq)]
pub enum DispatcherPhase {
    Running,
    Draining,
    Stopped,
}

/// One observation the dispatcher reacts to.
#[derive(Debug, PartialEq)]
pub enum StreamEvent {
    /// The stream yielded an update.
    Item(UpdateEnvelope),
    /// The stream yielded a per-item transport error.
    TransportError,
    /// The stream ended.
    StreamEnd,
}

/// What the caller must do after the dispatcher has seen an event.
#[derive(Debug, PartialEq)]
pub enum DispatchAction {
    /// Enqueue this message; suspend and retry while the queue is full.
    Forward(ProcessingMessage),
    /// Nothing: the update kind is not consumed.
    Discard,
    /// Log the transport error and keep reading: it is not fatal.
    LogAndContinue,
    /// Stop reading and enqueue the shutdown sentinel, best effort.
    BeginShutdown,
}

/// The dispatcher's decision logic: a state machine fed one event at a
/// time by the loop that owns the stream.
pub struct StreamDispatcher {
    phase: DispatcherPhase,
}

impl StreamDispatcher {
    /// The lifecycle phase the dispatcher is in.
    pub closed spec fn phase(&self) -> DispatcherPhase {
        self.phase
    }

    pub fn new() -> (d: Self)
        ensures
            d.phase() == DispatcherPhase::Running,
    {
        StreamDispatcher { phase: DispatcherPhase::Running }
    }

    /// React to the next stream observation. Per-item transport errors are
    /// absorbed; unconsumed kinds are discarded with no side effect; the
    /// end of the stream begins the drain.
    pub fn on_event(&mut self, e: StreamEvent) -> (a: DispatchAction)
        requires
            old(self).phase() == DispatcherPhase::Running,
        ensures
            (e matches StreamEvent::Item(u) ==> final(self).phase() == DispatcherPhase::Running
                && (match classify_spec(u) {
                    Some(m) => a == DispatchAction::Forward(m),
                    None => a == DispatchAction::Discard,
                })),
            e is TransportError ==> final(self).phase() == DispatcherPhase::Running
                && a == DispatchAction::LogAndContinue,
            e is StreamEnd ==> final(self).phase() == DispatcherPhase::Draining
                && a == DispatchAction::BeginShutdown,
    {
        match e {
            StreamEvent::Item(u) => {
                match classify_update(u) {
                    Option::Some(m) => DispatchAction::Forward(m),
                    Option::None => DispatchAction::Discard,
                }
            },
            StreamEvent::TransportError => DispatchAction::LogAndContinue,
            StreamEvent::StreamEnd => {
                self.phase = DispatcherPhase::Draining;
                DispatchAction::BeginShutdown
            },
        }
    }

    /// The consumer side of the queue has closed: stop reading and drain.
    pub fn on_queue_closed(&mut self)
        requires
            old(self).phase() == DispatcherPhase::Running,
        ensures
            final(self).phase() == DispatcherPhase::Draining,
    {
        self.phase = DispatcherPhase::Draining;
    }

    /// The shutdown sentinel has been offered (best effort): stop.
    pub fn finish(&mut self)
        requires
            old(self).phase() == DispatcherPhase::Draining,
        ensures
            final(self).phase() == DispatcherPhase::Stopped,
    {
        self.phase = DispatcherPhase::Stopped;
    }
}

/// What an update classifies to, stated at the specification level.
pub open spec fn classify_spec(u: UpdateEnvelope) -> Option<ProcessingMessage> {
    match u {
        UpdateEnvelope::Transaction(t) => Some(ProcessingMessage::Transaction(t)),
        UpdateEnvelope::BlockMeta(b) => Some(ProcessingMessage::BlockMetadata(b)),
        _ => None,
    }
}

/// Watermark slots observed at the three commitment levels, sampled at
/// most once per lag window; used for operator-facing lag logging only.
#[derive(Debug, Clone, Copy, PartialEq, Eq)]
pub struct WatermarkSample {
    pub observed_slot: u64,
    pub processed_slot: u64,
    pub confirmed_slot: u64,
    pub finalized_slot: u64,
}

/// Whether enough of the lag window has elapsed for a new sample.
pub fn should_sample(elapsed_secs: u64) -> (r: bool)
    ensures
        r == (elapsed_secs >= LAG_WINDOW_SECS),
{
    elapsed_secs >= LAG_WINDOW_SECS
}

/// The three watermark queries are independently best-effort; lag is
/// logged only when all three succeeded in this window.
pub fn watermarks_complete(
    processed: &Option<u64>,
    confirmed: &Option<u64>,
    finalized: &Option<u64>,
) -> (r: bool)
    ensures
        r == (processed is Some && confirmed is Some && finalized is Some),
{
    processed.is_some() && confirmed.is_some() && finalized.is_some()
}

/// A queue message the worker would publish: a transaction whose inner
/// payload is present, or block metadata. The shutdown sentinel and
/// payload-less transactions produce no record.
pub open spec fn publishable(m: ProcessingMessage) -> bool {
    match m {
        ProcessingMessage::Transaction(u) => u.transaction is Some,
        ProcessingMessage::BlockMetadata(_) => true,
        ProcessingMessage::Shutdown => false,
    }
}

/// The record published for a transaction: keyed by the base-58 signature;
/// the payload is the formatted transaction, or an empty object when
/// formatting failed — the failed item still occupies its slot on the bus.
pub open spec fn tx_record_matches(r: CanonicalRecord, u: TransactionUpdate) -> bool {
    u.transaction matches Some(info) && {
        &&& r.key@ == b58_of(info.signature@)
        &&& (match info.encoded {
            Some(JsonValue::Object(base)) => tx_record_payload_matches(r.payload, base@, u.slot),
            _ => (r.payload matches JsonValue::Object(f) && f@.len() == 0),
        })
    }
}

/// The record published for block metadata: keyed by the base-58 text of
/// the block hash's bytes, with the formatted payload.
pub open spec fn meta_record_matches(r: CanonicalRecord, m: BlockMetaUpdate) -> bool {
    &&& r.key@ == b58_of(vstd::utf8::encode_utf8(m.blockhash@))
    &&& block_meta_record_matches(r.payload, m)
}

/// The record belonging to a queue message, for the kinds that publish.
pub open spec fn record_matches_message(r: CanonicalRecord, m: ProcessingMessage) -> bool {
    match m {
        ProcessingMessage::Transaction(u) => tx_record_matches(r, u),
        ProcessingMessage::BlockMetadata(b) => meta_record_matches(r, b),
        ProcessingMessage::Shutdown => false,
    }
}

/// What the worker does with one queue message.
#[derive(Debug, PartialEq)]
pub enum WorkerAction {
    /// Publish this record; a failure is fatal to the process.
    Publish(CanonicalRecord),
    /// Nothing to publish for this message.
    Skip,
    /// The shutdown sentinel: stop the loop, dequeue nothing further.
    Stop,
}

/// Decide what one queue message becomes: the shutdown sentinel stops the
/// worker, a transaction without its inner payload is skipped, and every
/// other message yields its record.
pub fn worker_handle(msg: ProcessingMessage) -> (a: WorkerAction)
    ensures
        msg is Shutdown ==> a is Stop,
        (msg matches ProcessingMessage::Transaction(u) && u.transaction is None ==> a is Skip),
        publishable(msg) ==> (a matches WorkerAction::Publish(r) && record_matches_message(
            r,
            msg,
        )),
{
    match msg {
        ProcessingMessage::Shutdown => WorkerAction::Stop,
        ProcessingMessage::Transaction(u) => {
            let slot = u.slot;
            match u.transaction {
                Option::None => WorkerAction::Skip,
                Option::Some(info) => {
                    let key = transaction_partition_key(&info.signature);
                    let update = TransactionUpdate { transaction: Option::Some(info), slot };
                    let payload = match format_transaction(update) {
                        Result::Ok(v) => v,
                        Result::Err(_) => empty_object(),
                    };
                    WorkerAction::Publish(CanonicalRecord { key, payload })
                },
            }
        },
        ProcessingMessage::BlockMetadata(b) => {
            let key = block_meta_partition_key(&b.blockhash);
            let payload = match format_block_meta(b) {
                Result::Ok(v) => v,
                Result::Err(_) => empty_object(),
            };
            WorkerAction::Publish(CanonicalRecord { key, payload })
        },
    }
}

/// Number of publishable messages in a sequence.
pub open spec fn count_publishable(s: Seq<ProcessingMessage>) -> int
    decreases s.len(),
{
    if s.len() == 0 {
        0
    } else {
        (if publishable(s[0]) {
            1int
        } else {
            0int
        }) + count_publishable(s.drop_first())
    }
}

/// The n-th publishable message of a sequence (counting from zero).
pub open spec fn nth_publishable(s: Seq<ProcessingMessage>, n: int) -> ProcessingMessage
    decreases s.len(),
{
    if s.len() == 0 {
        ProcessingMessage::Shutdown
    } else if publishable(s[0]) {
        if n == 0 {
            s[0]
        } else {
            nth_publishable(s.drop_first(), n - 1)
        }
    } else {
        nth_publishable(s.drop_first(), n)
    }
}

proof fn lemma_count_publishable_nonneg(s: Seq<ProcessingMessage>)
    ensures
        count_publishable(s) >= 0,
    decreases s.len(),
{
    if s.len() > 0 {
        lemma_count_publishable_nonneg(s.drop_first());
    }
}

/// Appending one message leaves the earlier publishable messages where
/// they were; a publishable one takes the next position.
proof fn lemma_publishable_snoc(s: Seq<ProcessingMessage>, m: ProcessingMessage)
    ensures
        count_publishable(s.push(m)) == count_publishable(s) + (if publishable(m) {
            1int
        } else {
            0int
        }),
        forall|j: int| 0 <= j < count_publishable(s) ==> nth_publishable(s.push(m), j)
            == nth_publishable(s, j),
        publishable(m) ==> nth_publishable(s.push(m), count_publishable(s)) == m,
    decreases s.len(),
{
    lemma_count_publishable_nonneg(s);
    if s.len() == 0 {
        assert(s.push(m)[0] == m);
        assert(s.push(m).drop_first() =~= Seq::<ProcessingMessage>::empty());
        assert(count_publishable(s.push(m)) == (if publishable(m) {
            1int
        } else {
            0int
        }) + count_publishable(s.push(m).drop_first()));
        assert(count_publishable(s.push(m).drop_first()) == 0);
        assert(count_publishable(s) == 0);
    } else {
        lemma_publishable_snoc(s.drop_first(), m);
        lemma_count_publishable_nonneg(s.drop_first());
        assert(s.push(m).drop_first() =~= s.drop_first().push(m));
        assert(s.push(m)[0] == s[0]);
        assert(count_publishable(s.push(m)) == (if publishable(s[0]) {
            1int
        } else {
            0int
        }) + count_publishable(s.drop_first().push(m)));
        assert(count_publishable(s) == (if publishable(s[0]) {
            1int
        } else {
            0int
        }) + count_publishable(s.drop_first()));
        assert forall|j: int| 0 <= j < count_publishable(s) implies nth_publishable(s.push(m), j)
            == nth_publishable(s, j) by {
            if publishable(s[0]) {
                if j > 0 {
                    assert(nth_publishable(s.push(m), j) == nth_publishable(
                        s.drop_first().push(m),
                        j - 1,
                    ));
                    assert(nth_publishable(s, j) == nth_publishable(s.drop_first(), j - 1));
                }
            } else {
                assert(nth_publishable(s.push(m), j) == nth_publishable(
                    s.drop_first().push(m),
                    j,
                ));
                assert(nth_publishable(s, j) == nth_publishable(s.drop_first(), j));
            }
        }
        if publishable(m) {
            if publishable(s[0]) {
                assert(nth_publishable(s.push(m), count_publishable(s)) == nth_publishable(
                    s.drop_first().push(m),
                    count_publishable(s) - 1,
                ));
            } else {
                assert(nth_publishable(s.push(m), count_publishable(s)) == nth_publishable(
                    s.drop_first().push(m),
                    count_publishable(s),
                ));
            }
        }
    }
}

/// The outcome of publish attempt `i`; attempts past the given list are
/// taken to succeed.
pub open spec fn outcome_at(outcomes: Seq<bool>, i: int) -> bool {
    if 0 <= i < outcomes.len() {
        outcomes[i]
    } else {
        true
    }
}

/// Counters of one worker run, at the specification level.
pub struct WorkerTrace {
    /// Messages consumed from the queue.
    pub consumed: int,
    /// Publish attempts made.
    pub attempts: int,
    /// Whether the run ended on a failed publish.
    pub fatal: bool,
}

/// The worker's run over a message sequence, starting at message `i`
/// after `attempts` earlier publish attempts: messages are consumed in
/// order; each publishable one costs one publish attempt; a failed
/// attempt or the shutdown sentinel ends the run at once.
pub open spec fn worker_trace(
    msgs: Seq<ProcessingMessage>,
    outcomes: Seq<bool>,
    i: int,
    attempts: int,
) -> WorkerTrace
    decreases msgs.len() - i,
{
    if i < 0 || i >= msgs.len() {
        WorkerTrace { consumed: i, attempts, fatal: false }
    } else if msgs[i] is Shutdown {
        WorkerTrace { consumed: i + 1, attempts, fatal: false }
    } else if !publishable(msgs[i]) {
        worker_trace(msgs, outcomes, i + 1, attempts)
    } else if outcome_at(outcomes, attempts) {
        worker_trace(msgs, outcomes, i + 1, attempts + 1)
    } else {
        WorkerTrace { consumed: i + 1, attempts: attempts + 1, fatal: true }
    }
}

/// The result of driving the worker over a message sequence.
#[derive(Debug, PartialEq)]
pub struct WorkerRun {
    /// The records whose publish was attempted, in order.
    pub attempted: Vec<CanonicalRecord>,
    /// Messages consumed from the sequence.
    pub consumed: usize,
    /// Whether the run ended on a failed publish.
    pub fatal: bool,
}

/// Drive the worker over a message sequence, with the given outcome for
/// each successive publish attempt (attempts past the list succeed).
/// Messages are handled strictly in order; the shutdown sentinel stops
/// the run, and a failed publish ends it at once — the failed record is
/// the last one attempted.
#[verifier::loop_isolation(false)]
pub fn process_messages(msgs: Vec<ProcessingMessage>, outcomes: &Vec<bool>) -> (r: WorkerRun)
    ensures
        ({
            let t = worker_trace(msgs@, outcomes@, 0, 0);
            &&& r.consumed == t.consumed
            &&& r.attempted@.len() == t.attempts
            &&& r.fatal == t.fatal
        }),
        forall|j: int| 0 <= j < r.attempted@.len() ==> record_matches_message(
            #[trigger] r.attempted@[j],
            nth_publishable(msgs@.take(r.consumed as int), j),
        ),
{
    let ghost orig = msgs@;
    let mut rest = msgs;
    let total: usize = rest.len();
    let mut attempted: Vec<CanonicalRecord> = Vec::new();
    let mut pos: usize = 0;
    loop
        invariant
            orig.len() == total,
            pos <= orig.len(),
            rest@ == orig.skip(pos as int),
            attempted@.len() == count_publishable(orig.take(pos as int)),
            worker_trace(orig, outcomes@, 0, 0) == worker_trace(
                orig,
                outcomes@,
                pos as int,
                attempted@.len() as int,
            ),
            forall|j: int| 0 <= j < attempted@.len() ==> record_matches_message(
                #[trigger] attempted@[j],
                nth_publishable(orig.take(pos as int), j),
            ),
        decreases orig.len() - pos,
    {
        if rest.len() == 0 {
            proof {
                assert(orig.take(pos as int) =~= orig);
            }
            return WorkerRun { attempted, consumed: pos, fatal: false };
        }
        let m = rest.remove(0);
        proof {
            assert(m == orig[pos as int]);
            assert(rest@ =~= orig.skip(pos as int + 1));
            assert(orig.take(pos as int).push(orig[pos as int]) =~= orig.take(pos as int + 1));
            lemma_publishable_snoc(orig.take(pos as int), orig[pos as int]);
        }
        match worker_handle(m) {
            WorkerAction::Stop => {
                return WorkerRun { attempted, consumed: pos + 1, fatal: false };
            },
            WorkerAction::Skip => {},
            WorkerAction::Publish(rec) => {
                let ok = if attempted.len() < outcomes.len() {
                    outcomes[attempted.len()]
                } else {
                    true
                };
                attempted.push(rec);
                if !ok {
                    return WorkerRun { attempted, consumed: pos + 1, fatal: true };
                }
            },
        }
        pos = pos + 1;
    }
}

/// Law: the shutdown sentinel is final. Whatever the publish outcomes,
/// a run that starts at or before a sentinel consumes nothing past it —
/// messages enqueued after the sentinel are never processed, and the
/// consumer loop terminates there.
pub proof fn lemma_consumer_stops_at_shutdown(
    msgs: Seq<ProcessingMessage>,
    outcomes: Seq<bool>,
    i: int,
    a: int,
    k: int,
)
    requires
        0 <= i,
        i <= k < msgs.len(),
        msgs[k] is Shutdown,
    ensures
        worker_trace(msgs, outcomes, i, a).consumed <= k + 1,
    decreases msgs.len() - i,
{
    if msgs[i] is Shutdown {
    } else if !publishable(msgs[i]) {
        lemma_consumer_stops_at_shutdown(msgs, outcomes, i + 1, a, k);
    } else if outcome_at(outcomes, a) {
        lemma_consumer_stops_at_shutdown(msgs, outcomes, i + 1, a + 1, k);
    }
}

/// Law: a publish failure is fatal and final. In any run, every attempt
/// before the last one succeeded; when the run ends fatally the failed
/// attempt is its last — no record is ever published after a failure.
pub proof fn lemma_publish_failure_is_final(
    msgs: Seq<ProcessingMessage>,
    outcomes: Seq<bool>,
    i: int,
    a: int,
)
    requires
        0 <= i,
        0 <= a,
    ensures
        ({
            let t = worker_trace(msgs, outcomes, i, a);
            &&& t.attempts >= a
            &&& (t.fatal ==> !outcome_at(outcomes, t.attempts - 1) && (forall|j: int|
                a <= j < t.attempts - 1 ==> outcome_at(outcomes, j)))
            &&& (!t.fatal ==> (forall|j: int| a <= j < t.attempts ==> outcome_at(outcomes, j)))
        }),
    decreases msgs.len() - i,
{
    if i >= msgs.len() {
    } else if msgs[i] is Shutdown {
    } else if !publishable(msgs[i]) {
        lemma_publish_failure_is_final(msgs, outcomes, i + 1, a);
    } else if outcome_at(outcomes, a) {
        lemma_publish_failure_is_final(msgs, outcomes, i + 1, a + 1);
    }
}

/// The decimal digits of a number, most significant first, no leading
/// zeros (zero itself is the single digit `0`).
pub open spec fn decimal_digits(n: nat) -> Seq<char>
    decreases n,
{
    let digit = decimal_digit_char(n % 10);
    if n < 10 {
        seq![digit]
    } else {
        decimal_digits(n / 10).push(digit)
    }
}

/// The character of one decimal digit.
pub open spec fn decimal_digit_char(d: nat) -> char {
    if d == 0 {
        '0'
    } else if d == 1 {
        '1'
    } else if d == 2 {
        '2'
    } else if d == 3 {
        '3'
    } else if d == 4 {
        '4'
    } else if d == 5 {
        '5'
    } else if d == 6 {
        '6'
    } else if d == 7 {
        '7'
    } else if d == 8 {
        '8'
    } else {
        '9'
    }
}

/// The decimal text of a signed number: a minus sign before the digits of
/// its magnitude.
pub open spec fn signed_decimal_digits(n: int) -> Seq<char> {
    if n < 0 {
        seq!['-'] + decimal_digits((-n) as nat)
    } else {
        decimal_digits(n as nat)
    }
}

/// Relies on the standard library's decimal formatting of `u64`: the
/// digits of the value, most significant first, without leading zeros.
#[verifier::external_body]
fn u64_to_decimal(n: u64) -> (r: String)
    ensures
        r@ == decimal_digits(n as nat),
{
    format!("{}", n)
}

/// Relies on the standard library's decimal formatting of `i64`: a minus
/// sign for a negative value, then the digits of its magnitude.
#[verifier::external_body]
fn i64_to_decimal(n: i64) -> (r: String)
    ensures
        r@ == signed_decimal_digits(n as int),
{
    format!("{}", n)
}

/// A lag delta for the log line: green when the watermark is behind the
/// observed slot, red otherwise.
pub fn format_delta(delta: i64) -> (r: String)
    ensures
        r@ == (if delta < 0 {
            "\u{1b}[32m"@
        } else {
            "\u{1b}[31m"@
        }) + signed_decimal_digits(delta as int) + "\u{1b}[0m"@,
{
    let mut s = if delta < 0 {
        String::from_str("\u{1b}[32m")
    } else {
        String::from_str("\u{1b}[31m")
    };
    s.append(i64_to_decimal(delta).as_str());
    s.append("\u{1b}[0m");
    s
}

/// The observed slot for the log line, in yellow.
pub fn format_slot_yellow(slot: u64) -> (r: String)
    ensures
        r@ == "\u{1b}[33m"@ + decimal_digits(slot as nat) + "\u{1b}[0m"@,
{
    let mut s = String::from_str("\u{1b}[33m");
    s.append(u64_to_decimal(slot).as_str());
    s.append("\u{1b}[0m");
    s
}

/// A watermark slot for the log line, in cyan.
pub fn format_slot(slot: u64) -> (r: String)
    ensures
        r@ == "\u{1b}[36m"@ + decimal_digits(slot as nat) + "\u{1b}[0m"@,
{
    let mut s = String::from_str("\u{1b}[36m");
    s.append(u64_to_decimal(slot).as_str());
    s.append("\u{1b}[0m");
    s
}

/// Signed lag of each watermark against the observed slot, in slots.
pub fn watermark_deltas(s: &WatermarkSample) -> (d: (i64, i64, i64))
    requires
        s.observed_slot <= i64::MAX as u64,
        s.processed_slot <= i64::MAX as u64,
        s.confirmed_slot <= i64::MAX as u64,
        s.finalized_slot <= i64::MAX as u64,
    ensures
        d.0 == s.processed_slot - s.observed_slot,
        d.1 == s.confirmed_slot - s.observed_slot,
        d.2 == s.finalized_slot - s.observed_slot,
{
    let observed = s.observed_slot as i64;
    (
        s.processed_slot as i64 - observed,
        s.confirmed_slot as i64 - observed,
        s.finalized_slot as i64 - observed,
    )
}

} // verus!
