//! The run that fetches the quotes of a list of symbols: batches of
//! requests, one after the other, with a pause after each, and what the
//! outcomes come to in the end. The run decides; its caller sends the
//! requests, sleeps, and reports back.

use crate::errors::ScannerError;
use crate::finnhub::StockQuote;
use crate::text::{joined, texts};
use vstd::prelude::*;

verus! {

/// What came of the request for one symbol.
#[derive(Debug)]
pub enum Outcome {
    /// The service answered with a quote.
    Quoted(StockQuote),
    /// The request for the symbol failed with the error.
    Failed(String, ScannerError),
    /// The task that made the request ended without an answer.
    Lost(String),
}

/// The quote of an outcome, where it has one.
pub open spec fn success_of(outcome: Outcome) -> Option<StockQuote> {
    match outcome {
        Outcome::Quoted(quote) => Some(quote),
        _ => None,
    }
}

/// The note that is kept of an outcome without a quote.
pub open spec fn note_of(outcome: Outcome) -> Option<Seq<char>> {
    match outcome {
        Outcome::Quoted(_) => None,
        Outcome::Failed(symbol, error) => Some(symbol@ + ": "@ + error.text()),
        Outcome::Lost(detail) => Some("Task error: "@ + detail@),
    }
}

/// The quotes among the outcomes, in their order.
pub open spec fn quotes_of(outcomes: Seq<Outcome>) -> Seq<StockQuote> {
    outcomes.filter_map(|outcome: Outcome| success_of(outcome))
}

/// The notes of the outcomes without a quote, in their order.
pub open spec fn notes_of(outcomes: Seq<Outcome>) -> Seq<Seq<char>> {
    outcomes.filter_map(|outcome: Outcome| note_of(outcome))
}

/// What a fetch comes to once every outcome is in: the quotes, unless there
/// is none of them and something failed. Then the first note stands for
/// all.
pub open spec fn settled(quotes: Seq<StockQuote>, notes: Seq<Seq<char>>) -> Result<
    Seq<StockQuote>,
    Seq<char>,
> {
    if quotes.len() == 0 && notes.len() > 0 {
        Err("All requests failed. First error: "@ + notes[0])
    } else {
        Ok(quotes)
    }
}

/// Adds the quotes among the outcomes to `quotes` and a note of each other
/// outcome to `errors`.
pub fn record(quotes: &mut Vec<StockQuote>, errors: &mut Vec<String>, outcomes: Vec<Outcome>)
    ensures
        final(quotes)@ == old(quotes)@ + quotes_of(outcomes@),
        texts(final(errors)@) == texts(old(errors)@) + notes_of(outcomes@),
{
    let ghost all = outcomes@;
    let ghost mut seen: int = 0;
    for outcome in it: outcomes
        invariant
            it.seq() == all,
            seen == it.index(),
            quotes@ == old(quotes)@ + quotes_of(all.take(seen)),
            texts(errors@) == texts(old(errors)@) + notes_of(all.take(seen)),
    {
        proof {
            all.lemma_filter_map_take_succ(|outcome: Outcome| success_of(outcome), seen);
            all.lemma_filter_map_take_succ(|outcome: Outcome| note_of(outcome), seen);
        }
        let ghost before = errors@;
        match outcome {
            Outcome::Quoted(quote) => {
                quotes.push(quote);
            },
            Outcome::Failed(symbol, error) => {
                let mut note = joined(symbol.as_str(), ": ");
                let report = error.message();
                note.append(report.as_str());
                errors.push(note);
                assert(texts(errors@) =~= texts(before).push(note@));
            },
            Outcome::Lost(detail) => {
                let note = joined("Task error: ", detail.as_str());
                errors.push(note);
                assert(texts(errors@) =~= texts(before).push(note@));
            },
        }
        proof {
            seen = seen + 1;
        }
    }
    assert(all.take(seen) =~= all);
}

/// Settles a fetch: the quotes, or, where there is none and something
/// failed, an API error that carries the first note.
pub fn settle(quotes: Vec<StockQuote>, errors: Vec<String>) -> (result: Result<
    Vec<StockQuote>,
    ScannerError,
>)
    ensures
        match settled(quotes@, texts(errors@)) {
            Ok(kept) => result matches Ok(out) && out@ == kept,
            Err(report) => result matches Err(ScannerError::Api(msg)) && msg@ == report,
        },
{
    if quotes.len() == 0 && errors.len() > 0 {
        let msg = joined("All requests failed. First error: ", errors[0].as_str());
        Err(ScannerError::Api(msg))
    } else {
        Ok(quotes)
    }
}

/// Where a run stands.
#[derive(Clone, Copy, Debug, PartialEq, Eq, Structural)]
pub enum Phase {
    /// A batch of requests is under way.
    Waiting,
    /// A batch is in and the pause after it is under way.
    Pausing,
    /// Every symbol was asked for.
    Done,
}

/// What the caller of a run does next.
#[derive(Clone, Copy, Debug, PartialEq, Eq, Structural)]
pub enum FetchAction {
    /// Ask at once for the symbols from index `from` up to, not including,
    /// `to`, and wait for every answer.
    Request { from: usize, to: usize },
    /// Sleep for so many milliseconds.
    Pause { millis: u64 },
    /// Settle the run.
    Finish,
}

/// What the caller of a run reports back.
#[derive(Debug)]
pub enum FetchEvent {
    /// Every request of the batch has ended, with these outcomes.
    BatchDone(Vec<Outcome>),
    /// The pause is over.
    PauseOver,
}

/// A run over a list of symbols: batches of requests, one after the other,
/// with a pause after each.
pub struct FetchRun {
    total: usize,
    batch: usize,
    delay_ms: u64,
    next: usize,
    phase: Phase,
    quotes: Vec<StockQuote>,
    errors: Vec<String>,
}

/// What a run holds, as plain values.
pub struct RunView {
    /// The number of symbols.
    pub total: usize,
    /// The number of symbols in a full batch.
    pub batch: usize,
    /// The pause after a batch, in milliseconds.
    pub delay_ms: u64,
    /// The index of the first symbol that no finished batch has covered.
    pub next: usize,
    /// Where the run stands.
    pub phase: Phase,
    /// The quotes so far.
    pub quotes: Seq<StockQuote>,
    /// The notes so far of what failed.
    pub errors: Seq<Seq<char>>,
}

impl RunView {
    /// A run before its first batch. Over no symbols there is nothing to
    /// ask for.
    pub open spec fn initial(total: usize, batch: usize, delay_ms: u64) -> RunView {
        RunView {
            total,
            batch,
            delay_ms,
            next: 0,
            phase: if total > 0 {
                Phase::Waiting
            } else {
                Phase::Done
            },
            quotes: Seq::empty(),
            errors: Seq::empty(),
        }
    }

    /// What holds of every run: batches are not empty and start at
    /// multiples of the batch size; the run waits only while symbols are
    /// left and is done only when none is; and every symbol that a finished
    /// batch has covered has left one quote or one note, never both.
    pub open spec fn wf(self) -> bool {
        &&& self.batch > 0
        &&& self.next <= self.total
        &&& (self.next % self.batch == 0 || self.next == self.total)
        &&& (self.phase == Phase::Waiting ==> self.next < self.total && self.next % self.batch == 0)
        &&& (self.phase == Phase::Done ==> self.next == self.total)
        &&& self.quotes.len() + self.errors.len() == self.next
    }

    /// Whether the event fits the state: a batch that ends while the run
    /// waits for it brings one outcome for each symbol that was asked for.
    pub open spec fn fits(self, event: FetchEvent) -> bool {
        match (self.phase, event) {
            (Phase::Waiting, FetchEvent::BatchDone(outcomes)) => outcomes@.len()
                == self.batch_end() - self.next,
            _ => true,
        }
    }

    /// The index after the last symbol of the batch that starts at `next`.
    pub open spec fn batch_end(self) -> usize {
        if self.total - self.next > self.batch {
            (self.next + self.batch) as usize
        } else {
            self.total
        }
    }

    /// What the caller does in this state.
    pub open spec fn pending(self) -> FetchAction {
        match self.phase {
            Phase::Waiting => FetchAction::Request { from: self.next, to: self.batch_end() },
            Phase::Pausing => FetchAction::Pause { millis: self.delay_ms },
            Phase::Done => FetchAction::Finish,
        }
    }

    /// The state after an event. A finished batch is recorded and followed
    /// by a pause; a pause is followed by the next batch, or by the end
    /// where no symbol is left. An event that the state does not wait for
    /// changes nothing.
    pub open spec fn after(self, event: FetchEvent) -> RunView {
        match (self.phase, event) {
            (Phase::Waiting, FetchEvent::BatchDone(outcomes)) => RunView {
                next: self.batch_end(),
                phase: Phase::Pausing,
                quotes: self.quotes + quotes_of(outcomes@),
                errors: self.errors + notes_of(outcomes@),
                ..self
            },
            (Phase::Pausing, FetchEvent::PauseOver) => RunView {
                phase: if self.next < self.total {
                    Phase::Waiting
                } else {
                    Phase::Done
                },
                ..self
            },
            _ => self,
        }
    }
}

impl View for FetchRun {
    type V = RunView;

    /// The run as plain values.
    closed spec fn view(&self) -> RunView {
        RunView {
            total: self.total,
            batch: self.batch,
            delay_ms: self.delay_ms,
            next: self.next,
            phase: self.phase,
            quotes: self.quotes@,
            errors: texts(self.errors@),
        }
    }
}

impl FetchRun {
    /// Every run is well formed.
    #[verifier::type_invariant]
    spec fn inv(self) -> bool {
        self@.wf()
    }

    /// A run over `total` symbols in batches of `batch`, with a pause of
    /// `delay_ms` milliseconds after each batch.
    pub fn new(total: usize, batch: usize, delay_ms: u64) -> (run: FetchRun)
        requires
            batch > 0,
        ensures
            run@ == RunView::initial(total, batch, delay_ms),
            run@.wf(),
    {
        let run = FetchRun {
            total,
            batch,
            delay_ms,
            next: 0,
            phase: if total > 0 {
                Phase::Waiting
            } else {
                Phase::Done
            },
            quotes: Vec::new(),
            errors: Vec::new(),
        };
        assert(run@.errors =~= Seq::empty());
        run
    }

    /// What the caller does now.
    pub fn pending(&self) -> (action: FetchAction)
        ensures
            action == self@.pending(),
            self@.wf(),
    {
        proof {
            use_type_invariant(self);
        }
        match self.phase {
            Phase::Waiting => FetchAction::Request { from: self.next, to: self.end_of_batch() },
            Phase::Pausing => FetchAction::Pause { millis: self.delay_ms },
            Phase::Done => FetchAction::Finish,
        }
    }

    /// The index after the last symbol of the batch that starts at `next`.
    fn end_of_batch(&self) -> (end: usize)
        ensures
            end == self@.batch_end(),
            self.next <= end <= self.total,
    {
        proof {
            use_type_invariant(self);
        }
        if self.total - self.next > self.batch {
            self.next + self.batch
        } else {
            self.total
        }
    }

    /// Takes an event. Gives the run after it and what the caller does
    /// next. A batch that ends while the run waits for it must bring one
    /// outcome for each symbol of the batch.
    pub fn step(self, event: FetchEvent) -> (next: (FetchRun, FetchAction))
        requires
            self@.fits(event),
        ensures
            next.0@ == self@.after(event),
            next.1 == next.0@.pending(),
            next.0@.wf(),
    {
        proof {
            use_type_invariant(&self);
        }
        let run = match event {
            FetchEvent::BatchDone(outcomes) => {
                if self.phase == Phase::Waiting {
                    let end = self.end_of_batch();
                    proof {
                        lemma_batch_end_aligned(self@);
                    }
                    let FetchRun { total, batch, delay_ms, next: _, phase: _, quotes, errors } =
                        self;
                    let mut quotes = quotes;
                    let mut errors = errors;
                    proof {
                        lemma_outcomes_split(outcomes@);
                    }
                    record(&mut quotes, &mut errors, outcomes);
                    FetchRun {
                        total,
                        batch,
                        delay_ms,
                        next: end,
                        phase: Phase::Pausing,
                        quotes,
                        errors,
                    }
                } else {
                    self
                }
            },
            FetchEvent::PauseOver => {
                if self.phase == Phase::Pausing {
                    let phase = if self.next < self.total {
                        Phase::Waiting
                    } else {
                        Phase::Done
                    };
                    FetchRun { phase, ..self }
                } else {
                    self
                }
            },
        };
        let action = run.pending();
        (run, action)
    }

    /// Settles the run on what it has recorded: the quotes, or, where there
    /// is none and something failed, an API error that carries the first
    /// note.
    pub fn finish(self) -> (result: Result<Vec<StockQuote>, ScannerError>)
        ensures
            match settled(self@.quotes, self@.errors) {
                Ok(kept) => result matches Ok(out) && out@ == kept,
                Err(report) => result matches Err(ScannerError::Api(msg)) && msg@ == report,
            },
    {
        settle(self.quotes, self.errors)
    }
}

/// The batch that starts at a multiple of the batch size ends at the next
/// multiple, or at the last symbol where fewer are left.
pub proof fn lemma_batch_end_aligned(run: RunView)
    requires
        run.wf(),
        run.phase == Phase::Waiting,
    ensures
        run.next < run.batch_end() <= run.total,
        run.batch_end() - run.next == if run.total - run.next > run.batch {
            run.batch as int
        } else {
            run.total - run.next
        },
        run.batch_end() % run.batch == 0 || run.batch_end() == run.total,
{
    if run.total - run.next > run.batch {
        assert((run.next + run.batch) % (run.batch as int) == 0) by (nonlinear_arith)
            requires
                run.next % run.batch == 0,
                run.batch > 0,
        ;
    }
}

/// Every step that fits keeps a run well formed.
pub proof fn lemma_after_keeps_wf(run: RunView, event: FetchEvent)
    requires
        run.wf(),
        run.fits(event),
    ensures
        run.after(event).wf(),
{
    if run.phase == Phase::Waiting {
        lemma_batch_end_aligned(run);
        if let FetchEvent::BatchDone(outcomes) = event {
            lemma_outcomes_split(outcomes@);
        }
    }
}

/// The quotes and the notes of two runs of outcomes, one after the other,
/// are those of the first and then those of the second.
pub proof fn lemma_outcomes_concat(first: Seq<Outcome>, second: Seq<Outcome>)
    ensures
        quotes_of(first + second) == quotes_of(first) + quotes_of(second),
        notes_of(first + second) == notes_of(first) + notes_of(second),
    decreases second.len(),
{
    if second.len() == 0 {
        assert(first + second =~= first);
        assert(quotes_of(first) + quotes_of(second) =~= quotes_of(first));
        assert(notes_of(first) + notes_of(second) =~= notes_of(first));
    } else {
        lemma_outcomes_concat(first, second.drop_last());
        assert((first + second).drop_last() =~= first + second.drop_last());
        assert((first + second).last() == second.last());
        assert(quotes_of(first + second) =~= quotes_of(first) + quotes_of(second));
        assert(notes_of(first + second) =~= notes_of(first) + notes_of(second));
    }
}

/// Every outcome gives a quote or a note, never both: the quotes and the
/// notes together are as many as the outcomes, and while no outcome has a
/// quote the notes are those of the outcomes, one for one.
pub proof fn lemma_outcomes_split(outcomes: Seq<Outcome>)
    ensures
        quotes_of(outcomes).len() + notes_of(outcomes).len() == outcomes.len(),
        (forall|i: int| 0 <= i < outcomes.len() ==> !(#[trigger] outcomes[i] is Quoted)) ==> {
            &&& quotes_of(outcomes).len() == 0
            &&& forall|i: int|
                0 <= i < outcomes.len() ==> Some(#[trigger] notes_of(outcomes)[i]) == note_of(
                    outcomes[i],
                )
        },
        (exists|i: int| 0 <= i < outcomes.len() && #[trigger] outcomes[i] is Quoted)
            ==> quotes_of(outcomes).len() > 0,
    decreases outcomes.len(),
{
    if outcomes.len() > 0 {
        let rest = outcomes.drop_last();
        lemma_outcomes_split(rest);
        if forall|i: int| 0 <= i < outcomes.len() ==> !(#[trigger] outcomes[i] is Quoted) {
            assert forall|i: int| 0 <= i < rest.len() implies !(#[trigger] rest[i] is Quoted) by {
                assert(rest[i] == outcomes[i]);
            }
            assert(!(outcomes[outcomes.len() - 1] is Quoted));
        }
        if exists|i: int| 0 <= i < outcomes.len() && #[trigger] outcomes[i] is Quoted {
            let i = choose|i: int| 0 <= i < outcomes.len() && #[trigger] outcomes[i] is Quoted;
            if i < rest.len() {
                assert(rest[i] is Quoted);
            }
        }
    }
}

/// A fetch in which every request failed settles as an error that carries
/// the note of the first outcome; a fetch with at least one quote settles
/// as its quotes, in their order, and what failed is dropped.
pub proof fn lemma_settled_fetch(outcomes: Seq<Outcome>)
    ensures
        outcomes.len() > 0 && (forall|i: int|
            0 <= i < outcomes.len() ==> !(#[trigger] outcomes[i] is Quoted)) ==> settled(
            quotes_of(outcomes),
            notes_of(outcomes),
        ) == Err::<Seq<StockQuote>, Seq<char>>(
            "All requests failed. First error: "@ + note_of(outcomes[0]).unwrap(),
        ),
        (exists|i: int| 0 <= i < outcomes.len() && #[trigger] outcomes[i] is Quoted) ==> settled(
            quotes_of(outcomes),
            notes_of(outcomes),
        ) == Ok::<Seq<StockQuote>, Seq<char>>(quotes_of(outcomes)),
        outcomes.len() == 0 ==> settled(quotes_of(outcomes), notes_of(outcomes)) == Ok::<
            Seq<StockQuote>,
            Seq<char>,
        >(Seq::empty()),
{
    lemma_outcomes_split(outcomes);
    if outcomes.len() > 0 && (forall|i: int|
        0 <= i < outcomes.len() ==> !(#[trigger] outcomes[i] is Quoted)) {
        assert(!(outcomes[0] is Quoted));
        assert(Some(notes_of(outcomes)[0]) == note_of(outcomes[0]));
    }
}

/// The outcomes of a sequence of batches, in the order in which they came
/// in.
pub open spec fn all_outcomes(batches: Seq<Vec<Outcome>>) -> Seq<Outcome>
    decreases batches.len(),
{
    if batches.len() == 0 {
        Seq::empty()
    } else {
        all_outcomes(batches.drop_last()) + batches.last()@
    }
}

/// The state of a run after each of the batches has come in and the pause
/// after it is over.
pub open spec fn after_rounds(run: RunView, batches: Seq<Vec<Outcome>>) -> RunView
    decreases batches.len(),
{
    if batches.len() == 0 {
        run
    } else {
        after_rounds(run, batches.drop_last()).after(FetchEvent::BatchDone(batches.last())).after(
            FetchEvent::PauseOver,
        )
    }
}

/// How many symbols the batch with the given number holds, counting from
/// zero: the batch size, or what is left of the symbols where that is less.
pub open spec fn batch_len(total: usize, batch: usize, number: int) -> int {
    if (number + 1) * batch <= total {
        batch as int
    } else {
        total - number * batch
    }
}

/// A run asks for its symbols in consecutive groups of the batch size, the
/// last one shorter where the symbols run out. After `k` rounds, none of
/// them beyond the last symbol and each with one outcome for each symbol of
/// its batch, the run has covered `k` times the batch size or every symbol,
/// whichever is less; it is done exactly when every symbol is covered; it
/// holds the quotes and the notes of all outcomes so far, in the order in
/// which they came in; and the outcomes are as many as the symbols covered.
pub proof fn lemma_rounds(total: usize, batch: usize, delay_ms: u64, batches: Seq<Vec<Outcome>>)
    requires
        batch > 0,
        batches.len() * batch < total + batch,
        forall|i: int|
            0 <= i < batches.len() ==> (#[trigger] batches[i])@.len() == batch_len(total, batch, i),
    ensures
        ({
            let run = after_rounds(RunView::initial(total, batch, delay_ms), batches);
            &&& run.wf()
            &&& run.total == total && run.batch == batch && run.delay_ms == delay_ms
            &&& run.next == if batches.len() * batch < total {
                batches.len() * batch
            } else {
                total as int
            }
            &&& run.phase == if run.next < total {
                Phase::Waiting
            } else {
                Phase::Done
            }
            &&& run.quotes == quotes_of(all_outcomes(batches))
            &&& run.errors == notes_of(all_outcomes(batches))
            &&& all_outcomes(batches).len() == run.next
        }),
    decreases batches.len(),
{
    let start = RunView::initial(total, batch, delay_ms);
    if batches.len() == 0 {
        assert(0int % (batch as int) == 0);
        assert(quotes_of(all_outcomes(batches)) =~= Seq::empty());
        assert(notes_of(all_outcomes(batches)) =~= Seq::empty());
    } else {
        let earlier = batches.drop_last();
        let k = earlier.len() as int;
        assert((k + 1) * batch == k * batch + batch) by (nonlinear_arith);
        assert(k * batch >= 0) by (nonlinear_arith)
            requires
                k >= 0,
                batch > 0,
        ;
        assert forall|i: int| 0 <= i < earlier.len() implies (#[trigger] earlier[i])@.len()
            == batch_len(total, batch, i) by {
            assert(earlier[i] == batches[i]);
        }
        lemma_rounds(total, batch, delay_ms, earlier);
        let before = after_rounds(start, earlier);
        assert(before.next == k * batch);
        assert(before.phase == Phase::Waiting);
        lemma_batch_end_aligned(before);
        lemma_outcomes_concat(all_outcomes(earlier), batches.last()@);
        let event = FetchEvent::BatchDone(batches.last());
        assert(batches.last() == batches[k]);
        assert(before.fits(event));
        let done = before.after(event);
        lemma_after_keeps_wf(before, event);
        lemma_after_keeps_wf(done, FetchEvent::PauseOver);
        lemma_outcomes_split(all_outcomes(batches));
    }
}

} // verus!
