//! Method mocks: call bookkeeping, the unary mock and the client-streaming
//! mock.

use vstd::prelude::*;
use std::marker::PhantomData;
use tonic::metadata::MetadataMap;
use tonic::Status;
use crate::times::Times;
use crate::responder::Unimplemented;
use crate::matchers::{
    feed_verdict, lemma_lag_fails_stream, next_check, start_check, stream_start, stream_step,
    FeedEvent, MetadataExistsMatcher, MetadataLocation, StreamCheck,
};
use crate::metadata::holds_key;
use crate::{Matcher, Request, Responder, StreamingMatcher};

verus! {

/// The shapes of RPC method.
#[derive(Clone, Copy, Debug, PartialEq, Eq, Structural)]
pub enum RequestType {
    Unary,
    ClientStream,
    ServerStream,
    BidirStream,
}

/// The call count after one more call: one more, held at the largest `u64`.
pub open spec fn next_count(n: u64) -> u64 {
    if n == u64::MAX {
        n
    } else {
        (n + 1) as u64
    }
}

/// What a method mock knows of its calls, as plain values.
#[derive(Clone, Copy, Debug, PartialEq, Eq, Structural)]
pub struct CallView {
    /// The number of calls since the last reset.
    pub calls: u64,
    /// Whether every call since the last reset matched.
    pub all_matched: bool,
    /// The expected number of calls, if one was set.
    pub expected: Option<Times>,
}

impl CallView {
    /// After one more call, which matched or not.
    pub open spec fn recorded(self, matched: bool) -> CallView {
        CallView {
            calls: next_count(self.calls),
            all_matched: self.all_matched && matched,
            expected: self.expected,
        }
    }

    /// After a reset: no calls, all matched, the same expectation.
    pub open spec fn cleared(self) -> CallView {
        CallView { calls: 0, all_matched: true, expected: self.expected }
    }

    /// Whether the number of calls meets the expectation; with none set, any
    /// number does.
    pub open spec fn count_met(self) -> bool {
        match self.expected {
            Some(t) => t.accepts(self.calls as int),
            None => true,
        }
    }

    /// Whether the calls meet the expectation and all of them matched.
    pub open spec fn passes(self) -> bool {
        self.count_met() && self.all_matched
    }
}

/// The view after calls that matched or not, in the order of `outcomes`.
pub open spec fn record_all(view: CallView, outcomes: Seq<bool>) -> CallView
    decreases outcomes.len(),
{
    if outcomes.len() == 0 {
        view
    } else {
        record_all(view.recorded(outcomes[0]), outcomes.drop_first())
    }
}

/// What a method mock keeps of its calls: how many there were, whether every
/// one of them matched, and how many are expected.
///
/// Between resets the count never goes down and the all-matched flag never
/// goes from false back to true. Every update takes `&mut self`, so calls that
/// arrive together are serialised by whatever shares the mock between them
/// (a lock around it), and none of their updates is lost.
pub struct CallState {
    called: u64,
    all_matched: bool,
    expected_calls: Option<Times>,
}

impl View for CallState {
    type V = CallView;

    closed spec fn view(&self) -> CallView {
        CallView { calls: self.called, all_matched: self.all_matched, expected: self.expected_calls }
    }
}

impl CallState {
    pub fn new() -> (r: CallState)
        ensures
            r@ == (CallView { calls: 0, all_matched: true, expected: None }),
    {
        CallState { called: 0, all_matched: true, expected_calls: None }
    }

    /// Counts one call, which matched or not.
    pub fn record(&mut self, matched: bool)
        ensures
            final(self)@ == old(self)@.recorded(matched),
    {
        self.called = self.called.saturating_add(1);
        self.all_matched = self.all_matched && matched;
    }

    pub fn expect(&mut self, calls: Times)
        ensures
            final(self)@ == (CallView { expected: Some(calls), ..old(self)@ }),
    {
        self.expected_calls = Some(calls);
    }

    /// Forgets the calls so far; the expectation stays.
    pub fn reset(&mut self)
        ensures
            final(self)@ == old(self)@.cleared(),
    {
        self.called = 0;
        self.all_matched = true;
    }

    pub fn verify(&self) -> (r: bool)
        ensures
            r == self@.passes(),
    {
        match &self.expected_calls {
            Some(calls) => {
                if !calls.contains(self.called) {
                    return false;
                }
            },
            None => {},
        }
        self.all_matched
    }

    pub fn calls_made(&self) -> (r: u64)
        ensures
            r == self@.calls,
    {
        self.called
    }

    pub fn matched_so_far(&self) -> (r: bool)
        ensures
            r == self@.all_matched,
    {
        self.all_matched
    }
}

/// Whether every matcher of `matchers` accepts `request`.
pub open spec fn all_accept<T, M: Matcher<T>>(matchers: Seq<M>, request: Request<T>) -> bool {
    forall|i: int| 0 <= i < matchers.len() ==> #[trigger] matchers[i].spec_matches(request)
}

/// The mock of a unary method: matchers, a responder and call bookkeeping.
pub struct UnaryMethodMock<T, U, M, R> {
    matchers: Vec<M>,
    response: R,
    state: CallState,
    marker: PhantomData<(T, U)>,
}

impl<T, U, M> UnaryMethodMock<T, U, M, Unimplemented> {
    /// A mock with no matchers and no expectation, which answers every call
    /// with the "not implemented" status.
    pub fn new() -> (r: Self)
        ensures
            r.matchers().len() == 0,
            r.state() == (CallView { calls: 0, all_matched: true, expected: None }),
    {
        UnaryMethodMock {
            matchers: Vec::new(),
            response: Unimplemented,
            state: CallState::new(),
            marker: PhantomData,
        }
    }
}

impl<T, U, M> Default for UnaryMethodMock<T, U, M, Unimplemented> {
    fn default() -> (r: Self)
        ensures
            r.matchers().len() == 0,
            r.state() == (CallView { calls: 0, all_matched: true, expected: None }),
    {
        Self::new()
    }
}

impl<T, U, M, R> UnaryMethodMock<T, U, M, R> {
    /// The matchers, in the order they run.
    pub closed spec fn matchers(&self) -> Seq<M> {
        self.matchers@
    }

    /// The responder.
    pub closed spec fn responder(&self) -> R {
        self.response
    }

    /// What the mock knows of its calls.
    pub closed spec fn state(&self) -> CallView {
        self.state@
    }

    /// Adds a matcher after those already there.
    pub fn add_matcher(&mut self, m: M)
        ensures
            final(self).matchers() == old(self).matchers().push(m),
            final(self).responder() == old(self).responder(),
            final(self).state() == old(self).state(),
    {
        self.matchers.push(m);
    }

    /// The same mock, answering with `r` from now on.
    pub fn response<R2>(self, r: R2) -> (res: UnaryMethodMock<T, U, M, R2>)
        ensures
            res.matchers() == self.matchers(),
            res.responder() == r,
            res.state() == self.state(),
    {
        UnaryMethodMock {
            matchers: self.matchers,
            response: r,
            state: self.state,
            marker: PhantomData,
        }
    }

    /// Sets the number of calls that `verify` expects.
    pub fn expect(&mut self, calls: Times)
        ensures
            final(self).state() == (CallView { expected: Some(calls), ..old(self).state() }),
            final(self).matchers() == old(self).matchers(),
            final(self).responder() == old(self).responder(),
    {
        self.state.expect(calls);
    }

    /// Forgets the calls so far; matchers, responder and expectation stay.
    pub fn reset(&mut self)
        ensures
            final(self).state() == old(self).state().cleared(),
            final(self).matchers() == old(self).matchers(),
            final(self).responder() == old(self).responder(),
    {
        self.state.reset();
    }

    /// Whether the calls so far meet the expected count, if one was set, and
    /// all matched.
    pub fn verify(&self) -> (r: bool)
        ensures
            r == self.state().passes(),
    {
        self.state.verify()
    }

    /// The number of calls since the last reset.
    pub fn calls(&self) -> (r: u64)
        ensures
            r == self.state().calls,
    {
        self.state.calls_made()
    }
}

impl<T, U, M: Matcher<T>, R: Responder<T, U>> UnaryMethodMock<T, U, M, R> {
    /// Handles one call: counts it, runs the matchers in order until one
    /// fails, clears the all-matched flag if one did, and answers with the
    /// responder's outcome whatever the matchers said.
    pub fn process_request(&mut self, request: Request<T>) -> (r: Result<U, Status>)
        ensures
            final(self).state() == old(self).state().recorded(
                all_accept(old(self).matchers(), request),
            ),
            final(self).matchers() == old(self).matchers(),
            final(self).responder() == old(self).responder(),
            old(self).responder().responds(request, r),
    {
        let mut matched = true;
        let mut i: usize = 0;
        while matched && i < self.matchers.len()
            invariant
                i <= self.matchers@.len(),
                matched ==> forall|j: int| 0 <= j < i ==> #[trigger] self.matchers@[j].spec_matches(
                    request,
                ),
                !matched ==> i < self.matchers@.len() && !self.matchers@[i as int].spec_matches(
                    request,
                ),
            decreases self.matchers@.len() - i + (if matched { 1int } else { 0int }),
        {
            if self.matchers[i].matches(&request) {
                i += 1;
            } else {
                matched = false;
            }
        }
        self.state.record(matched);
        self.response.respond(request)
    }
}

/// The metadata verdict of a streaming matcher: its header verdict, or, when
/// that failed and trailers came, its verdict on the trailer view.
pub open spec fn metadata_verdict<T, M: StreamingMatcher<T>>(
    matcher: M,
    header_ok: bool,
    trailers: Option<MetadataMap>,
) -> bool {
    header_ok || match trailers {
        Some(t) => matcher.spec_header_matches(t, true),
        None => false,
    }
}

/// The final verdict of one streaming matcher on a call.
pub open spec fn matcher_verdict<T, M: StreamingMatcher<T>>(
    matcher: M,
    header_ok: bool,
    stream_ok: bool,
    trailers: Option<MetadataMap>,
) -> bool {
    metadata_verdict::<T, M>(matcher, header_ok, trailers) && stream_ok
}

/// Whether every streaming matcher passes a call, given its header verdicts,
/// its stream verdicts and the trailers, if any came.
pub open spec fn call_verdict<T, M: StreamingMatcher<T>>(
    matchers: Seq<M>,
    header_ok: Seq<bool>,
    stream_ok: Seq<bool>,
    trailers: Option<MetadataMap>,
) -> bool {
    forall|i: int|
        0 <= i < matchers.len() ==> #[trigger] matcher_verdict::<T, M>(
            matchers[i],
            header_ok[i],
            stream_ok[i],
            trailers,
        )
}

/// The mock of a client-streaming method: streaming matchers, a responder and
/// call bookkeeping.
///
/// A call goes in three steps. `header_verdicts` checks the header view of
/// every matcher before any message is read. Each matcher then reads the
/// message feed on its own, from `stream_start` through `stream_step`, in
/// the order the messages came. When the stream is drained and the trailers
/// asked for, `process_request` reconciles the verdicts, counts the call and
/// answers it. The responder is handed the header metadata and the messages.
pub struct ClientStreamMethodMock<T, U, M, R> {
    matchers: Vec<M>,
    response: R,
    state: CallState,
    marker: PhantomData<(T, U)>,
}

impl<T, U, M> ClientStreamMethodMock<T, U, M, Unimplemented> {
    /// A mock with no matchers and no expectation, which answers every call
    /// with the "not implemented" status.
    pub fn new() -> (r: Self)
        ensures
            r.matchers().len() == 0,
            r.state() == (CallView { calls: 0, all_matched: true, expected: None }),
    {
        ClientStreamMethodMock {
            matchers: Vec::new(),
            response: Unimplemented,
            state: CallState::new(),
            marker: PhantomData,
        }
    }
}

impl<T, U, M> Default for ClientStreamMethodMock<T, U, M, Unimplemented> {
    fn default() -> (r: Self)
        ensures
            r.matchers().len() == 0,
            r.state() == (CallView { calls: 0, all_matched: true, expected: None }),
    {
        Self::new()
    }
}

impl<T, U, M, R> ClientStreamMethodMock<T, U, M, R> {
    /// The streaming matchers, in the order they were added.
    pub closed spec fn matchers(&self) -> Seq<M> {
        self.matchers@
    }

    /// The responder.
    pub closed spec fn responder(&self) -> R {
        self.response
    }

    /// What the mock knows of its calls.
    pub closed spec fn state(&self) -> CallView {
        self.state@
    }

    /// Adds a streaming matcher after those already there.
    pub fn add_matcher(&mut self, m: M)
        ensures
            final(self).matchers() == old(self).matchers().push(m),
            final(self).responder() == old(self).responder(),
            final(self).state() == old(self).state(),
    {
        self.matchers.push(m);
    }

    /// The same mock, answering with `r` from now on.
    pub fn response<R2>(self, r: R2) -> (res: ClientStreamMethodMock<T, U, M, R2>)
        ensures
            res.matchers() == self.matchers(),
            res.responder() == r,
            res.state() == self.state(),
    {
        ClientStreamMethodMock {
            matchers: self.matchers,
            response: r,
            state: self.state,
            marker: PhantomData,
        }
    }

    /// Sets the number of calls that `verify` expects.
    pub fn expect(&mut self, calls: Times)
        ensures
            final(self).state() == (CallView { expected: Some(calls), ..old(self).state() }),
            final(self).matchers() == old(self).matchers(),
            final(self).responder() == old(self).responder(),
    {
        self.state.expect(calls);
    }

    /// Forgets the calls so far; matchers, responder and expectation stay.
    pub fn reset(&mut self)
        ensures
            final(self).state() == old(self).state().cleared(),
            final(self).matchers() == old(self).matchers(),
            final(self).responder() == old(self).responder(),
    {
        self.state.reset();
    }

    /// Whether the calls so far meet the expected count, if one was set, and
    /// all matched.
    pub fn verify(&self) -> (r: bool)
        ensures
            r == self.state().passes(),
    {
        self.state.verify()
    }

    /// The number of calls since the last reset.
    pub fn calls(&self) -> (r: u64)
        ensures
            r == self.state().calls,
    {
        self.state.calls_made()
    }

    /// The number of streaming matchers.
    pub fn matcher_count(&self) -> (r: usize)
        ensures
            r == self.matchers().len(),
    {
        self.matchers.len()
    }
}

impl<T, U, M: StreamingMatcher<T>, R: Responder<Vec<T>, U>> ClientStreamMethodMock<T, U, M, R> {
    /// The header verdict of every matcher, in order, on the header view.
    pub fn header_verdicts(&self, headers: &MetadataMap) -> (r: Vec<bool>)
        ensures
            r@.len() == self.matchers().len(),
            forall|i: int|
                0 <= i < r@.len() ==> r@[i] == self.matchers()[i].spec_header_matches(
                    *headers,
                    false,
                ),
    {
        let mut out: Vec<bool> = Vec::new();
        let mut i: usize = 0;
        while i < self.matchers.len()
            invariant
                i <= self.matchers@.len(),
                out@.len() == i,
                forall|j: int|
                    0 <= j < i ==> out@[j] == self.matchers@[j].spec_header_matches(
                        *headers,
                        false,
                    ),
            decreases self.matchers@.len() - i,
        {
            let ok = self.matchers[i].header_matches(headers, false);
            out.push(ok);
            i += 1;
        }
        out
    }

    /// The check that matcher `index` starts its feed with.
    pub fn stream_start(&self, index: usize) -> (r: StreamCheck)
        requires
            index < self.matchers().len(),
        ensures
            r == start_check(self.matchers()[index as int]),
    {
        stream_start(&self.matchers[index])
    }

    /// The check of matcher `index` after one more event of its feed.
    pub fn stream_step(&self, index: usize, check: StreamCheck, event: &FeedEvent<T>) -> (r:
        StreamCheck)
        requires
            index < self.matchers().len(),
        ensures
            r == next_check(self.matchers()[index as int], check, *event),
    {
        stream_step(&self.matchers[index], check, event)
    }

    /// Concludes a call once its stream is drained: a matcher whose header
    /// verdict failed gets a second chance on the trailers, if any came; each
    /// matcher must also have passed its stream. The call is counted, the
    /// all-matched flag cleared if a matcher failed, and the responder's
    /// outcome returned whatever the verdict.
    pub fn process_request(
        &mut self,
        request: Request<Vec<T>>,
        header_ok: &Vec<bool>,
        stream_ok: &Vec<bool>,
        trailers: &Option<MetadataMap>,
    ) -> (r: Result<U, Status>)
        requires
            header_ok@.len() == old(self).matchers().len(),
            stream_ok@.len() == old(self).matchers().len(),
        ensures
            final(self).state() == old(self).state().recorded(
                call_verdict(old(self).matchers(), header_ok@, stream_ok@, *trailers),
            ),
            final(self).matchers() == old(self).matchers(),
            final(self).responder() == old(self).responder(),
            old(self).responder().responds(request, r),
    {
        let mut matched = true;
        let mut i: usize = 0;
        while i < self.matchers.len()
            invariant
                i <= self.matchers@.len(),
                header_ok@.len() == self.matchers@.len(),
                stream_ok@.len() == self.matchers@.len(),
                matched == (forall|j: int|
                    0 <= j < i ==> #[trigger] matcher_verdict::<T, M>(
                        self.matchers@[j],
                        header_ok@[j],
                        stream_ok@[j],
                        *trailers,
                    )),
            decreases self.matchers@.len() - i,
        {
            let metadata_ok = if header_ok[i] {
                true
            } else {
                match trailers {
                    Some(t) => self.matchers[i].header_matches(t, true),
                    None => false,
                }
            };
            let ok = metadata_ok && stream_ok[i];
            proof {
                assert(ok == matcher_verdict::<T, M>(
                    self.matchers@[i as int],
                    header_ok@[i as int],
                    stream_ok@[i as int],
                    *trailers,
                ));
            }
            matched = matched && ok;
            i += 1;
        }
        self.state.record(matched);
        self.response.respond(request)
    }
}

/// `k` calls that all matched.
pub open spec fn matching_calls(k: nat) -> Seq<bool> {
    Seq::new(k, |i: int| true)
}

proof fn lemma_matching_calls_count(view: CallView, k: nat)
    requires
        view.calls + k <= u64::MAX,
    ensures
        record_all(view, matching_calls(k)) == (CallView {
            calls: (view.calls + k) as u64,
            ..view
        }),
    decreases k,
{
    if k > 0 {
        assert(matching_calls(k).drop_first() =~= matching_calls((k - 1) as nat));
        lemma_matching_calls_count(view.recorded(true), (k - 1) as nat);
    }
}

proof fn lemma_failed_flag_stays(view: CallView, outcomes: Seq<bool>)
    requires
        !view.all_matched,
    ensures
        !record_all(view, outcomes).all_matched,
        record_all(view, outcomes).expected == view.expected,
    decreases outcomes.len(),
{
    if outcomes.len() > 0 {
        lemma_failed_flag_stays(view.recorded(outcomes[0]), outcomes.drop_first());
    }
}

/// Calls that all match, counted from a fresh or reset state: after `k` of
/// them `verify` passes when exactly `k` calls are expected, and fails when
/// exactly `k + 1` are.
pub proof fn lemma_matching_calls_meet_exact_count(view: CallView, k: nat)
    requires
        view.calls == 0,
        view.all_matched,
        k < u64::MAX,
    ensures
        record_all(view, matching_calls(k)).calls == k,
        record_all(view, matching_calls(k)).all_matched,
        view.expected == Some(Times::Exact(k as u64)) ==> record_all(
            view,
            matching_calls(k),
        ).passes(),
        view.expected == Some(Times::Exact((k + 1) as u64)) ==> !record_all(
            view,
            matching_calls(k),
        ).passes(),
{
    lemma_matching_calls_count(view, k);
}

/// One matcher that rejects a request fails the whole call, and the
/// all-matched flag then stays false through any later calls, matching or
/// not, until a reset sets it again.
pub proof fn lemma_mismatch_sticks_until_reset<T, M: Matcher<T>>(
    view: CallView,
    matchers: Seq<M>,
    request: Request<T>,
    failing: int,
    later: Seq<bool>,
)
    requires
        0 <= failing < matchers.len(),
        !matchers[failing].spec_matches(request),
    ensures
        !all_accept(matchers, request),
        !record_all(view.recorded(all_accept(matchers, request)), later).all_matched,
        record_all(view.recorded(all_accept(matchers, request)), later).cleared().all_matched,
{
    lemma_failed_flag_stays(view.recorded(all_accept(matchers, request)), later);
}

/// Matchers are evaluated in turn, but their sequence never changes the
/// aggregate: two lists that hold the same matchers accept the same requests.
pub proof fn lemma_matcher_order_irrelevant<T, M: Matcher<T>>(
    first: Seq<M>,
    second: Seq<M>,
    request: Request<T>,
)
    requires
        forall|m: M| first.contains(m) <==> second.contains(m),
    ensures
        all_accept(first, request) == all_accept(second, request),
{
    if all_accept(first, request) {
        assert forall|i: int| 0 <= i < second.len() implies #[trigger] second[i].spec_matches(
            request,
        ) by {
            assert(second.contains(second[i]));
            let j = choose|j: int| 0 <= j < first.len() && first[j] == second[i];
            assert(first[j].spec_matches(request));
        }
    }
    if all_accept(second, request) {
        assert forall|i: int| 0 <= i < first.len() implies #[trigger] first[i].spec_matches(
            request,
        ) by {
            assert(first.contains(first[i]));
            let j = choose|j: int| 0 <= j < second.len() && second[j] == first[i];
            assert(second[j].spec_matches(request));
        }
    }
}

/// A reset leaves no calls counted and, with no count expected, a passing
/// verdict, whatever came before.
pub proof fn lemma_reset_restores(view: CallView)
    requires
        view.expected is None,
    ensures
        view.cleared().calls == 0,
        view.cleared().passes(),
        view.cleared().expected == view.expected,
{
}

/// A metadata-existence matcher whose key is missing from the headers but
/// present in the trailers passes a call when the trailers come, and fails
/// it when the transport hands over no trailers, whatever the messages.
pub proof fn lemma_trailers_second_chance<T>(
    matcher: MetadataExistsMatcher,
    headers: MetadataMap,
    trailers: MetadataMap,
    events: Seq<FeedEvent<T>>,
)
    requires
        matcher.location() == MetadataLocation::Any,
        !holds_key(headers, matcher.key()),
        holds_key(trailers, matcher.key()),
    ensures
        matcher_verdict::<T, MetadataExistsMatcher>(
            matcher,
            <MetadataExistsMatcher as StreamingMatcher<T>>::spec_header_matches(
                &matcher,
                headers,
                false,
            ),
            feed_verdict::<T, MetadataExistsMatcher>(matcher, events),
            Some(trailers),
        ),
        !matcher_verdict::<T, MetadataExistsMatcher>(
            matcher,
            <MetadataExistsMatcher as StreamingMatcher<T>>::spec_header_matches(
                &matcher,
                headers,
                false,
            ),
            feed_verdict::<T, MetadataExistsMatcher>(matcher, events),
            None,
        ),
{
}

/// A lag on the feed of one matcher that reads the stream, before the stream
/// ends, fails that matcher and so the call; the verdict of every other
/// matcher stays what it was.
pub proof fn lemma_lag_fails_one_matcher<T, M: StreamingMatcher<T>>(
    matchers: Seq<M>,
    header_ok: Seq<bool>,
    stream_ok: Seq<bool>,
    trailers: Option<MetadataMap>,
    index: int,
    events: Seq<FeedEvent<T>>,
    lag: int,
)
    requires
        header_ok.len() == matchers.len(),
        stream_ok.len() == matchers.len(),
        0 <= index < matchers.len(),
        matchers[index].spec_reads_stream(),
        0 <= lag < events.len(),
        events[lag] is Lagged,
        forall|j: int| 0 <= j < lag ==> events[j] is Message,
    ensures
        !matcher_verdict::<T, M>(
            matchers[index],
            header_ok[index],
            stream_ok.update(index, feed_verdict(matchers[index], events))[index],
            trailers,
        ),
        !call_verdict(
            matchers,
            header_ok,
            stream_ok.update(index, feed_verdict(matchers[index], events)),
            trailers,
        ),
        forall|j: int|
            0 <= j < matchers.len() && j != index ==> matcher_verdict::<T, M>(
                matchers[j],
                header_ok[j],
                stream_ok.update(index, feed_verdict(matchers[index], events))[j],
                trailers,
            ) == matcher_verdict::<T, M>(matchers[j], header_ok[j], stream_ok[j], trailers),
{
    lemma_lag_fails_stream(matchers[index], events, lag);
    let lagged = stream_ok.update(index, feed_verdict(matchers[index], events));
    assert(!matcher_verdict::<T, M>(matchers[index], header_ok[index], lagged[index], trailers));
}

} // verus!
