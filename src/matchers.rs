//! Matchers: the built-in metadata-existence matcher, and the verdict of a
//! streaming matcher over the feed of messages it is handed.

use vstd::prelude::*;
use tonic::metadata::MetadataMap;
use crate::metadata::{contains_key, holds_key};
use crate::{Matcher, Request, StreamingMatcher};

verus! {

/// Where a metadata-existence matcher looks for its key.
#[derive(Clone, Copy, Debug, PartialEq, Eq, Structural)]
pub enum MetadataLocation {
    /// In whatever metadata it is shown.
    Any,
    /// In the header view only.
    Header,
    /// In the trailer view only.
    Trailer,
}

/// Passes when the metadata holds a given key; key names are taken in either
/// ASCII case.
///
/// A unary call has no trailers before it is answered, so on a unary call a
/// matcher scoped to trailers passes whatever the request holds. On a
/// client-streaming call the same matcher passes the header view, so the
/// trailers are never asked to hold its key either; and a matcher scoped to
/// headers that failed there passes as soon as trailers come.
pub struct MetadataExistsMatcher {
    key: String,
    area: MetadataLocation,
}

impl MetadataExistsMatcher {
    /// The key looked for.
    pub closed spec fn key(&self) -> Seq<char> {
        self.key@
    }

    /// Where the key is looked for.
    pub closed spec fn location(&self) -> MetadataLocation {
        self.area
    }

    /// A matcher for `key` in any metadata.
    pub fn new(key: String) -> (r: Self)
        ensures
            r.key() == key@,
            r.location() == MetadataLocation::Any,
    {
        MetadataExistsMatcher { key, area: MetadataLocation::Any }
    }

    /// A matcher for `key` in the header view only.
    pub fn header(key: String) -> (r: Self)
        ensures
            r.key() == key@,
            r.location() == MetadataLocation::Header,
    {
        MetadataExistsMatcher { key, area: MetadataLocation::Header }
    }

    /// A matcher for `key` in the trailer view only.
    pub fn trailer(key: String) -> (r: Self)
        ensures
            r.key() == key@,
            r.location() == MetadataLocation::Trailer,
    {
        MetadataExistsMatcher { key, area: MetadataLocation::Trailer }
    }

    /// Whether this matcher looks at the trailer view (`is_trailer`) or at
    /// the header view (otherwise).
    pub open spec fn looks_at(&self, is_trailer: bool) -> bool {
        match self.location() {
            MetadataLocation::Any => true,
            MetadataLocation::Header => !is_trailer,
            MetadataLocation::Trailer => is_trailer,
        }
    }
}

impl<T> Matcher<T> for MetadataExistsMatcher {
    open spec fn spec_matches(&self, request: Request<T>) -> bool {
        self.location() == MetadataLocation::Trailer || holds_key(request.metadata, self.key())
    }

    fn matches(&self, request: &Request<T>) -> (r: bool) {
        match self.area {
            MetadataLocation::Trailer => true,
            _ => contains_key(request.metadata(), self.key.as_str()),
        }
    }
}

impl<T> StreamingMatcher<T> for MetadataExistsMatcher {
    open spec fn spec_header_matches(&self, metadata: MetadataMap, is_trailer: bool) -> bool {
        self.looks_at(is_trailer) ==> holds_key(metadata, self.key())
    }

    open spec fn spec_single_match(&self, value: T) -> bool {
        true
    }

    open spec fn spec_reads_stream(&self) -> bool {
        false
    }

    fn header_matches(&self, metadata: &MetadataMap, is_trailer: bool) -> (r: bool) {
        let looks = match self.area {
            MetadataLocation::Any => true,
            MetadataLocation::Header => !is_trailer,
            MetadataLocation::Trailer => is_trailer,
        };
        if looks {
            contains_key(metadata, self.key.as_str())
        } else {
            true
        }
    }

    fn single_match(&self, value: &T) -> (r: bool) {
        true
    }

    fn reads_stream(&self) -> (r: bool) {
        false
    }
}

/// One event of the feed that a streaming matcher reads: a message, the end
/// of the stream, or word that the reader fell behind and lost messages.
pub enum FeedEvent<T> {
    Message(T),
    End,
    /// The reader lagged; the count is the number of messages it missed.
    Lagged(u64),
}

/// Where a streaming matcher stands while it reads its feed: the verdict so
/// far, and whether it has stopped reading.
#[derive(Clone, Copy, Debug, PartialEq, Eq, Structural)]
pub struct StreamCheck {
    pub verdict: bool,
    pub done: bool,
}

/// The check a streaming matcher starts from: passing, and already done when
/// it does not read the stream.
pub open spec fn start_check<T, M: StreamingMatcher<T>>(matcher: M) -> StreamCheck {
    StreamCheck { verdict: true, done: !matcher.spec_reads_stream() }
}

/// The check after one more event. Once done, a check takes no events; the
/// end of the stream stops it as it stands, and a lag stops it failed.
pub open spec fn next_check<T, M: StreamingMatcher<T>>(
    matcher: M,
    check: StreamCheck,
    event: FeedEvent<T>,
) -> StreamCheck {
    if check.done {
        check
    } else {
        match event {
            FeedEvent::Message(v) => StreamCheck {
                verdict: check.verdict && matcher.spec_single_match(v),
                done: false,
            },
            FeedEvent::End => StreamCheck { verdict: check.verdict, done: true },
            FeedEvent::Lagged(_) => StreamCheck { verdict: false, done: true },
        }
    }
}

/// The check after each of `events` in turn.
pub open spec fn run_checks<T, M: StreamingMatcher<T>>(
    matcher: M,
    check: StreamCheck,
    events: Seq<FeedEvent<T>>,
) -> StreamCheck
    decreases events.len(),
{
    if events.len() == 0 {
        check
    } else {
        run_checks(matcher, next_check(matcher, check, events[0]), events.drop_first())
    }
}

/// Whether the events up to the first end or lag hold no lag and only
/// messages that pass one by one. A feed that runs out counts as ended.
pub open spec fn messages_pass<T, M: StreamingMatcher<T>>(
    matcher: M,
    events: Seq<FeedEvent<T>>,
) -> bool
    decreases events.len(),
{
    if events.len() == 0 {
        true
    } else {
        match events[0] {
            FeedEvent::Message(v) => matcher.spec_single_match(v) && messages_pass(
                matcher,
                events.drop_first(),
            ),
            FeedEvent::End => true,
            FeedEvent::Lagged(_) => false,
        }
    }
}

/// The stream verdict of `matcher` on a feed: true for a matcher that does
/// not read the stream, else whether the messages pass.
pub open spec fn feed_verdict<T, M: StreamingMatcher<T>>(
    matcher: M,
    events: Seq<FeedEvent<T>>,
) -> bool {
    !matcher.spec_reads_stream() || messages_pass(matcher, events)
}

proof fn lemma_done_check_stays<T, M: StreamingMatcher<T>>(
    matcher: M,
    check: StreamCheck,
    events: Seq<FeedEvent<T>>,
)
    requires
        check.done,
    ensures
        run_checks(matcher, check, events) == check,
    decreases events.len(),
{
    if events.len() > 0 {
        lemma_done_check_stays(matcher, check, events.drop_first());
    }
}

proof fn lemma_running_check_verdict<T, M: StreamingMatcher<T>>(
    matcher: M,
    check: StreamCheck,
    events: Seq<FeedEvent<T>>,
)
    requires
        !check.done,
    ensures
        run_checks(matcher, check, events).verdict == (check.verdict && messages_pass(
            matcher,
            events,
        )),
    decreases events.len(),
{
    if events.len() > 0 {
        let next = next_check(matcher, check, events[0]);
        match events[0] {
            FeedEvent::Message(v) => {
                lemma_running_check_verdict(matcher, next, events.drop_first());
            },
            _ => {
                lemma_done_check_stays(matcher, next, events.drop_first());
            },
        }
    }
}

/// Driving a matcher's check event by event, from its start, ends with its
/// stream verdict on those events.
pub proof fn lemma_stepping_gives_verdict<T, M: StreamingMatcher<T>>(
    matcher: M,
    events: Seq<FeedEvent<T>>,
)
    ensures
        run_checks(matcher, start_check(matcher), events).verdict == feed_verdict(
            matcher,
            events,
        ),
{
    if matcher.spec_reads_stream() {
        lemma_running_check_verdict(matcher, start_check(matcher), events);
    } else {
        lemma_done_check_stays(matcher, start_check(matcher), events);
    }
}

/// A lag that reaches a matcher which reads the stream, before the stream
/// ends, fails that matcher's stream verdict, whatever the messages were.
pub proof fn lemma_lag_fails_stream<T, M: StreamingMatcher<T>>(
    matcher: M,
    events: Seq<FeedEvent<T>>,
    lag: int,
)
    requires
        matcher.spec_reads_stream(),
        0 <= lag < events.len(),
        events[lag] is Lagged,
        forall|j: int| 0 <= j < lag ==> events[j] is Message,
    ensures
        !feed_verdict(matcher, events),
    decreases lag,
{
    if lag > 0 {
        let rest = events.drop_first();
        assert forall|j: int| 0 <= j < lag - 1 implies rest[j] is Message by {
            assert(rest[j] == events[j + 1]);
        }
        lemma_lag_fails_stream(matcher, rest, lag - 1);
    }
}

/// The check that `matcher` starts its feed with.
pub fn stream_start<T, M: StreamingMatcher<T>>(matcher: &M) -> (r: StreamCheck)
    ensures
        r == start_check(*matcher),
{
    StreamCheck { verdict: true, done: !matcher.reads_stream() }
}

/// The check of `matcher` after `event`.
pub fn stream_step<T, M: StreamingMatcher<T>>(
    matcher: &M,
    check: StreamCheck,
    event: &FeedEvent<T>,
) -> (r: StreamCheck)
    ensures
        r == next_check(*matcher, check, *event),
{
    if check.done {
        check
    } else {
        match event {
            FeedEvent::Message(v) => {
                let ok = matcher.single_match(v);
                StreamCheck { verdict: check.verdict && ok, done: false }
            },
            FeedEvent::End => StreamCheck { verdict: check.verdict, done: true },
            FeedEvent::Lagged(_) => StreamCheck { verdict: false, done: true },
        }
    }
}

/// The stream verdict of `matcher` on a whole feed. It stops reading as soon
/// as its check is done.
pub fn stream_match<T, M: StreamingMatcher<T>>(matcher: &M, feed: &Vec<FeedEvent<T>>) -> (r: bool)
    ensures
        r == feed_verdict(*matcher, feed@),
{
    let ghost events = feed@;
    let mut check = stream_start(matcher);
    let mut i: usize = 0;
    proof {
        assert(events.skip(0) =~= events);
    }
    while i < feed.len() && !check.done
        invariant
            i <= events.len(),
            events == feed@,
            run_checks(*matcher, check, events.skip(i as int)) == run_checks(
                *matcher,
                start_check(*matcher),
                events,
            ),
        decreases events.len() - i,
    {
        check = stream_step(matcher, check, &feed[i]);
        proof {
            assert(events.skip(i as int).drop_first() =~= events.skip(i + 1));
            assert(events.skip(i as int)[0] == events[i as int]);
        }
        i += 1;
    }
    proof {
        if check.done {
            lemma_done_check_stays(*matcher, check, events.skip(i as int));
        }
        lemma_stepping_gives_verdict(*matcher, events);
    }
    check.verdict
}

} // verus!
