use tonic::metadata::MetadataMap;
use tonic::Code;
use tonic_mock::checker::ClientStreamMethodMock;
use tonic_mock::matchers::{
    stream_match, stream_start, stream_step, FeedEvent, MetadataExistsMatcher, StreamCheck,
};
use tonic_mock::responder::{FixedResponse, Unimplemented};
use tonic_mock::times::Times;
use tonic_mock::{Request, StreamingMatcher};

/// Passes messages that are even; reads the stream.
struct EvenMessages;

impl StreamingMatcher<u32> for EvenMessages {
    fn spec_header_matches(&self, _metadata: MetadataMap, _is_trailer: bool) -> bool {
        true
    }

    fn spec_single_match(&self, value: u32) -> bool {
        value % 2 == 0
    }

    fn spec_reads_stream(&self) -> bool {
        true
    }

    fn header_matches(&self, _metadata: &MetadataMap, _is_trailer: bool) -> bool {
        true
    }

    fn single_match(&self, value: &u32) -> bool {
        value % 2 == 0
    }

    fn reads_stream(&self) -> bool {
        true
    }
}

fn metadata_with(keys: &[&'static str]) -> MetadataMap {
    let mut md = MetadataMap::new();
    for k in keys {
        md.insert(*k, "set".parse().unwrap());
    }
    md
}

fn feed(messages: &[u32]) -> Vec<FeedEvent<u32>> {
    let mut out: Vec<FeedEvent<u32>> = messages.iter().map(|m| FeedEvent::Message(*m)).collect();
    out.push(FeedEvent::End);
    out
}

fn drive<M: StreamingMatcher<u32>>(m: &M, events: &[FeedEvent<u32>]) -> bool {
    let mut check = stream_start(m);
    for e in events {
        if check.done {
            break;
        }
        check = stream_step(m, check, e);
    }
    check.verdict
}

#[test]
fn feed_of_passing_messages_passes() {
    assert!(stream_match(&EvenMessages, &feed(&[2, 4, 6])));
    assert!(stream_match(&EvenMessages, &feed(&[])));
}

#[test]
fn one_failing_message_fails_feed() {
    assert!(!stream_match(&EvenMessages, &feed(&[2, 3, 6])));
}

#[test]
fn feed_without_end_counts_as_ended() {
    let events = vec![FeedEvent::Message(2), FeedEvent::Message(8)];
    assert!(stream_match(&EvenMessages, &events));
}

#[test]
fn messages_after_end_are_not_read() {
    let events = vec![FeedEvent::Message(2), FeedEvent::End, FeedEvent::Message(3)];
    assert!(stream_match(&EvenMessages, &events));
}

#[test]
fn lag_fails_a_reading_matcher() {
    let events = vec![FeedEvent::Message(2), FeedEvent::Lagged(5), FeedEvent::End];
    assert!(!stream_match(&EvenMessages, &events));
    let lag_first = vec![FeedEvent::Lagged(1)];
    assert!(!stream_match(&EvenMessages, &lag_first));
}

#[test]
fn lag_after_end_is_not_seen() {
    let events = vec![FeedEvent::Message(2), FeedEvent::End, FeedEvent::Lagged(5)];
    assert!(stream_match(&EvenMessages, &events));
}

#[test]
fn metadata_matcher_does_not_read_the_stream() {
    let m = MetadataExistsMatcher::new("a".to_string());
    assert_eq!(
        stream_start::<u32, _>(&m),
        StreamCheck {
            verdict: true,
            done: true
        }
    );
    let events: Vec<FeedEvent<u32>> = vec![FeedEvent::Lagged(3)];
    assert!(stream_match(&m, &events));
}

#[test]
fn stepping_agrees_with_whole_feed() {
    let feeds: Vec<Vec<FeedEvent<u32>>> = vec![
        feed(&[2, 4]),
        feed(&[1]),
        vec![FeedEvent::Message(4), FeedEvent::Lagged(2)],
        vec![],
    ];
    for f in feeds.iter() {
        assert_eq!(drive(&EvenMessages, f), stream_match(&EvenMessages, f));
    }
    let step = stream_step(
        &EvenMessages,
        StreamCheck {
            verdict: true,
            done: false,
        },
        &FeedEvent::Lagged(1),
    );
    assert_eq!(
        step,
        StreamCheck {
            verdict: false,
            done: true
        }
    );
}

#[test]
fn metadata_matcher_header_and_trailer_views() {
    let any = MetadataExistsMatcher::new("k".to_string());
    let header = MetadataExistsMatcher::header("k".to_string());
    let trailer = MetadataExistsMatcher::trailer("k".to_string());
    let with = metadata_with(&["k"]);
    let without = metadata_with(&["j"]);
    let hm = |m: &MetadataExistsMatcher, md: &MetadataMap, t: bool| {
        StreamingMatcher::<u32>::header_matches(m, md, t)
    };
    assert!(hm(&any, &with, false));
    assert!(!hm(&any, &without, false));
    assert!(!hm(&any, &without, true));
    assert!(!hm(&header, &without, false));
    assert!(hm(&header, &without, true));
    assert!(hm(&trailer, &without, false));
    assert!(!hm(&trailer, &without, true));
    assert!(hm(&trailer, &with, true));
}

type KeyMock = ClientStreamMethodMock<u32, String, MetadataExistsMatcher, FixedResponse<String>>;

fn key_mock(key: &str) -> KeyMock {
    let mut mock = ClientStreamMethodMock::new();
    mock.add_matcher(MetadataExistsMatcher::new(key.to_string()));
    mock.response(FixedResponse::ok("summary".to_string()))
}

fn run_call(
    mock: &mut KeyMock,
    headers: MetadataMap,
    trailers: Option<MetadataMap>,
) -> Result<String, tonic::Status> {
    let header_ok = mock.header_verdicts(&headers);
    let events = feed(&[1, 2]);
    let mut stream_ok = Vec::new();
    for i in 0..mock.matcher_count() {
        let mut check = mock.stream_start(i);
        for e in events.iter() {
            if check.done {
                break;
            }
            check = mock.stream_step(i, check, e);
        }
        stream_ok.push(check.verdict);
    }
    mock.process_request(
        Request::new(headers, vec![1, 2]),
        &header_ok,
        &stream_ok,
        &trailers,
    )
}

#[test]
fn trailers_give_a_second_chance() {
    let mut mock = key_mock("trace");
    let out = run_call(&mut mock, metadata_with(&[]), Some(metadata_with(&["trace"])));
    assert_eq!(out.unwrap(), "summary");
    assert!(mock.verify());
}

#[test]
fn missing_trailers_keep_header_verdict() {
    let mut mock = key_mock("trace");
    let out = run_call(&mut mock, metadata_with(&[]), None);
    assert_eq!(out.unwrap(), "summary");
    assert!(!mock.verify());
}

#[test]
fn trailers_without_key_fail() {
    let mut mock = key_mock("trace");
    run_call(&mut mock, metadata_with(&[]), Some(metadata_with(&["other"]))).unwrap();
    assert!(!mock.verify());
}

#[test]
fn header_pass_needs_no_trailers() {
    let mut mock = key_mock("trace");
    run_call(&mut mock, metadata_with(&["trace"]), None).unwrap();
    assert!(mock.verify());
    assert_eq!(mock.calls(), 1);
}

#[test]
fn lag_fails_only_its_matcher_and_call_still_answers() {
    let mut mock: ClientStreamMethodMock<u32, String, EvenMessages, FixedResponse<String>> =
        ClientStreamMethodMock::new().response(FixedResponse::ok("done".to_string()));
    mock.add_matcher(EvenMessages);
    mock.add_matcher(EvenMessages);
    let clean = feed(&[2, 4]);
    let lagged = vec![FeedEvent::Message(2), FeedEvent::Lagged(7)];
    let headers = metadata_with(&[]);
    let header_ok = mock.header_verdicts(&headers);
    assert_eq!(header_ok, vec![true, true]);
    let first = stream_match(&EvenMessages, &clean);
    let second = stream_match(&EvenMessages, &lagged);
    assert!(first);
    assert!(!second);
    let out = mock.process_request(
        Request::new(headers, vec![2, 4]),
        &header_ok,
        &vec![first, second],
        &None,
    );
    assert_eq!(out.unwrap(), "done");
    assert!(!mock.verify());

    mock.reset();
    let headers = metadata_with(&[]);
    let out = mock.process_request(
        Request::new(headers, vec![2, 4]),
        &vec![true, true],
        &vec![first, first],
        &None,
    );
    assert_eq!(out.unwrap(), "done");
    assert!(mock.verify());
}

#[test]
fn client_stream_counts_against_expectation() {
    let mut mock = key_mock("k");
    mock.expect(Times::RangeFrom(2));
    run_call(&mut mock, metadata_with(&["k"]), None).unwrap();
    assert!(!mock.verify());
    run_call(&mut mock, metadata_with(&["k"]), None).unwrap();
    assert!(mock.verify());
    assert_eq!(mock.calls(), 2);
}


#[test]
fn unconfigured_client_stream_is_unimplemented() {
    let mut mock: ClientStreamMethodMock<u32, String, MetadataExistsMatcher, Unimplemented> =
        ClientStreamMethodMock::default();
    let out = mock.process_request(Request::new(metadata_with(&[]), vec![]), &vec![], &vec![], &None);
    assert_eq!(out.unwrap_err().code(), Code::Unimplemented);
    assert!(mock.verify());
}
