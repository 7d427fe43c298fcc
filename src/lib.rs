//! Test doubles for RPC methods: each method mock holds match criteria, a
//! canned responder and call-count bookkeeping, and tells afterwards whether
//! the calls it saw met the expectations set on it.

pub mod checker;
pub mod matchers;
pub mod metadata;
pub mod prelude;
pub mod responder;
pub mod times;

use vstd::prelude::*;
use tonic::metadata::MetadataMap;
use tonic::Status;

verus! {

/// An inbound call as a method mock sees it: the header metadata and the
/// request message.
pub struct Request<T> {
    pub metadata: MetadataMap,
    pub message: T,
}

impl<T> Request<T> {
    pub fn new(metadata: MetadataMap, message: T) -> (r: Request<T>)
        ensures
            r.metadata == metadata,
            r.message == message,
    {
        Request { metadata, message }
    }

    pub fn metadata(&self) -> (r: &MetadataMap)
        ensures
            *r == self.metadata,
    {
        &self.metadata
    }

    pub fn get_ref(&self) -> (r: &T)
        ensures
            *r == self.message,
    {
        &self.message
    }

    pub fn into_inner(self) -> (r: T)
        ensures
            r == self.message,
    {
        self.message
    }
}

/// A predicate over a single request, on its metadata or its message.
pub trait Matcher<T> {
    /// Whether `request` meets this matcher.
    spec fn spec_matches(&self, request: Request<T>) -> bool;

    fn matches(&self, request: &Request<T>) -> (r: bool)
        ensures
            r == self.spec_matches(*request),
    ;
}

/// A matcher for client-streaming calls, in three parts: one on the
/// metadata, one on each message, and whether it reads the messages at all.
pub trait StreamingMatcher<T> {
    /// Whether `metadata` meets this matcher; `is_trailer` tells whether it is
    /// the trailer view rather than the header view.
    spec fn spec_header_matches(&self, metadata: MetadataMap, is_trailer: bool) -> bool;

    /// Whether a single message meets this matcher.
    spec fn spec_single_match(&self, value: T) -> bool;

    /// Whether this matcher reads the message stream at all.
    spec fn spec_reads_stream(&self) -> bool;

    fn header_matches(&self, metadata: &MetadataMap, is_trailer: bool) -> (r: bool)
        ensures
            r == self.spec_header_matches(*metadata, is_trailer),
    ;

    fn single_match(&self, value: &T) -> (r: bool)
        ensures
            r == self.spec_single_match(*value),
    ;

    fn reads_stream(&self) -> (r: bool)
        ensures
            r == self.spec_reads_stream(),
    ;
}

/// What answers a call: a response message or an error status, whatever the
/// matchers made of the call.
pub trait Responder<T, U> {
    /// Whether `outcome` is an answer this responder may give to `request`.
    spec fn responds(&self, request: Request<T>, outcome: Result<U, Status>) -> bool;

    fn respond(&self, request: Request<T>) -> (r: Result<U, Status>)
        ensures
            self.responds(request, r),
    ;
}

} // verus!
