//! The items a test that sets up method mocks usually needs.

pub use crate::checker::{CallView, ClientStreamMethodMock, RequestType, UnaryMethodMock};
pub use crate::matchers::{FeedEvent, MetadataExistsMatcher, MetadataLocation, StreamCheck};
pub use crate::responder::{FixedResponse, Unimplemented};
pub use crate::times::Times;
pub use crate::{Matcher, Request, Responder, StreamingMatcher};
