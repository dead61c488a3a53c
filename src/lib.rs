//! A subscriber-intake service: a liveness probe and a form endpoint that
//! records new subscribers. The decisions of each request are verified here;
//! sockets, the async runtime and the database driver live outside.
use vstd::prelude::*;

pub mod form;
pub mod http;
pub mod store;
pub mod subscriber;
pub mod subscription;
pub mod text;

pub use form::{decode_form, is_form_content_type, read_form, Field, FormData, FormError};
pub use http::{
    health_check, route, unrouted_response, Method, Response, Route, STATUS_BAD_REQUEST,
    STATUS_INTERNAL_SERVER_ERROR, STATUS_METHOD_NOT_ALLOWED, STATUS_NOT_FOUND, STATUS_OK,
};
pub use store::{StoreError, SubscriberTable};
pub use subscriber::{new_subscriber, Subscriber};
pub use subscription::{insert_outcome_response, intake, rejection_response, subscribe, Intake};

verus! {

} // verus!
