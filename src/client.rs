//! The client's own part of a tracking request: its key, the address of the
//! report for a tracking number, and the meaning of the response's status.
use vstd::prelude::*;

use crate::tracking::TrackingNumber;

verus! {

/// The address of the tracking report for the identifier `number`.
pub open spec fn report_url(number: Seq<char>) -> Seq<char> {
    "https://api.laposte.fr/suivi/v2/idships/"@ + number
}

/// A client of the tracking API, holding the key that authenticates it.
#[derive(Clone)]
pub struct Client {
    okapi_key: String,
}

impl View for Client {
    type V = Seq<char>;

    closed spec fn view(&self) -> Seq<char> {
        self.okapi_key@
    }
}

impl Client {
    pub fn new(okapi_key: &str) -> (r: Client)
        ensures
            r@ == okapi_key@,
    {
        Client { okapi_key: okapi_key.to_string() }
    }

    /// The key sent with each request.
    pub fn okapi_key(&self) -> (r: &str)
        ensures
            r@ == self@,
    {
        self.okapi_key.as_str()
    }

    /// The address to request the report of `tracking_number` from.
    pub fn tracking_url(tracking_number: &TrackingNumber) -> (r: String)
        ensures
            r@ == report_url(tracking_number@),
    {
        let uri = "https://api.laposte.fr/suivi/v2/idships/".to_string();
        let number = tracking_number.to_string();
        uri.concat(number.as_str())
    }
}

} // verus!
