//! The remote catalogue: where it is asked, what it answers, and what
//! becomes of its records.

use vstd::prelude::*;
use crate::cmc::status::Status;

pub mod cryptocurrencies;
pub mod enums;
pub mod fiat;
pub mod fiats;
pub mod status;

verus! {

/// The address under which the catalogue is asked.
#[derive(Clone, Debug, PartialEq, Eq)]
pub struct API {
    endpoint: String,
}

/// One answer of the catalogue: the status of the call and, where there
/// is any, its data.
#[derive(Debug)]
pub struct Response<T> {
    pub status: Status,
    pub data: Option<T>,
}

/// One request to the catalogue: the address, and the query parameters
/// in the order in which they are sent.
#[derive(Clone, Debug, PartialEq, Eq)]
pub struct Request {
    pub url: String,
    pub query: Vec<(String, String)>,
}

/// The names and values of query parameters.
pub open spec fn query_views(query: Seq<(String, String)>) -> Seq<(Seq<char>, Seq<char>)> {
    Seq::new(query.len(), |i: int| (query[i].0@, query[i].1@))
}

impl View for API {
    type V = Seq<char>;

    closed spec fn view(&self) -> Seq<char> {
        self.endpoint@
    }
}

impl API {
    /// The catalogue that is reached under `endpoint`.
    pub fn new(endpoint: &str) -> (r: Self)
        ensures
            r@ == endpoint@,
    {
        API { endpoint: String::from_str(endpoint) }
    }

    /// The address under which the catalogue is reached.
    pub fn endpoint(&self) -> (r: &str)
        ensures
            r@ == self@,
    {
        self.endpoint.as_str()
    }

    /// The address of one of the catalogue's resources: the endpoint
    /// followed by the resource's path.
    pub fn url(&self, path: &str) -> (r: String)
        ensures
            r@ == self@ + path@,
    {
        let mut url: String = self.endpoint.clone();
        url.append(path);
        url
    }
}

} // verus!
