//! The recorded traffic, as far as the interface shows it.
use vstd::prelude::*;

verus! {

/// The summary of one exchange, as the list shows it.
#[derive(Clone, Debug)]
pub struct TrafficHead {
    pub id: usize,
    pub method: String,
    pub uri: String,
    pub status: Option<u16>,
    pub size: Option<u64>,
    pub time: Option<u64>,
    pub mime: String,
}

/// One header of a request or a response.
#[derive(Debug)]
pub struct Header {
    pub name: String,
    pub value: String,
}

/// The headers of one exchange, or the error that ended it.
#[derive(Debug)]
pub struct Traffic {
    pub req_headers: Option<Vec<Header>>,
    pub res_headers: Option<Vec<Header>>,
    pub error: Option<String>,
}

/// A body. `utf8` tells text from a body that `value` only stands for.
#[derive(Debug)]
pub struct Body {
    pub value: String,
    pub utf8: bool,
}

/// One exchange with its bodies.
#[derive(Debug)]
pub struct TrafficDetails {
    pub traffic: Traffic,
    pub req_body: Option<Body>,
    pub res_body: Option<Body>,
}

} // verus!
