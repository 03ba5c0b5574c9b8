//! The advertisement that a device sends in answer to the discovery probe: an
//! HTTP-like response whose headers carry the device's fields.

use vstd::hash_map::StringHashMap;
use vstd::prelude::*;

verus! {

/// How many headers of an advertisement are read.
pub const MAX_HEADERS: usize = 17;

/// One header of a response, as the parser hands it out: the name as text, the value
/// as the bytes that were received.
#[derive(Debug, PartialEq, Eq)]
pub struct Header {
    pub name: String,
    pub value: Vec<u8>,
}

/// The mathematical value of a header.
pub struct HeaderView {
    pub name: Seq<char>,
    pub value: Seq<u8>,
}

impl View for Header {
    type V = HeaderView;

    open spec fn view(&self) -> HeaderView {
        HeaderView { name: self.name@, value: self.value@ }
    }
}

/// The values of a sequence of headers.
pub open spec fn header_views(hs: Seq<Header>) -> Seq<HeaderView> {
    Seq::new(hs.len(), |i: int| hs[i]@)
}

/// The headers that `httparse` reads from a datagram as an HTTP response, given room
/// for `capacity` headers; `None` where it reports the datagram as invalid.
pub uninterp spec fn response_headers(datagram: Seq<u8>, capacity: nat) -> Option<
    Seq<HeaderView>,
>;

/// `httparse::Response::parse` on a header buffer of `capacity` empty headers. The
/// result holds the parser's `headers` after the call, whether the response was
/// complete or partial, and is `None` where the parser returned an error.
#[verifier::external_body]
fn parse_response(datagram: &[u8], capacity: usize) -> (r: Option<Vec<Header>>)
    ensures
        match r {
            Some(hs) => response_headers(datagram@, capacity as nat) == Some(header_views(hs@)),
            None => response_headers(datagram@, capacity as nat) is None,
        },
{
    let mut buffer = vec![httparse::EMPTY_HEADER; capacity];
    let mut response = httparse::Response::new(&mut buffer);
    match response.parse(datagram) {
        Ok(_) => Some(
            response.headers.iter().map(
                |h| Header { name: h.name.to_string(), value: h.value.to_vec() },
            ).collect(),
        ),
        Err(_) => None,
    }
}

/// The text that bytes hold as UTF-8, with each invalid sequence replaced by the
/// replacement character.
pub uninterp spec fn utf8_lossy(bytes: Seq<u8>) -> Seq<char>;

/// `String::from_utf8_lossy` of the standard library, as an owned string.
#[verifier::external_body]
fn lossy_string(bytes: &[u8]) -> (r: String)
    ensures
        r@ == utf8_lossy(bytes@),
{
    String::from_utf8_lossy(bytes).into_owned()
}

/// The map that a sequence of headers makes: each name with its value read as text,
/// a later header replacing an earlier one of the same name.
pub open spec fn header_map(hs: Seq<HeaderView>) -> Map<Seq<char>, Seq<char>>
    decreases hs.len(),
{
    if hs.len() == 0 {
        Map::empty()
    } else {
        header_map(hs.drop_last()).insert(hs.last().name, utf8_lossy(hs.last().value))
    }
}

/// The fields of an advertisement by name.
pub struct Fields {
    map: StringHashMap<String>,
}

impl View for Fields {
    type V = Map<Seq<char>, Seq<char>>;

    closed spec fn view(&self) -> Map<Seq<char>, Seq<char>> {
        self.map@.map_values(|v: String| v@)
    }
}

impl Fields {
    /// What the fields of a datagram are: the map of the headers that the parser
    /// reads from it, if it accepts the datagram.
    pub open spec fn spec_from_datagram(datagram: Seq<u8>) -> Option<Map<Seq<char>, Seq<char>>> {
        match response_headers(datagram, MAX_HEADERS as nat) {
            Some(hs) => Some(header_map(hs)),
            None => None,
        }
    }

    /// No fields.
    pub fn new() -> (r: Fields)
        ensures
            r@ == Map::<Seq<char>, Seq<char>>::empty(),
    {
        let r = Fields { map: StringHashMap::new() };
        r
    }

    /// Sets the field `name` to `value`, replacing what it held.
    pub fn insert(&mut self, name: &str, value: &str)
        ensures
            final(self)@ == old(self)@.insert(name@, value@),
    {
        self.map.insert(name.to_owned(), value.to_owned());
    }

    /// Takes the field `name` out, if it is there.
    pub fn remove(&mut self, name: &str)
        ensures
            final(self)@ == old(self)@.remove(name@),
    {
        self.map.remove(name);
    }

    /// The value of the field `name`, if it is there.
    pub fn get(&self, name: &str) -> (r: Option<&str>)
        ensures
            match r {
                Some(v) => self@.contains_key(name@) && self@[name@] == v@,
                None => !self@.contains_key(name@),
            },
    {
        match self.map.get(name) {
            Some(v) => Some(v.as_str()),
            None => None,
        }
    }

    /// The fields that a sequence of headers gives.
    pub fn from_headers(headers: &Vec<Header>) -> (r: Fields)
        ensures
            r@ == header_map(header_views(headers@)),
    {
        let mut fields = Fields::new();
        let mut i: usize = 0;
        while i < headers.len()
            invariant
                i <= headers.len(),
                fields@ == header_map(header_views(headers@).take(i as int)),
            decreases headers.len() - i,
        {
            let value = lossy_string(headers[i].value.as_slice());
            proof {
                let all = header_views(headers@);
                assert(all.take(i + 1).drop_last() =~= all.take(i as int));
            }
            fields.insert(headers[i].name.as_str(), value.as_str());
            i = i + 1;
        }
        assert(header_views(headers@).take(headers.len() as int) =~= header_views(headers@));
        fields
    }

    /// Reads the fields of an advertisement from the datagram that carried it.
    /// `None` where the datagram is no HTTP response.
    pub fn from_datagram(datagram: &[u8]) -> (r: Option<Fields>)
        ensures
            match r {
                Some(fields) => Fields::spec_from_datagram(datagram@) == Some(fields@),
                None => Fields::spec_from_datagram(datagram@) is None,
            },
    {
        match parse_response(datagram, MAX_HEADERS) {
            Some(headers) => Some(Fields::from_headers(&headers)),
            None => None,
        }
    }
}

} // verus!
