//! Discovery: the client that knows where to ask, and the search that collects the
//! lights that answer.
//!
//! Nothing here touches a socket. The caller sends the probe of a search to the
//! search's target, hands each datagram it receives to [`Search::offer`], opens a
//! session to the candidate that comes back, and reports with [`Search::accept`]
//! whether that worked.

use crate::addr::{Ipv4Addr, SocketAddrV4};
use crate::advert::Fields;
use crate::err::{invalid_input, ErrorView, YeeError};
use crate::light::{light_outcome, Light, LightView, Session};
use crate::text::str_eq;
use vstd::prelude::*;

verus! {

/// The port on which lights listen for the discovery probe.
pub const MULTICAST_PORT: u16 = 1982;

/// The local port that a client binds by default.
pub const DEFAULT_LOCAL_PORT: u16 = 7821;

/// The probe that is sent to the multicast group, byte for byte.
pub const SEARCH_MSG: &'static str =
    "M-SEARCH * HTTP/1.1\r\nHOST: 239.255.255.250:1982\r\nMAN: \"ssdp:discover\"\r\nST: wifi_bulb";

/// The multicast group on which lights listen for the discovery probe:
/// `239.255.255.250`.
pub fn multicast_addr() -> (r: Ipv4Addr)
    ensures
        r == (Ipv4Addr { a: 239, b: 255, c: 255, d: 250 }),
        r.spec_is_multicast(),
{
    Ipv4Addr::new(239, 255, 255, 250)
}

/// The address that stands for every local interface: `0.0.0.0`.
pub fn all_local() -> (r: Ipv4Addr)
    ensures
        r == (Ipv4Addr { a: 0, b: 0, c: 0, d: 0 }),
{
    Ipv4Addr::new(0, 0, 0, 0)
}

/// Where to look for lights: the multicast group to probe, and the local port on
/// which to listen for answers.
#[derive(Debug, Copy, Clone, PartialEq, Eq)]
pub struct YeeClient {
    multicast_addr: SocketAddrV4,
    local_port: u16,
}

impl YeeClient {
    /// The client for the protocol's own multicast group and the default local port.
    pub fn new() -> (r: Result<YeeClient, YeeError>)
        ensures
            r matches Ok(client) && client.spec_multicast_addr() == (SocketAddrV4 {
                ip: Ipv4Addr { a: 239, b: 255, c: 255, d: 250 },
                port: MULTICAST_PORT,
            }) && client.spec_local_port() == DEFAULT_LOCAL_PORT,
    {
        YeeClient::with_addr(SocketAddrV4::new(multicast_addr(), MULTICAST_PORT), DEFAULT_LOCAL_PORT)
    }

    /// The client for the given multicast group and local port. It fails with an
    /// I/O error exactly if the address is outside the multicast range.
    pub fn with_addr(multicast_addr: SocketAddrV4, local_port: u16) -> (r: Result<
        YeeClient,
        YeeError,
    >)
        ensures
            match r {
                Ok(client) => multicast_addr.ip.spec_is_multicast()
                    && client.spec_multicast_addr() == multicast_addr
                    && client.spec_local_port() == local_port,
                Err(e) => !multicast_addr.ip.spec_is_multicast() && e@ is IoError,
            },
    {
        if !multicast_addr.ip().is_multicast() {
            return Err(
                YeeError::IoError { source: invalid_input("not an IPv4 multicast address") },
            );
        }
        Ok(YeeClient { multicast_addr, local_port })
    }

    /// The multicast group that the client probes.
    pub closed spec fn spec_multicast_addr(&self) -> SocketAddrV4 {
        self.multicast_addr
    }

    /// The local port on which the client listens.
    pub closed spec fn spec_local_port(&self) -> u16 {
        self.local_port
    }

    /// The multicast group that the client probes.
    #[verifier::when_used_as_spec(spec_multicast_addr)]
    pub fn multicast_addr(&self) -> (r: SocketAddrV4)
        ensures
            r == self.spec_multicast_addr(),
    {
        self.multicast_addr
    }

    /// The local port on which the client listens.
    #[verifier::when_used_as_spec(spec_local_port)]
    pub fn local_port(&self) -> (r: u16)
        ensures
            r == self.spec_local_port(),
    {
        self.local_port
    }

    /// Begins a search. The probe is to go, once, to the multicast group of this
    /// client, and no light has been found yet.
    pub fn find_lights(&self) -> (r: Search)
        ensures
            r@ == (SearchView { target: self.spec_multicast_addr(), found: Seq::empty() }),
    {
        Search::new(self.multicast_addr)
    }
}

/// One of the records has the given id.
pub open spec fn has_id(found: Seq<LightView>, id: Seq<char>) -> bool {
    exists|i: int| 0 <= i < found.len() && #[trigger] found[i].id == id
}

/// No two of the records have the same id.
pub open spec fn distinct_ids(found: Seq<LightView>) -> bool {
    forall|i: int, j: int|
        0 <= i < j < found.len() ==> #[trigger] found[i].id != #[trigger] found[j].id
}

/// Every one of the records has its session open.
pub open spec fn all_ready(found: Seq<LightView>) -> bool {
    forall|i: int| 0 <= i < found.len() ==> (#[trigger] found[i]).session == Session::Ready
}

/// What becomes of a record that was built from an advertisement: it is a candidate
/// if it was built at all and no record of its id has been found before.
pub open spec fn spec_screen(found: Seq<LightView>, candidate: Result<LightView, ErrorView>)
    -> Option<LightView> {
    match candidate {
        Ok(light) => if has_id(found, light.id) {
            None
        } else {
            Some(light)
        },
        Err(_) => None,
    }
}

/// What becomes of a datagram: the candidate that its fields give, if it is an
/// HTTP response at all.
pub open spec fn spec_offer(found: Seq<LightView>, datagram: Seq<u8>) -> Option<LightView> {
    match Fields::spec_from_datagram(datagram) {
        Some(fields) => spec_screen(found, Light::spec_from_fields(fields)),
        None => None,
    }
}

/// The records after a candidate has been dealt with: it joins them, with its
/// session open, if the session could be opened and its id is still new.
pub open spec fn spec_accept(found: Seq<LightView>, light: LightView, connected: bool) -> Seq<
    LightView,
> {
    if connected && !has_id(found, light.id) {
        found.push(LightView { session: Session::Ready, ..light })
    } else {
        found
    }
}

/// One search: where its probe goes, and the lights found so far. It holds each
/// id once, and every light in it has its session open.
pub struct Search {
    target: SocketAddrV4,
    found: Vec<Light>,
}

/// The mathematical value of a search.
pub struct SearchView {
    pub target: SocketAddrV4,
    pub found: Seq<LightView>,
}

impl View for Search {
    type V = SearchView;

    closed spec fn view(&self) -> SearchView {
        SearchView {
            target: self.target,
            found: Seq::new(self.found@.len(), |i: int| self.found@[i]@),
        }
    }
}

impl Search {
    /// No two of the lights found share an id, and each has its session open.
    #[verifier::type_invariant]
    spec fn inv(self) -> bool {
        distinct_ids(self@.found) && all_ready(self@.found)
    }

    /// A search whose probe goes to `target`, and in which nothing has been found
    /// yet.
    pub fn new(target: SocketAddrV4) -> (r: Search)
        ensures
            r@ == (SearchView { target, found: Seq::empty() }),
    {
        let r = Search { target, found: Vec::new() };
        assert(r@.found =~= Seq::<LightView>::empty());
        r
    }

    /// Where the probe of this search goes.
    pub fn target(&self) -> (r: SocketAddrV4)
        ensures
            r == self@.target,
    {
        self.target
    }

    /// What to send to the target, once, when the search begins.
    pub fn probe(&self) -> (r: &'static str)
        ensures
            r@ == SEARCH_MSG@,
    {
        SEARCH_MSG
    }

    /// The number of lights found so far.
    pub fn len(&self) -> (r: usize)
        ensures
            r == self@.found.len(),
    {
        self.found.len()
    }

    /// Whether a light of the given id has been found.
    pub fn knows(&self, id: &str) -> (r: bool)
        ensures
            r == has_id(self@.found, id@),
    {
        let mut i: usize = 0;
        while i < self.found.len()
            invariant
                i <= self.found.len(),
                forall|k: int| 0 <= k < i ==> self@.found[k].id != id@,
            decreases self.found.len() - i,
        {
            if str_eq(self.found[i].id(), id) {
                assert(self@.found[i as int].id == id@);
                return true;
            }
            i = i + 1;
        }
        false
    }

    /// Decides on a record that was built from an advertisement: it is handed back
    /// as a candidate if it was built at all and its id is new to this search.
    pub fn screen(&self, candidate: Result<Light, YeeError>) -> (r: Option<Light>)
        ensures
            match r {
                Some(light) => spec_screen(self@.found, light_outcome(candidate)) == Some(
                    light@,
                ),
                None => spec_screen(self@.found, light_outcome(candidate)) is None,
            },
    {
        match candidate {
            Ok(light) => {
                if self.knows(light.id()) {
                    None
                } else {
                    Some(light)
                }
            },
            Err(_) => None,
        }
    }

    /// Decides on a datagram that was received: the record of the light that sent
    /// it is handed back as a candidate if the datagram is an advertisement with
    /// every field in order and the light's id is new to this search.
    pub fn offer(&self, datagram: &[u8]) -> (r: Option<Light>)
        ensures
            match r {
                Some(light) => spec_offer(self@.found, datagram@) == Some(light@),
                None => spec_offer(self@.found, datagram@) is None,
            },
    {
        match Fields::from_datagram(datagram) {
            Some(fields) => self.screen(Light::from_fields(&fields)),
            None => None,
        }
    }

    /// Deals with a candidate once the caller has tried to open its session. The
    /// light joins those found, with its session open, if `connected` says that the
    /// session was opened and no light of its id has joined meanwhile; otherwise
    /// it is dropped. Returns whether it joined.
    pub fn accept(&mut self, light: Light, connected: bool) -> (r: bool)
        ensures
            final(self)@.found == spec_accept(old(self)@.found, light@, connected),
            final(self)@.target == old(self)@.target,
            r == (connected && !has_id(old(self)@.found, light@.id)),
            distinct_ids(final(self)@.found),
            all_ready(final(self)@.found),
    {
        proof {
            use_type_invariant(&*self);
            lemma_accept_keeps_ids_distinct(self@.found, light@, connected);
            lemma_accept_keeps_sessions_open(self@.found, light@, connected);
        }
        if !connected || self.knows(light.id()) {
            return false;
        }
        let ghost after = spec_accept(self@.found, light@, connected);
        let mut light = light;
        light.attach();
        // the list is taken out whole and put back grown, so that the search never
        // holds a list that breaks its invariant
        let mut taken = Search::new(self.target);
        core::mem::swap(self, &mut taken);
        let Search { target, found } = taken;
        let mut found = found;
        found.push(light);
        assert(Seq::new(found@.len(), |i: int| found@[i]@) =~= after);
        let mut grown = Search { target, found };
        core::mem::swap(self, &mut grown);
        true
    }

    /// Ends the search: the lights found, in the order in which they joined. No two
    /// of them share an id, and each has its session open.
    pub fn into_lights(self) -> (r: Vec<Light>)
        ensures
            Seq::new(r@.len(), |i: int| r@[i]@) == self@.found,
            distinct_ids(self@.found),
            all_ready(self@.found),
    {
        proof {
            use_type_invariant(&self);
        }
        self.found
    }
}

/// Dealing with a candidate never makes two records share an id.
pub proof fn lemma_accept_keeps_ids_distinct(found: Seq<LightView>, light: LightView, connected: bool)
    requires
        distinct_ids(found),
    ensures
        distinct_ids(spec_accept(found, light, connected)),
{
}

/// A record that joins those found has its session open.
pub proof fn lemma_accept_keeps_sessions_open(found: Seq<LightView>, light: LightView, connected: bool)
    requires
        all_ready(found),
    ensures
        all_ready(spec_accept(found, light, connected)),
{
}

/// The records after one datagram has been received and dealt with, when
/// `connected` says whether the candidate's session could be opened.
pub open spec fn spec_step(found: Seq<LightView>, datagram: Seq<u8>, connected: bool) -> Seq<
    LightView,
> {
    match spec_offer(found, datagram) {
        Some(light) => spec_accept(found, light, connected),
        None => found,
    }
}

/// The records after the same datagram has been received once for each entry of
/// `connects`, which says for each time whether a session could be opened.
pub open spec fn spec_repeat(found: Seq<LightView>, datagram: Seq<u8>, connects: Seq<bool>) -> Seq<
    LightView,
>
    decreases connects.len(),
{
    if connects.len() == 0 {
        found
    } else {
        spec_repeat(spec_step(found, datagram, connects[0]), datagram, connects.drop_first())
    }
}

/// A datagram that gives no candidate now gives none however often it comes again.
proof fn lemma_declined_stays_declined(found: Seq<LightView>, datagram: Seq<u8>, connects: Seq<bool>)
    requires
        spec_offer(found, datagram) is None,
    ensures
        spec_repeat(found, datagram, connects) == found,
    decreases connects.len(),
{
    if connects.len() > 0 {
        lemma_declined_stays_declined(found, datagram, connects.drop_first());
    }
}

/// However often the same advertisement is received within one search, it adds at
/// most one record to those found, whatever becomes of the attempts to open a
/// session; in a search that has found nothing yet it leaves at most one record.
pub proof fn lemma_dedup(found: Seq<LightView>, datagram: Seq<u8>, connects: Seq<bool>)
    ensures
        spec_repeat(found, datagram, connects).len() <= found.len() + 1,
        found.len() == 0 ==> spec_repeat(found, datagram, connects).len() <= 1,
    decreases connects.len(),
{
    if connects.len() > 0 {
        let next = spec_step(found, datagram, connects[0]);
        match spec_offer(found, datagram) {
            Some(light) => {
                if connects[0] {
                    assert(next[found.len() as int].id == light.id);
                    lemma_declined_stays_declined(next, datagram, connects.drop_first());
                } else {
                    lemma_dedup(found, datagram, connects.drop_first());
                }
            },
            None => {
                lemma_declined_stays_declined(found, datagram, connects.drop_first());
            },
        }
    }
}

/// However often the same advertisement is received within one search, no two of
/// the records found share an id.
pub proof fn lemma_repeat_keeps_ids_distinct(
    found: Seq<LightView>,
    datagram: Seq<u8>,
    connects: Seq<bool>,
)
    requires
        distinct_ids(found),
    ensures
        distinct_ids(spec_repeat(found, datagram, connects)),
    decreases connects.len(),
{
    if connects.len() > 0 {
        match spec_offer(found, datagram) {
            Some(light) => {
                lemma_accept_keeps_ids_distinct(found, light, connects[0]);
            },
            None => {},
        }
        lemma_repeat_keeps_ids_distinct(
            spec_step(found, datagram, connects[0]),
            datagram,
            connects.drop_first(),
        );
    }
}

} // verus!
