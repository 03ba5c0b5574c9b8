//! The request envelope of the command channel, and the transition effect that
//! most commands carry.

use crate::text::{decimal_string, decimal_text};
use core::time::Duration;
use vstd::prelude::*;
use vstd::string::StringExecFns;

verus! {

// ---------------------------------------------------------------------------
// Transition
// ---------------------------------------------------------------------------

/// The shortest smooth transition that the protocol accepts, in milliseconds.
pub const MIN_SMOOTH_MILLIS: u64 = 30;

/// The number of whole milliseconds in a duration.
pub uninterp spec fn duration_millis(d: Duration) -> nat;

/// `Duration::as_millis` of the standard library: the total number of whole
/// milliseconds that the duration holds.
#[verifier::external_body]
fn duration_as_millis(d: &Duration) -> (r: u128)
    ensures
        r == duration_millis(*d),
{
    d.as_millis()
}

/// How the light moves from its present state to the one a command asks for.
#[derive(Debug, Copy, Clone, Eq, PartialEq)]
pub enum Transition {
    /// At once.
    Sudden,
    /// Gradually, over `duration`.
    Smooth { duration: Duration },
}

impl Transition {
    /// A smooth transition lasts at least 30 ms and at most `u64::MAX` ms.
    pub open spec fn wf(self) -> bool {
        match self {
            Transition::Sudden => true,
            Transition::Smooth { duration } => MIN_SMOOTH_MILLIS <= duration_millis(duration)
                <= u64::MAX,
        }
    }

    /// The duration in whole milliseconds: none for a sudden transition.
    pub open spec fn millis(self) -> nat {
        match self {
            Transition::Sudden => 0,
            Transition::Smooth { duration } => duration_millis(duration),
        }
    }

    /// The name of the effect on the wire.
    pub open spec fn spec_text(self) -> Seq<char> {
        match self {
            Transition::Sudden => "sudden"@,
            Transition::Smooth { .. } => "smooth"@,
        }
    }

    /// The duration on the wire: the milliseconds, cut to 64 bits.
    pub open spec fn spec_value(self) -> u64 {
        self.millis() as u64
    }

    /// What `smooth` makes of a duration.
    pub open spec fn spec_smooth(duration: Duration) -> Option<Transition> {
        if MIN_SMOOTH_MILLIS <= duration_millis(duration) <= u64::MAX {
            Some(Transition::Smooth { duration })
        } else {
            None
        }
    }

    /// The sudden transition.
    pub fn sudden() -> (r: Transition)
        ensures
            r == Transition::Sudden,
            r.wf(),
    {
        Transition::Sudden
    }

    /// The smooth transition over `duration`, if the protocol accepts that duration:
    /// at least 30 ms, and no more milliseconds than 64 bits hold.
    pub fn smooth(duration: Duration) -> (r: Option<Transition>)
        ensures
            r == Transition::spec_smooth(duration),
            r is Some <==> MIN_SMOOTH_MILLIS <= duration_millis(duration) <= u64::MAX,
            r matches Some(t) ==> t.wf() && t.millis() == duration_millis(duration),
    {
        let millis: u128 = duration_as_millis(&duration);
        if millis < MIN_SMOOTH_MILLIS as u128 || millis > u64::MAX as u128 {
            None
        } else {
            Some(Transition::Smooth { duration })
        }
    }

    /// The name of the effect on the wire: `sudden` or `smooth`.
    pub fn text(&self) -> (r: &'static str)
        ensures
            r@ == self.spec_text(),
    {
        match self {
            Transition::Sudden => "sudden",
            Transition::Smooth { .. } => "smooth",
        }
    }

    /// The duration on the wire, in milliseconds; 0 for a sudden transition, which
    /// the device ignores.
    pub fn value(&self) -> (r: u64)
        ensures
            r == self.spec_value(),
            self.wf() ==> r == self.millis(),
    {
        match self {
            Transition::Sudden => 0,
            Transition::Smooth { duration } => {
                let millis: u128 = duration_as_millis(duration);
                #[verifier::truncate]
                (millis as u64)
            },
        }
    }
}

// ---------------------------------------------------------------------------
// Request
// ---------------------------------------------------------------------------

/// One parameter of a request: an integer or a string.
#[derive(Debug, PartialEq, Eq)]
pub enum Param {
    Int(u64),
    Text(String),
}

/// The mathematical value of a parameter.
pub enum ParamView {
    Int(u64),
    Text(Seq<char>),
}

impl View for Param {
    type V = ParamView;

    open spec fn view(&self) -> ParamView {
        match self {
            Param::Int(n) => ParamView::Int(*n),
            Param::Text(s) => ParamView::Text(s@),
        }
    }
}

/// A request to a device: a correlation id, a method name and the method's parameters.
#[derive(Debug, PartialEq, Eq)]
pub struct Req {
    pub id: u16,
    pub method: String,
    pub params: Vec<Param>,
}

/// The mathematical value of a request.
pub struct ReqView {
    pub id: u16,
    pub method: Seq<char>,
    pub params: Seq<ParamView>,
}

impl View for Req {
    type V = ReqView;

    open spec fn view(&self) -> ReqView {
        ReqView {
            id: self.id,
            method: self.method@,
            params: Seq::new(self.params@.len(), |i: int| self.params@[i]@),
        }
    }
}

/// `c` stands in a JSON string literal as it is: it is no double quote, no
/// backslash and no control character below the space.
pub open spec fn json_plain_char(c: char) -> bool {
    c != '"' && c != '\\' && c as u32 >= 0x20
}

/// Every character of `s` stands in a JSON string literal as it is.
pub open spec fn json_plain(s: Seq<char>) -> bool {
    forall|i: int| 0 <= i < s.len() ==> json_plain_char(#[trigger] s[i])
}

/// The JSON string literal for a text in which some character has to be written
/// as an escape.
pub uninterp spec fn json_escaped(s: Seq<char>) -> Seq<char>;

/// The JSON string literal for a text: the text between double quotes, where
/// every character can stand as it is.
pub open spec fn json_quoted(s: Seq<char>) -> Seq<char> {
    if json_plain(s) {
        seq!['"'] + s + seq!['"']
    } else {
        json_escaped(s)
    }
}

/// `serde_json`'s rendering of a string value: `Value::from` makes the JSON string,
/// and its `Display` writes it in compact form. Between the quotes it escapes the
/// double quote, the backslash and the controls below the space, and writes every
/// other character as it is.
#[verifier::external_body]
fn json_quote(s: &str) -> (r: String)
    ensures
        json_plain(s@) ==> r@ == seq!['"'] + s@ + seq!['"'],
        !json_plain(s@) ==> r@ == json_escaped(s@),
{
    serde_json::Value::from(s).to_string()
}

/// `fastrand::u16` over the full range: a number drawn from the thread's generator.
#[verifier::external_body]
pub(crate) fn random_id() -> (r: u16) {
    fastrand::u16(..)
}

/// The JSON text of one parameter.
pub open spec fn param_json(p: ParamView) -> Seq<char> {
    match p {
        ParamView::Int(n) => decimal_text(n as nat),
        ParamView::Text(s) => json_quoted(s),
    }
}

/// The JSON texts of the parameters, separated by commas.
pub open spec fn params_json(ps: Seq<ParamView>) -> Seq<char>
    decreases ps.len(),
{
    if ps.len() == 0 {
        Seq::empty()
    } else if ps.len() == 1 {
        param_json(ps[0])
    } else {
        params_json(ps.drop_last()) + ","@ + param_json(ps.last())
    }
}

/// The JSON text of a request: one object on one line, with the members `id`,
/// `method` and `params` in this order.
pub open spec fn req_json(req: ReqView) -> Seq<char> {
    "{\"id\":"@ + decimal_text(req.id as nat) + ",\"method\":"@ + json_quoted(req.method)
        + ",\"params\":["@ + params_json(req.params) + "]}"@
}

impl Param {
    /// The JSON text of this parameter.
    pub fn to_json(&self) -> (r: String)
        ensures
            r@ == param_json(self@),
    {
        match self {
            Param::Int(n) => decimal_string(*n),
            Param::Text(s) => json_quote(s.as_str()),
        }
    }
}

impl Req {
    /// The request with the given id.
    pub fn with_id(id: u16, method: String, params: Vec<Param>) -> (r: Req)
        ensures
            r.id == id,
            r.method == method,
            r.params == params,
    {
        Req { id, method, params }
    }

    /// A request with an id chosen at random.
    pub fn new(method: String, params: Vec<Param>) -> (r: Req)
        ensures
            r.method == method,
            r.params == params,
    {
        let id = random_id();
        Req::with_id(id, method, params)
    }

    /// The request as it goes on the wire, without the line ending.
    pub fn to_json(&self) -> (r: String)
        ensures
            r@ == req_json(self@),
    {
        let mut list = String::new();
        let mut i: usize = 0;
        while i < self.params.len()
            invariant
                i <= self.params.len(),
                list@ == params_json(self@.params.take(i as int)),
            decreases self.params.len() - i,
        {
            let item = self.params[i].to_json();
            proof {
                let before = self@.params.take(i as int);
                let after = self@.params.take(i + 1);
                assert(after.drop_last() =~= before);
            }
            if i > 0 {
                list.append(",");
            }
            list.append(item.as_str());
            i = i + 1;
        }
        assert(self@.params.take(self.params.len() as int) =~= self@.params);
        let id = decimal_string(self.id as u64);
        let method = json_quote(self.method.as_str());
        let mut r = String::from_str("{\"id\":");
        r.append(id.as_str());
        r.append(",\"method\":");
        r.append(method.as_str());
        r.append(",\"params\":[");
        r.append(list.as_str());
        r.append("]}");
        r
    }
}

} // verus!
