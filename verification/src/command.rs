//! The commands that a light takes, and the exchange of one request for its reply
//! over the command channel.

use crate::err::{outcome, ErrorView, YeeError};
use crate::fields::{PowerStatus, Rgb};
use crate::light::LightView;
use crate::req::{
    json_plain, json_quoted, param_json, req_json, Param, ParamView, Req, ReqView, Transition,
};
use crate::text::{contains, decimal_string, decimal_text, has_substring};
use vstd::prelude::*;
use vstd::string::StringExecFns;

verus! {

/// The lowest colour temperature that devices accept, in kelvin.
pub const MIN_CT: u16 = 2700;

/// The highest colour temperature that devices accept, in kelvin.
pub const MAX_CT: u16 = 6500;

/// The lowest brightness, in percent.
pub const MIN_BRIGHT: u8 = 1;

/// The highest brightness, in percent.
pub const MAX_BRIGHT: u8 = 100;

/// The highest hue, in degrees.
pub const MAX_HUE: u16 = 359;

/// The highest saturation, in percent.
pub const MAX_SAT: u8 = 100;

/// A change that a light can be asked to make.
#[derive(Debug, Copy, Clone, PartialEq, Eq)]
pub enum Command {
    SetCtAbx { temperature: u16, transition: Transition },
    SetRgb { rgb: Rgb, transition: Transition },
    SetBright { brightness: u8, transition: Transition },
    SetHsv { hue: u16, sat: u8, transition: Transition },
    SetPower { power: PowerStatus, transition: Transition },
    Toggle,
}

/// The parameters of a command that takes a transition: what is set, then the
/// transition's effect and its duration.
pub open spec fn with_transition(first: Seq<ParamView>, transition: Transition) -> Seq<
    ParamView,
> {
    first + seq![
        ParamView::Text(transition.spec_text()),
        ParamView::Int(transition.spec_value()),
    ]
}

impl Command {
    /// The name of the method on the wire.
    pub open spec fn method(self) -> Seq<char> {
        match self {
            Command::SetCtAbx { .. } => "set_ct_abx"@,
            Command::SetRgb { .. } => "set_rgb"@,
            Command::SetBright { .. } => "set_bright"@,
            Command::SetHsv { .. } => "set_hsv"@,
            Command::SetPower { .. } => "set_power"@,
            Command::Toggle => "toggle"@,
        }
    }

    /// Why the command cannot be sent, if it carries a value outside the protocol's
    /// range: the field and the value in decimal.
    pub open spec fn rejection(self) -> Option<ErrorView> {
        match self {
            Command::SetCtAbx { temperature, .. } => if MIN_CT <= temperature <= MAX_CT {
                None
            } else {
                Some(
                    ErrorView::InvalidValue {
                        field_name: "ct"@,
                        value: decimal_text(temperature as nat),
                    },
                )
            },
            Command::SetBright { brightness, .. } => if MIN_BRIGHT <= brightness <= MAX_BRIGHT {
                None
            } else {
                Some(
                    ErrorView::InvalidValue {
                        field_name: "bright"@,
                        value: decimal_text(brightness as nat),
                    },
                )
            },
            Command::SetHsv { hue, sat, .. } => if hue > MAX_HUE {
                Some(ErrorView::InvalidValue { field_name: "hue"@, value: decimal_text(hue as nat) })
            } else if sat > MAX_SAT {
                Some(ErrorView::InvalidValue { field_name: "sat"@, value: decimal_text(sat as nat) })
            } else {
                None
            },
            _ => None,
        }
    }

    /// The parameters of the method on the wire.
    pub open spec fn params(self) -> Seq<ParamView> {
        match self {
            Command::SetCtAbx { temperature, transition } => with_transition(
                seq![ParamView::Int(temperature as u64)],
                transition,
            ),
            Command::SetRgb { rgb, transition } => with_transition(
                seq![ParamView::Int(rgb.spec_num() as u64)],
                transition,
            ),
            Command::SetBright { brightness, transition } => with_transition(
                seq![ParamView::Int(brightness as u64)],
                transition,
            ),
            Command::SetHsv { hue, sat, transition } => with_transition(
                seq![ParamView::Int(hue as u64), ParamView::Int(sat as u64)],
                transition,
            ),
            Command::SetPower { power, transition } => with_transition(
                seq![ParamView::Text(power.wire())],
                transition,
            ),
            Command::Toggle => Seq::empty(),
        }
    }

    /// The request that carries the command under the given id.
    pub open spec fn request(self, id: u16) -> ReqView {
        ReqView { id, method: self.method(), params: self.params() }
    }

    /// The record after the device has made the change: the field that the command
    /// sets holds the command's argument, and every other field is as it was.
    pub open spec fn apply(self, light: LightView) -> LightView {
        match self {
            Command::SetCtAbx { temperature, .. } => LightView { ct: temperature, ..light },
            Command::SetRgb { rgb, .. } => LightView { rgb, ..light },
            Command::SetBright { brightness, .. } => LightView { bright: brightness, ..light },
            Command::SetHsv { hue, sat, .. } => LightView { hue, sat, ..light },
            Command::SetPower { power, .. } => LightView { power, ..light },
            Command::Toggle => LightView { power: light.power.spec_flip(), ..light },
        }
    }

    /// The name of the method on the wire.
    pub fn method_name(&self) -> (r: &'static str)
        ensures
            r@ == self.method(),
    {
        match self {
            Command::SetCtAbx { .. } => "set_ct_abx",
            Command::SetRgb { .. } => "set_rgb",
            Command::SetBright { .. } => "set_bright",
            Command::SetHsv { .. } => "set_hsv",
            Command::SetPower { .. } => "set_power",
            Command::Toggle => "toggle",
        }
    }

    /// Checks the command's values against the protocol's ranges.
    pub fn validate(&self) -> (r: Result<(), YeeError>)
        ensures
            match r {
                Ok(_) => self.rejection() is None,
                Err(e) => self.rejection() == Some(e@),
            },
    {
        match self {
            Command::SetCtAbx { temperature, .. } => {
                if *temperature < MIN_CT || *temperature > MAX_CT {
                    return Err(
                        YeeError::InvalidValue {
                            field_name: "ct",
                            value: decimal_string(*temperature as u64),
                        },
                    );
                }
            },
            Command::SetBright { brightness, .. } => {
                if *brightness < MIN_BRIGHT || *brightness > MAX_BRIGHT {
                    return Err(
                        YeeError::InvalidValue {
                            field_name: "bright",
                            value: decimal_string(*brightness as u64),
                        },
                    );
                }
            },
            Command::SetHsv { hue, sat, .. } => {
                if *hue > MAX_HUE {
                    return Err(
                        YeeError::InvalidValue {
                            field_name: "hue",
                            value: decimal_string(*hue as u64),
                        },
                    );
                } else if *sat > MAX_SAT {
                    return Err(
                        YeeError::InvalidValue {
                            field_name: "sat",
                            value: decimal_string(*sat as u64),
                        },
                    );
                }
            },
            _ => {},
        }
        Ok(())
    }

    /// The request that carries the command under the given id.
    pub fn to_req(&self, id: u16) -> (r: Req)
        ensures
            r@ == self.request(id),
    {
        let mut params: Vec<Param> = Vec::new();
        let transition = match self {
            Command::SetCtAbx { temperature, transition } => {
                params.push(Param::Int(*temperature as u64));
                Some(*transition)
            },
            Command::SetRgb { rgb, transition } => {
                params.push(Param::Int(rgb.get_num() as u64));
                Some(*transition)
            },
            Command::SetBright { brightness, transition } => {
                params.push(Param::Int(*brightness as u64));
                Some(*transition)
            },
            Command::SetHsv { hue, sat, transition } => {
                params.push(Param::Int(*hue as u64));
                params.push(Param::Int(*sat as u64));
                Some(*transition)
            },
            Command::SetPower { power, transition } => {
                params.push(Param::Text(power.to_string()));
                Some(*transition)
            },
            Command::Toggle => None,
        };
        match transition {
            Some(t) => {
                params.push(Param::Text(String::from_str(t.text())));
                params.push(Param::Int(t.value()));
            },
            None => {},
        }
        let r = Req::with_id(id, String::from_str(self.method_name()), params);
        assert(r@.params =~= self.params());
        r
    }
}

/// The texts that commands put into requests (the method names, the names of the
/// two effects and the wire forms of the power status) hold no character that a
/// JSON string literal has to escape, so each stands between its quotes as it is.
pub proof fn lemma_command_texts_are_plain(command: Command)
    ensures
        json_plain(command.method()),
        json_quoted(command.method()) == seq!['"'] + command.method() + seq!['"'],
        forall|i: int|
            0 <= i < command.params().len() ==> (#[trigger] command.params()[i] matches ParamView::Text(
                text,
            ) ==> json_plain(text) && param_json(command.params()[i]) == seq!['"'] + text
                + seq!['"']),
{
    reveal_strlit("set_ct_abx");
    reveal_strlit("set_rgb");
    reveal_strlit("set_bright");
    reveal_strlit("set_hsv");
    reveal_strlit("set_power");
    reveal_strlit("toggle");
    reveal_strlit("sudden");
    reveal_strlit("smooth");
    reveal_strlit("on");
    reveal_strlit("off");
    assert(json_plain("set_ct_abx"@));
    assert(json_plain("set_rgb"@));
    assert(json_plain("set_bright"@));
    assert(json_plain("set_hsv"@));
    assert(json_plain("set_power"@));
    assert(json_plain("toggle"@));
    assert(json_plain("sudden"@));
    assert(json_plain("smooth"@));
    assert(json_plain("on"@));
    assert(json_plain("off"@));
}

/// The line ending that closes a request on the wire.
pub const LINE_END: &'static str = "\r\n";

/// A request that has been handed out for sending, together with what has been
/// read of the reply so far.
#[derive(Debug)]
pub struct Exchange {
    command: Command,
    request: Req,
    scratch: String,
}

/// The mathematical value of an exchange.
pub struct ExchangeView {
    pub command: Command,
    pub request: ReqView,
    pub scratch: Seq<char>,
}

impl View for Exchange {
    type V = ExchangeView;

    closed spec fn view(&self) -> ExchangeView {
        ExchangeView { command: self.command, request: self.request@, scratch: self.scratch@ }
    }
}

impl ExchangeView {
    /// The exchange that opens with the command under the given id: nothing read yet.
    pub open spec fn begin(command: Command, id: u16) -> ExchangeView {
        ExchangeView { command, request: command.request(id), scratch: Seq::empty() }
    }

    /// The request as it goes on the wire: its JSON text and the line ending.
    pub open spec fn wire(self) -> Seq<char> {
        req_json(self.request) + LINE_END@
    }

    /// The request's id in decimal, by which the reply is recognised.
    pub open spec fn id_text(self) -> Seq<char> {
        decimal_text(self.request.id as nat)
    }

    /// The reply has arrived: what has been read holds the request's id.
    pub open spec fn answered(self) -> bool {
        has_substring(self.scratch, self.id_text())
    }

    /// The exchange after one more line has been read.
    pub open spec fn push_line(self, line: Seq<char>) -> ExchangeView {
        ExchangeView { scratch: self.scratch + line, ..self }
    }
}

impl Exchange {
    /// Opens the exchange for a command under the given id.
    pub(crate) fn begin(command: Command, id: u16) -> (r: Exchange)
        ensures
            r@ == ExchangeView::begin(command, id),
    {
        Exchange { command, request: command.to_req(id), scratch: String::new() }
    }

    /// The command that the exchange carries.
    pub fn command(&self) -> (r: Command)
        ensures
            r == self@.command,
    {
        self.command
    }

    /// The request that the exchange carries.
    pub fn request(&self) -> (r: &Req)
        ensures
            r@ == self@.request,
    {
        &self.request
    }

    /// What has been read of the reply so far.
    pub fn scratch(&self) -> (r: &str)
        ensures
            r@ == self@.scratch,
    {
        self.scratch.as_str()
    }

    /// The bytes to write to the device, as text: the request's JSON and `\r\n`.
    pub fn wire(&self) -> (r: String)
        ensures
            r@ == self@.wire(),
    {
        self.request.to_json().concat(LINE_END)
    }

    /// Adds a line that was read from the device to what has been read so far.
    pub fn push_line(&mut self, line: &str)
        ensures
            final(self)@ == old(self)@.push_line(line@),
    {
        self.scratch.append(line);
    }

    /// Whether the reply has arrived: whether what has been read holds the
    /// request's id. Notifications that the device sends unasked do not hold it.
    pub fn answered(&self) -> (r: bool)
        ensures
            r == self@.answered(),
    {
        let id = decimal_string(self.request.id as u64);
        contains(self.scratch.as_str(), id.as_str())
    }
}

/// The pattern that finds the message in a reply that reports an error.
pub const ERROR_MESSAGE_PATTERN: &'static str = "\"message\":\"(.*)\"";

/// The word by which a reply that reports an error is recognised.
pub const ERROR_MARK: &'static str = "error";

/// What a reply says of its command, when `message` is what the error pattern found
/// in the reply. A reply that holds the word `error` fails the command with that
/// message, or with an empty one where the pattern found nothing; any other reply
/// lets it succeed.
pub open spec fn spec_reply_outcome(reply: Seq<char>, message: Option<Seq<char>>) -> Result<
    (),
    ErrorView,
> {
    if has_substring(reply, ERROR_MARK@) {
        Err(
            ErrorView::ChangeFailed {
                message: match message {
                    Some(text) => text,
                    None => Seq::empty(),
                },
            },
        )
    } else {
        Ok(())
    }
}

/// Decides how a command ended from its reply and from what the error pattern
/// found in the reply.
pub fn reply_outcome(reply: &str, message: Option<String>) -> (r: Result<(), YeeError>)
    ensures
        outcome(r) == spec_reply_outcome(
            reply@,
            match message {
                Some(text) => Some(text@),
                None => None,
            },
        ),
{
    if contains(reply, ERROR_MARK) {
        let message = match message {
            Some(text) => text,
            None => String::new(),
        };
        Err(YeeError::ChangeFailed { message })
    } else {
        Ok(())
    }
}

/// Where an exchange stands after a line has been read.
#[derive(Debug)]
pub enum Step {
    /// The reply has not arrived: read another line.
    Pending(Exchange),
    /// The reply has arrived, and this is how the command ended.
    Done(Result<(), YeeError>),
}

/// The mathematical value of a step.
pub enum StepView {
    Pending(ExchangeView),
    Done(Result<(), ErrorView>),
}

impl View for Step {
    type V = StepView;

    open spec fn view(&self) -> StepView {
        match self {
            Step::Pending(exchange) => StepView::Pending(exchange@),
            Step::Done(Ok(_)) => StepView::Done(Ok(())),
            Step::Done(Err(e)) => StepView::Done(Err(e@)),
        }
    }
}

} // verus!
