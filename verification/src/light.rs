//! The device record: what an advertisement says of a light, and the last state
//! that the light is known to have.

use crate::addr::SocketAddrV4;
use crate::advert::Fields;
use crate::command::{
    reply_outcome, spec_reply_outcome, Command, Exchange, ExchangeView, Step, StepView,
    ERROR_MARK, ERROR_MESSAGE_PATTERN,
};
use crate::err::{ErrorView, YeeError};
use crate::fields::{ColorMode, PowerStatus, Rgb};
use crate::req::{random_id, Transition};
use crate::text::{
    contains, parse_u16, parse_u8, split_whitespace, unsigned_decimal, views, words,
};
use vstd::hash_set::StringHashSet;
use vstd::prelude::*;
use vstd::std_specs::cmp::PartialEqSpecImpl;

verus! {

/// The pattern that finds the socket address in the `Location` field.
pub const LOCATION_PATTERN: &'static str = "yeelight://(.*)";

/// Whether the channel to the device has been opened.
#[derive(Debug, Copy, Clone, Eq, PartialEq, Structural)]
pub enum Session {
    Uninitialized,
    Ready,
}

/// A light on the local network.
pub struct Light {
    location: SocketAddrV4,
    id: String,
    model: String,
    fw_ver: u8,
    support: StringHashSet,
    power: PowerStatus,
    bright: u8,
    color_mode: ColorMode,
    ct: u16,
    rgb: Rgb,
    hue: u16,
    sat: u8,
    name: String,
    session: Session,
}

/// The mathematical value of a device record.
pub struct LightView {
    pub location: SocketAddrV4,
    pub id: Seq<char>,
    pub model: Seq<char>,
    pub fw_ver: u8,
    pub support: Set<Seq<char>>,
    pub power: PowerStatus,
    pub bright: u8,
    pub color_mode: ColorMode,
    pub ct: u16,
    pub rgb: Rgb,
    pub hue: u16,
    pub sat: u8,
    pub name: Seq<char>,
    pub session: Session,
}

impl View for Light {
    type V = LightView;

    closed spec fn view(&self) -> LightView {
        LightView {
            location: self.location,
            id: self.id@,
            model: self.model@,
            fw_ver: self.fw_ver,
            support: self.support@,
            power: self.power,
            bright: self.bright,
            color_mode: self.color_mode,
            ct: self.ct,
            rgb: self.rgb,
            hue: self.hue,
            sat: self.sat,
            name: self.name@,
            session: self.session,
        }
    }
}

/// A record, or the failure to make one, by what each says.
pub open spec fn light_outcome(r: Result<Light, YeeError>) -> Result<LightView, ErrorView> {
    match r {
        Ok(light) => Ok(light@),
        Err(e) => Err(e@),
    }
}

// ---------------------------------------------------------------------------
// The fields of an advertisement
// ---------------------------------------------------------------------------

/// The text of the field `name`; its absence is an error that names the field.
pub open spec fn text_field(fields: Map<Seq<char>, Seq<char>>, name: Seq<char>) -> Result<
    Seq<char>,
    ErrorView,
> {
    if fields.contains_key(name) {
        Ok(fields[name])
    } else {
        Err(ErrorView::FieldNotFound { field_name: name })
    }
}

/// The number in the field `name`, which must be an unsigned decimal of at most `max`.
pub open spec fn number_field(fields: Map<Seq<char>, Seq<char>>, name: Seq<char>, max: nat)
    -> Result<nat, ErrorView> {
    match text_field(fields, name) {
        Err(e) => Err(e),
        Ok(text) => match unsigned_decimal(text) {
            Some(n) => if n <= max {
                Ok(n)
            } else {
                Err(ErrorView::ParseFieldFailed { field_name: name, has_source: true })
            },
            None => Err(ErrorView::ParseFieldFailed { field_name: name, has_source: true }),
        },
    }
}

/// The power status in the field `power`. A text that is no power status is a
/// failure to parse this field.
pub open spec fn power_field(fields: Map<Seq<char>, Seq<char>>) -> Result<
    PowerStatus,
    ErrorView,
> {
    match text_field(fields, "power"@) {
        Err(e) => Err(e),
        Ok(text) => match PowerStatus::spec_parse(text) {
            Ok(power) => Ok(power),
            Err(_) => Err(ErrorView::ParseFieldFailed { field_name: "power"@, has_source: false }),
        },
    }
}

/// The colour mode in the field `color_mode`.
pub open spec fn color_mode_field(fields: Map<Seq<char>, Seq<char>>) -> Result<
    ColorMode,
    ErrorView,
> {
    match text_field(fields, "color_mode"@) {
        Err(e) => Err(e),
        Ok(text) => ColorMode::spec_parse(text),
    }
}

/// The colour in the field `rgb`.
pub open spec fn rgb_field(fields: Map<Seq<char>, Seq<char>>) -> Result<Rgb, ErrorView> {
    match text_field(fields, "rgb"@) {
        Err(e) => Err(e),
        Ok(text) => Rgb::spec_parse(text),
    }
}

/// The set of the words of a text.
pub open spec fn word_set(text: Seq<char>) -> Set<Seq<char>> {
    Set::new(|w: Seq<char>| words(text).contains(w))
}

/// The method names in the field `support`, which lists them between white space.
pub open spec fn support_field(fields: Map<Seq<char>, Seq<char>>) -> Result<
    Set<Seq<char>>,
    ErrorView,
> {
    match text_field(fields, "support"@) {
        Err(e) => Err(e),
        Ok(text) => Ok(word_set(text)),
    }
}

/// The socket address in the field `Location`, when `found` is what the location
/// pattern found in it. The field must be there; the pattern must have found a
/// text in it, and that text must be an IPv4 socket address, or else the field
/// does not parse.
pub open spec fn location_field(fields: Map<Seq<char>, Seq<char>>, found: Option<Seq<char>>)
    -> Result<SocketAddrV4, ErrorView> {
    let unparsed = ErrorView::ParseFieldFailed { field_name: "Location"@, has_source: false };
    match text_field(fields, "Location"@) {
        Err(e) => Err(e),
        Ok(_) => match found {
            None => Err(unparsed),
            Some(text) => match SocketAddrV4::spec_parse(text) {
                Some(addr) => Ok(addr),
                None => Err(unparsed),
            },
        },
    }
}

/// The text of capture group `group` in the leftmost match of a regular expression
/// in a text, in the syntax and with the semantics of the `regex` crate; `None`
/// where the pattern is not valid, does not match, or has no such group, and where
/// the group took no part in the match.
pub uninterp spec fn regex_group(pattern: Seq<char>, text: Seq<char>, group: nat) -> Option<
    Seq<char>,
>;

/// `regex::Regex::new` and `Regex::captures`: the text of capture group `group` in
/// the leftmost match of `pattern` in `text`. Group 0 is the whole match.
#[verifier::external_body]
pub(crate) fn regex_capture(pattern: &str, text: &str, group: usize) -> (r: Option<String>)
    ensures
        match r {
            Some(found) => regex_group(pattern@, text@, group as nat) == Some(found@),
            None => regex_group(pattern@, text@, group as nat) is None,
        },
{
    let re = regex::Regex::new(pattern).ok()?;
    let captures = re.captures(text)?;
    match captures.get(group) {
        Some(m) => Some(m.as_str().to_string()),
        None => None,
    }
}

fn get_text<'a>(fields: &'a Fields, name: &'static str) -> (r: Result<&'a str, YeeError>)
    ensures
        match r {
            Ok(text) => text_field(fields@, name@) == Ok::<Seq<char>, ErrorView>(text@),
            Err(e) => text_field(fields@, name@) == Err::<Seq<char>, ErrorView>(e@),
        },
{
    match fields.get(name) {
        Some(text) => Ok(text),
        None => Err(YeeError::FieldNotFound { field_name: name }),
    }
}

fn get_u8(fields: &Fields, name: &'static str) -> (r: Result<u8, YeeError>)
    ensures
        match r {
            Ok(n) => number_field(fields@, name@, u8::MAX as nat) == Ok::<nat, ErrorView>(
                n as nat,
            ),
            Err(e) => number_field(fields@, name@, u8::MAX as nat) == Err::<nat, ErrorView>(e@),
        },
{
    let text = get_text(fields, name)?;
    match parse_u8(text) {
        Ok(n) => Ok(n),
        Err(e) => Err(YeeError::ParseFieldFailed { field_name: name, source: Some(e) }),
    }
}

fn get_u16(fields: &Fields, name: &'static str) -> (r: Result<u16, YeeError>)
    ensures
        match r {
            Ok(n) => number_field(fields@, name@, u16::MAX as nat) == Ok::<nat, ErrorView>(
                n as nat,
            ),
            Err(e) => number_field(fields@, name@, u16::MAX as nat) == Err::<nat, ErrorView>(e@),
        },
{
    let text = get_text(fields, name)?;
    match parse_u16(text) {
        Ok(n) => Ok(n),
        Err(e) => Err(YeeError::ParseFieldFailed { field_name: name, source: Some(e) }),
    }
}

fn get_support(fields: &Fields) -> (r: Result<StringHashSet, YeeError>)
    ensures
        match r {
            Ok(set) => support_field(fields@) == Ok::<Set<Seq<char>>, ErrorView>(set@),
            Err(e) => support_field(fields@) == Err::<Set<Seq<char>>, ErrorView>(e@),
        },
{
    let text = get_text(fields, "support")?;
    let list = split_whitespace(text);
    let mut set = StringHashSet::new();
    let mut i: usize = 0;
    while i < list.len()
        invariant
            i <= list.len(),
            views(list@) == words(text@),
            forall|w: Seq<char>| set@.contains(w) <==> views(list@).take(i as int).contains(w),
        decreases list.len() - i,
    {
        let ghost before = views(list@).take(i as int);
        let ghost after = views(list@).take(i + 1);
        let word = list[i].clone();
        assert forall|w: Seq<char>| after.contains(w) <==> (before.contains(w) || w == word@) by {
            if w == word@ {
                assert(after[i as int] == w);
            }
        }
        set.insert(word);
        i = i + 1;
    }
    assert(views(list@).take(list.len() as int) =~= views(list@));
    assert(set@ =~= word_set(text@));
    Ok(set)
}

impl Light {
    /// What the text that the location pattern finds in the `Location` field is;
    /// nothing where the field is absent.
    pub open spec fn location_capture(fields: Map<Seq<char>, Seq<char>>) -> Option<Seq<char>> {
        if fields.contains_key("Location"@) {
            regex_group(LOCATION_PATTERN@, fields["Location"@], 1)
        } else {
            None
        }
    }

    /// The record that the fields of an advertisement give, when `found` is what the
    /// location pattern found in the `Location` field. The fields are read in a fixed
    /// order, and the first one that is absent or does not parse is the error.
    pub open spec fn spec_with_location(
        fields: Map<Seq<char>, Seq<char>>,
        found: Option<Seq<char>>,
    ) -> Result<LightView, ErrorView> {
        let id = text_field(fields, "id"@);
        let model = text_field(fields, "model"@);
        let fw_ver = number_field(fields, "fw_ver"@, u8::MAX as nat);
        let power = power_field(fields);
        let support = support_field(fields);
        let bright = number_field(fields, "bright"@, u8::MAX as nat);
        let color_mode = color_mode_field(fields);
        let ct = number_field(fields, "ct"@, u16::MAX as nat);
        let rgb = rgb_field(fields);
        let hue = number_field(fields, "hue"@, u16::MAX as nat);
        let sat = number_field(fields, "sat"@, u8::MAX as nat);
        let name = text_field(fields, "name"@);
        let location = location_field(fields, found);
        if id is Err {
            Err(id->Err_0)
        } else if model is Err {
            Err(model->Err_0)
        } else if fw_ver is Err {
            Err(fw_ver->Err_0)
        } else if power is Err {
            Err(power->Err_0)
        } else if support is Err {
            Err(support->Err_0)
        } else if bright is Err {
            Err(bright->Err_0)
        } else if color_mode is Err {
            Err(color_mode->Err_0)
        } else if ct is Err {
            Err(ct->Err_0)
        } else if rgb is Err {
            Err(rgb->Err_0)
        } else if hue is Err {
            Err(hue->Err_0)
        } else if sat is Err {
            Err(sat->Err_0)
        } else if name is Err {
            Err(name->Err_0)
        } else if location is Err {
            Err(location->Err_0)
        } else {
            Ok(
                LightView {
                    location: location->Ok_0,
                    id: id->Ok_0,
                    model: model->Ok_0,
                    fw_ver: fw_ver->Ok_0 as u8,
                    support: support->Ok_0,
                    power: power->Ok_0,
                    bright: bright->Ok_0 as u8,
                    color_mode: color_mode->Ok_0,
                    ct: ct->Ok_0 as u16,
                    rgb: rgb->Ok_0,
                    hue: hue->Ok_0 as u16,
                    sat: sat->Ok_0 as u8,
                    name: name->Ok_0,
                    session: Session::Uninitialized,
                },
            )
        }
    }

    /// The record that the fields of an advertisement give.
    pub open spec fn spec_from_fields(fields: Map<Seq<char>, Seq<char>>) -> Result<
        LightView,
        ErrorView,
    > {
        Light::spec_with_location(fields, Light::location_capture(fields))
    }

    /// Builds the record from the fields of an advertisement and from what the
    /// location pattern found in its `Location` field. Every field must be there,
    /// `Location` too, whatever `found` holds. The session is not open yet.
    pub fn with_location(fields: &Fields, found: Option<String>) -> (r: Result<Light, YeeError>)
        ensures
            light_outcome(r) == Light::spec_with_location(
                fields@,
                match found {
                    Some(text) => Some(text@),
                    None => None,
                },
            ),
    {
        let id = get_text(fields, "id")?.to_owned();
        let model = get_text(fields, "model")?.to_owned();
        let fw_ver = get_u8(fields, "fw_ver")?;
        let power = match PowerStatus::parse(get_text(fields, "power")?) {
            Ok(power) => power,
            Err(_) => {
                return Err(YeeError::ParseFieldFailed { field_name: "power", source: None });
            },
        };
        let support = get_support(fields)?;
        let bright = get_u8(fields, "bright")?;
        let color_mode = ColorMode::parse(get_text(fields, "color_mode")?)?;
        let ct = get_u16(fields, "ct")?;
        let rgb = Rgb::parse(get_text(fields, "rgb")?)?;
        let hue = get_u16(fields, "hue")?;
        let sat = get_u8(fields, "sat")?;
        let name = get_text(fields, "name")?.to_owned();
        get_text(fields, "Location")?;
        let parsed = match found {
            Some(text) => SocketAddrV4::parse(text.as_str()),
            None => None,
        };
        let location = match parsed {
            Some(addr) => addr,
            None => {
                return Err(YeeError::ParseFieldFailed { field_name: "Location", source: None });
            },
        };
        Ok(
            Light {
                location,
                id,
                model,
                fw_ver,
                support,
                power,
                bright,
                color_mode,
                ct,
                rgb,
                hue,
                sat,
                name,
                session: Session::Uninitialized,
            },
        )
    }

    /// Builds the record from the fields of an advertisement. The session is not
    /// open yet.
    pub fn from_fields(fields: &Fields) -> (r: Result<Light, YeeError>)
        ensures
            light_outcome(r) == Light::spec_from_fields(fields@),
    {
        let found = match fields.get("Location") {
            Some(text) => regex_capture(LOCATION_PATTERN, text, 1),
            None => None,
        };
        Light::with_location(fields, found)
    }
}

// ---------------------------------------------------------------------------
// Commands
// ---------------------------------------------------------------------------

impl LightView {
    /// Whether a command may be sent to the light: its method must be among those
    /// that the light supports, and then its values must lie in the protocol's ranges.
    pub open spec fn check(self, command: Command) -> Result<(), ErrorView> {
        if !self.support.contains(command.method()) {
            Err(ErrorView::MethodNotSupported { method_name: command.method() })
        } else {
            match command.rejection() {
                Some(e) => Err(e),
                None => Ok(()),
            }
        }
    }

    /// What reading one more line of an exchange does. While what has been read
    /// lacks the request's id the exchange goes on and the record stays as it was.
    /// The line with which the id is there is the reply, and it ends the command:
    /// if it reports no error the change is made in the record, and otherwise the
    /// record stays as it was.
    pub open spec fn receive(self, exchange: ExchangeView, line: Seq<char>) -> (
        LightView,
        StepView,
    ) {
        let read = exchange.push_line(line);
        if !read.answered() {
            (self, StepView::Pending(read))
        } else {
            let result = spec_reply_outcome(line, regex_group(ERROR_MESSAGE_PATTERN@, line, 0));
            (
                if result is Ok {
                    read.command.apply(self)
                } else {
                    self
                },
                StepView::Done(result),
            )
        }
    }
}

/// The exchange that a command opens, or the reason why it opens none.
pub open spec fn issued(light: LightView, command: Command, r: Result<Exchange, YeeError>) -> bool {
    match r {
        Ok(exchange) => light.check(command) is Ok && exchange@ == ExchangeView::begin(
            command,
            exchange@.request.id,
        ),
        Err(e) => light.check(command) == Err::<(), ErrorView>(e@),
    }
}

impl Light {
    /// Whether the light lists `method` among the methods it supports.
    pub fn supports(&self, method: &str) -> (r: bool)
        ensures
            r == self@.support.contains(method@),
    {
        self.support.contains(method)
    }

    /// Checks that a command may be sent to this light: first that the light
    /// supports the method, then that the values lie in the protocol's ranges.
    pub fn check(&self, command: &Command) -> (r: Result<(), YeeError>)
        ensures
            match r {
                Ok(_) => self@.check(*command) is Ok,
                Err(e) => self@.check(*command) == Err::<(), ErrorView>(e@),
            },
    {
        let method = command.method_name();
        if !self.support.contains(method) {
            return Err(YeeError::MethodNotSupported { method_name: method });
        }
        command.validate()
    }

    /// Opens the exchange for a command under the given id, if the command may be
    /// sent. The record does not change until the reply has been read.
    pub fn issue(&self, command: Command, id: u16) -> (r: Result<Exchange, YeeError>)
        ensures
            match r {
                Ok(exchange) => self@.check(command) is Ok && exchange@ == ExchangeView::begin(
                    command,
                    id,
                ),
                Err(e) => self@.check(command) == Err::<(), ErrorView>(e@),
            },
    {
        match self.check(&command) {
            Ok(_) => Ok(Exchange::begin(command, id)),
            Err(e) => Err(e),
        }
    }

    /// Opens the exchange for a command under an id chosen at random, if the
    /// command may be sent.
    pub fn dispatch(&self, command: Command) -> (r: Result<Exchange, YeeError>)
        ensures
            issued(self@, command, r),
    {
        self.issue(command, random_id())
    }

    /// Asks for the colour temperature `temperature`, in kelvin from 2700 to 6500.
    pub fn set_ct_abx(&self, temperature: u16, transition: Transition) -> (r: Result<
        Exchange,
        YeeError,
    >)
        ensures
            issued(self@, Command::SetCtAbx { temperature, transition }, r),
    {
        self.dispatch(Command::SetCtAbx { temperature, transition })
    }

    /// Asks for the colour `rgb`.
    pub fn set_rgb(&self, rgb: Rgb, transition: Transition) -> (r: Result<Exchange, YeeError>)
        ensures
            issued(self@, Command::SetRgb { rgb, transition }, r),
    {
        self.dispatch(Command::SetRgb { rgb, transition })
    }

    /// Asks for the brightness `brightness`, in percent from 1 to 100.
    pub fn set_bright(&self, brightness: u8, transition: Transition) -> (r: Result<
        Exchange,
        YeeError,
    >)
        ensures
            issued(self@, Command::SetBright { brightness, transition }, r),
    {
        self.dispatch(Command::SetBright { brightness, transition })
    }

    /// Asks for the hue `hue`, in degrees up to 359, and the saturation `sat`, in
    /// percent up to 100.
    pub fn set_hsv(&self, hue: u16, sat: u8, transition: Transition) -> (r: Result<
        Exchange,
        YeeError,
    >)
        ensures
            issued(self@, Command::SetHsv { hue, sat, transition }, r),
    {
        self.dispatch(Command::SetHsv { hue, sat, transition })
    }

    /// Asks for the power status `power`.
    pub fn set_power(&self, power: PowerStatus, transition: Transition) -> (r: Result<
        Exchange,
        YeeError,
    >)
        ensures
            issued(self@, Command::SetPower { power, transition }, r),
    {
        self.dispatch(Command::SetPower { power, transition })
    }

    /// Asks the light to change its power status to the other one.
    pub fn toggle(&self) -> (r: Result<Exchange, YeeError>)
        ensures
            issued(self@, Command::Toggle, r),
    {
        self.dispatch(Command::Toggle)
    }

    /// Checks that the light supports `adjust_bright`. The protocol does not say
    /// what the request holds, so none is made.
    pub fn adjust_bright(&self) -> (r: Result<(), YeeError>)
        ensures
            match r {
                Ok(_) => self@.support.contains("adjust_bright"@),
                Err(e) => !self@.support.contains("adjust_bright"@) && e@
                    == (ErrorView::MethodNotSupported { method_name: "adjust_bright"@ }),
            },
    {
        if !self.support.contains("adjust_bright") {
            return Err(YeeError::MethodNotSupported { method_name: "adjust_bright" });
        }
        Ok(())
    }

    /// Makes the change of a command in the record.
    fn apply(&mut self, command: Command)
        ensures
            final(self)@ == command.apply(old(self)@),
    {
        match command {
            Command::SetCtAbx { temperature, .. } => {
                self.ct = temperature;
            },
            Command::SetRgb { rgb, .. } => {
                self.rgb = rgb;
            },
            Command::SetBright { brightness, .. } => {
                self.bright = brightness;
            },
            Command::SetHsv { hue, sat, .. } => {
                self.hue = hue;
                self.sat = sat;
            },
            Command::SetPower { power, .. } => {
                self.power = power;
            },
            Command::Toggle => {
                self.power = self.power.flip();
            },
        }
    }

    /// Takes one more line that was read from the device into an exchange. While
    /// the reply has not arrived the exchange comes back for the next line. The
    /// line that brings the request's id is the reply: it ends the command, and the
    /// record changes exactly if the command succeeded. Lines read before it, such
    /// as notifications that the device sends unasked, have no say in that.
    pub fn receive(&mut self, exchange: Exchange, line: &str) -> (r: Step)
        ensures
            (final(self)@, r@) == old(self)@.receive(exchange@, line@),
    {
        let mut exchange = exchange;
        exchange.push_line(line);
        if !exchange.answered() {
            return Step::Pending(exchange);
        }
        let message = if contains(line, ERROR_MARK) {
            regex_capture(ERROR_MESSAGE_PATTERN, line, 0)
        } else {
            None
        };
        let result = reply_outcome(line, message);
        if result.is_ok() {
            self.apply(exchange.command());
        }
        Step::Done(result)
    }
}

// ---------------------------------------------------------------------------
// Session
// ---------------------------------------------------------------------------

impl Light {
    /// Where to open the session: the light's location while no session is open,
    /// and nowhere once one is, so that opening again does nothing.
    pub fn init(&self) -> (r: Option<SocketAddrV4>)
        ensures
            r == if self@.session == Session::Uninitialized {
                Some(self@.location)
            } else {
                None::<SocketAddrV4>
            },
    {
        match self.session {
            Session::Uninitialized => Some(self.location),
            Session::Ready => None,
        }
    }

    /// Records that the session has been opened.
    pub fn attach(&mut self)
        ensures
            final(self)@ == (LightView { session: Session::Ready, ..old(self)@ }),
    {
        self.session = Session::Ready;
    }

    /// Whether the session is open.
    pub fn is_ready(&self) -> (r: bool)
        ensures
            r == (self@.session == Session::Ready),
    {
        match self.session {
            Session::Ready => true,
            Session::Uninitialized => false,
        }
    }
}

// ---------------------------------------------------------------------------
// What the record holds
// ---------------------------------------------------------------------------

impl Light {
    /// The socket address of the device's command channel.
    pub fn location(&self) -> (r: &SocketAddrV4)
        ensures
            *r == self@.location,
    {
        &self.location
    }

    /// The device's id.
    pub fn id(&self) -> (r: &str)
        ensures
            r@ == self@.id,
    {
        self.id.as_str()
    }

    /// The device's model.
    pub fn model(&self) -> (r: &str)
        ensures
            r@ == self@.model,
    {
        self.model.as_str()
    }

    /// The version of the device's firmware.
    pub fn fw_ver(&self) -> (r: u8)
        ensures
            r == self@.fw_ver,
    {
        self.fw_ver
    }

    /// The methods that the device supports.
    pub fn support(&self) -> (r: &StringHashSet)
        ensures
            r@ == self@.support,
    {
        &self.support
    }

    /// The power status last known.
    pub fn power(&self) -> (r: &PowerStatus)
        ensures
            *r == self@.power,
    {
        &self.power
    }

    /// The brightness last known, in percent.
    pub fn bright(&self) -> (r: u8)
        ensures
            r == self@.bright,
    {
        self.bright
    }

    /// The colour mode that the device advertised.
    pub fn color_mode(&self) -> (r: &ColorMode)
        ensures
            *r == self@.color_mode,
    {
        &self.color_mode
    }

    /// The colour temperature last known, in kelvin.
    pub fn ct(&self) -> (r: u16)
        ensures
            r == self@.ct,
    {
        self.ct
    }

    /// The colour last known.
    pub fn rgb(&self) -> (r: &Rgb)
        ensures
            *r == self@.rgb,
    {
        &self.rgb
    }

    /// The hue last known, in degrees.
    pub fn hue(&self) -> (r: u16)
        ensures
            r == self@.hue,
    {
        self.hue
    }

    /// The saturation last known, in percent.
    pub fn sat(&self) -> (r: u8)
        ensures
            r == self@.sat,
    {
        self.sat
    }

    /// The name that the device was given.
    pub fn name(&self) -> (r: &str)
        ensures
            r@ == self@.name,
    {
        self.name.as_str()
    }
}

impl PartialEq for Light {
    /// Two records are equal when their ids are.
    fn eq(&self, other: &Light) -> (r: bool) {
        self.id == other.id
    }
}

impl PartialEqSpecImpl for Light {
    open spec fn obeys_eq_spec() -> bool {
        true
    }

    open spec fn eq_spec(&self, other: &Light) -> bool {
        self@.id == other@.id
    }
}

impl Eq for Light {

}

// ---------------------------------------------------------------------------
// Laws
// ---------------------------------------------------------------------------

/// `name` is one of the fields that every advertisement must carry.
pub open spec fn is_required(name: Seq<char>) -> bool {
    ||| name == "id"@
    ||| name == "model"@
    ||| name == "fw_ver"@
    ||| name == "power"@
    ||| name == "support"@
    ||| name == "bright"@
    ||| name == "color_mode"@
    ||| name == "ct"@
    ||| name == "rgb"@
    ||| name == "hue"@
    ||| name == "sat"@
    ||| name == "name"@
    ||| name == "Location"@
}

/// An advertisement from which a record can be built yields none once a required
/// field is taken out: construction then fails as `FieldNotFound`, naming that field.
pub proof fn lemma_field_omission(fields: Map<Seq<char>, Seq<char>>, name: Seq<char>)
    requires
        Light::spec_from_fields(fields) is Ok,
        is_required(name),
    ensures
        Light::spec_from_fields(fields.remove(name)) == Err::<LightView, ErrorView>(
            ErrorView::FieldNotFound { field_name: name },
        ),
{
}

/// The error speaks of the field `name`: it says that the field is absent, or
/// that its value does not parse.
pub open spec fn names_field(e: ErrorView, name: Seq<char>) -> bool {
    match e {
        ErrorView::FieldNotFound { field_name } => field_name == name,
        ErrorView::ParseFieldFailed { field_name, .. } => field_name == name,
        _ => false,
    }
}

/// Whatever goes wrong with a field, the error names that field.
pub proof fn lemma_field_errors_name_their_field(
    fields: Map<Seq<char>, Seq<char>>,
    found: Option<Seq<char>>,
    name: Seq<char>,
    max: nat,
)
    ensures
        text_field(fields, name) matches Err(e) ==> names_field(e, name),
        number_field(fields, name, max) matches Err(e) ==> names_field(e, name),
        power_field(fields) matches Err(e) ==> names_field(e, "power"@),
        support_field(fields) matches Err(e) ==> names_field(e, "support"@),
        color_mode_field(fields) matches Err(e) ==> names_field(e, "color_mode"@),
        rgb_field(fields) matches Err(e) ==> names_field(e, "rgb"@),
        location_field(fields, found) matches Err(e) ==> names_field(e, "Location"@),
{
}

/// An advertisement that carries every required field and still gives no record
/// fails as `ParseFieldFailed`, and the error names one of the required fields.
pub proof fn lemma_parse_failure_names_a_field(fields: Map<Seq<char>, Seq<char>>)
    requires
        forall|name: Seq<char>| is_required(name) ==> fields.contains_key(name),
        Light::spec_from_fields(fields) is Err,
    ensures
        Light::spec_from_fields(fields)->Err_0 matches ErrorView::ParseFieldFailed {
            field_name,
            ..
        } && is_required(field_name),
{
    assert(is_required("id"@) && is_required("model"@) && is_required("fw_ver"@));
    assert(is_required("power"@) && is_required("support"@) && is_required("bright"@));
    assert(is_required("color_mode"@) && is_required("ct"@) && is_required("rgb"@));
    assert(is_required("hue"@) && is_required("sat"@) && is_required("name"@));
    assert(is_required("Location"@));
}

/// A command whose method the light does not list among those it supports is
/// refused as `MethodNotSupported`, and it opens no exchange: there is nothing to
/// write to the session.
pub proof fn lemma_capability_gate(light: LightView, command: Command)
    requires
        !light.support.contains(command.method()),
    ensures
        light.check(command) == Err::<(), ErrorView>(
            ErrorView::MethodNotSupported { method_name: command.method() },
        ),
        forall|r: Result<Exchange, YeeError>| #[trigger] issued(light, command, r) ==> r is Err,
{
}

/// The field of the record that a command sets holds the command's argument.
pub open spec fn holds_argument(command: Command, before: LightView, after: LightView) -> bool {
    match command {
        Command::SetCtAbx { temperature, .. } => after.ct == temperature,
        Command::SetRgb { rgb, .. } => after.rgb == rgb,
        Command::SetBright { brightness, .. } => after.bright == brightness,
        Command::SetHsv { hue, sat, .. } => after.hue == hue && after.sat == sat,
        Command::SetPower { power, .. } => after.power == power,
        Command::Toggle => after.power == before.power.spec_flip(),
    }
}

/// Reading a line of an exchange changes the record only when it ends the command
/// in success, and then the field that the command sets holds the command's
/// argument. While the exchange goes on, and when the command fails, the record is
/// what it was.
pub proof fn lemma_shadow_consistency(light: LightView, exchange: ExchangeView, line: Seq<char>)
    ensures
        ({
            let (after, step) = light.receive(exchange, line);
            &&& step is Pending ==> after == light
            &&& step matches StepView::Done(Err(_)) ==> after == light
            &&& step matches StepView::Done(Ok(_)) ==> after == exchange.command.apply(light)
                && holds_argument(exchange.command, light, after)
        }),
{
}

} // verus!
