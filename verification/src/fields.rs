//! The value objects of a device record: power status, colour mode and RGB colour,
//! each with its wire form.

use crate::err::{outcome, ErrorView, YeeError};
use crate::text::{
    decimal_text, hex_string, hex_text, is_digit, lemma_decimal_round_trip, parse_u32, str_eq,
    unsigned_decimal,
};
use vstd::prelude::*;
use vstd::string::StringExecFns;

verus! {

/// The largest number that encodes a colour: `0xFFFFFF`.
pub const HEX_FFFFFF: u32 = 16777215;

// ---------------------------------------------------------------------------
// Power status
// ---------------------------------------------------------------------------

/// Whether the light is switched on.
#[derive(Debug, Copy, Clone, Eq, PartialEq, Structural)]
pub enum PowerStatus {
    On,
    Off,
}

impl PowerStatus {
    /// The other status.
    pub open spec fn spec_flip(&self) -> PowerStatus {
        match *self {
            PowerStatus::On => PowerStatus::Off,
            PowerStatus::Off => PowerStatus::On,
        }
    }

    /// The wire form: `on` or `off`.
    pub open spec fn wire(self) -> Seq<char> {
        match self {
            PowerStatus::On => "on"@,
            PowerStatus::Off => "off"@,
        }
    }

    /// What a text parses to: the status whose wire form it is, exactly.
    pub open spec fn spec_parse(s: Seq<char>) -> Result<PowerStatus, ErrorView> {
        if s == "on"@ {
            Ok(PowerStatus::On)
        } else if s == "off"@ {
            Ok(PowerStatus::Off)
        } else {
            Err(ErrorView::ParseFieldFailed { field_name: "power_status"@, has_source: false })
        }
    }

    /// Turns on into off and off into on.
    #[verifier::when_used_as_spec(spec_flip)]
    pub fn flip(&self) -> (r: PowerStatus)
        ensures
            r == self.spec_flip(),
    {
        match self {
            PowerStatus::Off => PowerStatus::On,
            PowerStatus::On => PowerStatus::Off,
        }
    }

    /// The wire form as an owned string.
    pub fn to_string(&self) -> (r: String)
        ensures
            r@ == self.wire(),
    {
        match self {
            PowerStatus::Off => String::from_str("off"),
            PowerStatus::On => String::from_str("on"),
        }
    }

    /// Reads a status from its wire form.
    pub fn parse(s: &str) -> (r: Result<PowerStatus, YeeError>)
        ensures
            outcome(r) == PowerStatus::spec_parse(s@),
    {
        if str_eq(s, "on") {
            Ok(PowerStatus::On)
        } else if str_eq(s, "off") {
            Ok(PowerStatus::Off)
        } else {
            Err(YeeError::ParseFieldFailed { field_name: "power_status", source: None })
        }
    }
}

impl core::str::FromStr for PowerStatus {
    type Err = YeeError;

    fn from_str(s: &str) -> (r: Result<PowerStatus, YeeError>)
        ensures
            outcome(r) == PowerStatus::spec_parse(s@),
    {
        PowerStatus::parse(s)
    }
}

/// Flipping twice gives the status back.
pub proof fn lemma_flip_twice(x: PowerStatus)
    ensures
        x.spec_flip().spec_flip() == x,
{
}

/// The wire form of a status parses back to that status.
pub proof fn lemma_power_wire_parses(x: PowerStatus)
    ensures
        PowerStatus::spec_parse(x.wire()) == Ok::<PowerStatus, ErrorView>(x),
{
    reveal_strlit("on");
    reveal_strlit("off");
    assert("on"@.len() != "off"@.len());
}

// ---------------------------------------------------------------------------
// Colour mode
// ---------------------------------------------------------------------------

/// Which of its colour settings the light is showing.
#[derive(Debug, Copy, Clone, Eq, PartialEq, Structural)]
pub enum ColorMode {
    Color,
    ColorTemperature,
    Hsv,
}

impl ColorMode {
    /// The wire form: the digit `1`, `2` or `3`.
    pub open spec fn wire(self) -> Seq<char> {
        match self {
            ColorMode::Color => "1"@,
            ColorMode::ColorTemperature => "2"@,
            ColorMode::Hsv => "3"@,
        }
    }

    /// The description used when the mode is rendered for a reader.
    pub open spec fn description(self) -> Seq<char> {
        match self {
            ColorMode::Color => "(color, id=1)"@,
            ColorMode::ColorTemperature => "(color_temperature, id=2)"@,
            ColorMode::Hsv => "(hsv, id=3)"@,
        }
    }

    /// What a text parses to: the mode whose wire form it is, exactly.
    pub open spec fn spec_parse(s: Seq<char>) -> Result<ColorMode, ErrorView> {
        if s == "1"@ {
            Ok(ColorMode::Color)
        } else if s == "2"@ {
            Ok(ColorMode::ColorTemperature)
        } else if s == "3"@ {
            Ok(ColorMode::Hsv)
        } else {
            Err(ErrorView::ParseFieldFailed { field_name: "color_mode"@, has_source: false })
        }
    }

    /// The mode rendered for a reader: its name and its number, in parentheses.
    pub fn to_string(&self) -> (r: String)
        ensures
            r@ == self.description(),
    {
        match self {
            ColorMode::Color => String::from_str("(color, id=1)"),
            ColorMode::ColorTemperature => String::from_str("(color_temperature, id=2)"),
            ColorMode::Hsv => String::from_str("(hsv, id=3)"),
        }
    }

    /// Reads a mode from its wire form.
    pub fn parse(s: &str) -> (r: Result<ColorMode, YeeError>)
        ensures
            outcome(r) == ColorMode::spec_parse(s@),
    {
        if str_eq(s, "1") {
            Ok(ColorMode::Color)
        } else if str_eq(s, "2") {
            Ok(ColorMode::ColorTemperature)
        } else if str_eq(s, "3") {
            Ok(ColorMode::Hsv)
        } else {
            Err(YeeError::ParseFieldFailed { field_name: "color_mode", source: None })
        }
    }
}

impl core::str::FromStr for ColorMode {
    type Err = YeeError;

    fn from_str(s: &str) -> (r: Result<ColorMode, YeeError>)
        ensures
            outcome(r) == ColorMode::spec_parse(s@),
    {
        ColorMode::parse(s)
    }
}

// ---------------------------------------------------------------------------
// RGB colour
// ---------------------------------------------------------------------------

/// A colour as three 8-bit channels.
#[derive(Debug, Copy, Clone, Eq, PartialEq, Structural)]
pub struct Rgb {
    pub red: u8,
    pub blue: u8,
    pub green: u8,
}

impl Rgb {
    /// The number that encodes three channels: `65536 * red + 256 * green + blue`.
    pub open spec fn encode(red: u8, green: u8, blue: u8) -> nat {
        (65536 * red + 256 * green + blue) as nat
    }

    /// The colour that a number up to `0xFFFFFF` encodes.
    pub open spec fn decode(n: nat) -> Rgb
        recommends
            n <= HEX_FFFFFF,
    {
        Rgb {
            red: (n / 65536 % 256) as u8,
            green: (n / 256 % 256) as u8,
            blue: (n % 256) as u8,
        }
    }

    /// The number that encodes this colour.
    pub open spec fn spec_num(self) -> nat {
        Rgb::encode(self.red, self.green, self.blue)
    }

    /// What a text parses to: the colour encoded by the unsigned decimal it denotes,
    /// provided that number is at most `0xFFFFFF`.
    pub open spec fn spec_parse(s: Seq<char>) -> Result<Rgb, ErrorView> {
        match unsigned_decimal(s) {
            Some(n) => if n <= HEX_FFFFFF {
                Ok(Rgb::decode(n))
            } else {
                Err(
                    ErrorView::ParseFieldFailed {
                        field_name: "rgb"@,
                        has_source: n > u32::MAX,
                    },
                )
            },
            None => Err(ErrorView::ParseFieldFailed { field_name: "rgb"@, has_source: true }),
        }
    }

    /// Black.
    pub fn empty() -> (r: Rgb)
        ensures
            r == (Rgb { red: 0, blue: 0, green: 0 }),
    {
        Rgb { red: 0, blue: 0, green: 0 }
    }

    /// The colour with the given channels.
    pub fn new(red: u8, green: u8, blue: u8) -> (r: Rgb)
        ensures
            r == (Rgb { red, green, blue }),
    {
        Rgb { red, green, blue }
    }

    /// The number that encodes this colour on the wire.
    pub fn get_num(&self) -> (n: u32)
        ensures
            n == self.spec_num(),
            n <= HEX_FFFFFF,
            Rgb::decode(n as nat) == *self,
    {
        self.red as u32 * 65536 + self.green as u32 * 256 + self.blue as u32
    }

    /// The colour rendered for a reader: `#` and the lowercase hexadecimal notation
    /// of its number.
    pub fn to_string(&self) -> (r: String)
        ensures
            r@ == "#"@ + hex_text(self.spec_num()),
    {
        let hex = hex_string(self.get_num());
        String::from_str("#").concat(hex.as_str())
    }

    /// Reads a colour from the decimal notation of its number.
    pub fn parse(s: &str) -> (r: Result<Rgb, YeeError>)
        ensures
            outcome(r) == Rgb::spec_parse(s@),
            r is Ok <==> (unsigned_decimal(s@) matches Some(n) && n <= HEX_FFFFFF),
            r matches Ok(c) ==> unsigned_decimal(s@) == Some(c.spec_num()),
    {
        let val = match parse_u32(s) {
            Ok(v) => v,
            Err(e) => {
                return Err(YeeError::ParseFieldFailed { source: Some(e), field_name: "rgb" });
            },
        };
        if val > HEX_FFFFFF {
            Err(YeeError::ParseFieldFailed { field_name: "rgb", source: None })
        } else {
            let blue = (val % 256) as u8;
            let green = ((val / 256) % 256) as u8;
            let red = ((val / 256) / 256) as u8;
            Ok(Rgb { red, green, blue })
        }
    }
}

impl core::str::FromStr for Rgb {
    type Err = YeeError;

    fn from_str(s: &str) -> (r: Result<Rgb, YeeError>)
        ensures
            outcome(r) == Rgb::spec_parse(s@),
    {
        Rgb::parse(s)
    }
}

/// Decoding the number that encodes three channels gives the three channels back.
pub proof fn lemma_rgb_round_trip(red: u8, green: u8, blue: u8)
    ensures
        Rgb::encode(red, green, blue) <= HEX_FFFFFF,
        Rgb::decode(Rgb::encode(red, green, blue)) == (Rgb { red, green, blue }),
{
}

/// Every number up to `0xFFFFFF` is the encoding of the colour it decodes to.
pub proof fn lemma_rgb_decode_encodes(n: nat)
    requires
        n <= HEX_FFFFFF,
    ensures
        Rgb::decode(n).spec_num() == n,
{
}

/// A text parses as a colour exactly if it is an unsigned decimal of at most
/// `0xFFFFFF`. A text with a minus sign, with a character that is no digit, or with
/// no digit at all is no unsigned decimal, so it does not parse.
pub proof fn lemma_rgb_bounds(s: Seq<char>)
    ensures
        Rgb::spec_parse(s) is Ok <==> (unsigned_decimal(s) matches Some(n) && n <= HEX_FFFFFF),
        s.len() > 0 && s[0] == '-' ==> Rgb::spec_parse(s) is Err,
        (exists|i: int| 1 <= i < s.len() && !is_digit(s[i])) ==> Rgb::spec_parse(s) is Err,
        s.len() == 0 ==> Rgb::spec_parse(s) is Err,
{
    if exists|i: int| 1 <= i < s.len() && !is_digit(s[i]) {
        let i = choose|i: int| 1 <= i < s.len() && !is_digit(s[i]);
        assert(s.drop_first()[i - 1] == s[i]);
    }
}

/// The decimal notation of a colour's number parses back to the colour.
pub proof fn lemma_rgb_wire_round_trip(c: Rgb)
    ensures
        Rgb::spec_parse(decimal_text(c.spec_num())) == Ok::<Rgb, ErrorView>(c),
{
    lemma_decimal_round_trip(c.spec_num());
    lemma_rgb_round_trip(c.red, c.green, c.blue);
}

} // verus!
