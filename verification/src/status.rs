//! Typed device state and its encoding on the wire.

use vstd::prelude::*;

use crate::text::{
    decimal_digits, format_u8, lemma_parse_decimal_digits, parse_u16, parse_u8, same_text,
    spec_parse_unsigned, split_whitespace, tokens,
};

verus! {

/// Power state of the device.
#[derive(Clone, Copy, Debug, PartialEq, Eq, Structural)]
pub enum PowerStatus {
    Off,
    On,
    Cooling,
    Warmup,
}

impl PowerStatus {
    /// The state that a power value stands for. Its first character decides:
    /// `0` is off, `1` on, `2` cooling and `3` warming up.
    pub open spec fn spec_decode(value: Seq<char>) -> Option<PowerStatus> {
        if value.len() == 0 {
            None
        } else if value[0] == '0' {
            Some(PowerStatus::Off)
        } else if value[0] == '1' {
            Some(PowerStatus::On)
        } else if value[0] == '2' {
            Some(PowerStatus::Cooling)
        } else if value[0] == '3' {
            Some(PowerStatus::Warmup)
        } else {
            None
        }
    }

    /// Decodes a power value; `None` where it does not begin with one of the
    /// four state characters.
    pub fn decode(value: &str) -> (status: Option<PowerStatus>)
        ensures
            status == Self::spec_decode(value@),
    {
        if value.unicode_len() == 0 {
            return None;
        }
        match value.get_char(0) {
            '0' => Some(PowerStatus::Off),
            '1' => Some(PowerStatus::On),
            '2' => Some(PowerStatus::Cooling),
            '3' => Some(PowerStatus::Warmup),
            _ => None,
        }
    }
}

/// An input of the device: its family and its channel, counted from one.
#[derive(Clone, Copy, Debug, PartialEq, Eq, Structural)]
pub enum InputType {
    RGB(u8),
    Video(u8),
    Digital(u8),
    Storage(u8),
    Network(u8),
}

impl InputType {
    /// The channel number.
    pub open spec fn spec_channel(self) -> u8 {
        match self {
            InputType::RGB(c) => c,
            InputType::Video(c) => c,
            InputType::Digital(c) => c,
            InputType::Storage(c) => c,
            InputType::Network(c) => c,
        }
    }

    /// The decade at which the codes of the input's family begin.
    pub open spec fn spec_base(self) -> nat {
        match self {
            InputType::RGB(_) => 10,
            InputType::Video(_) => 20,
            InputType::Digital(_) => 30,
            InputType::Storage(_) => 40,
            InputType::Network(_) => 50,
        }
    }

    /// An input is well formed where its channel is one of `1` to `9`: those
    /// are the inputs that have a code.
    pub open spec fn wf(self) -> bool {
        1 <= self.spec_channel() <= 9
    }

    /// The code of a well-formed input: the base of its family plus its
    /// channel.
    pub open spec fn spec_code(self) -> Option<nat> {
        if self.wf() {
            Some(self.spec_base() + self.spec_channel() as nat)
        } else {
            None
        }
    }

    /// The input that a code stands for.
    pub open spec fn spec_from_code(code: nat) -> Option<InputType> {
        if 11 <= code <= 19 {
            Some(InputType::RGB((code - 10) as u8))
        } else if 21 <= code <= 29 {
            Some(InputType::Video((code - 20) as u8))
        } else if 31 <= code <= 39 {
            Some(InputType::Digital((code - 30) as u8))
        } else if 41 <= code <= 49 {
            Some(InputType::Storage((code - 40) as u8))
        } else if 51 <= code <= 59 {
            Some(InputType::Network((code - 50) as u8))
        } else {
            None
        }
    }

    /// The input that an input value stands for: the value is an unsigned
    /// number, and the number the code of an input.
    pub open spec fn spec_decode(value: Seq<char>) -> Option<InputType> {
        match spec_parse_unsigned(value, 0xff) {
            Some(code) => Self::spec_from_code(code),
            None => None,
        }
    }

    /// The value that selects a well-formed input: its code in decimal.
    pub open spec fn spec_encode(self) -> Option<Seq<char>> {
        match self.spec_code() {
            Some(code) => Some(decimal_digits(code)),
            None => None,
        }
    }

    /// The code of the input; `None` where its channel is not one of `1` to
    /// `9`.
    pub fn code(self) -> (code: Option<u8>)
        ensures
            code matches Some(c) ==> self.spec_code() == Some(c as nat),
            code is None ==> self.spec_code() is None,
    {
        let (base, channel): (u8, u8) = match self {
            InputType::RGB(c) => (10, c),
            InputType::Video(c) => (20, c),
            InputType::Digital(c) => (30, c),
            InputType::Storage(c) => (40, c),
            InputType::Network(c) => (50, c),
        };
        if 1 <= channel && channel <= 9 {
            Some(base + channel)
        } else {
            None
        }
    }

    /// The input with the given code; `None` where no input has it.
    pub fn from_code(code: u8) -> (input: Option<InputType>)
        ensures
            input == Self::spec_from_code(code as nat),
            input matches Some(i) ==> i.wf(),
    {
        if 11 <= code && code <= 19 {
            Some(InputType::RGB(code - 10))
        } else if 21 <= code && code <= 29 {
            Some(InputType::Video(code - 20))
        } else if 31 <= code && code <= 39 {
            Some(InputType::Digital(code - 30))
        } else if 41 <= code && code <= 49 {
            Some(InputType::Storage(code - 40))
        } else if 51 <= code && code <= 59 {
            Some(InputType::Network(code - 50))
        } else {
            None
        }
    }

    /// Decodes an input value; `None` where it is not a number or the number
    /// is not the code of an input.
    pub fn decode(value: &str) -> (input: Option<InputType>)
        ensures
            input == Self::spec_decode(value@),
            input matches Some(i) ==> i.wf(),
    {
        match parse_u8(value) {
            Some(code) => Self::from_code(code),
            None => None,
        }
    }

    /// Encodes the input as the value that selects it; `None` where its
    /// channel is not one of `1` to `9`.
    pub fn encode(self) -> (value: Option<String>)
        ensures
            match self.spec_encode() {
                Some(text) => value matches Some(v) && v@ == text,
                None => value is None,
            },
    {
        match self.code() {
            Some(code) => Some(format_u8(code)),
            None => None,
        }
    }

    /// Decoding the encoding of a well-formed input gives that input back.
    pub proof fn lemma_round_trip(self)
        requires
            self.wf(),
        ensures
            self.spec_encode() matches Some(value) && Self::spec_decode(value) == Some(self),
    {
        lemma_parse_decimal_digits(self.spec_code()->0, 0xff);
    }

    /// What decodes is well formed, and encodes to a value that decodes to it.
    pub proof fn lemma_decoded_is_well_formed(value: Seq<char>)
        ensures
            Self::spec_decode(value) matches Some(input) ==> input.wf() && input.spec_code()
                == spec_parse_unsigned(value, 0xff),
    {
    }
}

/// Which of picture and sound are muted.
#[derive(Clone, Copy, Debug, PartialEq, Eq, Structural)]
pub struct AvMute {
    pub audio: bool,
    pub video: bool,
}

impl AvMute {
    /// The code of a mute state, by the table of the protocol.
    pub open spec fn spec_code(self) -> nat {
        if self.video && !self.audio {
            11
        } else if !self.video && self.audio {
            21
        } else if self.video && self.audio {
            31
        } else {
            30
        }
    }

    /// The mute state that a code stands for.
    pub open spec fn spec_from_code(code: nat) -> Option<AvMute> {
        if code == 11 {
            Some(AvMute { audio: false, video: true })
        } else if code == 21 {
            Some(AvMute { audio: true, video: false })
        } else if code == 31 {
            Some(AvMute { audio: true, video: true })
        } else if code == 30 {
            Some(AvMute { audio: false, video: false })
        } else {
            None
        }
    }

    /// The mute state that a mute value stands for.
    pub open spec fn spec_decode(value: Seq<char>) -> Option<AvMute> {
        match spec_parse_unsigned(value, 0xff) {
            Some(code) => Self::spec_from_code(code),
            None => None,
        }
    }

    /// The value that sets a mute state: its code in decimal.
    pub open spec fn spec_encode(self) -> Seq<char> {
        decimal_digits(self.spec_code())
    }

    /// The code of the mute state.
    pub fn code(self) -> (code: u8)
        ensures
            code == self.spec_code(),
    {
        match (self.video, self.audio) {
            (true, false) => 11,
            (false, true) => 21,
            (true, true) => 31,
            (false, false) => 30,
        }
    }

    /// The mute state with the given code; `None` where the table has no
    /// such code.
    pub fn from_code(code: u8) -> (mute: Option<AvMute>)
        ensures
            mute == Self::spec_from_code(code as nat),
    {
        match code {
            11 => Some(AvMute { audio: false, video: true }),
            21 => Some(AvMute { audio: true, video: false }),
            31 => Some(AvMute { audio: true, video: true }),
            30 => Some(AvMute { audio: false, video: false }),
            _ => None,
        }
    }

    /// Decodes a mute value; `None` where it is not a number or the number is
    /// not in the table.
    pub fn decode(value: &str) -> (mute: Option<AvMute>)
        ensures
            mute == Self::spec_decode(value@),
    {
        match parse_u8(value) {
            Some(code) => Self::from_code(code),
            None => None,
        }
    }

    /// Encodes the mute state as the value that sets it.
    pub fn encode(self) -> (value: String)
        ensures
            value@ == self.spec_encode(),
    {
        format_u8(self.code())
    }

    /// The table holds each of the four mute states: decoding the encoding
    /// of a state gives that state back.
    pub proof fn lemma_round_trip(self)
        ensures
            Self::spec_from_code(self.spec_code()) == Some(self),
            Self::spec_decode(self.spec_encode()) == Some(self),
    {
        lemma_parse_decimal_digits(self.spec_code(), 0xff);
    }
}

/// One lamp of the device: the hours it has run and whether it is lit.
#[derive(Clone, Copy, Debug, PartialEq, Eq, Structural)]
pub struct Lamp {
    pub hours: u16,
    pub on: bool,
}

impl Lamp {
    /// Number of lamps that a list of tokens describes: one for each pair of
    /// tokens, and one more for a last token without a partner.
    pub open spec fn spec_count(tokens: Seq<Seq<char>>) -> nat {
        ((tokens.len() + 1) / 2) as nat
    }

    /// The lamp at `index`. Its hours are the token at twice the index, read
    /// as a number; it is lit where the token after that is `1`, and not lit
    /// where that token is anything else or missing.
    pub open spec fn spec_lamp(tokens: Seq<Seq<char>>, index: int) -> Option<Lamp> {
        match spec_parse_unsigned(tokens[2 * index], 0xffff) {
            Some(hours) => Some(
                Lamp {
                    hours: hours as u16,
                    on: 2 * index + 1 < tokens.len() && tokens[2 * index + 1] == "1"@,
                },
            ),
            None => None,
        }
    }

    /// The lamps that a lamp value stands for, in the order of the value;
    /// `None` where one of the hour tokens is not a number of sixteen bits.
    pub open spec fn spec_decode_list(value: Seq<char>) -> Option<Seq<Lamp>> {
        let parts = tokens(value);
        let count = Self::spec_count(parts);
        if forall|i: int| 0 <= i < count ==> (#[trigger] Self::spec_lamp(parts, i)) is Some {
            Some(Seq::new(count, |i: int| Self::spec_lamp(parts, i)->0))
        } else {
            None
        }
    }

    /// A lamp value with `n` tokens describes `n / 2` lamps, rounded up: none
    /// where it has no token, and a last lamp that is not lit where the
    /// number of tokens is odd. The lamps come in the order of the tokens.
    pub proof fn lemma_list_shape(value: Seq<char>)
        requires
            Self::spec_decode_list(value) is Some,
        ensures
            ({
                let parts = tokens(value);
                let list = Self::spec_decode_list(value)->0;
                &&& list.len() == (parts.len() + 1) / 2
                &&& forall|i: int|
                    0 <= i < list.len() ==> Some(#[trigger] list[i]) == Self::spec_lamp(parts, i)
                &&& parts.len() % 2 == 1 ==> !list.last().on
            }),
    {
    }

    /// Decodes a lamp value: whitespace-separated tokens, read two at a time
    /// as hours and state.
    pub fn decode_list(value: &str) -> (lamps: Option<Vec<Lamp>>)
        ensures
            match Self::spec_decode_list(value@) {
                Some(list) => lamps matches Some(v) && v@ == list,
                None => lamps is None,
            },
    {
        let parts = split_whitespace(value);
        let ghost model = tokens(value@);
        let n = parts.len();
        let mut lamps: Vec<Lamp> = Vec::new();
        let mut i: usize = 0;
        while i < n
            invariant
                i <= n,
                i % 2 == 0 || i == n,
                n == parts.len(),
                parts.deep_view() == model,
                model == tokens(value@),
                lamps@.len() == (i + 1) / 2,
                forall|k: int|
                    0 <= k < lamps@.len() ==> Self::spec_lamp(model, k) == Some(
                        #[trigger] lamps@[k],
                    ),
            decreases n - i,
        {
            let ghost index = (i / 2) as int;
            assert(model[i as int] == parts[i as int]@);
            let hours = match parse_u16(parts[i].as_str()) {
                Some(hours) => hours,
                None => {
                    assert(0 <= index < Self::spec_count(model));
                    assert(Self::spec_lamp(model, index) is None);
                    return None;
                },
            };
            let on = if n - i >= 2 {
                assert(model[i + 1] == parts[i + 1]@);
                same_text(parts[i + 1].as_str(), "1")
            } else {
                false
            };
            lamps.push(Lamp { hours, on });
            assert(Self::spec_lamp(model, index) == Some(Lamp { hours, on }));
            if n - i >= 2 {
                i += 2;
            } else {
                i = n;
            }
        }
        proof {
            let count = Self::spec_count(model);
            assert forall|k: int| 0 <= k < count implies (#[trigger] Self::spec_lamp(
                model,
                k,
            )) is Some by {
                assert(Self::spec_lamp(model, k) == Some(lamps@[k]));
            }
            let list = Seq::new(count, |k: int| Self::spec_lamp(model, k)->0);
            assert(lamps@ =~= list);
        }
        Some(lamps)
    }
}

/// Severity that the device reports for one of its components.
#[derive(Clone, Copy, Debug, PartialEq, Eq, Structural)]
pub enum ErrorType {
    NoError,
    Warning,
    Error,
}

impl ErrorType {
    /// Meaning of one status character: `'1'` is a warning, `'2'` an error and
    /// everything else, `'0'` included, no error.
    pub open spec fn spec_from_char(c: char) -> ErrorType {
        if c == '1' {
            ErrorType::Warning
        } else if c == '2' {
            ErrorType::Error
        } else {
            ErrorType::NoError
        }
    }

    /// Decodes one status character leniently.
    pub fn from_char(c: char) -> (severity: ErrorType)
        ensures
            severity == Self::spec_from_char(c),
    {
        match c {
            '1' => ErrorType::Warning,
            '2' => ErrorType::Error,
            _ => ErrorType::NoError,
        }
    }
}

/// The six component severities of an error status report, in wire order.
#[derive(Clone, Copy, Debug, PartialEq, Eq, Structural)]
pub struct ErrorStatus {
    pub fan_error: ErrorType,
    pub lamp_error: ErrorType,
    pub temperature_error: ErrorType,
    pub cover_open_error: ErrorType,
    pub filter_error: ErrorType,
    pub other_error: ErrorType,
}

impl ErrorStatus {
    /// Severity at `position` of a status value; a position past the end of
    /// the value reads as no error.
    pub open spec fn spec_field(value: Seq<char>, position: int) -> ErrorType {
        if 0 <= position < value.len() {
            ErrorType::spec_from_char(value[position])
        } else {
            ErrorType::NoError
        }
    }

    /// The status that a value stands for: its first six characters, read as
    /// fan, lamp, temperature, cover, filter and other.
    pub open spec fn spec_decode(value: Seq<char>) -> ErrorStatus {
        ErrorStatus {
            fan_error: Self::spec_field(value, 0),
            lamp_error: Self::spec_field(value, 1),
            temperature_error: Self::spec_field(value, 2),
            cover_open_error: Self::spec_field(value, 3),
            filter_error: Self::spec_field(value, 4),
            other_error: Self::spec_field(value, 5),
        }
    }

    fn field(value: &str, len: usize, position: usize) -> (severity: ErrorType)
        requires
            len == value@.len(),
        ensures
            severity == Self::spec_field(value@, position as int),
    {
        if position < len {
            ErrorType::from_char(value.get_char(position))
        } else {
            ErrorType::NoError
        }
    }

    /// Decodes an error status value. The decoding never fails: a character
    /// other than `'0'`, `'1'` or `'2'`, or a missing one, reads as no error.
    pub fn decode(value: &str) -> (status: ErrorStatus)
        ensures
            status == Self::spec_decode(value@),
    {
        let len = value.unicode_len();
        ErrorStatus {
            fan_error: Self::field(value, len, 0),
            lamp_error: Self::field(value, len, 1),
            temperature_error: Self::field(value, len, 2),
            cover_open_error: Self::field(value, len, 3),
            filter_error: Self::field(value, len, 4),
            other_error: Self::field(value, len, 5),
        }
    }
}

impl View for PowerStatus {
    type V = PowerStatus;

    open spec fn view(&self) -> PowerStatus {
        *self
    }
}

impl View for InputType {
    type V = InputType;

    open spec fn view(&self) -> InputType {
        *self
    }
}

impl View for AvMute {
    type V = AvMute;

    open spec fn view(&self) -> AvMute {
        *self
    }
}

impl View for ErrorStatus {
    type V = ErrorStatus;

    open spec fn view(&self) -> ErrorStatus {
        *self
    }
}

} // verus!
