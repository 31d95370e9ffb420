//! The device facade: one operation for each capability, each of them a
//! function from the replies received so far to what has to happen next.

use vstd::prelude::*;
use vstd::slice::slice_subrange;

use crate::auth::{negotiate, parse_greeting, spec_negotiate, spec_parse_greeting};
use crate::command::{encode_command, spec_encode_command, CommandType};
use crate::error::{outcome, protocol_error, PjlinkError, PjlinkErrorView, ProtocolError};
use crate::error::spec_pjlink_error;
use crate::response::{
    is_error_code, is_separator, lemma_parse_error_reply, lemma_parse_reply, parse_response,
    spec_parse_response, spec_reply,
};
use crate::status::{AvMute, ErrorStatus, InputType, Lamp, PowerStatus};
use crate::text::{spec_starts_with, starts_with};

verus! {

/// The TCP port on which devices listen.
pub const PORT: &'static str = "4352";

/// What an operation needs next.
#[derive(Debug, PartialEq, Eq)]
pub enum Step<T> {
    /// The command is to be sent over a fresh connection, and the operation
    /// called again with the reply added to the replies it was given.
    Exchange(String),
    /// The operation is complete; this is its result.
    Done(T),
}

/// Mathematical model of a [`Step`].
pub enum StepView<V> {
    Exchange(Seq<char>),
    Done(V),
}

impl<T: View> View for Step<T> {
    type V = StepView<T::V>;

    open spec fn view(&self) -> StepView<T::V> {
        match self {
            Step::Exchange(command) => StepView::Exchange(command@),
            Step::Done(value) => StepView::Done(value@),
        }
    }
}

/// The value of a reply to a command of class `class`: the parse error of
/// the reply, a protocol error where the reply is of another class, and
/// otherwise its value. A device error code never passes as a value.
pub open spec fn spec_expect(reply: Seq<char>, class: CommandType) -> Result<
    Seq<char>,
    PjlinkErrorView,
> {
    match spec_parse_response(reply) {
        Err(e) => Err(e),
        Ok(response) => if response.action == class {
            Ok(response.value)
        } else {
            Err(protocol_error(ProtocolError::UnexpectedClass))
        },
    }
}

/// Whether a reply acknowledges a command of class `class`: it is of that
/// class and its value begins with `OK`.
pub open spec fn spec_acknowledged(reply: Seq<char>, class: CommandType) -> Result<
    (),
    PjlinkErrorView,
> {
    match spec_expect(reply, class) {
        Err(e) => Err(e),
        Ok(value) => if spec_starts_with(value, "OK"@) {
            Ok(())
        } else {
            Err(protocol_error(ProtocolError::InvalidValue))
        },
    }
}

/// A decoded value, or the protocol error for a value outside its encoding.
pub open spec fn spec_valid<V>(decoded: Option<V>) -> Result<V, PjlinkErrorView> {
    match decoded {
        Some(value) => Ok(value),
        None => Err(protocol_error(ProtocolError::InvalidValue)),
    }
}

/// The step of a query. Before any reply it asks for the exchange of
/// `command`; after that it is done with what the first reply answers.
pub open spec fn spec_query<V>(
    replies: Seq<Seq<char>>,
    command: Seq<char>,
    answer: Result<V, PjlinkErrorView>,
) -> Result<StepView<V>, PjlinkErrorView> {
    if replies.len() == 0 {
        Ok(StepView::Exchange(command))
    } else {
        match answer {
            Ok(value) => Ok(StepView::Done(value)),
            Err(e) => Err(e),
        }
    }
}

/// The step of a command that changes the device. Before any reply it asks
/// for the exchange of `command`. The first reply must acknowledge it. The
/// acknowledgement carries no state, so the step then goes on as the query
/// `follow_up` does on the replies after the first.
pub open spec fn spec_change<V>(
    replies: Seq<Seq<char>>,
    command: Seq<char>,
    class: CommandType,
    follow_up: Result<StepView<V>, PjlinkErrorView>,
) -> Result<StepView<V>, PjlinkErrorView> {
    if replies.len() == 0 {
        Ok(StepView::Exchange(command))
    } else {
        match spec_acknowledged(replies[0], class) {
            Err(e) => Err(e),
            Ok(_) => follow_up,
        }
    }
}

fn expect(reply: &str, class: CommandType) -> (r: Result<String, PjlinkError>)
    ensures
        outcome(r) == spec_expect(reply@, class),
{
    let response = parse_response(reply)?;
    if response.action == class {
        Ok(response.value)
    } else {
        Err(PjlinkError::Protocol(ProtocolError::UnexpectedClass))
    }
}

fn acknowledged(reply: &str, class: CommandType) -> (r: Result<(), PjlinkError>)
    ensures
        outcome(r) == spec_acknowledged(reply@, class),
{
    let value = expect(reply, class)?;
    if starts_with(value.as_str(), "OK") {
        Ok(())
    } else {
        Err(PjlinkError::Protocol(ProtocolError::InvalidValue))
    }
}

/// A device on the network: where to reach it and the password to
/// authenticate with. It holds no connection and no state.
#[derive(Debug, PartialEq, Eq)]
pub struct PjlinkDevice {
    pub host: String,
    password: String,
}

impl PjlinkDevice {
    /// The configured host.
    pub closed spec fn spec_host(&self) -> Seq<char> {
        self.host@
    }

    /// The configured password; empty where there is none.
    pub closed spec fn spec_password(&self) -> Seq<char> {
        self.password@
    }

    /// A device at `host` without a password.
    pub fn new(host: &str) -> (r: Result<PjlinkDevice, PjlinkError>)
        ensures
            r matches Ok(device) && device.spec_host() == host@ && device.spec_password().len() == 0,
    {
        proof {
            reveal_strlit("");
        }
        PjlinkDevice::new_with_password(host, "")
    }

    /// A device at `host` that authenticates with `password`.
    pub fn new_with_password(host: &str, password: &str) -> (r: Result<PjlinkDevice, PjlinkError>)
        ensures
            r matches Ok(device) && device.spec_host() == host@ && device.spec_password() == password@,
    {
        Ok(PjlinkDevice { host: host.to_owned(), password: password.to_owned() })
    }

    /// The configured host.
    pub fn host(&self) -> (host: &str)
        ensures
            host@ == self.spec_host(),
    {
        self.host.as_str()
    }

    /// The address to connect to: the host, a colon, the port.
    pub fn address(&self) -> (address: String)
        ensures
            address@ == self.spec_host() + seq![':'] + PORT@,
    {
        proof {
            reveal_strlit(":");
        }
        let mut address = String::new();
        address.append(self.host.as_str());
        address.append(":");
        address.append(PORT);
        assert(address@ =~= self.host@ + seq![':'] + PORT@);
        address
    }

    /// The line to transmit for `command`, given the bytes that the device
    /// sent when the connection opened: what the greeting in them and the
    /// configured password negotiate.
    pub open spec fn spec_send_command(
        &self,
        greeting: Seq<u8>,
        command: Seq<char>,
    ) -> Result<Seq<char>, PjlinkErrorView> {
        match spec_parse_greeting(greeting) {
            Err(e) => Err(e),
            Ok(challenge) => spec_negotiate(challenge, self.spec_password(), command),
        }
    }

    /// Frames `command` for the connection whose greeting is `greeting`.
    ///
    /// The result is the exact line to write to the connection. It is a
    /// protocol error where the greeting is not one, and an authentication
    /// error where the greeting asks for a password and none is configured:
    /// nothing is to be written then.
    pub fn send_command(&self, greeting: &[u8], command: &str) -> (r: Result<String, PjlinkError>)
        ensures
            outcome(r) == self.spec_send_command(greeting@, command@),
    {
        let greeting = parse_greeting(greeting)?;
        negotiate(&greeting, self.password.as_str(), command)
    }
}

/// The replies after the first.
fn rest(replies: &[String]) -> (tail: &[String])
    requires
        replies@.len() > 0,
    ensures
        tail.deep_view() == replies.deep_view().skip(1),
{
    let tail = slice_subrange(replies, 1, replies.len());
    assert(tail.deep_view() =~= replies.deep_view().skip(1));
    tail
}

/// What a reply to the power query answers.
pub open spec fn spec_power_answer(reply: Seq<char>) -> Result<PowerStatus, PjlinkErrorView> {
    match spec_expect(reply, CommandType::Power) {
        Err(e) => Err(e),
        Ok(value) => spec_valid(PowerStatus::spec_decode(value)),
    }
}

/// The steps of the power query `POWR ?`.
pub open spec fn spec_get_power_status(replies: Seq<Seq<char>>) -> Result<
    StepView<PowerStatus>,
    PjlinkErrorView,
> {
    spec_query(replies, spec_encode_command("POWR"@, "?"@), spec_power_answer(replies[0]))
}

/// The steps of a power command with the given parameter: the command, and
/// after its acknowledgement the power query.
pub open spec fn spec_set_power(replies: Seq<Seq<char>>, parameter: Seq<char>) -> Result<
    StepView<PowerStatus>,
    PjlinkErrorView,
> {
    spec_change(
        replies,
        spec_encode_command("POWR"@, parameter),
        CommandType::Power,
        spec_get_power_status(replies.skip(1)),
    )
}

impl PjlinkDevice {
    /// Reads the power state of the device.
    ///
    /// With no reply yet, the step is the exchange of `POWR ?`. With a reply,
    /// the operation is done: the reply must be of the power class and its
    /// value a power state.
    pub fn get_power_status(&self, replies: &[String]) -> (r: Result<Step<PowerStatus>, PjlinkError>)
        ensures
            outcome(r) == spec_get_power_status(replies.deep_view()),
    {
        if replies.len() == 0 {
            return Ok(Step::Exchange(encode_command("POWR", "?")));
        }
        assert(replies.deep_view()[0] == replies[0]@);
        let value = expect(replies[0].as_str(), CommandType::Power)?;
        match PowerStatus::decode(value.as_str()) {
            Some(status) => Ok(Step::Done(status)),
            None => Err(PjlinkError::Protocol(ProtocolError::InvalidValue)),
        }
    }

    fn set_power(&self, replies: &[String], parameter: &str) -> (r: Result<
        Step<PowerStatus>,
        PjlinkError,
    >)
        ensures
            outcome(r) == spec_set_power(replies.deep_view(), parameter@),
    {
        if replies.len() == 0 {
            return Ok(Step::Exchange(encode_command("POWR", parameter)));
        }
        assert(replies.deep_view()[0] == replies[0]@);
        acknowledged(replies[0].as_str(), CommandType::Power)?;
        self.get_power_status(rest(replies))
    }

    /// Turns the device on and reads the state it is in after that.
    ///
    /// The steps are the exchange of `POWR 1`, whose reply must acknowledge
    /// it with `OK`, and then those of [`PjlinkDevice::get_power_status`]: the state
    /// is whatever the device reports right after the command, which may be a
    /// transient one.
    pub fn power_on(&self, replies: &[String]) -> (r: Result<Step<PowerStatus>, PjlinkError>)
        ensures
            outcome(r) == spec_set_power(replies.deep_view(), "1"@),
    {
        self.set_power(replies, "1")
    }

    /// Turns the device off and reads the state it is in after that.
    ///
    /// The steps are the exchange of `POWR 0`, whose reply must acknowledge
    /// it with `OK`, and then those of [`PjlinkDevice::get_power_status`].
    pub fn power_off(&self, replies: &[String]) -> (r: Result<Step<PowerStatus>, PjlinkError>)
        ensures
            outcome(r) == spec_set_power(replies.deep_view(), "0"@),
    {
        self.set_power(replies, "0")
    }
}

/// The steps of a query whose answer is the value of the reply as it
/// stands: the query of `verb`, and the value of a reply of class `class`.
pub open spec fn spec_text_query(replies: Seq<Seq<char>>, verb: Seq<char>, class: CommandType) -> Result<
    StepView<Seq<char>>,
    PjlinkErrorView,
> {
    spec_query(replies, spec_encode_command(verb, "?"@), spec_expect(replies[0], class))
}

fn text_query(replies: &[String], verb: &str, class: CommandType) -> (r: Result<
    Step<String>,
    PjlinkError,
>)
    ensures
        outcome(r) == spec_text_query(replies.deep_view(), verb@, class),
{
    if replies.len() == 0 {
        return Ok(Step::Exchange(encode_command(verb, "?")));
    }
    assert(replies.deep_view()[0] == replies[0]@);
    let value = expect(replies[0].as_str(), class)?;
    Ok(Step::Done(value))
}

impl PjlinkDevice {
    /// Reads the free-form information of the device: the value of the reply
    /// to `INFO ?`, verbatim.
    pub fn get_info(&self, replies: &[String]) -> (r: Result<Step<String>, PjlinkError>)
        ensures
            outcome(r) == spec_text_query(replies.deep_view(), "INFO"@, CommandType::Information),
    {
        text_query(replies, "INFO", CommandType::Information)
    }

    /// Reads the name of the manufacturer: the value of the reply to
    /// `INF1 ?`, verbatim.
    pub fn get_manufacturer(&self, replies: &[String]) -> (r: Result<Step<String>, PjlinkError>)
        ensures
            outcome(r) == spec_text_query(replies.deep_view(), "INF1"@, CommandType::Manufacturer),
    {
        text_query(replies, "INF1", CommandType::Manufacturer)
    }

    /// Reads the name of the product: the value of the reply to `INF2 ?`,
    /// verbatim.
    pub fn get_product_name(&self, replies: &[String]) -> (r: Result<Step<String>, PjlinkError>)
        ensures
            outcome(r) == spec_text_query(replies.deep_view(), "INF2"@, CommandType::ProductName),
    {
        text_query(replies, "INF2", CommandType::ProductName)
    }

    /// Reads the protocol class of the device: the value of the reply to
    /// `CLSS ?`, verbatim.
    pub fn get_class(&self, replies: &[String]) -> (r: Result<Step<String>, PjlinkError>)
        ensures
            outcome(r) == spec_text_query(replies.deep_view(), "CLSS"@, CommandType::Class),
    {
        text_query(replies, "CLSS", CommandType::Class)
    }

    /// Reads the name that the device was given: the value of the reply to
    /// `NAME ?`, verbatim.
    pub fn get_device_name(&self, replies: &[String]) -> (r: Result<Step<String>, PjlinkError>)
        ensures
            outcome(r) == spec_text_query(replies.deep_view(), "NAME"@, CommandType::Name),
    {
        text_query(replies, "NAME", CommandType::Name)
    }
}

/// What a reply to the input query answers.
pub open spec fn spec_input_answer(reply: Seq<char>) -> Result<InputType, PjlinkErrorView> {
    match spec_expect(reply, CommandType::Input) {
        Err(e) => Err(e),
        Ok(value) => spec_valid(InputType::spec_decode(value)),
    }
}

/// The steps of the input query `INPT ?`.
pub open spec fn spec_get_input(replies: Seq<Seq<char>>) -> Result<
    StepView<InputType>,
    PjlinkErrorView,
> {
    spec_query(replies, spec_encode_command("INPT"@, "?"@), spec_input_answer(replies[0]))
}

/// The steps of selecting an input. An input without a code is refused
/// before anything is sent. For any other the steps are the command that
/// carries its code, and after its acknowledgement the input query.
pub open spec fn spec_set_input(input: InputType, replies: Seq<Seq<char>>) -> Result<
    StepView<InputType>,
    PjlinkErrorView,
> {
    match input.spec_encode() {
        None => Err(protocol_error(ProtocolError::InvalidValue)),
        Some(value) => spec_change(
            replies,
            spec_encode_command("INPT"@, value),
            CommandType::Input,
            spec_get_input(replies.skip(1)),
        ),
    }
}

/// What a reply to the mute query answers.
pub open spec fn spec_avmute_answer(reply: Seq<char>) -> Result<AvMute, PjlinkErrorView> {
    match spec_expect(reply, CommandType::AvMute) {
        Err(e) => Err(e),
        Ok(value) => spec_valid(AvMute::spec_decode(value)),
    }
}

/// The steps of the mute query `AVMT ?`.
pub open spec fn spec_get_avmute(replies: Seq<Seq<char>>) -> Result<
    StepView<AvMute>,
    PjlinkErrorView,
> {
    spec_query(replies, spec_encode_command("AVMT"@, "?"@), spec_avmute_answer(replies[0]))
}

/// The steps of setting a mute state: the command that carries its code,
/// and after its acknowledgement the mute query.
pub open spec fn spec_set_avmute(mute: AvMute, replies: Seq<Seq<char>>) -> Result<
    StepView<AvMute>,
    PjlinkErrorView,
> {
    spec_change(
        replies,
        spec_encode_command("AVMT"@, mute.spec_encode()),
        CommandType::AvMute,
        spec_get_avmute(replies.skip(1)),
    )
}

/// What a reply to the lamp query answers.
pub open spec fn spec_lamp_answer(reply: Seq<char>) -> Result<Seq<Lamp>, PjlinkErrorView> {
    match spec_expect(reply, CommandType::Lamp) {
        Err(e) => Err(e),
        Ok(value) => spec_valid(Lamp::spec_decode_list(value)),
    }
}

/// The steps of the lamp query `LAMP ?`.
pub open spec fn spec_get_lamp(replies: Seq<Seq<char>>) -> Result<
    StepView<Seq<Lamp>>,
    PjlinkErrorView,
> {
    spec_query(replies, spec_encode_command("LAMP"@, "?"@), spec_lamp_answer(replies[0]))
}

/// What a reply to the error status query answers. Every value of a reply
/// of the right class decodes.
pub open spec fn spec_error_status_answer(reply: Seq<char>) -> Result<
    ErrorStatus,
    PjlinkErrorView,
> {
    match spec_expect(reply, CommandType::ErrorStatus) {
        Err(e) => Err(e),
        Ok(value) => Ok(ErrorStatus::spec_decode(value)),
    }
}

/// The steps of the error status query `ERST ?`.
pub open spec fn spec_get_error_status(replies: Seq<Seq<char>>) -> Result<
    StepView<ErrorStatus>,
    PjlinkErrorView,
> {
    spec_query(
        replies,
        spec_encode_command("ERST"@, "?"@),
        spec_error_status_answer(replies[0]),
    )
}

impl PjlinkDevice {
    /// Reads the selected input.
    ///
    /// With no reply yet, the step is the exchange of `INPT ?`. With a reply,
    /// the operation is done: the reply must be of the input class and its
    /// value the code of an input.
    pub fn get_input(&self, replies: &[String]) -> (r: Result<Step<InputType>, PjlinkError>)
        ensures
            outcome(r) == spec_get_input(replies.deep_view()),
            r matches Ok(Step::Done(input)) ==> input.wf(),
    {
        if replies.len() == 0 {
            return Ok(Step::Exchange(encode_command("INPT", "?")));
        }
        assert(replies.deep_view()[0] == replies[0]@);
        let value = expect(replies[0].as_str(), CommandType::Input)?;
        match InputType::decode(value.as_str()) {
            Some(input) => Ok(Step::Done(input)),
            None => Err(PjlinkError::Protocol(ProtocolError::InvalidValue)),
        }
    }

    /// Selects an input and reads the input that is selected after that.
    ///
    /// An input whose channel is not one of `1` to `9` is a protocol error,
    /// whatever the replies. Otherwise the steps are the exchange of `INPT`
    /// with the code of the input, whose reply must acknowledge it with `OK`,
    /// and then those of [`PjlinkDevice::get_input`].
    pub fn set_input(&self, input: InputType, replies: &[String]) -> (r: Result<
        Step<InputType>,
        PjlinkError,
    >)
        ensures
            outcome(r) == spec_set_input(input, replies.deep_view()),
    {
        let value = match input.encode() {
            Some(value) => value,
            None => {
                return Err(PjlinkError::Protocol(ProtocolError::InvalidValue));
            },
        };
        if replies.len() == 0 {
            return Ok(Step::Exchange(encode_command("INPT", value.as_str())));
        }
        assert(replies.deep_view()[0] == replies[0]@);
        acknowledged(replies[0].as_str(), CommandType::Input)?;
        self.get_input(rest(replies))
    }

    /// Reads which of picture and sound are muted.
    ///
    /// With no reply yet, the step is the exchange of `AVMT ?`. With a reply,
    /// the operation is done: the reply must be of the mute class and its
    /// value one of the four codes of the mute table.
    pub fn get_avmute(&self, replies: &[String]) -> (r: Result<Step<AvMute>, PjlinkError>)
        ensures
            outcome(r) == spec_get_avmute(replies.deep_view()),
    {
        if replies.len() == 0 {
            return Ok(Step::Exchange(encode_command("AVMT", "?")));
        }
        assert(replies.deep_view()[0] == replies[0]@);
        let value = expect(replies[0].as_str(), CommandType::AvMute)?;
        match AvMute::decode(value.as_str()) {
            Some(mute) => Ok(Step::Done(mute)),
            None => Err(PjlinkError::Protocol(ProtocolError::InvalidValue)),
        }
    }

    /// Mutes or unmutes picture and sound and reads the mute state after
    /// that.
    ///
    /// The steps are the exchange of `AVMT` with the code of the requested
    /// state, whose reply must acknowledge it with `OK`, and then those of
    /// [`PjlinkDevice::get_avmute`].
    pub fn set_avmute(&self, mute_status: AvMute, replies: &[String]) -> (r: Result<
        Step<AvMute>,
        PjlinkError,
    >)
        ensures
            outcome(r) == spec_set_avmute(mute_status, replies.deep_view()),
    {
        if replies.len() == 0 {
            let value = mute_status.encode();
            return Ok(Step::Exchange(encode_command("AVMT", value.as_str())));
        }
        assert(replies.deep_view()[0] == replies[0]@);
        acknowledged(replies[0].as_str(), CommandType::AvMute)?;
        self.get_avmute(rest(replies))
    }

    /// Reads the lamps of the device, in the order in which it reports them.
    ///
    /// With no reply yet, the step is the exchange of `LAMP ?`. With a reply,
    /// the operation is done: the reply must be of the lamp class, and each
    /// of its hour tokens a number.
    pub fn get_lamp(&self, replies: &[String]) -> (r: Result<Step<Vec<Lamp>>, PjlinkError>)
        ensures
            outcome(r) == spec_get_lamp(replies.deep_view()),
    {
        if replies.len() == 0 {
            return Ok(Step::Exchange(encode_command("LAMP", "?")));
        }
        assert(replies.deep_view()[0] == replies[0]@);
        let value = expect(replies[0].as_str(), CommandType::Lamp)?;
        match Lamp::decode_list(value.as_str()) {
            Some(lamps) => Ok(Step::Done(lamps)),
            None => Err(PjlinkError::Protocol(ProtocolError::InvalidValue)),
        }
    }

    /// Reads the error status of the device.
    ///
    /// With no reply yet, the step is the exchange of `ERST ?`. With a reply,
    /// the operation is done: the reply must be of the error status class.
    /// Its value never fails the call: what is not a known status character
    /// reads as no error.
    pub fn get_error_status(&self, replies: &[String]) -> (r: Result<Step<ErrorStatus>, PjlinkError>)
        ensures
            outcome(r) == spec_get_error_status(replies.deep_view()),
    {
        if replies.len() == 0 {
            return Ok(Step::Exchange(encode_command("ERST", "?")));
        }
        assert(replies.deep_view()[0] == replies[0]@);
        let value = expect(replies[0].as_str(), CommandType::ErrorStatus)?;
        Ok(Step::Done(ErrorStatus::decode(value.as_str())))
    }
}

/// A reply whose value is an error code fails every operation with the
/// device error that the code stands for: whatever the class of the reply
/// and whatever class the operation expects, no value reaches a decoder.
pub proof fn lemma_error_code_fails(
    class: CommandType,
    separator: char,
    code: Seq<char>,
    expected: CommandType,
)
    requires
        class != CommandType::Generic,
        is_separator(separator),
        is_error_code(code),
    ensures
        spec_expect(spec_reply(class.spec_verb()->0, separator, code), expected) == Err::<
            Seq<char>,
            PjlinkErrorView,
        >(PjlinkErrorView::Device { kind: spec_pjlink_error(code), code }),
{
    lemma_parse_error_reply(class, separator, code);
}

/// The error status query succeeds on every reply of its class that carries
/// a value: no value is refused.
pub proof fn lemma_error_status_total(separator: char, value: Seq<char>)
    requires
        is_separator(separator),
        !is_error_code(value),
    ensures
        spec_error_status_answer(spec_reply("ERST"@, separator, value)) == Ok::<
            ErrorStatus,
            PjlinkErrorView,
        >(ErrorStatus::spec_decode(value)),
{
    lemma_parse_reply(CommandType::ErrorStatus, separator, value);
}

} // verus!
