use pjlink::auth::{AUTH, NOAUTH};
use pjlink::{
    command_line, digest, negotiate, parse_greeting, to_hex, AvMute, DeviceError, ErrorStatus,
    ErrorType, Greeting, InputType, Lamp, PjlinkDevice, PjlinkError, PowerStatus, ProtocolError,
    Step,
};

const DIGEST: &str = "b154f4e5e9db1664b85eea962d1e585a";

fn replies(lines: &[&str]) -> Vec<String> {
    lines.iter().map(|line| line.to_string()).collect()
}

fn exchange<T>(command: &str) -> Result<Step<T>, PjlinkError> {
    Ok(Step::Exchange(command.to_string()))
}

fn done<T>(value: T) -> Result<Step<T>, PjlinkError> {
    Ok(Step::Done(value))
}

fn protocol<T>(kind: ProtocolError) -> Result<T, PjlinkError> {
    Err(PjlinkError::Protocol(kind))
}

fn device_error<T>(kind: DeviceError, code: &str) -> Result<T, PjlinkError> {
    Err(PjlinkError::Device { kind, code: code.to_string() })
}

fn device() -> PjlinkDevice {
    PjlinkDevice::new("projector.local").unwrap()
}

#[test]
fn new_device_has_host_and_no_password() {
    let device = PjlinkDevice::new("192.168.1.20").unwrap();
    assert_eq!(device.host, "192.168.1.20");
    assert_eq!(device.host(), "192.168.1.20");
    assert_eq!(device.send_command(b"PJLINK 1 ABCDEFGH\r", "NAME ?"), Err(PjlinkError::Auth));
    assert_eq!(device.address(), "192.168.1.20:4352");
}

#[test]
fn new_device_with_password() {
    let device = PjlinkDevice::new_with_password("beamer", "pass").unwrap();
    assert_eq!(device.host, "beamer");
    assert_eq!(
        device.send_command(b"PJLINK 1 ABCDEFGH\r", "NAME ?"),
        Ok(format!("{}%1NAME ?\r", DIGEST))
    );
    assert_eq!(device.address(), "beamer:4352");
}

#[test]
fn greeting_without_authentication() {
    assert_eq!(parse_greeting(b"PJLINK 0\r"), Ok(Greeting::Open));
    assert_eq!(parse_greeting(b"PJLINK 0"), Ok(Greeting::Open));
    assert!(!Greeting::Open.auth_required());
    assert_eq!(NOAUTH, b'0');
    assert_eq!(AUTH, b'1');
}

#[test]
fn greeting_with_seed() {
    let greeting = parse_greeting(b"PJLINK 1 ABCDEFGH\r").unwrap();
    assert_eq!(greeting, Greeting::Challenge { seed: *b"ABCDEFGH" });
    assert!(greeting.auth_required());
    assert_eq!(
        parse_greeting(b"PJLINK 1 \xff\x00CDEFGHtail"),
        Ok(Greeting::Challenge { seed: *b"\xff\x00CDEFGH" })
    );
}

#[test]
fn greeting_malformed() {
    let malformed = protocol(ProtocolError::MalformedGreeting);
    assert_eq!(parse_greeting(b""), malformed);
    assert_eq!(parse_greeting(b"PJLINK "), malformed);
    assert_eq!(parse_greeting(b"PJLINK 2\r"), malformed);
    assert_eq!(parse_greeting(b"PJLINK 1 ABCDEFG"), malformed);
    assert_eq!(parse_greeting(b"PJLINK 1"), malformed);
    assert_eq!(parse_greeting(&[0u8; 256]), malformed);
    assert_eq!(parse_greeting(b"SSH-2.0-OpenSSH_9.6\r\n"), malformed);
}

#[test]
fn hex_is_lower_case_two_digits_per_byte() {
    assert_eq!(to_hex(&[]), "");
    assert_eq!(to_hex(&[0x00, 0x0f, 0xa0, 0xff, 0x12]), "000fa0ff12");
    assert_eq!(to_hex(&[0xab, 0xcd, 0xef]), "abcdef");
}

#[test]
fn digest_is_md5_of_seed_and_password() {
    assert_eq!(digest(b"ABCDEFGH", "pass"), DIGEST);
    assert_eq!(digest(b"12345678", "secret"), "1c9169ec8ee891709c6db474cdf6792f");
    assert_eq!(digest(b"ABCDEFGH", "p\u{e4}ss"), "83cb716b1305ab9e3bf864ce478d3376");
    assert_eq!(digest(b"ABCDEFGH", "pass"), format!("{:x}", md5::compute("ABCDEFGHpass")));
}

#[test]
fn digest_is_deterministic_and_sensitive() {
    assert_eq!(digest(b"ABCDEFGH", "pass"), digest(b"ABCDEFGH", "pass"));
    assert_eq!(digest(b"ABCDEFGH", "past"), "80094f6ab70595f151dfa6c62caa5f9d");
    assert_eq!(digest(b"ABCDEFGI", "pass"), "f5e8384016f71b5683b9e39061be79b9");
    assert_ne!(digest(b"ABCDEFGH", "pass"), digest(b"ABCDEFGH", "past"));
    assert_ne!(digest(b"ABCDEFGH", "pass"), digest(b"ABCDEFGI", "pass"));
    for password in ["a", "pass", "a much longer password than the digest itself is"] {
        let text = digest(b"ABCDEFGH", password);
        assert_eq!(text.len(), 32);
        assert!(text.chars().all(|c| matches!(c, '0'..='9' | 'a'..='f')));
    }
}

#[test]
fn command_line_frames_command() {
    assert_eq!(command_line("", "POWR ?"), "%1POWR ?\r");
    assert_eq!(command_line(DIGEST, "INPT 31"), format!("{}%1INPT 31\r", DIGEST));
}

#[test]
fn negotiate_decides_by_greeting_and_password() {
    let challenge = Greeting::Challenge { seed: *b"ABCDEFGH" };
    assert_eq!(negotiate(&Greeting::Open, "", "POWR ?"), Ok("%1POWR ?\r".to_string()));
    assert_eq!(negotiate(&Greeting::Open, "pass", "POWR ?"), Ok("%1POWR ?\r".to_string()));
    assert_eq!(negotiate(&challenge, "", "POWR ?"), Err(PjlinkError::Auth));
    assert_eq!(negotiate(&challenge, "pass", "POWR ?"), Ok(format!("{}%1POWR ?\r", DIGEST)));
}

#[test]
fn query_power_without_authentication() {
    let device = device();
    assert_eq!(device.get_power_status(&[]), exchange("POWR ?"));
    assert_eq!(device.send_command(b"PJLINK 0\r", "POWR ?"), Ok("%1POWR ?\r".to_string()));
    assert_eq!(device.get_power_status(&replies(&["%1POWR=2"])), done(PowerStatus::Cooling));
}

#[test]
fn query_power_with_authentication() {
    let device = PjlinkDevice::new_with_password("projector.local", "pass").unwrap();
    let line = device.send_command(b"PJLINK 1 ABCDEFGH\r", "POWR ?").unwrap();
    assert_eq!(line, format!("{}%1POWR ?\r", DIGEST));
    assert!(line.starts_with(DIGEST));
    assert_eq!(&line[32..], "%1POWR ?\r");
}

#[test]
fn authentication_required_without_password() {
    assert_eq!(device().send_command(b"PJLINK 1 ABCDEFGH\r", "POWR ?"), Err(PjlinkError::Auth));
}

#[test]
fn send_command_rejects_malformed_greeting() {
    let malformed = protocol(ProtocolError::MalformedGreeting);
    assert_eq!(device().send_command(b"", "POWR ?"), malformed);
    assert_eq!(device().send_command(b"PJLINK x\r", "POWR ?"), malformed);
    let with_password = PjlinkDevice::new_with_password("h", "pass").unwrap();
    assert_eq!(with_password.send_command(b"PJLINK 1 ABC", "POWR ?"), malformed);
}

#[test]
fn temporarily_unavailable_fails_every_operation() {
    let device = device();
    let unavailable = || PjlinkError::Device {
        kind: DeviceError::TemporarilyUnavailable,
        code: "ERR3".to_string(),
    };
    assert_eq!(device.get_power_status(&replies(&["%1POWR=ERR3"])), Err(unavailable()));
    assert_eq!(device.power_on(&replies(&["%1POWR=ERR3"])), Err(unavailable()));
    assert_eq!(device.power_off(&replies(&["%1POWR=ERR3"])), Err(unavailable()));
    assert_eq!(device.get_info(&replies(&["%1INFO=ERR3"])), Err(unavailable()));
    assert_eq!(device.get_manufacturer(&replies(&["%1INF1=ERR3"])), Err(unavailable()));
    assert_eq!(device.get_product_name(&replies(&["%1INF2=ERR3"])), Err(unavailable()));
    assert_eq!(device.get_class(&replies(&["%1CLSS=ERR3"])), Err(unavailable()));
    assert_eq!(device.get_device_name(&replies(&["%1NAME=ERR3"])), Err(unavailable()));
    assert_eq!(device.get_input(&replies(&["%1INPT=ERR3"])), Err(unavailable()));
    assert_eq!(
        device.set_input(InputType::RGB(1), &replies(&["%1INPT=ERR3"])),
        Err(unavailable())
    );
    assert_eq!(device.get_avmute(&replies(&["%1AVMT=ERR3"])), Err(unavailable()));
    assert_eq!(
        device.set_avmute(AvMute { audio: true, video: true }, &replies(&["%1AVMT=ERR3"])),
        Err(unavailable())
    );
    assert_eq!(device.get_lamp(&replies(&["%1LAMP=ERR3"])), Err(unavailable()));
    assert_eq!(device.get_error_status(&replies(&["%1ERST=ERR3"])), Err(unavailable()));
    assert_eq!(device.get_power_status(&replies(&["%1INPT=ERR3"])), Err(unavailable()));
    assert_eq!(
        device.power_on(&replies(&["%1POWR=OK", "%1POWR=ERR3"])),
        Err(unavailable())
    );
}

#[test]
fn unsupported_command_is_undefined_command() {
    assert_eq!(
        device().get_lamp(&replies(&["%1LAMP=ERR1"])),
        device_error(DeviceError::UndefinedCommand, "ERR1")
    );
    assert_eq!(
        device().get_info(&replies(&["PJLINK ERRA"])),
        device_error(DeviceError::AuthorizationError, "ERRA")
    );
}

#[test]
fn power_status_values() {
    let device = device();
    assert_eq!(device.get_power_status(&replies(&["%1POWR=0"])), done(PowerStatus::Off));
    assert_eq!(device.get_power_status(&replies(&["%1POWR=1"])), done(PowerStatus::On));
    assert_eq!(device.get_power_status(&replies(&["%1POWR 3"])), done(PowerStatus::Warmup));
    assert_eq!(
        device.get_power_status(&replies(&["%1POWR=9"])),
        protocol(ProtocolError::InvalidValue)
    );
    assert_eq!(
        device.get_power_status(&replies(&["%1POWR="])),
        protocol(ProtocolError::InvalidValue)
    );
    assert_eq!(
        device.get_power_status(&replies(&["%1INPT=1"])),
        protocol(ProtocolError::UnexpectedClass)
    );
    assert_eq!(
        device.get_power_status(&replies(&["POWR=1"])),
        protocol(ProtocolError::UnexpectedClass)
    );
    assert_eq!(
        device.get_power_status(&replies(&["%1XXXX=1"])),
        protocol(ProtocolError::UnknownClass)
    );
    assert_eq!(device.get_power_status(&replies(&[""])), protocol(ProtocolError::UnexpectedClass));
}

#[test]
fn power_on_sends_command_then_queries() {
    let device = device();
    assert_eq!(device.power_on(&[]), exchange("POWR 1"));
    assert_eq!(device.power_on(&replies(&["%1POWR=OK"])), exchange("POWR ?"));
    assert_eq!(device.power_on(&replies(&["%1POWR=OK", "%1POWR=3"])), done(PowerStatus::Warmup));
    assert_eq!(device.power_on(&replies(&["%1POWR=OK", "%1POWR=1"])), done(PowerStatus::On));
    assert_eq!(
        device.power_on(&replies(&["%1POWR=OK", "%1POWR=7"])),
        protocol(ProtocolError::InvalidValue)
    );
    assert_eq!(device.power_on(&replies(&["%1POWR=1"])), protocol(ProtocolError::InvalidValue));
    assert_eq!(device.power_on(&replies(&["%1POWR=O"])), protocol(ProtocolError::InvalidValue));
    assert_eq!(
        device.power_on(&replies(&["%1INPT=OK"])),
        protocol(ProtocolError::UnexpectedClass)
    );
    assert_eq!(
        device.power_on(&replies(&["%1POWR=ERR2", "%1POWR=1"])),
        device_error(DeviceError::InvalidParameter, "ERR2")
    );
}

#[test]
fn power_off_sends_command_then_queries() {
    let device = device();
    assert_eq!(device.power_off(&[]), exchange("POWR 0"));
    assert_eq!(device.power_off(&replies(&["%1POWR=OK"])), exchange("POWR ?"));
    assert_eq!(device.power_off(&replies(&["%1POWR=OK", "%1POWR=2"])), done(PowerStatus::Cooling));
    assert_eq!(device.power_off(&replies(&["%1POWR=OK", "%1POWR=0"])), done(PowerStatus::Off));
    assert_eq!(
        device.power_off(&replies(&["%1POWR=OK", "%1LAMP=0"])),
        protocol(ProtocolError::UnexpectedClass)
    );
}

#[test]
fn text_queries_return_value_verbatim() {
    let device = device();
    assert_eq!(device.get_info(&[]), exchange("INFO ?"));
    assert_eq!(device.get_manufacturer(&[]), exchange("INF1 ?"));
    assert_eq!(device.get_product_name(&[]), exchange("INF2 ?"));
    assert_eq!(device.get_class(&[]), exchange("CLSS ?"));
    assert_eq!(device.get_device_name(&[]), exchange("NAME ?"));
    assert_eq!(
        device.get_info(&replies(&["%1INFO=Firmware 1.2 = beta"])),
        done("Firmware 1.2 = beta".to_string())
    );
    assert_eq!(device.get_manufacturer(&replies(&["%1INF1=ACME"])), done("ACME".to_string()));
    assert_eq!(device.get_product_name(&replies(&["%1INF2=PX 100"])), done("PX 100".to_string()));
    assert_eq!(device.get_class(&replies(&["%1CLSS=1"])), done("1".to_string()));
    assert_eq!(device.get_device_name(&replies(&["%1NAME=Room 4"])), done("Room 4".to_string()));
    assert_eq!(device.get_device_name(&replies(&["%1NAME="])), done(String::new()));
    assert_eq!(
        device.get_info(&replies(&["%1INF1=ACME"])),
        protocol(ProtocolError::UnexpectedClass)
    );
    assert_eq!(
        device.get_manufacturer(&replies(&["%1INF2=x"])),
        protocol(ProtocolError::UnexpectedClass)
    );
    assert_eq!(
        device.get_product_name(&replies(&["%1INFO=x"])),
        protocol(ProtocolError::UnexpectedClass)
    );
    assert_eq!(device.get_class(&replies(&["%1NAME=x"])), protocol(ProtocolError::UnexpectedClass));
    assert_eq!(
        device.get_device_name(&replies(&["%1CLSS=1"])),
        protocol(ProtocolError::UnexpectedClass)
    );
}

#[test]
fn input_query() {
    let device = device();
    assert_eq!(device.get_input(&[]), exchange("INPT ?"));
    assert_eq!(device.get_input(&replies(&["%1INPT=11"])), done(InputType::RGB(1)));
    assert_eq!(device.get_input(&replies(&["%1INPT=29"])), done(InputType::Video(9)));
    assert_eq!(device.get_input(&replies(&["%1INPT=32"])), done(InputType::Digital(2)));
    assert_eq!(device.get_input(&replies(&["%1INPT=45"])), done(InputType::Storage(5)));
    assert_eq!(device.get_input(&replies(&["%1INPT=51"])), done(InputType::Network(1)));
    assert_eq!(device.get_input(&replies(&["%1INPT=60"])), protocol(ProtocolError::InvalidValue));
    assert_eq!(device.get_input(&replies(&["%1INPT=abc"])), protocol(ProtocolError::InvalidValue));
    assert_eq!(device.get_input(&replies(&["%1INPT=300"])), protocol(ProtocolError::InvalidValue));
    assert_eq!(device.get_input(&replies(&["%1AVMT=31"])), protocol(ProtocolError::UnexpectedClass));
}

#[test]
fn set_input_to_digital_two() {
    let device = device();
    let input = InputType::Digital(2);
    assert_eq!(device.set_input(input, &[]), exchange("INPT 32"));
    assert_eq!(device.set_input(input, &replies(&["%1INPT=OK"])), exchange("INPT ?"));
    assert_eq!(device.set_input(input, &replies(&["%1INPT=OK", "%1INPT=32"])), done(input));
    assert_eq!(
        device.set_input(input, &replies(&["%1INPT=OK", "%1INPT=11"])),
        done(InputType::RGB(1))
    );
    assert_eq!(
        device.set_input(input, &replies(&["%1INPT=ERR2"])),
        device_error(DeviceError::InvalidParameter, "ERR2")
    );
    assert_eq!(
        device.set_input(input, &replies(&["%1INPT=32"])),
        protocol(ProtocolError::InvalidValue)
    );
}

#[test]
fn set_input_rejects_channel_out_of_range() {
    let device = device();
    assert_eq!(device.set_input(InputType::RGB(0), &[]), protocol(ProtocolError::InvalidValue));
    assert_eq!(device.set_input(InputType::Video(10), &[]), protocol(ProtocolError::InvalidValue));
    assert_eq!(
        device.set_input(InputType::Network(250), &replies(&["%1INPT=OK", "%1INPT=11"])),
        protocol(ProtocolError::InvalidValue)
    );
}

#[test]
fn avmute_query() {
    let device = device();
    assert_eq!(device.get_avmute(&[]), exchange("AVMT ?"));
    assert_eq!(
        device.get_avmute(&replies(&["%1AVMT=11"])),
        done(AvMute { audio: false, video: true })
    );
    assert_eq!(
        device.get_avmute(&replies(&["%1AVMT=21"])),
        done(AvMute { audio: true, video: false })
    );
    assert_eq!(
        device.get_avmute(&replies(&["%1AVMT=31"])),
        done(AvMute { audio: true, video: true })
    );
    assert_eq!(
        device.get_avmute(&replies(&["%1AVMT=30"])),
        done(AvMute { audio: false, video: false })
    );
    assert_eq!(device.get_avmute(&replies(&["%1AVMT=10"])), protocol(ProtocolError::InvalidValue));
    assert_eq!(device.get_avmute(&replies(&["%1AVMT=x"])), protocol(ProtocolError::InvalidValue));
    assert_eq!(
        device.get_avmute(&replies(&["%1INPT=31"])),
        protocol(ProtocolError::UnexpectedClass)
    );
}

#[test]
fn set_avmute_sends_table_code() {
    let device = device();
    let table = [(true, false, "AVMT 11"), (false, true, "AVMT 21"), (true, true, "AVMT 31"), (
        false,
        false,
        "AVMT 30",
    )];
    for (video, audio, command) in table {
        let mute = AvMute { audio, video };
        assert_eq!(device.set_avmute(mute, &[]), exchange(command));
        assert_eq!(device.set_avmute(mute, &replies(&["%1AVMT=OK"])), exchange("AVMT ?"));
        let code = &command[5..];
        let status = format!("%1AVMT={}", code);
        assert_eq!(device.set_avmute(mute, &replies(&["%1AVMT=OK", &status])), done(mute));
    }
    let both = AvMute { audio: true, video: true };
    assert_eq!(
        device.set_avmute(both, &replies(&["%1AVMT=NO"])),
        protocol(ProtocolError::InvalidValue)
    );
    assert_eq!(
        device.set_avmute(both, &replies(&["%1AVMT=OK", "%1AVMT=12"])),
        protocol(ProtocolError::InvalidValue)
    );
}

#[test]
fn lamp_query_with_two_lamps() {
    let device = device();
    assert_eq!(device.get_lamp(&[]), exchange("LAMP ?"));
    assert_eq!(
        device.get_lamp(&replies(&["%1LAMP=1234 1 05 0"])),
        done(vec![Lamp { hours: 1234, on: true }, Lamp { hours: 5, on: false }])
    );
    assert_eq!(device.get_lamp(&replies(&["%1LAMP="])), done(vec![]));
    assert_eq!(device.get_lamp(&replies(&["%1LAMP=77"])), done(vec![Lamp { hours: 77, on: false }]));
    assert_eq!(device.get_lamp(&replies(&["%1LAMP=x 1"])), protocol(ProtocolError::InvalidValue));
    assert_eq!(
        device.get_lamp(&replies(&["%1ERST=000000"])),
        protocol(ProtocolError::UnexpectedClass)
    );
}

#[test]
fn error_status_query() {
    let device = device();
    let clear = ErrorStatus {
        fan_error: ErrorType::NoError,
        lamp_error: ErrorType::NoError,
        temperature_error: ErrorType::NoError,
        cover_open_error: ErrorType::NoError,
        filter_error: ErrorType::NoError,
        other_error: ErrorType::NoError,
    };
    assert_eq!(device.get_error_status(&[]), exchange("ERST ?"));
    assert_eq!(device.get_error_status(&replies(&["%1ERST=000000"])), done(clear));
    assert_eq!(
        device.get_error_status(&replies(&["%1ERST=002000"])),
        done(ErrorStatus { temperature_error: ErrorType::Error, ..clear })
    );
    assert_eq!(
        device.get_error_status(&replies(&["%1ERST=100002"])),
        done(ErrorStatus { fan_error: ErrorType::Warning, other_error: ErrorType::Error, ..clear })
    );
    assert_eq!(device.get_error_status(&replies(&["%1ERST=??"])), done(clear));
    assert_eq!(device.get_error_status(&replies(&["%1ERST="])), done(clear));
    assert_eq!(
        device.get_error_status(&replies(&["%1LAMP=000000"])),
        protocol(ProtocolError::UnexpectedClass)
    );
}

#[test]
fn later_replies_are_not_read() {
    let device = device();
    assert_eq!(
        device.get_power_status(&replies(&["%1POWR=1", "garbage"])),
        done(PowerStatus::On)
    );
    assert_eq!(
        device.power_on(&replies(&["%1POWR=OK", "%1POWR=1", "garbage"])),
        done(PowerStatus::On)
    );
}
