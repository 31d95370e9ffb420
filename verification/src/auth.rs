//! The greeting of a connection and the challenge-response handshake that
//! frames a command for transmission.

use vstd::prelude::*;
use vstd::string::StringSliceAdditionalSpecFns;
use vstd::utf8::{encode_utf8, encode_utf8_decode_utf8};

use crate::error::{outcome, protocol_error, PjlinkError, PjlinkErrorView, ProtocolError};
use crate::text::{digit_char, digit_str};

verus! {

/// Authentication flag of a greeting that asks for no authentication.
pub const NOAUTH: u8 = 0x30;

/// Authentication flag of a greeting that asks for authentication.
pub const AUTH: u8 = 0x31;

/// Offset of the authentication flag in a greeting.
pub const FLAG_OFFSET: usize = 7;

/// Offset of the seed in a greeting that asks for authentication.
pub const SEED_OFFSET: usize = 9;

/// Length of the seed.
pub const SEED_LEN: usize = 8;

/// What a device announces when a connection opens.
#[derive(Clone, Copy, Debug, PartialEq, Eq)]
pub enum Greeting {
    /// Commands are accepted as they are.
    Open,
    /// Commands must carry the digest of this seed and the password.
    Challenge { seed: [u8; 8] },
}

impl View for Greeting {
    /// The seed of the challenge, if there is one.
    type V = Option<Seq<u8>>;

    open spec fn view(&self) -> Option<Seq<u8>> {
        match self {
            Greeting::Open => None,
            Greeting::Challenge { seed } => Some(seed@),
        }
    }
}

impl Greeting {
    /// Whether the device asks for authentication.
    pub fn auth_required(&self) -> (required: bool)
        ensures
            required == self@ is Some,
    {
        match self {
            Greeting::Open => false,
            Greeting::Challenge { .. } => true,
        }
    }
}

/// What the first bytes of a connection announce. The byte at offset 7 is
/// the authentication flag; where it asks for authentication, the eight
/// bytes from offset 9 on are the seed. Bytes that are too few for that, or
/// that hold another flag, are not a greeting.
pub open spec fn spec_parse_greeting(bytes: Seq<u8>) -> Result<Option<Seq<u8>>, PjlinkErrorView> {
    if bytes.len() <= FLAG_OFFSET {
        Err(protocol_error(ProtocolError::MalformedGreeting))
    } else if bytes[FLAG_OFFSET as int] == NOAUTH {
        Ok(None)
    } else if bytes[FLAG_OFFSET as int] == AUTH && bytes.len() >= SEED_OFFSET + SEED_LEN {
        Ok(Some(bytes.subrange(SEED_OFFSET as int, SEED_OFFSET + SEED_LEN)))
    } else {
        Err(protocol_error(ProtocolError::MalformedGreeting))
    }
}

/// Parses the bytes that the device sent when the connection opened. The
/// length is checked before any byte is read, so that a truncated greeting is
/// a protocol error.
pub fn parse_greeting(bytes: &[u8]) -> (r: Result<Greeting, PjlinkError>)
    ensures
        outcome(r) == spec_parse_greeting(bytes@),
{
    if bytes.len() <= FLAG_OFFSET {
        return Err(PjlinkError::Protocol(ProtocolError::MalformedGreeting));
    }
    let flag = bytes[FLAG_OFFSET];
    if flag == NOAUTH {
        Ok(Greeting::Open)
    } else if flag == AUTH && bytes.len() >= SEED_OFFSET + SEED_LEN {
        let seed: [u8; 8] = [
            bytes[9],
            bytes[10],
            bytes[11],
            bytes[12],
            bytes[13],
            bytes[14],
            bytes[15],
            bytes[16],
        ];
        assert(seed@ =~= bytes@.subrange(SEED_OFFSET as int, SEED_OFFSET + SEED_LEN));
        Ok(Greeting::Challenge { seed })
    } else {
        Err(PjlinkError::Protocol(ProtocolError::MalformedGreeting))
    }
}

/// The MD5 sum of `data`.
pub uninterp spec fn md5_sum(data: Seq<u8>) -> [u8; 16];

/// Calls `md5::compute` and takes the sixteen bytes out of the digest that it
/// returns. The contract gives that result a name and claims nothing else of
/// it: the sum is a function of the data alone.
#[verifier::external_body]
fn md5_compute(data: &[u8]) -> (sum: [u8; 16])
    ensures
        sum == md5_sum(data@),
{
    md5::compute(data).0
}

/// Lower-case hexadecimal rendering of `bytes`: two digits for each byte, the
/// high one first.
pub open spec fn spec_hex(bytes: Seq<u8>) -> Seq<char> {
    Seq::new(
        2 * bytes.len(),
        |i: int|
            if i % 2 == 0 {
                digit_char(bytes[i / 2] as int / 16)
            } else {
                digit_char(bytes[i / 2] as int % 16)
            },
    )
}

/// Renders `bytes` in lower-case hexadecimal.
pub fn to_hex(bytes: &[u8]) -> (text: String)
    ensures
        text@ == spec_hex(bytes@),
{
    let mut text = String::new();
    let mut i: usize = 0;
    while i < bytes.len()
        invariant
            i <= bytes.len(),
            text@ == spec_hex(bytes@.take(i as int)),
        decreases bytes.len() - i,
    {
        let byte = bytes[i];
        let ghost before = text@;
        text.append(digit_str(byte / 16));
        text.append(digit_str(byte % 16));
        proof {
            let shorter = bytes@.take(i as int);
            let longer = bytes@.take(i + 1);
            assert(text@ =~= before + seq![digit_char(byte as int / 16)] + seq![
                digit_char(byte as int % 16),
            ]);
            assert forall|k: int| 0 <= k < 2 * longer.len() implies text@[k] == spec_hex(
                longer,
            )[k] by {
                if k < 2 * i {
                    assert(text@[k] == spec_hex(shorter)[k]);
                    assert(shorter[k / 2] == longer[k / 2]);
                } else {
                    assert(longer[k / 2] == byte);
                }
            }
            assert(text@ =~= spec_hex(longer));
        }
        i += 1;
    }
    assert(bytes@.take(bytes.len() as int) =~= bytes@);
    text
}

/// Whether `c` is a lower-case hexadecimal digit.
pub open spec fn is_lower_hex(c: char) -> bool {
    ('0' <= c && c <= '9') || ('a' <= c && c <= 'f')
}

/// A rendering has two lower-case hexadecimal digits for each byte.
pub proof fn lemma_hex_shape(bytes: Seq<u8>)
    ensures
        spec_hex(bytes).len() == 2 * bytes.len(),
        forall|i: int| 0 <= i < spec_hex(bytes).len() ==> is_lower_hex(#[trigger] spec_hex(bytes)[i]),
{
}

/// Different bytes have different renderings.
pub proof fn lemma_hex_injective(a: Seq<u8>, b: Seq<u8>)
    requires
        spec_hex(a) == spec_hex(b),
    ensures
        a == b,
{
    assert(spec_hex(a).len() == 2 * a.len());
    assert(spec_hex(b).len() == 2 * b.len());
    assert(a.len() == b.len());
    assert forall|i: int| 0 <= i < a.len() implies a[i] == b[i] by {
        let high = spec_hex(a)[2 * i];
        let low = spec_hex(a)[2 * i + 1];
        assert(high == spec_hex(b)[2 * i]);
        assert(low == spec_hex(b)[2 * i + 1]);
        assert((2 * i) / 2 == i && (2 * i + 1) / 2 == i);
        assert(high == digit_char(a[i] as int / 16));
        assert(high == digit_char(b[i] as int / 16));
        assert(low == digit_char(a[i] as int % 16));
        assert(low == digit_char(b[i] as int % 16));
    }
    assert(a =~= b);
}

/// The bytes that are hashed to answer a challenge: the seed, then the
/// password in UTF-8.
pub open spec fn spec_digest_input(seed: Seq<u8>, password: Seq<char>) -> Seq<u8> {
    seed + encode_utf8(password)
}

/// The digest that answers a challenge: the MD5 sum of seed and password, in
/// lower-case hexadecimal.
pub open spec fn spec_digest(seed: Seq<u8>, password: Seq<char>) -> Seq<char> {
    spec_hex(md5_sum(spec_digest_input(seed, password))@)
}

/// Computes the digest that answers the challenge `seed` for `password`.
pub fn digest(seed: &[u8; 8], password: &str) -> (text: String)
    ensures
        text@ == spec_digest(seed@, password@),
{
    let secret = password.as_bytes();
    let mut data: Vec<u8> = Vec::new();
    let mut i: usize = 0;
    while i < 8
        invariant
            i <= 8,
            data@ == seed@.take(i as int),
        decreases 8 - i,
    {
        data.push(seed[i]);
        assert(data@ =~= seed@.take(i + 1));
        i += 1;
    }
    assert(seed@.take(8) =~= seed@);
    let mut j: usize = 0;
    while j < secret.len()
        invariant
            j <= secret.len(),
            data@ == seed@ + secret@.take(j as int),
        decreases secret.len() - j,
    {
        data.push(secret[j]);
        assert(data@ =~= seed@ + secret@.take(j + 1));
        j += 1;
    }
    assert(secret@.take(secret.len() as int) =~= secret@);
    let sum = md5_compute(data.as_slice());
    to_hex(sum.as_slice())
}

/// The same seed and password always have the same digest, and every digest
/// is thirty-two lower-case hexadecimal digits, whatever the length of the
/// password.
pub proof fn lemma_digest_deterministic(
    seed: Seq<u8>,
    password: Seq<char>,
    other_seed: Seq<u8>,
    other_password: Seq<char>,
)
    requires
        seed == other_seed,
        password == other_password,
    ensures
        spec_digest(seed, password) == spec_digest(other_seed, other_password),
        spec_digest(seed, password).len() == 32,
        forall|i: int|
            0 <= i < 32 ==> is_lower_hex(#[trigger] spec_digest(seed, password)[i]),
{
    lemma_hex_shape(md5_sum(spec_digest_input(seed, password))@);
}

/// A change of the seed or of the password changes the bytes that are
/// hashed, and two digests differ exactly where the MD5 sums of those bytes
/// differ.
pub proof fn lemma_digest_sensitive(
    seed: Seq<u8>,
    password: Seq<char>,
    other_seed: Seq<u8>,
    other_password: Seq<char>,
)
    requires
        seed.len() == other_seed.len(),
        seed != other_seed || password != other_password,
    ensures
        spec_digest_input(seed, password) != spec_digest_input(other_seed, other_password),
        spec_digest(seed, password) != spec_digest(other_seed, other_password) <==> md5_sum(
            spec_digest_input(seed, password),
        ) != md5_sum(spec_digest_input(other_seed, other_password)),
{
    let a = spec_digest_input(seed, password);
    let b = spec_digest_input(other_seed, other_password);
    if a == b {
        let n = seed.len() as int;
        assert(a.subrange(0, n) =~= seed);
        assert(b.subrange(0, n) =~= other_seed);
        assert(a.subrange(n, a.len() as int) =~= encode_utf8(password));
        assert(b.subrange(n, b.len() as int) =~= encode_utf8(other_password));
        encode_utf8_decode_utf8(password);
        encode_utf8_decode_utf8(other_password);
        assert(false);
    }
    if spec_digest(seed, password) == spec_digest(other_seed, other_password) {
        lemma_hex_injective(md5_sum(a)@, md5_sum(b)@);
        assert(md5_sum(a) == md5_sum(b));
    }
}

/// The line that carries a command: the authentication prefix, which is
/// empty or a digest, the marker `%1`, the command, and a carriage return.
pub open spec fn spec_command_line(prefix: Seq<char>, command: Seq<char>) -> Seq<char> {
    prefix + seq!['%', '1'] + command + seq!['\r']
}

/// Frames a command for transmission behind the given authentication
/// prefix.
pub fn command_line(prefix: &str, command: &str) -> (line: String)
    ensures
        line@ == spec_command_line(prefix@, command@),
{
    proof {
        reveal_strlit("%1");
        reveal_strlit("\r");
    }
    let mut line = String::new();
    line.append(prefix);
    line.append("%1");
    line.append(command);
    line.append("\r");
    assert(line@ =~= spec_command_line(prefix@, command@));
    line
}

/// The line to transmit for a command on a connection with the given
/// greeting. Without a challenge the command goes out bare. With a challenge
/// an empty password is an authentication error, and any other password
/// puts the digest of seed and password in front of the command.
pub open spec fn spec_negotiate(
    greeting: Option<Seq<u8>>,
    password: Seq<char>,
    command: Seq<char>,
) -> Result<Seq<char>, PjlinkErrorView> {
    match greeting {
        None => Ok(spec_command_line(Seq::empty(), command)),
        Some(seed) => if password.len() == 0 {
            Err(PjlinkErrorView::Auth)
        } else {
            Ok(spec_command_line(spec_digest(seed, password), command))
        },
    }
}

/// Decides how a command goes out on a connection and frames it. The seed
/// of a challenge is good for one command only: this runs once for each
/// connection.
pub fn negotiate(greeting: &Greeting, password: &str, command: &str) -> (r: Result<
    String,
    PjlinkError,
>)
    ensures
        outcome(r) == spec_negotiate(greeting@, password@, command@),
{
    match greeting {
        Greeting::Open => {
            proof {
                reveal_strlit("");
                assert(""@ =~= Seq::<char>::empty());
            }
            Ok(command_line("", command))
        },
        Greeting::Challenge { seed } => {
            if password.is_empty() {
                Err(PjlinkError::Auth)
            } else {
                let answer = digest(seed, password);
                Ok(command_line(answer.as_str(), command))
            }
        },
    }
}

} // verus!
