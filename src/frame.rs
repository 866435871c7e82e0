//! Command-tagged frames exchanged between the gateway and the Auth process.
//!
//! On the wire a frame is a four-byte big-endian length, then one command
//! byte and the serialized payload; the length counts the command byte and
//! the payload. The length alone tells the reader where the frame ends, so a
//! payload may hold any byte.
use vstd::prelude::*;

verus! {

/// The longest payload a frame can carry: the length field counts the
/// command byte too.
pub const MAX_PAYLOAD: usize = 0xFFFF_FFFE;

/// The kind of request a frame carries.
#[derive(PartialEq, Eq, Structural, Clone, Copy, Debug)]
pub enum AuthQueryType {
    Login,
    SignUp,
    Logout,
    Validate,
    Unknown,
}

/// Why a frame could not be built or read.
#[derive(PartialEq, Eq, Structural, Clone, Copy, Debug)]
pub enum FrameError {
    /// Nothing was read.
    Empty,
    /// Fewer bytes came than the length field announces.
    Truncated,
    /// The command byte names none of the four requests.
    UnknownCommand,
    /// The payload is longer than the length field can count.
    TooLarge,
}

/// A decoded frame: a known command and its payload bytes.
#[derive(Debug)]
pub struct Frame {
    pub command: AuthQueryType,
    pub payload: Vec<u8>,
}

/// The command byte of each known request kind.
pub open spec fn command_code(q: AuthQueryType) -> Option<u8> {
    match q {
        AuthQueryType::SignUp => Some(1u8),
        AuthQueryType::Login => Some(2u8),
        AuthQueryType::Logout => Some(3u8),
        AuthQueryType::Validate => Some(4u8),
        AuthQueryType::Unknown => None,
    }
}

/// The request kind that a command byte names.
pub open spec fn query_of(b: u8) -> AuthQueryType {
    if b == 1 {
        AuthQueryType::SignUp
    } else if b == 2 {
        AuthQueryType::Login
    } else if b == 3 {
        AuthQueryType::Logout
    } else if b == 4 {
        AuthQueryType::Validate
    } else {
        AuthQueryType::Unknown
    }
}

/// The big-endian number in the first four bytes of `b`.
pub open spec fn be32(b: Seq<u8>) -> u32 {
    ((b[0] as u32) << 24u32) | ((b[1] as u32) << 16u32) | ((b[2] as u32) << 8u32) | (b[3] as u32)
}

/// The four big-endian bytes of `n`.
pub open spec fn be32_bytes(n: u32) -> Seq<u8> {
    seq![
        ((n >> 24u32) & 0xffu32) as u8,
        ((n >> 16u32) & 0xffu32) as u8,
        ((n >> 8u32) & 0xffu32) as u8,
        (n & 0xffu32) as u8,
    ]
}

/// The bytes of a frame with command byte `cmd`.
pub open spec fn frame_bytes(cmd: u8, payload: Seq<u8>) -> Seq<u8> {
    be32_bytes((payload.len() + 1) as u32) + seq![cmd] + payload
}

/// What reading a frame from the bytes `b` yields; bytes after the frame
/// are left unread.
pub open spec fn decode_spec(b: Seq<u8>) -> Result<(AuthQueryType, Seq<u8>), FrameError> {
    if b.len() == 0 {
        Err(FrameError::Empty)
    } else if b.len() < 4 {
        Err(FrameError::Truncated)
    } else if be32(b) == 0 {
        Err(FrameError::Empty)
    } else if b.len() < 4 + be32(b) {
        Err(FrameError::Truncated)
    } else if query_of(b[4]) == AuthQueryType::Unknown {
        Err(FrameError::UnknownCommand)
    } else {
        Ok((query_of(b[4]), b.subrange(5, 4 + be32(b))))
    }
}

impl AuthQueryType {
    /// The request kind named by a command byte; `Unknown` for any byte but
    /// the four command codes.
    pub fn from_byte(b: u8) -> (r: AuthQueryType)
        ensures
            r == query_of(b),
    {
        match b {
            1 => AuthQueryType::SignUp,
            2 => AuthQueryType::Login,
            3 => AuthQueryType::Logout,
            4 => AuthQueryType::Validate,
            _ => AuthQueryType::Unknown,
        }
    }

    /// The command byte of a known request kind.
    pub fn code(&self) -> (r: Option<u8>)
        ensures
            r == command_code(*self),
    {
        match self {
            AuthQueryType::SignUp => Some(1),
            AuthQueryType::Login => Some(2),
            AuthQueryType::Logout => Some(3),
            AuthQueryType::Validate => Some(4),
            AuthQueryType::Unknown => None,
        }
    }
}

proof fn lemma_be32_round_trip(n: u32)
    ensures
        be32(be32_bytes(n)) == n,
{
    let b = be32_bytes(n);
    let b0 = ((n >> 24u32) & 0xffu32) as u8;
    let b1 = ((n >> 16u32) & 0xffu32) as u8;
    let b2 = ((n >> 8u32) & 0xffu32) as u8;
    let b3 = (n & 0xffu32) as u8;
    assert(b[0] == b0 && b[1] == b1 && b[2] == b2 && b[3] == b3);
    assert((((b0 as u32) << 24u32) | ((b1 as u32) << 16u32) | ((b2 as u32) << 8u32) | (b3 as u32))
        == n) by (bit_vector)
        requires
            b0 == ((n >> 24u32) & 0xffu32) as u8,
            b1 == ((n >> 16u32) & 0xffu32) as u8,
            b2 == ((n >> 8u32) & 0xffu32) as u8,
            b3 == (n & 0xffu32) as u8,
    ;
}

/// Builds the frame `be32(1 + payload length) ++ [command] ++ payload`.
pub fn encode_frame(command: AuthQueryType, payload: &Vec<u8>) -> (r: Result<Vec<u8>, FrameError>)
    ensures
        command == AuthQueryType::Unknown ==> r == Err::<Vec<u8>, FrameError>(
            FrameError::UnknownCommand,
        ),
        command != AuthQueryType::Unknown && payload@.len() > MAX_PAYLOAD ==> r == Err::<
            Vec<u8>,
            FrameError,
        >(FrameError::TooLarge),
        command != AuthQueryType::Unknown && payload@.len() <= MAX_PAYLOAD ==> r is Ok
            && r->Ok_0@ == frame_bytes(command_code(command)->Some_0, payload@),
{
    let code = match command.code() {
        Some(c) => c,
        None => return Err(FrameError::UnknownCommand),
    };
    if payload.len() > MAX_PAYLOAD {
        return Err(FrameError::TooLarge);
    }
    let n: u32 = (payload.len() + 1) as u32;
    let mut out: Vec<u8> = Vec::new();
    out.push(((n >> 24u32) & 0xffu32) as u8);
    out.push(((n >> 16u32) & 0xffu32) as u8);
    out.push(((n >> 8u32) & 0xffu32) as u8);
    out.push((n & 0xffu32) as u8);
    out.push(code);
    assert(out@ == be32_bytes(n) + seq![code]);
    let mut i: usize = 0;
    while i < payload.len()
        invariant
            i <= payload@.len(),
            out@ == be32_bytes(n) + seq![code] + payload@.take(i as int),
        decreases payload@.len() - i,
    {
        out.push(payload[i]);
        i = i + 1;
        assert(payload@.take(i as int) == payload@.take(i - 1) + seq![payload@[i - 1]]);
    }
    assert(payload@.take(i as int) == payload@);
    Ok(out)
}

/// The number of bytes that follow the length field of a frame, read from
/// its first four bytes; `None` while fewer than four have come.
pub fn announced_len(head: &Vec<u8>) -> (r: Option<u32>)
    ensures
        head@.len() < 4 ==> r is None,
        head@.len() >= 4 ==> r == Some(be32(head@)),
{
    if head.len() < 4 {
        return None;
    }
    Some(((head[0] as u32) << 24u32) | ((head[1] as u32) << 16u32) | ((head[2] as u32) << 8u32) | (
    head[3] as u32))
}

/// Reads one frame from the bytes received. Bytes after the frame are not
/// read.
pub fn decode_frame(bytes: &Vec<u8>) -> (r: Result<Frame, FrameError>)
    ensures
        match r {
            Ok(f) => decode_spec(bytes@) == Ok::<(AuthQueryType, Seq<u8>), FrameError>(
                (f.command, f.payload@),
            ),
            Err(e) => decode_spec(bytes@) == Err::<(AuthQueryType, Seq<u8>), FrameError>(e),
        },
{
    let len: usize = bytes.len();
    if len == 0 {
        return Err(FrameError::Empty);
    }
    if len < 4 {
        return Err(FrameError::Truncated);
    }
    let n: u32 = ((bytes[0] as u32) << 24u32) | ((bytes[1] as u32) << 16u32) | ((bytes[2] as u32)
        << 8u32) | (bytes[3] as u32);
    assert(n == be32(bytes@));
    if n == 0 {
        return Err(FrameError::Empty);
    }
    if (len as u64) < 4 + (n as u64) {
        return Err(FrameError::Truncated);
    }
    let command = AuthQueryType::from_byte(bytes[4]);
    if command == AuthQueryType::Unknown {
        return Err(FrameError::UnknownCommand);
    }
    let end: usize = 4 + n as usize;
    let mut payload: Vec<u8> = Vec::new();
    let mut i: usize = 5;
    while i < end
        invariant
            5 <= i <= end,
            end <= bytes@.len(),
            payload@ == bytes@.subrange(5, i as int),
        decreases end - i,
    {
        payload.push(bytes[i]);
        i = i + 1;
        assert(payload@ == bytes@.subrange(5, i as int));
    }
    Ok(Frame { command, payload })
}

/// Reading back a frame recovers its command and payload, for each of the
/// four commands and every payload the length field can count, whatever
/// bytes follow the frame on the channel.
pub proof fn lemma_frame_round_trip(q: AuthQueryType, payload: Seq<u8>, rest: Seq<u8>)
    requires
        q != AuthQueryType::Unknown,
        payload.len() <= MAX_PAYLOAD,
    ensures
        decode_spec(frame_bytes(command_code(q)->Some_0, payload) + rest) == Ok::<
            (AuthQueryType, Seq<u8>),
            FrameError,
        >((q, payload)),
{
    let cmd = command_code(q)->Some_0;
    let n = (payload.len() + 1) as u32;
    let b = frame_bytes(cmd, payload) + rest;
    lemma_be32_round_trip(n);
    assert(b.subrange(0, 4) == be32_bytes(n));
    assert(be32(b) == be32(be32_bytes(n)));
    assert(b[4] == cmd);
    assert(b.subrange(5, 4 + n) == payload);
}

/// A frame whose command byte is none of the four codes is refused by the
/// reader, so it is never handed to a request handler.
pub proof fn lemma_unknown_command_refused(cmd: u8, payload: Seq<u8>, rest: Seq<u8>)
    requires
        query_of(cmd) == AuthQueryType::Unknown,
        payload.len() <= MAX_PAYLOAD,
    ensures
        decode_spec(frame_bytes(cmd, payload) + rest) == Err::<(AuthQueryType, Seq<u8>), FrameError>(
            FrameError::UnknownCommand,
        ),
{
    let n = (payload.len() + 1) as u32;
    let b = frame_bytes(cmd, payload) + rest;
    lemma_be32_round_trip(n);
    assert(b.subrange(0, 4) == be32_bytes(n));
    assert(be32(b) == be32(be32_bytes(n)));
    assert(b[4] == cmd);
}

} // verus!
