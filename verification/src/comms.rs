//! Message frames on a byte stream.
//!
//! A stream of bytes has no boundaries of its own. Every message therefore
//! travels as a frame: four bytes that give the payload's length, most
//! significant byte first, and then the payload. This module makes frames,
//! finds them again in what a stream delivers piece by piece, and names the
//! ways in which an exchange can fail. It does not touch a socket: the caller
//! reads and writes, and reports here what came of it.

use vstd::prelude::*;
use vstd::slice::{slice_subrange, slice_to_vec};

verus! {

/// Capacity of the receive buffer, in bytes. No frame longer than this can be received.
pub const BUFF_SIZE: usize = 4096;

/// Length of the prefix that carries a frame's payload length.
pub const PREFIX_SIZE: usize = 4;

/// The longest payload that is sent.
pub const MAX_PAYLOAD: usize = 4092;

/// What can go wrong in an exchange with a peer.
#[derive(Clone, Copy, PartialEq, Eq, Structural, Debug)]
pub enum CommError {
    /// The transfer failed, or what arrived could not be decoded.
    Unknown,
    /// The peer has closed the connection.
    Disconnected,
    /// The message cannot be put into a frame.
    InvalidData,
    /// The socket has nothing to read, or cannot take a write, at the moment.
    WouldBlock,
    /// Bytes have arrived, but no complete frame yet.
    WaitingForMoreData,
}

/// Why a client gave up.
#[derive(Debug)]
pub enum ClientError {
    ConnectionError,
    Unknown(String),
}

/// How a read from, or a write to, a non-blocking socket has failed.
#[derive(Clone, Copy, PartialEq, Eq, Structural, Debug)]
pub enum IoFailure {
    /// The call would have had to wait.
    WouldBlock,
    /// Anything else.
    Other,
}

/// The error that the failure `f` of a read or a write is reported as.
pub open spec fn failure_error(f: IoFailure) -> CommError {
    match f {
        IoFailure::WouldBlock => CommError::WouldBlock,
        IoFailure::Other => CommError::Unknown,
    }
}

/// The number that four bytes stand for, the most significant first.
pub open spec fn be_u32(b: Seq<u8>) -> int {
    b[0] * 0x100_0000 + b[1] * 0x1_0000 + b[2] * 0x100 + b[3]
}

/// The four bytes that stand for `n`, the most significant first.
pub open spec fn be_bytes(n: int) -> Seq<u8> {
    seq![
        (n / 0x100_0000) as u8,
        (n / 0x1_0000 % 0x100) as u8,
        (n / 0x100 % 0x100) as u8,
        (n % 0x100) as u8,
    ]
}

/// The frame that carries `payload`.
pub open spec fn frame(payload: Seq<u8>) -> Seq<u8> {
    be_bytes(payload.len() as int) + payload
}

/// What a scan of buffered bytes finds: the payloads of the complete frames,
/// in order, and the bytes after the last of them.
pub struct Scan {
    pub frames: Seq<Seq<u8>>,
    pub rest: Seq<u8>,
}

/// `buf` begins with a complete frame.
pub open spec fn starts_with_frame(buf: Seq<u8>) -> bool {
    buf.len() >= PREFIX_SIZE && be_u32(buf) + PREFIX_SIZE <= buf.len()
}

/// Reads `buf` frame by frame for as long as it begins with a complete one.
pub open spec fn scan(buf: Seq<u8>) -> Scan
    decreases buf.len(),
{
    if starts_with_frame(buf) {
        let end = be_u32(buf) + PREFIX_SIZE;
        let after = scan(buf.skip(end));
        Scan {
            frames: seq![buf.subrange(PREFIX_SIZE as int, end)] + after.frames,
            rest: after.rest,
        }
    } else {
        Scan { frames: Seq::empty(), rest: buf }
    }
}

/// The last element of `frames`, or `otherwise` if there is none.
pub open spec fn last_or(frames: Seq<Seq<u8>>, otherwise: Option<Seq<u8>>) -> Option<Seq<u8>> {
    if frames.len() == 0 {
        otherwise
    } else {
        Some(frames.last())
    }
}

/// The payload of the last complete frame in `buf`, if there is a complete frame.
pub open spec fn last_frame(buf: Seq<u8>) -> Option<Seq<u8>> {
    last_or(scan(buf).frames, None)
}

/// The bytes of `buf` that follow its last complete frame: the beginning of
/// a frame that has not arrived in full, or nothing.
pub open spec fn remainder(buf: Seq<u8>) -> Seq<u8> {
    scan(buf).rest
}

/// The bytes in `v`, if there are any.
pub open spec fn bytes_view(v: Option<Vec<u8>>) -> Option<Seq<u8>> {
    match v {
        Some(b) => Some(b@),
        None => None,
    }
}

/// What a receive buffer holding `buffered` makes of the arrival of
/// `incoming`: the bytes it holds afterwards, and what it hands out.
///
/// Nothing arriving means that the peer has closed. Else the bytes are
/// appended and scanned. Of the complete frames only the last is handed out;
/// the ones before it are dropped. What follows the last complete frame stays
/// buffered. Without a complete frame the buffer waits for more.
pub open spec fn received(buffered: Seq<u8>, incoming: Seq<u8>) -> (
    Seq<u8>,
    Result<Seq<u8>, CommError>,
) {
    if incoming.len() == 0 {
        (buffered, Err(CommError::Disconnected))
    } else {
        let all = buffered + incoming;
        match last_frame(all) {
            Some(payload) => (remainder(all), Ok(payload)),
            None => (remainder(all), Err(CommError::WaitingForMoreData)),
        }
    }
}

/// What a receive buffer holding `buffered` makes of what a read came to:
/// bytes are taken in, a failure is reported and leaves the buffer as it is.
pub open spec fn received_read(buffered: Seq<u8>, read: Result<Vec<u8>, IoFailure>) -> (
    Seq<u8>,
    Result<Seq<u8>, CommError>,
) {
    match read {
        Ok(bytes) => received(buffered, bytes@),
        Err(f) => (buffered, Err(failure_error(f))),
    }
}

/// The payload in `r`, as a value.
pub open spec fn payload_view(r: Result<Vec<u8>, CommError>) -> Result<Seq<u8>, CommError> {
    match r {
        Ok(v) => Ok(v@),
        Err(e) => Err(e),
    }
}

/// Four bytes stand for the number they were made from.
pub proof fn lemma_be_round_trip(n: int)
    requires
        0 <= n <= u32::MAX,
    ensures
        be_bytes(n).len() == PREFIX_SIZE,
        be_u32(be_bytes(n)) == n,
{
}

/// A frame is its prefix and its payload, and the prefix gives the payload's length.
pub proof fn lemma_frame_shape(payload: Seq<u8>)
    requires
        payload.len() <= u32::MAX,
    ensures
        frame(payload).len() == PREFIX_SIZE + payload.len(),
        be_u32(frame(payload)) == payload.len(),
        frame(payload).subrange(PREFIX_SIZE as int, frame(payload).len() as int) == payload,
{
    lemma_be_round_trip(payload.len() as int);
}

/// A scan of a frame followed by more bytes finds that frame first, and
/// then what a scan of the bytes after it finds.
pub proof fn lemma_scan_frame_then(payload: Seq<u8>, more: Seq<u8>)
    requires
        payload.len() <= u32::MAX,
    ensures
        scan(frame(payload) + more).frames == seq![payload] + scan(more).frames,
        scan(frame(payload) + more).rest == scan(more).rest,
{
    lemma_frame_shape(payload);
    let buf = frame(payload) + more;
    let end = be_u32(buf) + PREFIX_SIZE;
    assert(buf.skip(end) =~= more);
    assert(buf.subrange(PREFIX_SIZE as int, end) =~= payload);
}

/// A scan of a frame of which the end is missing finds no frame and keeps
/// every byte.
pub proof fn lemma_scan_partial_frame(payload: Seq<u8>, k: int)
    requires
        payload.len() <= u32::MAX,
        0 <= k < frame(payload).len(),
    ensures
        scan(frame(payload).take(k)).frames.len() == 0,
        scan(frame(payload).take(k)).rest == frame(payload).take(k),
{
    lemma_frame_shape(payload);
}

/// A scan of nothing finds nothing.
pub proof fn lemma_scan_empty()
    ensures
        scan(Seq::<u8>::empty()).frames.len() == 0,
        scan(Seq::<u8>::empty()).rest == Seq::<u8>::empty(),
{
}

/// Round trip of the framing: the payload found in a frame is the payload
/// the frame was made of, and nothing is left over.
pub proof fn lemma_frame_round_trip(payload: Seq<u8>)
    requires
        payload.len() <= u32::MAX,
    ensures
        last_frame(frame(payload)) == Some(payload),
        remainder(frame(payload)) == Seq::<u8>::empty(),
{
    lemma_scan_frame_then(payload, Seq::empty());
    lemma_scan_empty();
}

/// A frame that arrives in two parts, cut at any place, is received whole:
/// after the first part the buffer waits for more and hands out nothing,
/// after the second it hands out the payload and is empty again.
pub proof fn lemma_partial_read(payload: Seq<u8>, k: int)
    requires
        payload.len() <= u32::MAX,
        0 < k < frame(payload).len(),
    ensures
        ({
            let first = received(Seq::empty(), frame(payload).take(k));
            let second = received(first.0, frame(payload).skip(k));
            &&& first.1 == Err::<Seq<u8>, CommError>(CommError::WaitingForMoreData)
            &&& first.0 == frame(payload).take(k)
            &&& second.1 == Ok::<Seq<u8>, CommError>(payload)
            &&& second.0 == Seq::<u8>::empty()
        }),
{
    let f = frame(payload);
    lemma_scan_partial_frame(payload, k);
    assert(f.take(k) + f.skip(k) =~= f);
    lemma_frame_round_trip(payload);
}

/// Of two frames that arrive in one read only the second is handed out; the
/// first is dropped without a trace. A message that must not be lost has to
/// be the only one in flight.
pub proof fn lemma_last_frame_wins(first: Seq<u8>, second: Seq<u8>)
    requires
        first.len() <= u32::MAX,
        second.len() <= u32::MAX,
    ensures
        received(Seq::empty(), frame(first) + frame(second)) == (
            Seq::<u8>::empty(),
            Ok::<Seq<u8>, CommError>(second),
        ),
{
    lemma_scan_frame_then(first, frame(second));
    lemma_scan_frame_then(second, Seq::empty());
    lemma_scan_empty();
}

/// The frame that carries `payload`, or `InvalidData` if the payload is
/// longer than [`MAX_PAYLOAD`].
pub fn encode_frame(payload: &[u8]) -> (r: Result<Vec<u8>, CommError>)
    ensures
        payload@.len() <= MAX_PAYLOAD ==> payload_view(r) == Ok::<Seq<u8>, CommError>(
            frame(payload@),
        ),
        payload@.len() > MAX_PAYLOAD ==> r == Err::<Vec<u8>, CommError>(CommError::InvalidData),
{
    let len = payload.len();
    if len > MAX_PAYLOAD {
        return Err(CommError::InvalidData);
    }
    let mut out: Vec<u8> = Vec::new();
    out.push((len / 0x100_0000) as u8);
    out.push((len / 0x1_0000 % 0x100) as u8);
    out.push((len / 0x100 % 0x100) as u8);
    out.push((len % 0x100) as u8);
    let mut i: usize = 0;
    while i < len
        invariant
            i <= len,
            len == payload@.len(),
            out@ == be_bytes(len as int) + payload@.take(i as int),
        decreases len - i,
    {
        out.push(payload[i]);
        i += 1;
    }
    assert(payload@.take(len as int) =~= payload@);
    Ok(out)
}

/// Finds the last complete frame in `buff` and what follows it.
///
/// The first part of the result is the payload of the last complete frame,
/// or nothing if `buff` holds no complete frame. The second is the
/// beginning of a frame that follows, or nothing if `buff` ends with a frame.
pub fn get_last_message(buff: &[u8]) -> (r: (Option<Vec<u8>>, Option<Vec<u8>>))
    ensures
        bytes_view(r.0) == last_frame(buff@),
        r.1 matches Some(rest) ==> rest@ == remainder(buff@) && rest@.len() > 0,
        r.1 is None ==> remainder(buff@).len() == 0,
{
    let mut ret: Option<Vec<u8>> = None;
    let total = buff.len();
    let mut buffer_pointer: usize = 0;
    assert(buff@.skip(0) =~= buff@);
    while total - buffer_pointer >= PREFIX_SIZE
        invariant
            buffer_pointer <= total,
            total == buff@.len(),
            last_frame(buff@) == last_or(
                scan(buff@.skip(buffer_pointer as int)).frames,
                bytes_view(ret),
            ),
            remainder(buff@) == scan(buff@.skip(buffer_pointer as int)).rest,
        ensures
            !starts_with_frame(buff@.skip(buffer_pointer as int)),
        decreases total - buffer_pointer,
    {
        let ghost here = buff@.skip(buffer_pointer as int);
        let frame_len: usize = (buff[buffer_pointer] as usize) * 0x100_0000 + (buff[buffer_pointer
            + 1] as usize) * 0x1_0000 + (buff[buffer_pointer + 2] as usize) * 0x100
            + buff[buffer_pointer + 3] as usize;
        if frame_len > total - buffer_pointer - PREFIX_SIZE {
            break ;
        }
        let start = buffer_pointer + PREFIX_SIZE;
        let payload = slice_to_vec(slice_subrange(buff, start, start + frame_len));
        proof {
            let end = frame_len + PREFIX_SIZE;
            assert(here.skip(end) =~= buff@.skip(start + frame_len));
            assert(here.subrange(PREFIX_SIZE as int, end) =~= payload@);
        }
        ret = Some(payload);
        buffer_pointer = start + frame_len;
    }
    if buffer_pointer < total {
        let rest = slice_to_vec(slice_subrange(buff, buffer_pointer, total));
        (ret, Some(rest))
    } else {
        (ret, None)
    }
}

/// What a read from the stream amounts to: the bytes it delivered, or why
/// there are none. A read that went through and delivered nothing means that
/// the peer has closed the connection.
pub fn read_into_buff(read: Result<Vec<u8>, IoFailure>) -> (r: Result<Vec<u8>, CommError>)
    ensures
        r == (match read {
            Ok(bytes) => if bytes@.len() > 0 {
                Ok::<Vec<u8>, CommError>(bytes)
            } else {
                Err::<Vec<u8>, CommError>(CommError::Disconnected)
            },
            Err(f) => Err::<Vec<u8>, CommError>(failure_error(f)),
        }),
{
    match read {
        Ok(bytes) => {
            if bytes.len() > 0 {
                Ok(bytes)
            } else {
                Err(CommError::Disconnected)
            }
        },
        Err(IoFailure::WouldBlock) => Err(CommError::WouldBlock),
        Err(IoFailure::Other) => Err(CommError::Unknown),
    }
}

/// What the write of a whole frame amounts to, given whether it went
/// through or how it failed.
pub fn write_result(written: Result<(), IoFailure>) -> (r: Result<(), CommError>)
    ensures
        r == (match written {
            Ok(_) => Ok::<(), CommError>(()),
            Err(f) => Err::<(), CommError>(failure_error(f)),
        }),
{
    match written {
        Ok(_) => Ok(()),
        Err(IoFailure::WouldBlock) => Err(CommError::WouldBlock),
        Err(IoFailure::Other) => Err(CommError::Unknown),
    }
}

/// The receiving end of one connection: the bytes that have arrived and do
/// not make up a complete frame yet.
#[derive(Debug)]
pub struct Comms {
    recv_buffer: Vec<u8>,
}

impl View for Comms {
    type V = Seq<u8>;

    /// The buffered bytes.
    closed spec fn view(&self) -> Seq<u8> {
        self.recv_buffer@
    }
}

impl Comms {
    /// The buffer never holds more than [`BUFF_SIZE`] bytes.
    pub open spec fn wf(&self) -> bool {
        self@.len() <= BUFF_SIZE
    }

    /// An empty buffer.
    pub fn new() -> (c: Self)
        ensures
            c@ == Seq::<u8>::empty(),
            c.wf(),
    {
        Self { recv_buffer: Vec::new() }
    }

    /// How many bytes are buffered.
    pub fn recv_buffer_pointer(&self) -> (n: usize)
        ensures
            n == self@.len(),
    {
        self.recv_buffer.len()
    }

    /// How many more bytes the buffer can take. A read must not ask for more.
    pub fn free_space(&self) -> (n: usize)
        requires
            self.wf(),
        ensures
            n == BUFF_SIZE - self@.len(),
    {
        BUFF_SIZE - self.recv_buffer.len()
    }

    /// Takes in what a read came to and hands out the payload of the last
    /// frame that is complete now.
    ///
    /// Fails with `WouldBlock` and `Unknown` as the read did, with
    /// `Disconnected` if the read delivered nothing, and with
    /// `WaitingForMoreData` if no frame is complete yet. Complete frames
    /// before the last one are dropped.
    pub fn receive_message_raw(
        &mut self,
        read: Result<Vec<u8>, IoFailure>,
    ) -> (r: Result<Vec<u8>, CommError>)
        requires
            old(self).wf(),
            read matches Ok(bytes) ==> old(self)@.len() + bytes@.len() <= BUFF_SIZE,
        ensures
            (final(self)@, payload_view(r)) == received_read(old(self)@, read),
            final(self).wf(),
    {
        let mut incoming = match read_into_buff(read) {
            Ok(bytes) => bytes,
            Err(e) => {
                return Err(e);
            },
        };
        let ghost all = self@ + incoming@;
        self.recv_buffer.append(&mut incoming);
        let (last_msg, rest) = get_last_message(self.recv_buffer.as_slice());
        proof {
            lemma_remainder_is_suffix(all);
        }
        match rest {
            Some(rest) => {
                self.recv_buffer = rest;
            },
            None => {
                self.recv_buffer = Vec::new();
            },
        }
        match last_msg {
            Some(payload) => Ok(payload),
            None => Err(CommError::WaitingForMoreData),
        }
    }
}

/// What a scan leaves over is never longer than what it was given.
pub proof fn lemma_remainder_is_suffix(buf: Seq<u8>)
    ensures
        remainder(buf).len() <= buf.len(),
    decreases buf.len(),
{
    if starts_with_frame(buf) {
        lemma_remainder_is_suffix(buf.skip(be_u32(buf) + PREFIX_SIZE));
    }
}

} // verus!
