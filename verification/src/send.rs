//! The message sender: pre-checks, per-endpoint event sequences, fan-out
//! chunking and the first-success-wins race.
//!
//! The sends themselves run outside the library, one per endpoint of a
//! chunk, in parallel; their outcomes come back here in completion order and
//! the functions below decide what the whole fan-out returns.

use vstd::prelude::*;

use crate::errors::ClientError;
use crate::errors::ErrorKind;

verus! {

/// A message ABI description, carried as its JSON serialization.
#[derive(Debug, Clone)]
pub enum Abi {
    /// The ABI as a JSON document.
    Json(String),
}

/// Parameters of a send operation.
#[derive(Debug, Clone)]
pub struct ParamsOfSendMessage {
    /// Message BOC, serialized.
    pub message: String,
    /// Optional message ABI; when present and the message carries an
    /// `expire` header, expiration is checked before sending so that an
    /// already expired message is never submitted.
    pub abi: Option<Abi>,
    /// Whether processing events are reported to the caller's sink.
    pub send_events: bool,
}

impl Default for ParamsOfSendMessage {
    /// An empty message with no ABI and event reporting off.
    fn default() -> (r: ParamsOfSendMessage)
        ensures
            r.message@.len() == 0,
            r.abi is None,
            !r.send_events,
    {
        ParamsOfSendMessage { message: String::new(), abi: None, send_events: false }
    }
}

/// The result of a send operation.
#[derive(Debug, PartialEq)]
pub struct ResultOfSendMessage {
    /// The last generated shard block of the destination account before the
    /// message was sent; the reference used afterwards to poll for
    /// transaction inclusion.
    pub shard_block_id: String,
}

/// A message checked and ready to be fanned out.
#[derive(Debug)]
pub struct SendingMessage {
    /// The serialized message, as handed in.
    pub serialized: String,
    /// The message id, a hexadecimal digest string.
    pub id: String,
    /// The id decoded to bytes, as the wire protocol wants it.
    pub id_bytes: Vec<u8>,
    /// The destination address.
    pub dst: String,
}

/// The events surfaced to the caller while a send proceeds.
#[derive(Debug)]
pub enum ProcessingEvent {
    /// The sender is about to look up the destination's current shard block.
    WillFetchFirstBlock,
    /// The shard block lookup failed; the send through this endpoint fails,
    /// the fan-out race continues.
    FetchFirstBlockFailed { error: ClientError },
    /// The message is about to be posted.
    WillSend { shard_block_id: String, message_id: String, message: String },
    /// The message reached the network.
    DidSend { shard_block_id: String, message_id: String, message: String },
    /// The post failed; the endpoint is recorded as undelivered.
    SendFailed { shard_block_id: String, message_id: String, message: String, error: ClientError },
}

/// Whether `c` is a hexadecimal digit.
pub open spec fn spec_is_hex_digit(c: char) -> bool {
    ('0' <= c && c <= '9') || ('a' <= c && c <= 'f') || ('A' <= c && c <= 'F')
}

/// The numeric value of a hexadecimal digit.
pub open spec fn spec_hex_val(c: char) -> int {
    if '0' <= c && c <= '9' {
        c as int - '0' as int
    } else if 'a' <= c && c <= 'f' {
        c as int - 'a' as int + 10
    } else {
        c as int - 'A' as int + 10
    }
}

/// The bytes a hexadecimal string denotes, one byte per character pair,
/// high nibble first.
pub open spec fn spec_hex_bytes(s: Seq<char>) -> Seq<u8>
    decreases s.len(),
{
    if s.len() < 2 {
        Seq::empty()
    } else {
        seq![(spec_hex_val(s[0]) * 16 + spec_hex_val(s[1])) as u8] + spec_hex_bytes(s.skip(2))
    }
}

/// Whether the whole string is well-formed hexadecimal: even length, every
/// character a hex digit.
pub open spec fn spec_hex_ok(s: Seq<char>) -> bool {
    s.len() % 2 == 0 && forall|i: int| 0 <= i < s.len() ==> spec_is_hex_digit(s[i])
}

/// Relies on hex::decode: it accepts exactly the strings of even length
/// whose characters are hexadecimal digits (either case), and turns each
/// character pair into one byte, high nibble first.
#[verifier::external_body]
fn hex_decode(s: &str) -> (r: Option<Vec<u8>>)
    ensures
        r is Some <==> spec_hex_ok(s@),
        r matches Option::Some(v) ==> v@ == spec_hex_bytes(s@),
{
    hex::decode(s).ok()
}

/// Checks a message before any network work: it must carry a destination
/// address, it must not be expired already, and its id must be a
/// well-formed hexadecimal digest. Exactly those three checks can fail,
/// in that order.
pub fn prepare_message(
    serialized: String,
    id: String,
    dst: Option<String>,
    expiration: Option<u64>,
    now: u64,
) -> (r: Result<SendingMessage, ClientError>)
    ensures
        r is Ok <==> (dst is Some && (expiration matches Option::Some(t) ==> t > now)
            && spec_hex_ok(id@)),
        r matches Result::Ok(m) ==> {
            &&& m.serialized@ == serialized@
            &&& m.id@ == id@
            &&& m.id_bytes@ == spec_hex_bytes(id@)
            &&& m.dst@ == dst->Some_0@
        },
        dst is None ==> (r matches Result::Err(e) && e.kind == ErrorKind::MessageHasNoDestination),
        (dst is Some && (expiration matches Option::Some(t) && t <= now)) ==> (r matches
            Result::Err(e) && e.kind == ErrorKind::MessageAlreadyExpired),
        (dst is Some && (expiration matches Option::Some(t) ==> t > now) && !spec_hex_ok(id@))
            ==> (r matches Result::Err(e) && e.kind == ErrorKind::InvalidData),
{
    let dst = match dst {
        None => {
            return Err(
                ClientError::new(
                    ErrorKind::MessageHasNoDestination,
                    String::from_str("the message has no destination address"),
                ),
            );
        },
        Some(d) => d,
    };
    if let Some(t) = expiration {
        if t <= now {
            return Err(
                ClientError::new(
                    ErrorKind::MessageAlreadyExpired,
                    String::from_str("the message is already expired"),
                ),
            );
        }
    }
    let id_bytes = match hex_decode(id.as_str()) {
        None => {
            return Err(
                ClientError::new(
                    ErrorKind::InvalidData,
                    String::from_str("the message id is not a hexadecimal digest"),
                ),
            );
        },
        Some(b) => b,
    };
    Ok(SendingMessage { serialized, id, id_bytes, dst })
}

/// The event sequence and the race outcome of one per-endpoint send, decided
/// from what the two network steps returned: the shard block lookup for the
/// destination, then the post of the message to the same endpoint.
///
/// A failed lookup fails this endpoint with `FetchFirstBlockFailed`. A
/// failed post is reported as `SendFailed` and fails the endpoint for the
/// race, so a logical rejection is never swallowed; the caller records the
/// endpoint as undelivered.
pub fn send_to_endpoint(
    msg: &SendingMessage,
    fetch_block: Result<String, ClientError>,
    post_error: Option<ClientError>,
    want_events: bool,
) -> (r: (Vec<ProcessingEvent>, Result<ResultOfSendMessage, ClientError>))
    ensures
        fetch_block matches Result::Err(e) ==> {
            &&& r.1 matches Result::Err(f) && f.kind == ErrorKind::FetchFirstBlockFailed
                && f.message@ == e.message@
            &&& want_events ==> r.0@.len() == 1 && (r.0@[0] matches
                ProcessingEvent::FetchFirstBlockFailed { error } && error.kind == e.kind
                && error.message@ == e.message@)
        },
        fetch_block matches Result::Ok(b) ==> post_error is None ==> {
            &&& r.1 matches Result::Ok(res) && res.shard_block_id@ == b@
            &&& want_events ==> r.0@.len() == 2 && (r.0@[0] matches ProcessingEvent::WillSend {
                shard_block_id,
                message_id,
                message,
            } && shard_block_id@ == b@ && message_id@ == msg.id@ && message@ == msg.serialized@)
                && (r.0@[1] matches ProcessingEvent::DidSend { shard_block_id, message_id, message }
                && shard_block_id@ == b@ && message_id@ == msg.id@ && message@ == msg.serialized@)
        },
        fetch_block matches Result::Ok(b) ==> post_error matches Option::Some(pe) ==> {
            &&& r.1 matches Result::Err(f) && f.kind == pe.kind && f.message@ == pe.message@
            &&& want_events ==> r.0@.len() == 2 && (r.0@[0] matches ProcessingEvent::WillSend {
                shard_block_id,
                message_id,
                message,
            } && shard_block_id@ == b@ && message_id@ == msg.id@ && message@ == msg.serialized@)
                && (r.0@[1] matches ProcessingEvent::SendFailed {
                shard_block_id,
                message_id,
                message,
                error,
            } && shard_block_id@ == b@ && message_id@ == msg.id@ && message@ == msg.serialized@
                && error.kind == pe.kind && error.message@ == pe.message@)
        },
        !want_events ==> r.0@.len() == 0,
{
    let mut events: Vec<ProcessingEvent> = Vec::new();
    let block_id = match fetch_block {
        Err(e) => {
            if want_events {
                events.push(
                    ProcessingEvent::FetchFirstBlockFailed {
                        error: ClientError::new(e.kind, e.message.clone()),
                    },
                );
            }
            return (
                events,
                Err(ClientError::new(ErrorKind::FetchFirstBlockFailed, e.message)),
            );
        },
        Ok(b) => b,
    };
    if want_events {
        events.push(
            ProcessingEvent::WillSend {
                shard_block_id: block_id.clone(),
                message_id: msg.id.clone(),
                message: msg.serialized.clone(),
            },
        );
    }
    match post_error {
        None => {
            if want_events {
                events.push(
                    ProcessingEvent::DidSend {
                        shard_block_id: block_id.clone(),
                        message_id: msg.id.clone(),
                        message: msg.serialized.clone(),
                    },
                );
            }
            (events, Ok(ResultOfSendMessage { shard_block_id: block_id }))
        },
        Some(pe) => {
            if want_events {
                events.push(
                    ProcessingEvent::SendFailed {
                        shard_block_id: block_id.clone(),
                        message_id: msg.id.clone(),
                        message: msg.serialized.clone(),
                        error: ClientError::new(pe.kind, pe.message.clone()),
                    },
                );
            }
            (events, Err(ClientError::new(pe.kind, pe.message)))
        },
    }
}

/// The events owed to the caller's sink before the fan-out begins: exactly
/// one `WillFetchFirstBlock` when event reporting is on, none otherwise.
pub fn pre_send_events(send_events: bool) -> (evs: Vec<ProcessingEvent>)
    ensures
        send_events ==> evs@.len() == 1 && evs@[0] is WillFetchFirstBlock,
        !send_events ==> evs@.len() == 0,
{
    let mut evs: Vec<ProcessingEvent> = Vec::new();
    if send_events {
        evs.push(ProcessingEvent::WillFetchFirstBlock);
    }
    evs
}

/// Splits the shuffled address list into consecutive fan-out chunks: every
/// chunk holds at most `width` addresses, every chunk but the last holds
/// exactly `width`, and together, in order, they cover the whole list.
pub fn plan_chunks(addresses: &Vec<String>, width: usize) -> (chunks: Vec<Vec<String>>)
    requires
        width >= 1,
    ensures
        forall|c: int| 0 <= c < chunks@.len() ==> 0 < (#[trigger] chunks@[c])@.len() <= width,
        forall|c: int| 0 <= c < chunks@.len() - 1 ==> (#[trigger] chunks@[c])@.len() == width,
        chunks@.len() == 0 <==> addresses@.len() == 0,
        chunks@.len() > 0 ==> (chunks@.len() - 1) * width + chunks@.last()@.len()
            == addresses@.len(),
        forall|c: int, j: int|
            0 <= c < chunks@.len() && 0 <= j < chunks@[c]@.len() ==> chunks@[c]@[j]@ == addresses@[c
                * width + j]@,
{
    let n = addresses.len();
    let mut chunks: Vec<Vec<String>> = Vec::new();
    let mut consumed: usize = 0;
    proof {
        assert(chunks@.len() * width == 0) by (nonlinear_arith)
            requires
                chunks@.len() == 0,
        ;
    }
    while consumed < n
        invariant
            width >= 1,
            consumed <= n == addresses@.len(),
            consumed == chunks@.len() * width,
            forall|c: int| 0 <= c < chunks@.len() ==> (#[trigger] chunks@[c])@.len() == width,
            forall|c: int, j: int|
                0 <= c < chunks@.len() && 0 <= j < chunks@[c]@.len() ==> chunks@[c]@[j]@
                    == addresses@[c * width + j]@,
        decreases n - consumed,
    {
        let remaining = n - consumed;
        let take = if remaining < width {
            remaining
        } else {
            width
        };
        let mut chunk: Vec<String> = Vec::new();
        let mut j: usize = 0;
        while j < take
            invariant
                j <= take,
                consumed + take <= n == addresses@.len(),
                chunk@.len() == j,
                forall|q: int| 0 <= q < j ==> chunk@[q]@ == addresses@[consumed + q]@,
            decreases take - j,
        {
            chunk.push(addresses[consumed + j].clone());
            j += 1;
        }
        let ghost old_chunks = chunks@;
        let ghost old_consumed = consumed as int;
        chunks.push(chunk);
        proof {
            assert(old_consumed == old_chunks.len() * width);
            assert((old_chunks.len() + 1) * width == old_chunks.len() * width + width)
                by (nonlinear_arith);
            assert forall|c: int, j2: int|
                0 <= c < chunks@.len() && 0 <= j2 < chunks@[c]@.len() implies chunks@[c]@[j2]@
                == addresses@[c * width + j2]@ by {
                if c < old_chunks.len() {
                    assert(chunks@[c] == old_chunks[c]);
                } else {
                    assert(c == old_chunks.len());
                    assert(c * width == old_consumed) by (nonlinear_arith)
                        requires
                            old_consumed == old_chunks.len() * width,
                            c == old_chunks.len(),
                    ;
                }
            }
        }
        if take == width {
            consumed += take;
        } else {
            // the last, partial chunk ends the loop
            consumed += take;
            assert(consumed == n);
            proof {
                assert((chunks@.len() - 1) * width + chunks@.last()@.len() == addresses@.len())
                    by (nonlinear_arith)
                    requires
                        old_consumed == (chunks@.len() - 1) * width,
                        chunks@.last()@.len() == take,
                        old_consumed + take == addresses@.len(),
                ;
            }
            return chunks;
        }
    }
    proof {
        if chunks@.len() > 0 {
            assert((chunks@.len() - 1) * width + chunks@.last()@.len() == addresses@.len())
                by (nonlinear_arith)
                requires
                    consumed == chunks@.len() * width,
                    chunks@.last()@.len() == width,
                    consumed == addresses@.len(),
                    chunks@.len() > 0,
            ;
        }
    }
    chunks
}

/// Whether some send in the chunk succeeded.
pub open spec fn spec_chunk_has_ok(c: Seq<Result<String, ClientError>>) -> bool {
    exists|k: int| 0 <= k < c.len() && c[k] is Ok
}

/// What a correct fan-out race returns, given every chunk's send outcomes in
/// completion order: the first success of the first chunk that has one wins
/// and everything later is cancelled; when every send of every chunk fails,
/// the race reports the error its last chunk ended with; with no endpoints
/// at all it fails with `BlockNotFound`.
pub open spec fn spec_fanout_ok(
    chunks: Seq<Seq<Result<String, ClientError>>>,
    r: Result<ResultOfSendMessage, ClientError>,
) -> bool {
    if exists|c: int| 0 <= c < chunks.len() && spec_chunk_has_ok(chunks[c]) {
        exists|c: int, k: int|
            {
                &&& 0 <= c < chunks.len()
                &&& 0 <= k < chunks[c].len()
                &&& chunks[c][k] is Ok
                &&& forall|c2: int| 0 <= c2 < c ==> !spec_chunk_has_ok(chunks[c2])
                &&& forall|k2: int| 0 <= k2 < k ==> !(chunks[c][k2] is Ok)
                &&& r matches Result::Ok(res) && res.shard_block_id@ == chunks[c][k]->Ok_0@
            }
    } else if chunks.len() > 0 && chunks.last().len() > 0 {
        r matches Result::Err(e) && e.kind == chunks.last().last()->Err_0.kind && e.message@
            == chunks.last().last()->Err_0.message@
    } else {
        r matches Result::Err(e) && e.kind == ErrorKind::BlockNotFound && e.message@
            == "no endpoints"@
    }
}

/// Runs the fan-out race over the chunks' send outcomes, each chunk's in
/// completion order, and decides the result of the whole send.
pub fn send_message_race(chunks: &Vec<Vec<Result<String, ClientError>>>) -> (r: Result<
    ResultOfSendMessage,
    ClientError,
>)
    requires
        forall|c: int| 0 <= c < chunks@.len() ==> chunks@[c]@.len() > 0,
    ensures
        spec_fanout_ok(chunks@.map_values(|v: Vec<Result<String, ClientError>>| v@), r),
{
    let ghost gchunks = chunks@.map_values(|v: Vec<Result<String, ClientError>>| v@);
    let n = chunks.len();
    let mut c: usize = 0;
    while c < n
        invariant
            c <= n == chunks@.len(),
            gchunks == chunks@.map_values(|v: Vec<Result<String, ClientError>>| v@),
            gchunks.len() == n,
            forall|i: int| 0 <= i < n ==> gchunks[i] == chunks@[i]@,
            forall|c2: int| 0 <= c2 < c ==> !spec_chunk_has_ok(gchunks[c2]),
        decreases n - c,
    {
        let chunk = &chunks[c];
        let m = chunk.len();
        let mut k: usize = 0;
        while k < m
            invariant
                c < n == chunks@.len(),
                k <= m == chunk@.len(),
                chunk@ == chunks@[c as int]@,
                gchunks == chunks@.map_values(|v: Vec<Result<String, ClientError>>| v@),
                gchunks.len() == n,
                forall|i: int| 0 <= i < n ==> gchunks[i] == chunks@[i]@,
                forall|c2: int| 0 <= c2 < c ==> !spec_chunk_has_ok(gchunks[c2]),
                forall|k2: int| 0 <= k2 < k ==> !(chunk@[k2] is Ok),
            decreases m - k,
        {
            match &chunk[k] {
                Ok(block_id) => {
                    let res = ResultOfSendMessage { shard_block_id: block_id.clone() };
                    proof {
                        assert(gchunks[c as int][k as int] is Ok);
                        assert(spec_chunk_has_ok(gchunks[c as int]));
                    }
                    return Ok(res);
                },
                Err(_) => {},
            }
            k += 1;
        }
        c += 1;
    }
    if n == 0 {
        return Err(ClientError::new(ErrorKind::BlockNotFound, String::from_str("no endpoints")));
    }
    let last_chunk = &chunks[n - 1];
    let m = last_chunk.len();
    match &last_chunk[m - 1] {
        Err(e) => {
            proof {
                assert(gchunks.last() == chunks@[n - 1]@);
                assert(!spec_chunk_has_ok(gchunks[n - 1]));
                assert(!(gchunks.last().last() is Ok));
            }
            Err(ClientError::new(e.kind, e.message.clone()))
        },
        Ok(_) => {
            // the loop above would have returned this success already
            proof {
                assert(spec_chunk_has_ok(gchunks[n - 1])) by {
                    assert(gchunks[n - 1][m - 1] is Ok);
                }
            }
            vstd::pervasive::unreached()
        },
    }
}

} // verus!
