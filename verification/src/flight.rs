//! The partition streaming service: its ticket codec and the decision it
//! takes on a fetch request. The framed transport around it is unverified
//! plumbing; every ticket it hands in is decoded here.

use vstd::prelude::*;
use vstd::string::StringExecFns;
use vstd::string::StringSliceAdditionalSpecFns;
use vstd::utf8::{
    decode_utf8, encode_utf8, encode_utf8_decode_utf8, encode_utf8_valid_utf8, valid_utf8,
};
use crate::encoding::utf8_to_string;
use crate::error::DataFusionError;

verus! {

/// A request carried by a ticket: fetch one previously materialized
/// partition file.
#[derive(Debug, Clone)]
pub enum BallistaAction {
    /// Stream the partition file at `path`.
    FetchPartition { path: String },
}

/// The tag byte of the fetch-partition action.
pub open spec fn spec_fetch_partition_tag() -> u8 {
    1u8
}

/// The eight little-endian bytes of a length.
pub open spec fn spec_u64_le(n: u64) -> Seq<u8> {
    seq![
        (n & 0xff) as u8,
        ((n >> 8) & 0xff) as u8,
        ((n >> 16) & 0xff) as u8,
        ((n >> 24) & 0xff) as u8,
        ((n >> 32) & 0xff) as u8,
        ((n >> 40) & 0xff) as u8,
        ((n >> 48) & 0xff) as u8,
        ((n >> 56) & 0xff) as u8,
    ]
}

/// The length read back from eight little-endian bytes.
pub open spec fn spec_u64_from_le(b: Seq<u8>) -> u64 {
    ((b[0] as u64) | ((b[1] as u64) << 8) | ((b[2] as u64) << 16) | ((b[3] as u64) << 24) | ((
    b[4] as u64) << 32) | ((b[5] as u64) << 40) | ((b[6] as u64) << 48) | ((b[7] as u64) << 56))
}

/// Writing a length and reading it back yields the length.
pub proof fn lemma_u64_le_round_trip(n: u64)
    ensures
        spec_u64_from_le(spec_u64_le(n)) == n,
{
    assert(((n & 0xff) as u8 as u64) | ((((n >> 8) & 0xff) as u8 as u64) << 8) | ((((n >> 16)
        & 0xff) as u8 as u64) << 16) | ((((n >> 24) & 0xff) as u8 as u64) << 24) | ((((n >> 32)
        & 0xff) as u8 as u64) << 32) | ((((n >> 40) & 0xff) as u8 as u64) << 40) | ((((n >> 48)
        & 0xff) as u8 as u64) << 48) | ((((n >> 56) & 0xff) as u8 as u64) << 56) == n)
        by (bit_vector);
}

/// The ticket bytes of a fetch-partition action: one tag byte, the
/// little-endian byte length of the path, then the path in UTF-8.
pub open spec fn spec_encode_action(path: Seq<char>) -> Seq<u8> {
    seq![spec_fetch_partition_tag()] + spec_u64_le(encode_utf8(path).len() as u64) + encode_utf8(
        path,
    )
}

/// What a ticket decodes to: the path of a well-formed fetch-partition
/// ticket, nothing otherwise.
pub open spec fn spec_decode_action(b: Seq<u8>) -> Option<Seq<char>> {
    if b.len() >= 9 && b[0] == spec_fetch_partition_tag() && spec_u64_from_le(b.subrange(1, 9))
        == b.len() - 9 && valid_utf8(b.skip(9)) {
        Some(decode_utf8(b.skip(9)))
    } else {
        None
    }
}

/// Encode an action into its ticket bytes.
pub fn encode_action(action: &BallistaAction) -> (r: Vec<u8>)
    ensures
        action matches BallistaAction::FetchPartition { path } ==> r@ == spec_encode_action(path@),
{
    match action {
        BallistaAction::FetchPartition { path } => {
            let bytes = path.as_str().as_bytes();
            let n = bytes.len() as u64;
            let mut out: Vec<u8> = Vec::new();
            out.push(1u8);
            out.push((n & 0xff) as u8);
            out.push(((n >> 8) & 0xff) as u8);
            out.push(((n >> 16) & 0xff) as u8);
            out.push(((n >> 24) & 0xff) as u8);
            out.push(((n >> 32) & 0xff) as u8);
            out.push(((n >> 40) & 0xff) as u8);
            out.push(((n >> 48) & 0xff) as u8);
            out.push(((n >> 56) & 0xff) as u8);
            proof {
                assert(out@ =~= seq![spec_fetch_partition_tag()] + spec_u64_le(n));
            }
            let ghost header = out@;
            let mut i: usize = 0;
            while i < bytes.len()
                invariant
                    i <= bytes@.len(),
                    out@ == header + bytes@.take(i as int),
                decreases bytes@.len() - i,
            {
                out.push(bytes[i]);
                proof {
                    assert(out@ =~= header + bytes@.take(i + 1int));
                }
                i = i + 1;
            }
            proof {
                assert(bytes@.take(bytes@.len() as int) =~= bytes@);
                assert(bytes@ == encode_utf8(path@));
                assert(out@ =~= spec_encode_action(path@));
            }
            out
        },
    }
}

/// Decode a ticket. Fails exactly on a malformed ticket: too short, an
/// unknown tag, a length that disagrees with the payload, or a path that is
/// not UTF-8.
pub fn decode_action(ticket: &[u8]) -> (r: Result<BallistaAction, DataFusionError>)
    ensures
        match r {
            Ok(a) => spec_decode_action(ticket@) is Some && (a matches
                BallistaAction::FetchPartition { path } && path@ == spec_decode_action(
                ticket@,
            )->Some_0),
            Err(e) => e is Decode && spec_decode_action(ticket@) is None,
        },
{
    if ticket.len() < 9 {
        return Err(DataFusionError::Decode("ticket is too short".to_owned()));
    }
    if ticket[0] != 1u8 {
        return Err(DataFusionError::Decode("unknown action tag in ticket".to_owned()));
    }
    let n: u64 = (ticket[1] as u64) | ((ticket[2] as u64) << 8) | ((ticket[3] as u64) << 16) | ((
    ticket[4] as u64) << 24) | ((ticket[5] as u64) << 32) | ((ticket[6] as u64) << 40) | ((
    ticket[7] as u64) << 48) | ((ticket[8] as u64) << 56);
    proof {
        assert(ticket@.subrange(1, 9)[0] == ticket@[1]);
        assert(ticket@.subrange(1, 9)[1] == ticket@[2]);
        assert(ticket@.subrange(1, 9)[2] == ticket@[3]);
        assert(ticket@.subrange(1, 9)[3] == ticket@[4]);
        assert(ticket@.subrange(1, 9)[4] == ticket@[5]);
        assert(ticket@.subrange(1, 9)[5] == ticket@[6]);
        assert(ticket@.subrange(1, 9)[6] == ticket@[7]);
        assert(ticket@.subrange(1, 9)[7] == ticket@[8]);
        assert(n == spec_u64_from_le(ticket@.subrange(1, 9)));
    }
    if n != (ticket.len() - 9) as u64 {
        return Err(
            DataFusionError::Decode("ticket length disagrees with its payload".to_owned()),
        );
    }
    let mut body: Vec<u8> = Vec::new();
    let mut i: usize = 9;
    while i < ticket.len()
        invariant
            9 <= i <= ticket@.len(),
            body@ == ticket@.subrange(9, i as int),
        decreases ticket@.len() - i,
    {
        body.push(ticket[i]);
        proof {
            assert(body@ =~= ticket@.subrange(9, i + 1int));
        }
        i = i + 1;
    }
    proof {
        assert(body@ =~= ticket@.skip(9));
    }
    match utf8_to_string(body.as_slice()) {
        Some(path) => Ok(BallistaAction::FetchPartition { path }),
        None => Err(DataFusionError::Decode("ticket path is not valid UTF-8".to_owned())),
    }
}

/// Decoding an encoded fetch-partition ticket yields the original path: the
/// ticket wire format round-trips.
pub proof fn lemma_ticket_round_trip(path: Seq<char>)
    requires
        encode_utf8(path).len() <= usize::MAX,
    ensures
        spec_decode_action(spec_encode_action(path)) == Some(path),
{
    let bytes = encode_utf8(path);
    let n = bytes.len() as u64;
    let t = spec_encode_action(path);
    assert(t.len() == 9 + bytes.len());
    assert(t.subrange(1, 9) =~= spec_u64_le(n));
    lemma_u64_le_round_trip(n);
    assert(t.skip(9) =~= bytes);
    encode_utf8_valid_utf8(path);
    encode_utf8_decode_utf8(path);
}

/// The service answering fetch-partition requests: it owns the decision of
/// what a ticket means; the byte transport and the file reads live with the
/// caller.
#[derive(Debug, Clone)]
pub struct BallistaFlightService {
}

impl BallistaFlightService {
    /// A fresh service.
    pub fn new() -> BallistaFlightService {
        BallistaFlightService {  }
    }

    /// The decision on a fetch request: the path to stream, or an internal
    /// error exactly when the ticket is malformed.
    pub fn fetch_partition_path(&self, ticket: &[u8]) -> (r: Result<String, DataFusionError>)
        ensures
            match r {
                Ok(p) => spec_decode_action(ticket@) == Some(p@),
                Err(e) => e is Internal && spec_decode_action(ticket@) is None,
            },
    {
        match decode_action(ticket) {
            Ok(action) => match action {
                BallistaAction::FetchPartition { path } => Ok(path),
            },
            Err(e) => {
                let mut msg = String::new();
                msg.append("Ballista Error: ");
                msg.append(e.message().as_str());
                Err(DataFusionError::Internal(msg))
            },
        }
    }
}

} // verus!
