//! What is settled, before any device is touched, of a request to protect packages
//! with block-level integrity checks.
//!
//! The request is a flat list of texts, four for each package: the path of the
//! package, the path of its signature file, the name of the device to make, and the
//! root hash in hexadecimal, or `none` where the one of the signature file is to be
//! used.

use crate::text::str_eq;
use vstd::prelude::*;
use vstd::string::StringSliceAdditionalSpecFns;
use vstd::utf8::encode_utf8;

verus! {

/// The size of the blocks that are checked.
pub const BLOCK_SIZE: u64 = 4096;

/// What is asked for one package.
#[derive(Clone, Debug, PartialEq, Eq)]
pub struct VerityRequest {
    pub apk: String,
    pub idsig: String,
    pub name: String,
    pub roothash: Option<Vec<u8>>,
}

/// Why a request was turned down.
#[derive(Clone, Copy, Debug, PartialEq, Eq, Structural)]
pub enum VerityArgError {
    /// The texts do not come in fours.
    Incomplete,
    /// The root hash of the package with this number is no hexadecimal text.
    InvalidRootHash(usize),
}

/// The value of a hexadecimal digit, of either case.
pub open spec fn hex_digit_value(b: u8) -> Option<u8> {
    if 0x30 <= b <= 0x39 {
        Some((b - 0x30) as u8)
    } else if 0x41 <= b <= 0x46 {
        Some((b - 0x41 + 10) as u8)
    } else if 0x61 <= b <= 0x66 {
        Some((b - 0x61 + 10) as u8)
    } else {
        None
    }
}

/// Whether the bytes are hexadecimal digits, two for each byte that they stand for.
pub open spec fn is_hex(text: Seq<u8>) -> bool {
    text.len() % 2 == 0 && forall|i: int|
        0 <= i < text.len() ==> hex_digit_value(#[trigger] text[i]) is Some
}

/// The bytes that a hexadecimal text stands for: each pair of digits is one byte,
/// the first digit its upper half.
pub open spec fn hex_decoded(text: Seq<u8>) -> Seq<u8> {
    Seq::new(
        text.len() / 2,
        |i: int|
            (hex_digit_value(text[2 * i]).unwrap() * 16 + hex_digit_value(
                text[2 * i + 1],
            ).unwrap()) as u8,
    )
}

/// The root hash that a text asks for: none where it is `none`, otherwise the bytes
/// that it stands for, if it is hexadecimal.
pub open spec fn roothash_of(text: Seq<char>) -> Result<Option<Seq<u8>>, ()> {
    if text == "none"@ {
        Ok(None)
    } else if is_hex(encode_utf8(text)) {
        Ok(Some(hex_decoded(encode_utf8(text))))
    } else {
        Err(())
    }
}

/// Whether `request` is what the texts from `4 * k` on ask for.
pub open spec fn request_matches(request: VerityRequest, args: Seq<String>, k: int) -> bool {
    &&& request.apk@ == args[4 * k]@
    &&& request.idsig@ == args[4 * k + 1]@
    &&& request.name@ == args[4 * k + 2]@
    &&& roothash_of(args[4 * k + 3]@) matches Ok(hash) && hash == (match request.roothash {
        Some(bytes) => Some(bytes@),
        None => None,
    })
}

/// `hex::decode` of the `hex` crate turns hexadecimal text into bytes. It succeeds
/// exactly on an even number of hexadecimal digits of either case, each pair giving one
/// byte with the first digit as its upper half; anything else is refused.
#[verifier::external_body]
fn hex_decode(text: &str) -> (r: Option<Vec<u8>>)
    ensures
        match r {
            Some(bytes) => is_hex(text.spec_bytes()) && bytes@ == hex_decoded(text.spec_bytes()),
            None => !is_hex(text.spec_bytes()),
        },
{
    hex::decode(text).ok()
}

/// Reads the root hash that a text asks for.
pub fn parse_roothash(text: &str) -> (r: Result<Option<Vec<u8>>, ()>)
    ensures
        match r {
            Ok(Some(bytes)) => roothash_of(text@) == Ok::<Option<Seq<u8>>, ()>(Some(bytes@)),
            Ok(None) => roothash_of(text@) == Ok::<Option<Seq<u8>>, ()>(None),
            Err(_) => roothash_of(text@) is Err,
        },
{
    if str_eq(text, "none") {
        return Ok(None);
    }
    match hex_decode(text) {
        Some(bytes) => Ok(Some(bytes)),
        None => Err(()),
    }
}

/// Whether a package of this size can be protected as it is: its size has to be a
/// whole number of blocks.
pub fn is_block_aligned(size: u64) -> (r: bool)
    ensures
        r == (size % BLOCK_SIZE == 0),
{
    size % BLOCK_SIZE == 0
}

/// Reads a request: the texts in fours, in their order.
///
/// The request is turned down where the texts do not come in fours, and where a
/// root hash is neither `none` nor hexadecimal; of several such root hashes the first
/// one is named.
pub fn parse_verity_args(args: &Vec<String>) -> (r: Result<Vec<VerityRequest>, VerityArgError>)
    ensures
        match r {
            Ok(requests) => args@.len() % 4 == 0 && requests@.len() * 4 == args@.len() && forall|
                k: int,
            |
                0 <= k < requests@.len() ==> request_matches(#[trigger] requests@[k], args@, k),
            Err(VerityArgError::Incomplete) => args@.len() % 4 != 0,
            Err(VerityArgError::InvalidRootHash(k)) => args@.len() % 4 == 0 && 4 * k + 3
                < args@.len() && roothash_of(args@[4 * k + 3]@) is Err && forall|j: int|
                0 <= j < k ==> roothash_of(#[trigger] args@[4 * j + 3]@) is Ok,
        },
{
    if args.len() % 4 != 0 {
        return Err(VerityArgError::Incomplete);
    }
    let count: usize = args.len() / 4;
    let mut requests: Vec<VerityRequest> = Vec::new();
    let mut k: usize = 0;
    while k < count
        invariant
            k <= count,
            count * 4 == args@.len(),
            args@.len() <= usize::MAX,
            requests@.len() == k,
            forall|j: int| 0 <= j < k ==> request_matches(#[trigger] requests@[j], args@, j),
            forall|j: int| 0 <= j < k ==> roothash_of(#[trigger] args@[4 * j + 3]@) is Ok,
        decreases count - k,
    {
        let roothash = match parse_roothash(args[4 * k + 3].as_str()) {
            Ok(roothash) => roothash,
            Err(_) => {
                return Err(VerityArgError::InvalidRootHash(k));
            },
        };
        let request = VerityRequest {
            apk: args[4 * k].clone(),
            idsig: args[4 * k + 1].clone(),
            name: args[4 * k + 2].clone(),
            roothash,
        };
        assert(request_matches(request, args@, k as int));
        requests.push(request);
        k += 1;
    }
    Ok(requests)
}

} // verus!
