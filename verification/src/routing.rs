//! Session handles for the project-agent path.
//!
//! A message in a project room is forwarded to the session service under a
//! *session handle* that keys the conversation. The handle is derived from the room
//! id rather than being the raw room id: `!` and `:` are awkward in a URL path
//! segment, and the room id should not leak into the session namespace. The
//! derivation must be stable across restarts and compiler versions, so it uses the
//! fixed FNV-1a algorithm rather than the standard library's hasher.

use vstd::prelude::*;
use vstd::string::StringSliceAdditionalSpecFns;
use vstd::utf8::encode_utf8;
use crate::text::{hex_digits, hex_digits_exec, push_range, push_str};

verus! {

/// The FNV-1a 64-bit offset basis.
pub const FNV_OFFSET_BASIS: u64 = 0xcbf2_9ce4_8422_2325;

/// The FNV-1a 64-bit prime.
pub const FNV_PRIME: u64 = 0x0000_0100_0000_01b3;

/// One FNV-1a round: xor in the byte, then multiply by the prime modulo 2^64.
pub open spec fn fnv_round(h: u64, b: u8) -> u64 {
    (((h ^ (b as u64)) as nat * FNV_PRIME as nat) % 0x1_0000_0000_0000_0000) as u64
}

/// 64-bit FNV-1a of the byte string `bytes`.
pub open spec fn fnv1a(bytes: Seq<u8>) -> u64
    decreases bytes.len(),
{
    if bytes.len() == 0 {
        FNV_OFFSET_BASIS
    } else {
        fnv_round(fnv1a(bytes.drop_last()), bytes.last())
    }
}

/// 64-bit FNV-1a over the UTF-8 bytes of `input`.
pub fn fnv1a_64(input: &str) -> (h: u64)
    ensures
        h == fnv1a(encode_utf8(input@)),
{
    let bytes = input.as_bytes();
    let mut hash = FNV_OFFSET_BASIS;
    let mut i: usize = 0;
    assert(bytes@.take(0) =~= Seq::<u8>::empty());
    while i < bytes.len()
        invariant
            i <= bytes@.len(),
            bytes@ == input.spec_bytes(),
            hash == fnv1a(bytes@.take(i as int)),
        decreases bytes.len() - i,
    {
        assert(bytes@.take(i + 1).drop_last() =~= bytes@.take(i as int));
        hash = (hash ^ (bytes[i] as u64)).wrapping_mul(FNV_PRIME);
        i = i + 1;
    }
    assert(bytes@.take(bytes@.len() as int) =~= bytes@);
    hash
}

/// The session handle of a project room: `project-` then the FNV-1a hash of the
/// room id as 16 lowercase hexadecimal digits.
pub open spec fn session_handle(room_id: Seq<char>) -> Seq<char> {
    "project-"@ + hex_digits(fnv1a(encode_utf8(room_id)) as nat, 16)
}

/// The stable session handle of the project room `room_id`.
///
/// Deterministic in `room_id`, and made only of `[a-z0-9-]`, so it can go into a
/// URL path as it is.
pub fn project_session_id(room_id: &str) -> (r: String)
    ensures
        r@ == session_handle(room_id@),
{
    let mut out = String::new();
    push_str(&mut out, "project-");
    let digits = hex_digits_exec(fnv1a_64(room_id), 16);
    push_range(&mut out, &digits, 0, digits.len());
    assert(digits@.subrange(0, digits@.len() as int) =~= digits@);
    out
}

/// A character that goes into a URL path segment as it is and is not upper
/// case: `[a-z0-9-]`.
pub open spec fn url_safe_lower(c: char) -> bool {
    ('a' <= c && c <= 'z') || ('0' <= c && c <= '9') || c == '-'
}

proof fn lemma_hex_digits_shape(x: nat, n: nat)
    ensures
        hex_digits(x, n).len() == n,
        forall|i: int| 0 <= i < n ==> url_safe_lower(#[trigger] hex_digits(x, n)[i]),
    decreases n,
{
    if n > 0 {
        lemma_hex_digits_shape(x / 16, (n - 1) as nat);
        let d = x % 16;
        assert(url_safe_lower(crate::text::digit_char(d))) by {
            let t = seq!['0', '1', '2', '3', '4', '5', '6', '7', '8', '9', 'a', 'b', 'c', 'd', 'e', 'f'];
            assert(0 <= d < 16);
            assert(forall|k: int| 0 <= k < 16 ==> url_safe_lower(#[trigger] t[k]));
        }
        assert forall|i: int| 0 <= i < n implies url_safe_lower(#[trigger] hex_digits(x, n)[i]) by {
            if i < n - 1 {
                assert(hex_digits(x, n)[i] == hex_digits(x / 16, (n - 1) as nat)[i]);
            }
        }
    }
}

/// The session handle of every room is `project-` followed by sixteen
/// characters, 24 in all, and each of its characters is in `[a-z0-9-]`: it goes
/// into a URL path as it is, whatever the room id holds.
pub proof fn law_session_handle_url_safe(room_id: Seq<char>)
    ensures
        session_handle(room_id).len() == 24,
        session_handle(room_id).take(8) == "project-"@,
        forall|i: int| 0 <= i < 24 ==> url_safe_lower(#[trigger] session_handle(room_id)[i]),
{
    reveal_strlit("project-");
    let h = fnv1a(encode_utf8(room_id)) as nat;
    lemma_hex_digits_shape(h, 16);
    let s = session_handle(room_id);
    assert(s.take(8) =~= "project-"@);
    assert forall|i: int| 0 <= i < 24 implies url_safe_lower(#[trigger] s[i]) by {
        if i < 8 {
            assert(s[i] == "project-"@[i]);
        } else {
            assert(s[i] == hex_digits(h, 16)[i - 8]);
        }
    }
}

} // verus!
