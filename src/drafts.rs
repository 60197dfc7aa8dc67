//! Names derived from ids: draft file names for scene text recovery, and
//! stable widget keys.

use vstd::prelude::*;
use vstd::string::StringSliceAdditionalSpecFns;
use crate::text::join;

verus! {

/// A character kept as it is in a file name; anything else becomes `_`.
pub open spec fn file_safe(c: char) -> char {
    if ('a' <= c && c <= 'z') || ('A' <= c && c <= 'Z') || ('0' <= c && c <= '9') || c == '-' || c == '_' {
        c
    } else {
        '_'
    }
}

/// An id made safe for use as a file name.
pub open spec fn sanitized(s: Seq<char>) -> Seq<char> {
    s.map_values(|c: char| file_safe(c))
}

/// Relies on `String`'s `FromIterator<char>`: the string of the characters
/// in order.
#[verifier::external_body]
fn chars_to_string(v: Vec<char>) -> (r: String)
    ensures
        r@ == v@,
{
    v.into_iter().collect()
}

/// Replaces every character of `scene_id` other than ASCII letters,
/// digits, `-` and `_` by `_`.
pub fn sanitize_scene_id(scene_id: &str) -> (r: String)
    ensures
        r@ == sanitized(scene_id@),
{
    let n = scene_id.unicode_len();
    let mut out: Vec<char> = Vec::new();
    let mut i: usize = 0;
    while i < n
        invariant
            n == scene_id@.len(),
            i <= n,
            out@ == sanitized(scene_id@.take(i as int)),
        decreases n - i,
    {
        let c = scene_id.get_char(i);
        let keep = ('a' <= c && c <= 'z') || ('A' <= c && c <= 'Z') || ('0' <= c && c <= '9') || c == '-' || c == '_';
        out.push(if keep { c } else { '_' });
        assert(out@ =~= sanitized(scene_id@.take(i + 1)));
        i = i + 1;
    }
    assert(scene_id@.take(n as int) =~= scene_id@);
    chars_to_string(out)
}

/// The file name of the draft of scene `scene_id`.
pub fn draft_file_name(scene_id: &str) -> (r: String)
    ensures
        r@ == sanitized(scene_id@) + ".draft.txt"@,
{
    let s = sanitize_scene_id(scene_id);
    join(s.as_str(), ".draft.txt")
}

/// FNV-1a 64-bit constants.
pub const FNV_OFFSET: u64 = 14695981039346656037;
pub const FNV_PRIME: u64 = 1099511628211;

/// One FNV-1a step: mix in `b`, then multiply (wrapping).
pub open spec fn fnv_step(h: u64, b: u64) -> u64 {
    (((h ^ b) as nat * FNV_PRIME as nat) % 0x1_0000_0000_0000_0000nat) as u64
}

/// FNV-1a over `bytes`, from state `h`.
pub open spec fn fnv_fold(h: u64, bytes: Seq<u8>) -> u64
    decreases bytes.len(),
{
    if bytes.len() == 0 {
        h
    } else {
        fnv_step(fnv_fold(h, bytes.drop_last()), bytes.last() as u64)
    }
}

fn fnv_bytes(tag: u64, id: &str) -> (r: u64)
    ensures
        r == fnv_fold(FNV_OFFSET ^ tag, id.spec_bytes()),
{
    let bytes = id.as_bytes();
    let mut hash: u64 = FNV_OFFSET ^ tag;
    let mut i: usize = 0;
    while i < bytes.len()
        invariant
            bytes@ == id.spec_bytes(),
            i <= bytes@.len(),
            hash == fnv_fold(FNV_OFFSET ^ tag, bytes@.take(i as int)),
        decreases bytes.len() - i,
    {
        assert(bytes@.take(i + 1).drop_last() =~= bytes@.take(i as int));
        hash = hash ^ (bytes[i] as u64);
        hash = hash.wrapping_mul(FNV_PRIME);
        i = i + 1;
    }
    assert(bytes@.take(bytes@.len() as int) =~= bytes@);
    hash
}

/// A stable key for a widget showing record `id` under `tag`: FNV-1a of
/// the id's bytes, seeded with the tag.
pub fn stable_key(tag: u64, id: &str) -> (r: u64)
    ensures
        r == fnv_fold(FNV_OFFSET ^ tag, id.spec_bytes()),
{
    fnv_bytes(tag, id)
}

/// The key of [`stable_key`] mixed with a version, so that a new version
/// gives the widget a new identity.
pub fn stable_key_v(tag: u64, id: &str, version: u64) -> (r: u64)
    ensures
        r == fnv_step(fnv_fold(FNV_OFFSET ^ tag, id.spec_bytes()), version),
{
    let hash = fnv_bytes(tag, id);
    (hash ^ version).wrapping_mul(FNV_PRIME)
}

} // verus!

verus! {

/// The decimal digits of `n`.
pub open spec fn digits_of(n: nat) -> Seq<char>
    decreases n,
{
    if n < 10 {
        seq![digit_char(n)]
    } else {
        digits_of(n / 10).push(digit_char(n % 10))
    }
}

/// The character of digit `d`.
pub open spec fn digit_char(d: nat) -> char {
    if d == 0 { '0' } else if d == 1 { '1' } else if d == 2 { '2' } else if d == 3 { '3' }
    else if d == 4 { '4' } else if d == 5 { '5' } else if d == 6 { '6' } else if d == 7 { '7' }
    else if d == 8 { '8' } else { '9' }
}

fn digit(d: u64) -> (c: char)
    requires
        d < 10,
    ensures
        c == digit_char(d as nat),
{
    if d == 0 { '0' } else if d == 1 { '1' } else if d == 2 { '2' } else if d == 3 { '3' }
    else if d == 4 { '4' } else if d == 5 { '5' } else if d == 6 { '6' } else if d == 7 { '7' }
    else if d == 8 { '8' } else { '9' }
}

/// The decimal text of `n`.
pub fn decimal_text(n: u64) -> (r: String)
    ensures
        r@ == digits_of(n as nat),
    decreases n,
{
    if n < 10 {
        let mut v: Vec<char> = Vec::new();
        v.push(digit(n));
        assert(v@ =~= seq![digit_char(n as nat)]);
        chars_to_string(v)
    } else {
        let head = decimal_text(n / 10);
        let mut v: Vec<char> = Vec::new();
        v.push(digit(n % 10));
        assert(v@ =~= seq![digit_char((n % 10) as nat)]);
        let tail = chars_to_string(v);
        let r = join(head.as_str(), tail.as_str());
        assert(r@ =~= digits_of((n / 10) as nat).push(digit_char((n % 10) as nat)));
        r
    }
}

} // verus!
