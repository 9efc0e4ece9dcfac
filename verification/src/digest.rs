//! Content addresser: maps a byte buffer to a stable digest string.
//!
//! The digest is the 64-bit FNV-1a hash of the bytes, rendered as lowercase
//! hex without leading zeros. It is a pure function of the bytes, so the same
//! content always resolves to the same object name, whichever backend stores
//! it. The hash is a name, not an integrity guarantee: collisions are
//! acceptable and cryptographic strength is not required.
use vstd::prelude::*;

verus! {

/// Offset basis of 64-bit FNV-1a.
pub const FNV_OFFSET: u64 = 0xcbf2_9ce4_8422_2325;

/// Prime of 64-bit FNV-1a.
pub const FNV_PRIME: u64 = 0x100_0000_01b3;

/// One step of FNV-1a: fold one byte into the running hash.
pub open spec fn fnv1a_step(h: u64, b: u8) -> u64 {
    vstd::wrapping::u64_specs::wrapping_mul(h ^ (b as u64), FNV_PRIME)
}

/// The 64-bit FNV-1a hash of a byte sequence.
pub open spec fn fnv1a(bytes: Seq<u8>) -> u64
    decreases bytes.len(),
{
    if bytes.len() == 0 {
        FNV_OFFSET
    } else {
        fnv1a_step(fnv1a(bytes.drop_last()), bytes.last())
    }
}

/// The lowercase hex digit for a value below 16.
pub open spec fn hex_digit(n: u64) -> char {
    if n == 0 {
        '0'
    } else if n == 1 {
        '1'
    } else if n == 2 {
        '2'
    } else if n == 3 {
        '3'
    } else if n == 4 {
        '4'
    } else if n == 5 {
        '5'
    } else if n == 6 {
        '6'
    } else if n == 7 {
        '7'
    } else if n == 8 {
        '8'
    } else if n == 9 {
        '9'
    } else if n == 10 {
        'a'
    } else if n == 11 {
        'b'
    } else if n == 12 {
        'c'
    } else if n == 13 {
        'd'
    } else if n == 14 {
        'e'
    } else {
        'f'
    }
}

/// Lowercase hex rendering of a 64-bit value, most significant digit first,
/// without leading zeros.
pub open spec fn hex_seq(n: u64) -> Seq<char>
    decreases n,
{
    if n < 16 {
        seq![hex_digit(n)]
    } else {
        hex_seq(n / 16).push(hex_digit(n % 16))
    }
}

/// The digest string of a byte sequence: hex rendering of its FNV-1a hash.
pub open spec fn digest_of(bytes: Seq<u8>) -> Seq<char> {
    hex_seq(fnv1a(bytes))
}

/// The derived object name: `{digest}.{extension}`.
pub open spec fn object_name(bytes: Seq<u8>, extension: Seq<char>) -> Seq<char> {
    digest_of(bytes) + seq!['.'] + extension
}

/// The 64-bit FNV-1a hash of a buffer.
pub fn fnv1a_hash(buffer: &[u8]) -> (h: u64)
    ensures
        h == fnv1a(buffer@),
{
    let n = buffer.len();
    let mut h: u64 = FNV_OFFSET;
    let mut i: usize = 0;
    while i < n
        invariant
            i <= n,
            n == buffer@.len(),
            h == fnv1a(buffer@.subrange(0, i as int)),
        decreases n - i,
    {
        let b = buffer[i];
        h = (h ^ (b as u64)).wrapping_mul(FNV_PRIME);
        proof {
            let pre = buffer@.subrange(0, i as int);
            let post = buffer@.subrange(0, i + 1 as int);
            assert(post.drop_last() =~= pre);
            assert(post.last() == buffer@[i as int]);
        }
        i = i + 1;
    }
    proof {
        assert(buffer@.subrange(0, n as int) =~= buffer@);
    }
    h
}

/// The lowercase hex digit, as a one-character string slice.
fn hex_digit_str(n: u64) -> (r: &'static str)
    requires
        n < 16,
    ensures
        r@ == seq![hex_digit(n)],
{
    proof {
        reveal_strlit("0");
        reveal_strlit("1");
        reveal_strlit("2");
        reveal_strlit("3");
        reveal_strlit("4");
        reveal_strlit("5");
        reveal_strlit("6");
        reveal_strlit("7");
        reveal_strlit("8");
        reveal_strlit("9");
        reveal_strlit("a");
        reveal_strlit("b");
        reveal_strlit("c");
        reveal_strlit("d");
        reveal_strlit("e");
        reveal_strlit("f");
    }
    let r = if n == 0 {
        "0"
    } else if n == 1 {
        "1"
    } else if n == 2 {
        "2"
    } else if n == 3 {
        "3"
    } else if n == 4 {
        "4"
    } else if n == 5 {
        "5"
    } else if n == 6 {
        "6"
    } else if n == 7 {
        "7"
    } else if n == 8 {
        "8"
    } else if n == 9 {
        "9"
    } else if n == 10 {
        "a"
    } else if n == 11 {
        "b"
    } else if n == 12 {
        "c"
    } else if n == 13 {
        "d"
    } else if n == 14 {
        "e"
    } else {
        "f"
    };
    proof {
        assert(r@ =~= seq![hex_digit(n)]);
    }
    r
}

/// Lowercase hex rendering of a 64-bit value.
pub fn to_hex(n: u64) -> (r: String)
    ensures
        r@ == hex_seq(n),
    decreases n,
{
    if n < 16 {
        String::from_str(hex_digit_str(n))
    } else {
        let mut s = to_hex(n / 16);
        s.append(hex_digit_str(n % 16));
        proof {
            assert(hex_seq(n / 16).push(hex_digit(n % 16)) =~= hex_seq(n / 16) + seq![
                hex_digit(n % 16),
            ]);
        }
        s
    }
}

/// The digest string of a buffer: deterministic, equal bytes give an equal
/// digest on every call and through every backend.
pub fn hash_bytes(buffer: &[u8]) -> (r: String)
    ensures
        r@ == digest_of(buffer@),
{
    to_hex(fnv1a_hash(buffer))
}

/// The derived object name `{digest}.{extension}` of a buffer.
pub fn object_name_of(buffer: &[u8], extension: &str) -> (r: String)
    ensures
        r@ == object_name(buffer@, extension@),
{
    let mut s = hash_bytes(buffer);
    s.append(".");
    s.append(extension);
    proof {
        reveal_strlit(".");
        assert((".")@ =~= seq!['.']);
    }
    s
}

/// Law: the digest is a function of the byte content alone. Two buffers with
/// equal contents have the same digest, on every call and whichever backend
/// computes it, and so derive the same object name for the same extension.
pub proof fn lemma_digest_deterministic(b1: Seq<u8>, b2: Seq<u8>, extension: Seq<char>)
    requires
        b1 =~= b2,
    ensures
        digest_of(b1) == digest_of(b2),
        object_name(b1, extension) == object_name(b2, extension),
{
}

} // verus!
