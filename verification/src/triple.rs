//! Target triples: dash-separated identifiers whose first field names the CPU
//! architecture, such as `aarch64-linux-android`.

use vstd::prelude::*;
use vstd::utf8::*;

verus! {

/// The byte that encodes the field separator `-`.
pub const DASH: u8 = 0x2D;

/// Number of characters that precede the first `-` of `triple`, or its whole
/// length where it holds no `-`.
pub open spec fn arch_token_len(triple: Seq<char>) -> nat
    decreases triple.len(),
{
    if triple.len() == 0 || triple[0] == '-' {
        0
    } else {
        1 + arch_token_len(triple.drop_first())
    }
}

/// The first dash-separated field of `triple`: the architecture token.
pub open spec fn arch_token(triple: Seq<char>) -> Seq<char> {
    triple.take(arch_token_len(triple) as int)
}

/// `token` is a prefix of `triple` that holds no `-` and ends where `triple`
/// ends or right before a `-`.
pub open spec fn is_arch_token(triple: Seq<char>, token: Seq<char>) -> bool {
    &&& token.len() <= triple.len()
    &&& token == triple.take(token.len() as int)
    &&& forall|i: int| 0 <= i < token.len() ==> token[i] != '-'
    &&& token.len() < triple.len() ==> triple[token.len() as int] == '-'
}

/// The architecture token never runs past the end of the triple.
pub proof fn lemma_arch_token_len_bound(triple: Seq<char>)
    ensures
        arch_token_len(triple) <= triple.len(),
    decreases triple.len(),
{
    if triple.len() > 0 && triple[0] != '-' {
        lemma_arch_token_len_bound(triple.drop_first());
    }
}

/// The architecture token is the one and only field that starts the triple:
/// it satisfies [`is_arch_token`], and whatever satisfies it is that token.
pub proof fn lemma_arch_token_unique(triple: Seq<char>, token: Seq<char>)
    ensures
        is_arch_token(triple, arch_token(triple)),
        is_arch_token(triple, token) ==> token == arch_token(triple),
    decreases triple.len(),
{
    let found = arch_token(triple);
    lemma_arch_token_len_bound(triple);
    if triple.len() > 0 && triple[0] != '-' {
        // The token is the first character followed by the token of the rest,
        // and the same holds of any other candidate.
        let rest = triple.drop_first();
        let inner = arch_token(rest);
        lemma_arch_token_len_bound(rest);
        lemma_arch_token_unique(rest, token.drop_first());
        assert forall|i: int| 0 <= i < found.len() implies found[i] != '-' by {
            if i > 0 {
                assert(found[i] == inner[i - 1]);
            }
        }
        if is_arch_token(triple, token) {
            let tail = token.drop_first();
            assert(tail =~= rest.take(tail.len() as int));
        }
    } else if is_arch_token(triple, token) && token.len() > 0 {
        // The triple starts with a dash, which no candidate may hold.
        assert(token[0] == triple[0]);
    }
}

/// The scalar value of `-` is encoded as the single byte [`DASH`], and that
/// byte occurs in the encoding of no other value `v`.
proof fn lemma_dash_encoding(v: u32)
    ensures
        encode_scalar(v).len() >= 1,
        v == 0x2D ==> encode_scalar(v) == seq![DASH],
        v != 0x2D ==> forall|i: int|
            0 <= i < encode_scalar(v).len() ==> encode_scalar(v)[i] != DASH,
{
    // A single-byte encoding is the value itself; in a longer one every byte
    // has its top bit set.
    assert(v == 0x2D ==> (v & 0x7F) as u8 == 0x2Du8) by (bit_vector);
    assert(v <= 0x7F && v != 0x2D ==> (v & 0x7F) as u8 != 0x2Du8) by (bit_vector);
    assert((0xC0u8 | ((v >> 6) & 0x1F) as u8) != 0x2Du8) by (bit_vector);
    assert((0xE0u8 | ((v >> 12) & 0x0F) as u8) != 0x2Du8) by (bit_vector);
    assert((0xF0u8 | ((v >> 18) & 0x7) as u8) != 0x2Du8) by (bit_vector);
    assert((0x80u8 | (v & 0x3F) as u8) != 0x2Du8) by (bit_vector);
    assert((0x80u8 | ((v >> 6) & 0x3F) as u8) != 0x2Du8) by (bit_vector);
    assert((0x80u8 | ((v >> 12) & 0x3F) as u8) != 0x2Du8) by (bit_vector);
}

/// Where `end` is the place of the first [`DASH`] among the encoded bytes of
/// `triple` (or their number, where there is none), the bytes before `end`
/// encode the architecture token.
proof fn lemma_first_dash_byte(triple: Seq<char>, end: int)
    requires
        0 <= end <= encode_utf8(triple).len(),
        forall|k: int| 0 <= k < end ==> encode_utf8(triple)[k] != DASH,
        end < encode_utf8(triple).len() ==> encode_utf8(triple)[end] == DASH,
    ensures
        encode_utf8(triple).subrange(0, end) == encode_utf8(arch_token(triple)),
    decreases triple.len(),
{
    let bytes = encode_utf8(triple);
    if triple.len() > 0 {
        let rest = triple.drop_first();
        let head = encode_scalar(triple[0] as u32);
        lemma_dash_encoding(triple[0] as u32);
        if triple[0] == '-' {
            // The first byte is the dash, so `end` is 0 and the token is empty.
            assert(bytes[0] == head[0]);
        } else {
            // The first character brings no dash byte, so `end` lies behind
            // its encoding, and the rest of the bytes is searched likewise.
            assert(triple[0] as u32 != 0x2D) by {
                char_u32_cast('-', 0x2D);
                char_u32_cast(triple[0], triple[0] as u32);
            }
            let inner_end = end - head.len();
            assert forall|k: int| 0 <= k < inner_end implies encode_utf8(rest)[k] != DASH by {
                assert(bytes[k + head.len()] == encode_utf8(rest)[k]);
            }
            lemma_first_dash_byte(rest, inner_end);
            lemma_arch_token_len_bound(rest);
            assert(arch_token(triple).drop_first() =~= arch_token(rest));
        }
    }
}

/// Extracts the architecture token: the characters of `triple` up to its
/// first `-`, or all of it where it holds none.
pub fn split_arch_token<'a>(triple: &'a str) -> (token: &'a str)
    ensures
        token@ == arch_token(triple@),
{
    let bytes = triple.as_bytes();
    let mut end: usize = 0;
    while end < bytes.len() && bytes[end] != DASH
        invariant
            end <= bytes.len(),
            forall|k: int| 0 <= k < end ==> bytes@[k] != DASH,
        decreases bytes.len() - end,
    {
        end += 1;
    }
    proof {
        encode_utf8_valid_utf8(triple@);
        if end < bytes.len() {
            is_char_boundary_iff_not_is_continuation_byte(bytes@, end as int);
        } else {
            is_char_boundary_start_end_of_seq(bytes@);
        }
        lemma_first_dash_byte(triple@, end as int);
    }
    let (token, _) = triple.split_at(end);
    proof {
        encode_utf8_decode_utf8(token@);
        encode_utf8_decode_utf8(arch_token(triple@));
    }
    token
}

} // verus!
