//! Small text helpers: byte comparisons and decimal numbers.

use vstd::prelude::*;
use vstd::string::*;
use vstd::utf8::*;

verus! {

/// The byte `/`.
pub const SLASH: u8 = 0x2f;

/// Whether `bytes` begins with `prefix`.
pub fn has_prefix(bytes: &[u8], prefix: &[u8]) -> (found: bool)
    ensures
        found == prefix@.is_prefix_of(bytes@),
{
    if bytes.len() < prefix.len() {
        return false;
    }
    let mut i: usize = 0;
    while i < prefix.len()
        invariant
            i <= prefix.len() <= bytes.len(),
            forall|k: int| 0 <= k < i ==> bytes@[k] == prefix@[k],
        decreases prefix.len() - i,
    {
        if bytes[i] != prefix[i] {
            return false;
        }
        i += 1;
    }
    assert(prefix@ =~= bytes@.subrange(0, prefix@.len() as int));
    true
}

/// The characters of a text that may be absent.
pub open spec fn optional_text(text: Option<&str>) -> Option<Seq<char>> {
    match text {
        Some(t) => Some(t@),
        None => None,
    }
}

/// Whether two texts are the same, character for character.
pub fn same_text(a: &str, b: &str) -> (same: bool)
    ensures
        same == (a@ == b@),
{
    let left = a.as_bytes();
    let right = b.as_bytes();
    proof {
        encode_utf8_decode_utf8(a@);
        encode_utf8_decode_utf8(b@);
    }
    if left.len() != right.len() {
        return false;
    }
    let same = has_prefix(left, right);
    proof {
        if same {
            assert(left@ =~= right@);
        }
    }
    same
}

/// The character that writes the digit `d`.
pub open spec fn digit_char(d: int) -> char {
    if d == 0 {
        '0'
    } else if d == 1 {
        '1'
    } else if d == 2 {
        '2'
    } else if d == 3 {
        '3'
    } else if d == 4 {
        '4'
    } else if d == 5 {
        '5'
    } else if d == 6 {
        '6'
    } else if d == 7 {
        '7'
    } else if d == 8 {
        '8'
    } else {
        '9'
    }
}

/// The decimal numeral of `n`: no sign, no leading zero, `0` for zero.
pub open spec fn decimal(n: nat) -> Seq<char>
    decreases n,
{
    if n < 10 {
        seq![digit_char(n as int)]
    } else {
        decimal(n / 10) + seq![digit_char((n % 10) as int)]
    }
}

/// The one-character text of a digit.
fn digit_text(d: usize) -> (text: &'static str)
    requires
        d < 10,
    ensures
        text@ == seq![digit_char(d as int)],
{
    proof {
        reveal_strlit("0");
        reveal_strlit("1");
        reveal_strlit("2");
        reveal_strlit("3");
        reveal_strlit("4");
        reveal_strlit("5");
        reveal_strlit("6");
        reveal_strlit("7");
        reveal_strlit("8");
        reveal_strlit("9");
    }
    let text = if d == 0 {
        "0"
    } else if d == 1 {
        "1"
    } else if d == 2 {
        "2"
    } else if d == 3 {
        "3"
    } else if d == 4 {
        "4"
    } else if d == 5 {
        "5"
    } else if d == 6 {
        "6"
    } else if d == 7 {
        "7"
    } else if d == 8 {
        "8"
    } else {
        "9"
    };
    assert(text@ =~= seq![digit_char(d as int)]);
    text
}

/// Writes `n` as a decimal numeral.
pub fn to_decimal(n: usize) -> (text: String)
    ensures
        text@ == decimal(n as nat),
    decreases n,
{
    if n < 10 {
        digit_text(n).to_owned()
    } else {
        let mut text = to_decimal(n / 10);
        text.append(digit_text(n % 10));
        text
    }
}

/// Whether `text` ends with a slash.
pub open spec fn ends_with_slash(text: Seq<char>) -> bool {
    text.len() > 0 && text.last() == '/'
}

/// Only the slash itself has an encoding that ends in the byte `/`.
proof fn lemma_last_byte_of_scalar(c: u32)
    requires
        is_scalar(c),
    ensures
        encode_scalar(c).len() > 0,
        encode_scalar(c).last() == SLASH <==> c == 0x2f,
{
    if has_width_1_encoding(c) {
        assert(((c & 0x7F) as u8 == 0x2f) <==> c == 0x2f) by (bit_vector)
            requires
                c <= 0x7f,
        ;
    } else {
        assert((0x80u8 | (c & 0x3F) as u8) != 0x2f) by (bit_vector);
    }
}

/// The encoding of a text that is not empty ends as the encoding of its
/// last character does.
proof fn lemma_encoding_last(chars: Seq<char>)
    requires
        chars.len() > 0,
    ensures
        encode_utf8(chars).len() > 0,
        encode_utf8(chars).last() == encode_scalar(chars.last() as u32).last(),
    decreases chars.len(),
{
    char_is_scalar(chars[0]);
    lemma_last_byte_of_scalar(chars[0] as u32);
    let rest = chars.drop_first();
    if rest.len() == 0 {
        assert(encode_utf8(rest) =~= Seq::<u8>::empty());
        assert(encode_utf8(chars) =~= encode_scalar(chars[0] as u32));
    } else {
        lemma_encoding_last(rest);
        assert(rest.last() == chars.last());
    }
}

/// Whether `text` ends with a slash.
pub fn has_trailing_slash(text: &str) -> (found: bool)
    ensures
        found == ends_with_slash(text@),
{
    let bytes = text.as_bytes();
    let n: usize = bytes.len();
    if n == 0 {
        proof {
            if text@.len() > 0 {
                lemma_encoding_last(text@);
            }
        }
        return false;
    }
    proof {
        assert(text@.len() > 0);
        lemma_encoding_last(text@);
        let last = text@.last();
        char_is_scalar(last);
        lemma_last_byte_of_scalar(last as u32);
        assert('/' as u32 == 0x2f);
        if last as u32 == 0x2f {
            char_u32_cast(last, 0x2f);
            char_u32_cast('/', 0x2f);
        }
    }
    bytes[n - 1] == SLASH
}

} // verus!
