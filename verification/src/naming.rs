//! The content-addressed naming scheme: the key under which the bytes of a
//! source are kept, and the name of each blob that was made from them.

use vstd::prelude::*;
use vstd::string::StringExecFns;

use crate::format::Format;

verus! {

/// A name for the BLAKE3 digest of the UTF-8 bytes of a text, written as
/// hexadecimal digits.
pub uninterp spec fn blake3_hex(text: Seq<char>) -> Seq<char>;

/// A decimal digit or one of the letters `a` to `f`.
pub open spec fn is_lower_hex(c: char) -> bool {
    ('0' <= c && c <= '9') || ('a' <= c && c <= 'f')
}

/// The shape of every cache key: 64 lowercase hexadecimal digits.
pub open spec fn is_cache_key(key: Seq<char>) -> bool {
    &&& key.len() == 64
    &&& forall|i: int| 0 <= i < key.len() ==> is_lower_hex(#[trigger] key[i])
}

/// Feeds the bytes of `input` to a `blake3::Hasher`, finalizes it and renders
/// the digest with `Hash::to_hex`. The digest depends on the bytes alone, so
/// the result has a name; `to_hex` writes two characters of
/// `0123456789abcdef` for each of the 32 bytes of the digest.
#[verifier::external_body]
fn blake3_hex_digest(input: &str) -> (hex: String)
    ensures
        hex@ == blake3_hex(input@),
        is_cache_key(hex@),
{
    let mut hasher = blake3::Hasher::new();
    hasher.update(input.as_bytes());
    hasher.finalize().to_hex().to_string()
}

/// The cache key of a source: the hexadecimal BLAKE3 digest of its text. The
/// key is a function of the text alone.
pub fn calculate_hash(input: &str) -> (key: String)
    ensures
        key@ == blake3_hex(input@),
        is_cache_key(key@),
{
    blake3_hex_digest(input)
}

/// The character that stands for a decimal digit.
pub open spec fn digit_char(digit: nat) -> char {
    if digit == 0 {
        '0'
    } else if digit == 1 {
        '1'
    } else if digit == 2 {
        '2'
    } else if digit == 3 {
        '3'
    } else if digit == 4 {
        '4'
    } else if digit == 5 {
        '5'
    } else if digit == 6 {
        '6'
    } else if digit == 7 {
        '7'
    } else if digit == 8 {
        '8'
    } else {
        '9'
    }
}

/// A number in decimal notation, without leading zeros.
pub open spec fn decimal_digits(n: nat) -> Seq<char>
    decreases n,
{
    if n < 10 {
        seq![digit_char(n)]
    } else {
        decimal_digits(n / 10).push(digit_char(n % 10))
    }
}

/// The name of the blob that holds a source transformed to one size and
/// format: the key, an underscore, the size in decimal, a dot and the tag of
/// the format.
pub open spec fn transformed_name(key: Seq<char>, tallest_side: nat, format: Format) -> Seq<char> {
    key + seq!['_'] + decimal_digits(tallest_side) + seq!['.'] + format.tag_of()
}

fn digit_text(digit: u32) -> (text: &'static str)
    requires
        digit < 10,
    ensures
        text@ == seq![digit_char(digit as nat)],
{
    proof {
        reveal_strlit("0");
        reveal_strlit("1");
        reveal_strlit("2");
        reveal_strlit("3");
        reveal_strlit("4");
        reveal_strlit("5");
        reveal_strlit("6");
        reveal_strlit("7");
        reveal_strlit("8");
        reveal_strlit("9");
    }
    let text = if digit == 0 {
        "0"
    } else if digit == 1 {
        "1"
    } else if digit == 2 {
        "2"
    } else if digit == 3 {
        "3"
    } else if digit == 4 {
        "4"
    } else if digit == 5 {
        "5"
    } else if digit == 6 {
        "6"
    } else if digit == 7 {
        "7"
    } else if digit == 8 {
        "8"
    } else {
        "9"
    };
    assert(text@ =~= seq![digit_char(digit as nat)]);
    text
}

/// Writes a number in decimal notation.
pub fn decimal_string(n: u32) -> (text: String)
    ensures
        text@ == decimal_digits(n as nat),
    decreases n,
{
    if n < 10 {
        digit_text(n).to_string()
    } else {
        let mut text = decimal_string(n / 10);
        text.append(digit_text(n % 10));
        assert(text@ =~= decimal_digits(n as nat));
        text
    }
}

/// Builds the name of a transformed blob.
pub fn transformed_filename(key: &str, tallest_side: u32, format: Format) -> (name: String)
    ensures
        name@ == transformed_name(key@, tallest_side as nat, format),
{
    proof {
        reveal_strlit("_");
        reveal_strlit(".");
    }
    let mut name = key.to_string();
    name.append("_");
    assert("_"@ =~= seq!['_']);
    let size = decimal_string(tallest_side);
    name.append(size.as_str());
    name.append(".");
    assert("."@ =~= seq!['.']);
    name.append(format.tag());
    name
}

/// A character that may stand in the name of a blob: a digit, a lowercase
/// letter, an underscore or a dot. No such character separates directories.
pub open spec fn is_name_char(c: char) -> bool {
    ('0' <= c && c <= '9') || ('a' <= c && c <= 'z') || c == '_' || c == '.'
}

/// The key is a function of the source: the same source has the same key,
/// whenever and wherever it is computed.
pub proof fn lemma_same_source_same_key(first: Seq<char>, second: Seq<char>)
    requires
        first == second,
    ensures
        blake3_hex(first) == blake3_hex(second),
{
}

/// Decimal notation is made of digits, and of at least one.
pub proof fn lemma_decimal_is_digits(n: nat)
    ensures
        decimal_digits(n).len() >= 1,
        n >= 10 ==> decimal_digits(n).len() >= 2,
        forall|i: int|
            0 <= i < decimal_digits(n).len() ==> '0' <= #[trigger] decimal_digits(n)[i] <= '9',
    decreases n,
{
    if n >= 10 {
        lemma_decimal_is_digits(n / 10);
    }
}

/// Different numbers are written differently.
pub proof fn lemma_decimal_is_injective(a: nat, b: nat)
    requires
        decimal_digits(a) == decimal_digits(b),
    ensures
        a == b,
    decreases a,
{
    lemma_decimal_is_digits(a);
    lemma_decimal_is_digits(b);
    if a < 10 {
        assert(decimal_digits(a)[0] == digit_char(a));
        assert(decimal_digits(b)[0] == digit_char(b));
    } else {
        let high = decimal_digits(a / 10);
        let other = decimal_digits(b / 10);
        assert(decimal_digits(a).last() == digit_char(a % 10));
        assert(decimal_digits(b).last() == digit_char(b % 10));
        assert(high =~= decimal_digits(a).drop_last());
        assert(other =~= decimal_digits(b).drop_last());
        lemma_decimal_is_injective(a / 10, b / 10);
    }
}

/// The names of blobs are plain file names: a key, and the name of a
/// transformed blob made from a key, hold nothing but digits, lowercase
/// letters, underscores and dots.
pub proof fn lemma_names_are_plain(key: Seq<char>, tallest_side: nat, format: Format)
    requires
        is_cache_key(key),
    ensures
        forall|i: int| 0 <= i < key.len() ==> is_name_char(#[trigger] key[i]),
        forall|i: int|
            0 <= i < transformed_name(key, tallest_side, format).len() ==> is_name_char(
                #[trigger] transformed_name(key, tallest_side, format)[i],
            ),
{
    reveal_strlit("avif");
    reveal_strlit("heic");
    reveal_strlit("jxl");
    reveal_strlit("qoi");
    lemma_decimal_is_digits(tallest_side);
    let digits = decimal_digits(tallest_side);
    let tag = format.tag_of();
    let name = transformed_name(key, tallest_side, format);
    assert forall|i: int| 0 <= i < key.len() implies is_name_char(#[trigger] key[i]) by {
        assert(is_lower_hex(key[i]));
    }
    assert forall|i: int| 0 <= i < tag.len() implies is_name_char(#[trigger] tag[i]) by {}
    assert forall|i: int| 0 <= i < name.len() implies is_name_char(#[trigger] name[i]) by {
        if i < 64 {
            assert(name[i] == key[i]);
        } else if i == 64 {
            assert(name[i] == '_');
        } else if i < 65 + digits.len() {
            assert(name[i] == digits[i - 65]);
        } else if i == 65 + digits.len() {
            assert(name[i] == '.');
        } else {
            assert(name[i] == tag[i - 66 - digits.len()]);
        }
    }
}

/// The name of a transformed blob is never the name of a source blob: it is
/// longer than any key.
pub proof fn lemma_transformed_name_is_no_key(key: Seq<char>, tallest_side: nat, format: Format)
    requires
        is_cache_key(key),
    ensures
        !is_cache_key(transformed_name(key, tallest_side, format)),
{
}

/// Each key, size and format has a blob name of its own: two transformed
/// blobs share a name only if they share all three.
pub proof fn lemma_transformed_name_is_injective(
    key: Seq<char>,
    tallest_side: nat,
    format: Format,
    other_key: Seq<char>,
    other_side: nat,
    other_format: Format,
)
    requires
        is_cache_key(key),
        is_cache_key(other_key),
        transformed_name(key, tallest_side, format) == transformed_name(
            other_key,
            other_side,
            other_format,
        ),
    ensures
        key == other_key,
        tallest_side == other_side,
        format == other_format,
{
    let name = transformed_name(key, tallest_side, format);
    let other = transformed_name(other_key, other_side, other_format);
    let digits = decimal_digits(tallest_side);
    let other_digits = decimal_digits(other_side);
    let tag = format.tag_of();
    let other_tag = other_format.tag_of();
    lemma_decimal_is_digits(tallest_side);
    lemma_decimal_is_digits(other_side);
    assert(key =~= other_key) by {
        assert forall|i: int| 0 <= i < 64 implies key[i] == other_key[i] by {
            assert(name[i] == key[i]);
            assert(other[i] == other_key[i]);
        }
    }
    assert(name[65 + digits.len() as int] == '.');
    assert(other[65 + other_digits.len() as int] == '.');
    if digits.len() < other_digits.len() {
        assert(other[65 + digits.len() as int] == other_digits[digits.len() as int]);
    } else if other_digits.len() < digits.len() {
        assert(name[65 + other_digits.len() as int] == digits[other_digits.len() as int]);
    }
    assert(digits =~= other_digits) by {
        assert forall|i: int| 0 <= i < digits.len() implies digits[i] == other_digits[i] by {
            assert(name[65 + i] == digits[i]);
            assert(other[65 + i] == other_digits[i]);
        }
    }
    lemma_decimal_is_injective(tallest_side, other_side);
    assert(tag.len() == other_tag.len()) by {
        assert(name.len() == 66 + digits.len() + tag.len());
        assert(other.len() == 66 + other_digits.len() + other_tag.len());
    }
    assert(tag =~= other_tag) by {
        assert forall|i: int| 0 <= i < tag.len() implies tag[i] == other_tag[i] by {
            assert(name[66 + digits.len() + i] == tag[i]);
            assert(other[66 + digits.len() + i] == other_tag[i]);
        }
    }
    crate::format::lemma_tags_name_their_formats(tag, format);
    crate::format::lemma_tags_name_their_formats(tag, other_format);
}

} // verus!
