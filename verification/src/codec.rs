use vstd::prelude::*;
use vstd::string::StringSliceAdditionalSpecFns;
use vstd::string::StringExecFns;

verus! {

// ── hex ──────────────────────────────────────────────────────────────────────

/// The lowercase hex digit of a value below 16.
pub open spec fn hex_digit(v: int) -> char {
    if v < 10 {
        (('0' as int) + v) as char
    } else {
        (('a' as int) + v - 10) as char
    }
}

/// Lowercase hex text of a byte string: two digits per byte, high nibble first.
pub open spec fn hex_text(bytes: Seq<u8>) -> Seq<char> {
    Seq::new(
        2 * bytes.len(),
        |i: int|
            if i % 2 == 0 {
                hex_digit(bytes[i / 2] as int / 16)
            } else {
                hex_digit(bytes[i / 2] as int % 16)
            },
    )
}

/// The value of one hex digit byte, either case.
pub open spec fn hex_value(b: u8) -> Option<u8> {
    if 0x30 <= b <= 0x39 {
        Some((b - 0x30) as u8)
    } else if 0x41 <= b <= 0x46 {
        Some((b - 0x41 + 10) as u8)
    } else if 0x61 <= b <= 0x66 {
        Some((b - 0x61 + 10) as u8)
    } else {
        None
    }
}

/// Why a text is not hex.
#[derive(Debug, Clone, Copy, PartialEq, Eq, Structural)]
pub enum HexError {
    /// The byte at `index` (read as a Latin-1 character) is not a hex digit.
    InvalidHexCharacter { c: char, index: usize },
    /// The text has an odd number of bytes.
    OddLength,
    /// The text does not have the length that the output needs.
    InvalidStringLength,
}

impl HexError {
    /// The text that hex's `Display` writes for the error.
    pub open spec fn message_spec(self) -> Seq<char> {
        match self {
            HexError::InvalidHexCharacter { c, index } => "Invalid character "@ + rust_char_debug(c)
                + " at position "@ + decimal_text(index as nat),
            HexError::OddLength => "Odd number of digits"@,
            HexError::InvalidStringLength => "Invalid string length"@,
        }
    }

    /// The text that hex's `Display` writes for the error.
    pub fn message(&self) -> (r: String)
        ensures
            r@ == self.message_spec(),
    {
        match self {
            HexError::InvalidHexCharacter { c, index } => {
                let cd = char_debug(*c);
                let pos = decimal_u64(*index as u64);
                String::from_str("Invalid character ").concat(cd.as_str()).concat(
                    " at position ",
                ).concat(pos.as_str())
            },
            HexError::OddLength => String::from_str("Odd number of digits"),
            HexError::InvalidStringLength => String::from_str("Invalid string length"),
        }
    }
}

/// Every byte before `k` is a hex digit.
pub open spec fn hex_digits_before(s: Seq<u8>, k: int) -> bool {
    forall|j: int| 0 <= j < k ==> #[trigger] hex_value(s[j]) is Some
}

/// The bytes whose hex text is `s`, where every byte of `s` is a digit.
pub open spec fn hex_bytes(s: Seq<u8>) -> Seq<u8> {
    Seq::new(
        s.len() / 2,
        |i: int| (hex_value(s[2 * i])->0 * 16 + hex_value(s[2 * i + 1])->0) as u8,
    )
}

/// What hex decoding gives for the bytes `s`: the decoded bytes; `OddLength`
/// for an odd length; else the first byte that is not a digit.
pub open spec fn hex_decode_spec(s: Seq<u8>) -> Result<Seq<u8>, HexError> {
    if s.len() % 2 != 0 {
        Err(HexError::OddLength)
    } else if hex_digits_before(s, s.len() as int) {
        Ok(hex_bytes(s))
    } else {
        let k = choose|k: int|
            0 <= k < s.len() && hex_value(s[k]) is None && hex_digits_before(s, k);
        Err(HexError::InvalidHexCharacter { c: s[k] as char, index: k as usize })
    }
}

/// Lowercase hex encoding of `bytes`.
///
/// Calls `hex::encode`. Trusted: the text is two lowercase digits per byte,
/// high nibble first (hex's `HEX_CHARS_LOWER` table).
#[verifier::external_body]
pub(crate) fn hex_encode(bytes: &[u8]) -> (r: String)
    ensures
        r@ == hex_text(bytes@),
{
    hex::encode(bytes)
}

/// The bytes written as hex in `text`.
///
/// Calls `hex::decode`. Trusted: the result is `hex_decode_spec` of the UTF-8
/// bytes of `text` (odd length first, then the first non-digit byte, which
/// hex reports as that byte cast to `char` with its byte index).
#[verifier::external_body]
pub(crate) fn hex_decode(text: &str) -> (r: Result<Vec<u8>, HexError>)
    ensures
        match r {
            Ok(v) => hex_decode_spec(text.spec_bytes()) == Ok::<Seq<u8>, HexError>(v@),
            Err(e) => hex_decode_spec(text.spec_bytes()) == Err::<Seq<u8>, HexError>(e),
        },
{
    hex::decode(text).map_err(
        |e| match e {
            hex::FromHexError::InvalidHexCharacter { c, index } => HexError::InvalidHexCharacter {
                c,
                index,
            },
            hex::FromHexError::OddLength => HexError::OddLength,
            hex::FromHexError::InvalidStringLength => HexError::InvalidStringLength,
        },
    )
}

// ── decimal and debug text ───────────────────────────────────────────────────

/// Decimal digits of `n`, as `Display` writes an unsigned integer.
pub open spec fn decimal_text(n: nat) -> Seq<char>
    decreases n,
{
    if n < 10 {
        seq![(('0' as int) + n) as char]
    } else {
        decimal_text(n / 10) + seq![(('0' as int) + n % 10) as char]
    }
}

/// The text that `Debug` writes for a `char` (quoted, with escapes).
pub uninterp spec fn rust_char_debug(c: char) -> Seq<char>;

/// The text that `Debug` writes for a string (quoted, with escapes).
pub uninterp spec fn rust_str_debug(s: Seq<char>) -> Seq<char>;

/// The decimal digit `d`.
fn digit_text(d: u64) -> (r: &'static str)
    requires
        d < 10,
    ensures
        r@ == seq![(('0' as int) + d) as char],
{
    proof {
        reveal_strlit("0");
        reveal_strlit("1");
        reveal_strlit("2");
        reveal_strlit("3");
        reveal_strlit("4");
        reveal_strlit("5");
        reveal_strlit("6");
        reveal_strlit("7");
        reveal_strlit("8");
        reveal_strlit("9");
    }
    if d == 0 {
        "0"
    } else if d == 1 {
        "1"
    } else if d == 2 {
        "2"
    } else if d == 3 {
        "3"
    } else if d == 4 {
        "4"
    } else if d == 5 {
        "5"
    } else if d == 6 {
        "6"
    } else if d == 7 {
        "7"
    } else if d == 8 {
        "8"
    } else {
        "9"
    }
}

/// Decimal text of `n`, as `Display` writes it.
pub(crate) fn decimal_u64(n: u64) -> (r: String)
    ensures
        r@ == decimal_text(n as nat),
    decreases n,
{
    if n < 10 {
        String::from_str(digit_text(n))
    } else {
        let head = decimal_u64(n / 10);
        head.concat(digit_text(n % 10))
    }
}

/// The `Debug` text of a character.
///
/// Calls `<char as Debug>::fmt` through `format!`. Trusted: the text is the
/// named `Debug` text of `c`.
#[verifier::external_body]
pub(crate) fn char_debug(c: char) -> (r: String)
    ensures
        r@ == rust_char_debug(c),
{
    format!("{:?}", c)
}

/// The `Debug` text of a string.
///
/// Calls `<str as Debug>::fmt` through `format!`. Trusted: the text is the
/// named `Debug` text of `s`.
#[verifier::external_body]
pub(crate) fn str_debug(s: &str) -> (r: String)
    ensures
        r@ == rust_str_debug(s@),
{
    format!("{:?}", s)
}

// ── SHA-256 ──────────────────────────────────────────────────────────────────

/// The SHA-256 digest of a byte string.
pub uninterp spec fn sha256(data: Seq<u8>) -> Seq<u8>;

/// SHA-256 of `data`.
///
/// Calls `sha2::Sha256::digest`. Trusted: the digest is the named SHA-256 of
/// the bytes and is 32 bytes long.
#[verifier::external_body]
pub(crate) fn sha256_digest(data: &[u8]) -> (r: Vec<u8>)
    ensures
        r@ == sha256(data@),
        r@.len() == 32,
{
    <sha2::Sha256 as sha2::Digest>::digest(data).to_vec()
}

// ── UUID ─────────────────────────────────────────────────────────────────────

/// Byte `i` (big-endian) of a 128-bit value.
pub open spec fn be_byte(v: u128, i: int) -> u8 {
    ((v as int / vstd::arithmetic::power::pow(256, (15 - i) as nat)) % 256) as u8
}

/// The 16 big-endian bytes of a 128-bit value, as a UUID holds them.
pub open spec fn uuid_bytes_spec(v: u128) -> Seq<u8> {
    Seq::new(16, |i: int| be_byte(v, i))
}

/// The hyphenated lowercase text of a UUID: 8-4-4-4-12 hex digits.
pub open spec fn uuid_text_spec(v: u128) -> Seq<char> {
    let h = hex_text(uuid_bytes_spec(v));
    h.subrange(0, 8) + seq!['-'] + h.subrange(8, 12) + seq!['-'] + h.subrange(12, 16) + seq!['-']
        + h.subrange(16, 20) + seq!['-'] + h.subrange(20, 32)
}

/// The low `k` bytes of two values agree when their bytes below `k` do.
proof fn lemma_low_bytes_agree(v1: u128, v2: u128, k: nat)
    requires
        k <= 16,
        forall|j: int| 16 - k <= j < 16 ==> #[trigger] be_byte(v1, j) == be_byte(v2, j),
    ensures
        (v1 as int) % vstd::arithmetic::power::pow(256, k) == (v2 as int) % vstd::arithmetic::power::pow(
            256,
            k,
        ),
    decreases k,
{
    let pw = vstd::arithmetic::power::pow(256, k);
    if k == 0 {
        assert(pw == 1) by {
            reveal(vstd::arithmetic::power::pow);
        }
        assert((v1 as int) % 1 == 0);
        assert((v2 as int) % 1 == 0);
    } else {
        let k1 = (k - 1) as nat;
        lemma_low_bytes_agree(v1, v2, k1);
        let y = vstd::arithmetic::power::pow(256, k1);
        vstd::arithmetic::power::lemma_pow_positive(256, k1);
        assert(pw == y * 256) by {
            reveal(vstd::arithmetic::power::pow);
            assert(pw == 256 * y);
        }
        vstd::arithmetic::div_mod::lemma_mod_breakdown(v1 as int, y, 256);
        vstd::arithmetic::div_mod::lemma_mod_breakdown(v2 as int, y, 256);
        let j = 16 - k;
        assert(be_byte(v1, j) == be_byte(v2, j));
        assert(15 - j == k1);
        let d1 = (v1 as int / y) % 256;
        let d2 = (v2 as int / y) % 256;
        assert(0 <= d1 < 256 && 0 <= d2 < 256);
        assert(be_byte(v1, j) as int == d1);
        assert(be_byte(v2, j) as int == d2);
    }
}

/// Different 128-bit values have different bytes.
proof fn lemma_uuid_bytes_injective(v1: u128, v2: u128)
    requires
        uuid_bytes_spec(v1) == uuid_bytes_spec(v2),
    ensures
        v1 == v2,
{
    assert forall|j: int| 16 - 16 <= j < 16 implies #[trigger] be_byte(v1, j) == be_byte(v2, j) by {
        assert(uuid_bytes_spec(v1)[j] == be_byte(v1, j));
        assert(uuid_bytes_spec(v2)[j] == be_byte(v2, j));
        assert(uuid_bytes_spec(v1)[j] == uuid_bytes_spec(v2)[j]);
    }
    lemma_low_bytes_agree(v1, v2, 16);
    assert(vstd::arithmetic::power::pow(256, 16) == 0x1_0000_0000_0000_0000_0000_0000_0000_0000) by {
        reveal_with_fuel(vstd::arithmetic::power::pow, 17);
    }
}

/// Different bytes have different hex texts.
proof fn lemma_hex_text_injective(b1: Seq<u8>, b2: Seq<u8>)
    requires
        b1.len() == b2.len(),
        hex_text(b1) == hex_text(b2),
    ensures
        b1 == b2,
{
    assert forall|i: int| 0 <= i < b1.len() implies b1[i] == b2[i] by {
        let h = hex_text(b1);
        assert(h[2 * i] == hex_text(b2)[2 * i]);
        assert(h[2 * i + 1] == hex_text(b2)[2 * i + 1]);
        assert((2 * i) / 2 == i && (2 * i) % 2 == 0);
        assert((2 * i + 1) / 2 == i && (2 * i + 1) % 2 == 1);
        let hi1 = b1[i] as int / 16;
        let hi2 = b2[i] as int / 16;
        let lo1 = b1[i] as int % 16;
        let lo2 = b2[i] as int % 16;
        assert(hex_digit(hi1) == hex_digit(hi2));
        assert(hex_digit(lo1) == hex_digit(lo2));
        assert(hi1 == hi2);
        assert(lo1 == lo2);
    }
    assert(b1 =~= b2);
}

/// Different UUIDs have different texts.
pub proof fn lemma_uuid_text_injective(v1: u128, v2: u128)
    requires
        uuid_text_spec(v1) == uuid_text_spec(v2),
    ensures
        v1 == v2,
{
    let h1 = hex_text(uuid_bytes_spec(v1));
    let h2 = hex_text(uuid_bytes_spec(v2));
    let t = uuid_text_spec(v1);
    assert forall|i: int| 0 <= i < 32 implies h1[i] == h2[i] by {
        if i < 8 {
            assert(t[i] == h1[i] && uuid_text_spec(v2)[i] == h2[i]);
        } else if i < 12 {
            assert(t[i + 1] == h1[i] && uuid_text_spec(v2)[i + 1] == h2[i]);
        } else if i < 16 {
            assert(t[i + 2] == h1[i] && uuid_text_spec(v2)[i + 2] == h2[i]);
        } else if i < 20 {
            assert(t[i + 3] == h1[i] && uuid_text_spec(v2)[i + 3] == h2[i]);
        } else {
            assert(t[i + 4] == h1[i] && uuid_text_spec(v2)[i + 4] == h2[i]);
        }
    }
    assert(h1 =~= h2);
    lemma_hex_text_injective(uuid_bytes_spec(v1), uuid_bytes_spec(v2));
    lemma_uuid_bytes_injective(v1, v2);
}

/// A fresh random (version 4) UUID, as its 128-bit value.
///
/// Calls `uuid::Uuid::new_v4`. Nothing is stated of the value: it is random.
#[verifier::external_body]
pub(crate) fn new_random_uuid() -> (r: u128) {
    uuid::Uuid::new_v4().as_u128()
}

/// The hyphenated text of the UUID with value `id`.
///
/// Calls `Uuid::from_u128` and `Uuid::to_string`. Trusted: the bytes are the
/// big-endian bytes of `id` and the text is their 8-4-4-4-12 lowercase hex.
#[verifier::external_body]
pub(crate) fn uuid_text(id: u128) -> (r: String)
    ensures
        r@ == uuid_text_spec(id),
{
    uuid::Uuid::from_u128(id).to_string()
}

/// The 16 bytes of the UUID with value `id`.
///
/// Calls `Uuid::from_u128` and `Uuid::as_bytes`. Trusted: the bytes are the
/// big-endian bytes of `id`.
#[verifier::external_body]
pub(crate) fn uuid_bytes(id: u128) -> (r: Vec<u8>)
    ensures
        r@ == uuid_bytes_spec(id),
{
    uuid::Uuid::from_u128(id).as_bytes().to_vec()
}

} // verus!
