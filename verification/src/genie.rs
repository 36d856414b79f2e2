//! Decoding of Game Genie cheat codes.
use vstd::prelude::*;

verus! {

/// The possible errors decoding a game genie code
#[derive(Debug, PartialEq, Eq, Structural)]
pub enum GameGenieError {
    /// One or more of the characters in the code are not valid game genie characters.
    InvalidCodeCharacters,
    /// Invalid number of digits found in the game genie code
    InvalidLength,
}

/// Represents a valid game genie code
pub struct GameGenieCode {
    /// The code for an actual game genie
    code: String,
    /// The target address of the code
    target: u16,
    /// The replacement value for the code at the specified address.
    new_value: u8,
    /// The check value to compare the actual value with in order to activate the code.
    check_value: Option<u8>,
}

/// The abstract content of a game genie code.
pub struct GameGenieCodeView {
    pub code: Seq<char>,
    pub target: u16,
    pub new_value: u8,
    pub check_value: Option<u8>,
}

impl View for GameGenieCode {
    type V = GameGenieCodeView;

    closed spec fn view(&self) -> GameGenieCodeView {
        GameGenieCodeView {
            code: self.code@,
            target: self.target,
            new_value: self.new_value,
            check_value: self.check_value,
        }
    }
}

/// The 4 bit value of a game genie letter, case insensitive.
pub open spec fn genie_digit(c: char) -> Option<u8> {
    match c {
        'A' | 'a' => Some(0u8),
        'P' | 'p' => Some(1u8),
        'Z' | 'z' => Some(2u8),
        'L' | 'l' => Some(3u8),
        'G' | 'g' => Some(4u8),
        'I' | 'i' => Some(5u8),
        'T' | 't' => Some(6u8),
        'Y' | 'y' => Some(7u8),
        'E' | 'e' => Some(8u8),
        'O' | 'o' => Some(9u8),
        'X' | 'x' => Some(10u8),
        'U' | 'u' => Some(11u8),
        'K' | 'k' => Some(12u8),
        'S' | 's' => Some(13u8),
        'V' | 'v' => Some(14u8),
        'N' | 'n' => Some(15u8),
        _ => None,
    }
}

/// Every character of the code is a game genie letter.
pub open spec fn all_genie_chars(s: Seq<char>) -> bool {
    forall|k: int| 0 <= k < s.len() ==> (#[trigger] genie_digit(s[k])) is Some
}

/// The digit at position `k` of a code.
pub open spec fn digit_at(s: Seq<char>, k: int) -> u8 {
    genie_digit(s[k]).unwrap()
}

/// A transposed nibble: bit 3 from digit `hi`, bits 0..2 from digit `lo`.
pub open spec fn nibble(s: Seq<char>, hi: int, lo: int) -> u8 {
    (digit_at(s, hi) & 8) | (digit_at(s, lo) & 7)
}

/// The address patched by a code (6 or 8 letters).
pub open spec fn genie_address(s: Seq<char>) -> u16 {
    0x8000u16 | ((nibble(s, 2, 3) as u16) << 12u16) | ((nibble(s, 4, 5) as u16) << 8u16)
        | ((nibble(s, 1, 2) as u16) << 4u16) | (nibble(s, 3, 4) as u16)
}

/// The replacement value of a code. The low nibble comes from digit 5 (6 letters) or 7 (8 letters).
pub open spec fn genie_value(s: Seq<char>) -> u8 {
    let last: int = if s.len() == 6 { 5 } else { 7 };
    (nibble(s, 0, 1) << 4u8) | nibble(s, last, 0)
}

/// The compare value of an 8 letter code.
pub open spec fn genie_check(s: Seq<char>) -> u8 {
    (nibble(s, 6, 7) << 4u8) | nibble(s, 5, 6)
}

/// The decoded content of a well formed code.
pub open spec fn genie_decode(s: Seq<char>) -> GameGenieCodeView {
    GameGenieCodeView {
        code: s,
        target: genie_address(s),
        new_value: genie_value(s),
        check_value: if s.len() == 8 { Some(genie_check(s)) } else { None },
    }
}

/// What reading a text of `len` bytes whose characters are `s` as a game genie code gives: a
/// length other than six or eight bytes is refused first, then a character that is not a game
/// genie letter, and otherwise the decoded code.
pub open spec fn genie_parse(len: int, s: Seq<char>) -> Result<GameGenieCodeView, GameGenieError> {
    if len != 6 && len != 8 {
        Err(GameGenieError::InvalidLength)
    } else if !all_genie_chars(s) {
        Err(GameGenieError::InvalidCodeCharacters)
    } else {
        Ok(genie_decode(s))
    }
}

/// The exec version of [`genie_digit`].
fn letter_value(c: char) -> (r: Option<u8>)
    ensures
        r == genie_digit(c),
{
    match c {
        'A' | 'a' => Some(0u8),
        'P' | 'p' => Some(1u8),
        'Z' | 'z' => Some(2u8),
        'L' | 'l' => Some(3u8),
        'G' | 'g' => Some(4u8),
        'I' | 'i' => Some(5u8),
        'T' | 't' => Some(6u8),
        'Y' | 'y' => Some(7u8),
        'E' | 'e' => Some(8u8),
        'O' | 'o' => Some(9u8),
        'X' | 'x' => Some(10u8),
        'U' | 'u' => Some(11u8),
        'K' | 'k' => Some(12u8),
        'S' | 's' => Some(13u8),
        'V' | 'v' => Some(14u8),
        'N' | 'n' => Some(15u8),
        _ => None,
    }
}

impl GameGenieCode {
    /// Convert a string reference to a game genie code, if possible.
    pub fn from_str(i: &str) -> (r: Result<Self, GameGenieError>)
        ensures
            i.len() != 6 && i.len() != 8 ==> r == Err::<
                Self,
                GameGenieError,
            >(GameGenieError::InvalidLength),
            (i.len() == 6 || i.len() == 8) && !all_genie_chars(i@)
                ==> r == Err::<Self, GameGenieError>(GameGenieError::InvalidCodeCharacters),
            (i.len() == 6 || i.len() == 8) && all_genie_chars(i@)
                ==> (r matches Ok(c) && c@ == genie_decode(i@)),
            match r {
                Ok(c) => genie_parse(i.len() as int, i@) == Ok::<GameGenieCodeView, GameGenieError>(c@),
                Err(e) => genie_parse(i.len() as int, i@) == Err::<GameGenieCodeView, GameGenieError>(e),
            },
    {
        if i.len() != 6 && i.len() != 8 {
            return Err(GameGenieError::InvalidLength);
        }
        let mut digits: Vec<u8> = Vec::new();
        for c in it: i.chars()
            invariant
                it.seq() == i@,
                i.len() == 6 || i.len() == 8,
                digits.len() == it.index(),
                forall|k: int| 0 <= k < it.index() ==> (#[trigger] genie_digit(i@[k])) is Some,
                forall|k: int| 0 <= k < it.index() ==> digits@[k] == #[trigger] digit_at(i@, k),
        {
            match letter_value(c) {
                Some(d) => digits.push(d),
                None => {
                    return Err(GameGenieError::InvalidCodeCharacters);
                },
            }
        }
        proof {
            assert(all_genie_chars(i@));
            lemma_genie_chars_ascii(i@);
            vstd::utf8::is_ascii_chars_encode_utf8(i@);
        }
        let code = i.to_owned();
        if digits.len() == 6 {
            let t0: u8 = (digits[2] & 8) | (digits[3] & 7);
            let t1: u8 = (digits[4] & 8) | (digits[5] & 7);
            let t2: u8 = (digits[1] & 8) | (digits[2] & 7);
            let t3: u8 = (digits[3] & 8) | (digits[4] & 7);
            let t4: u8 = (digits[0] & 8) | (digits[1] & 7);
            let t5: u8 = (digits[5] & 8) | (digits[0] & 7);
            let address: u16 = 0x8000u16 | ((t0 as u16) << 12u16) | ((t1 as u16) << 8u16) | ((
            t2 as u16) << 4u16) | (t3 as u16);
            let data: u8 = (t4 << 4u8) | t5;
            return Ok(GameGenieCode { code, target: address, new_value: data, check_value: None });
        } else {
            let t0: u8 = (digits[2] & 8) | (digits[3] & 7);
            let t1: u8 = (digits[4] & 8) | (digits[5] & 7);
            let t2: u8 = (digits[1] & 8) | (digits[2] & 7);
            let t3: u8 = (digits[3] & 8) | (digits[4] & 7);
            let t4: u8 = (digits[0] & 8) | (digits[1] & 7);
            let t5: u8 = (digits[7] & 8) | (digits[0] & 7);
            let t6: u8 = (digits[6] & 8) | (digits[7] & 7);
            let t7: u8 = (digits[5] & 8) | (digits[6] & 7);
            let address: u16 = 0x8000u16 | ((t0 as u16) << 12u16) | ((t1 as u16) << 8u16) | ((
            t2 as u16) << 4u16) | (t3 as u16);
            let data: u8 = (t4 << 4u8) | t5;
            let check: u8 = (t6 << 4u8) | t7;
            return Ok(
                GameGenieCode { code, target: address, new_value: data, check_value: Some(check) },
            );
        }
    }

    /// The text of the code.
    pub fn code(&self) -> (r: &str)
        ensures
            r@ == self@.code,
    {
        self.code.as_str()
    }

    /// The address that the code patches.
    pub fn target(&self) -> (r: u16)
        ensures
            r == self@.target,
    {
        self.target
    }

    /// The value that replaces the byte at the target address.
    pub fn new_value(&self) -> (r: u8)
        ensures
            r == self@.new_value,
    {
        self.new_value
    }

    /// The value the byte at the target address must have for the code to apply, if any.
    pub fn check_value(&self) -> (r: Option<u8>)
        ensures
            r == self@.check_value,
    {
        self.check_value
    }
}

/// Game genie letters are ascii characters.
proof fn lemma_genie_chars_ascii(s: Seq<char>)
    requires
        all_genie_chars(s),
    ensures
        vstd::utf8::is_ascii_chars(s),
{
    assert forall|k: int| 0 <= k < s.len() implies '\0' <= #[trigger] s[k] <= '\u{7f}' by {
        assert(genie_digit(s[k]) is Some);
    }
}


/// The upper case form of an ascii letter; any other character is itself.
pub open spec fn ascii_upper(c: char) -> char {
    if 'a' <= c <= 'z' {
        ((c as int) - 32) as char
    } else {
        c
    }
}

/// Two letters that are equal up to case have the same digit.
proof fn lemma_digit_case(c: char, d: char)
    requires
        ascii_upper(c) == ascii_upper(d),
    ensures
        genie_digit(c) == genie_digit(d),
{
}

/// Game genie codes are read without regard to case: two codes of six or eight characters
/// whose letters agree up to case are both accepted or both refused, and patch the same
/// address with the same value under the same check.
pub proof fn law_genie_case_insensitive(s: Seq<char>, t: Seq<char>)
    requires
        s.len() == 6 || s.len() == 8,
        s.len() == t.len(),
        forall|k: int| 0 <= k < s.len() ==> ascii_upper(#[trigger] s[k]) == ascii_upper(t[k]),
    ensures
        all_genie_chars(s) <==> all_genie_chars(t),
        genie_decode(s).target == genie_decode(t).target,
        genie_decode(s).new_value == genie_decode(t).new_value,
        genie_decode(s).check_value == genie_decode(t).check_value,
{
    assert forall|k: int| 0 <= k < s.len() implies genie_digit(s[k]) == genie_digit(t[k]) by {
        lemma_digit_case(s[k], t[k]);
    }
    assert(forall|k: int| 0 <= k < s.len() ==> #[trigger] digit_at(s, k) == digit_at(t, k));
}

/// Two character sequences that agree up to case take the same number of bytes in utf-8: the
/// characters where they differ are ascii letters, one byte each.
proof fn lemma_utf8_len_case(s: Seq<char>, t: Seq<char>)
    requires
        s.len() == t.len(),
        forall|k: int| 0 <= k < s.len() ==> ascii_upper(#[trigger] s[k]) == ascii_upper(t[k]),
    ensures
        vstd::utf8::encode_utf8(s).len() == vstd::utf8::encode_utf8(t).len(),
    decreases s.len(),
{
    if s.len() > 0 {
        assert forall|k: int| 0 <= k < s.drop_first().len() implies ascii_upper(
            #[trigger] s.drop_first()[k],
        ) == ascii_upper(t.drop_first()[k]) by {
            assert(ascii_upper(s[k + 1]) == ascii_upper(t[k + 1]));
        }
        lemma_utf8_len_case(s.drop_first(), t.drop_first());
        assert(ascii_upper(s[0]) == ascii_upper(t[0]));
        assert(s[0] == t[0] || ((s[0] as u32) <= 0x7f && (t[0] as u32) <= 0x7f));
    }
}

/// Reading a game genie code does not depend on the case of its letters: two texts whose
/// characters agree up to case have the same length in bytes, and reading them gives the same
/// error, or codes that patch the same address with the same value under the same check.
pub proof fn law_from_str_case_insensitive(i: &str, j: &str)
    requires
        i@.len() == j@.len(),
        forall|k: int| 0 <= k < i@.len() ==> ascii_upper(#[trigger] i@[k]) == ascii_upper(j@[k]),
    ensures
        i.len() == j.len(),
        genie_parse(i.len() as int, i@) is Ok <==> genie_parse(j.len() as int, j@) is Ok,
        genie_parse(i.len() as int, i@) matches Err(e) ==> genie_parse(j.len() as int, j@) == Err::<
            GameGenieCodeView,
            GameGenieError,
        >(e),
        genie_parse(i.len() as int, i@) matches Ok(a) ==> (genie_parse(j.len() as int, j@) matches Ok(b)
            && a.target == b.target && a.new_value == b.new_value && a.check_value == b.check_value),
{
    lemma_utf8_len_case(i@, j@);
    assert forall|k: int| 0 <= k < i@.len() implies genie_digit(i@[k]) == genie_digit(j@[k]) by {
        lemma_digit_case(i@[k], j@[k]);
    }
    if all_genie_chars(i@) {
        lemma_genie_chars_ascii(i@);
        vstd::utf8::is_ascii_chars_encode_utf8(i@);
        if i@.len() == 6 || i@.len() == 8 {
            law_genie_case_insensitive(i@, j@);
        }
    }
}

/// Two transposed nibbles, packed into a byte with the first one high.
proof fn lemma_pack(h1: u8, l1: u8, h2: u8, l2: u8)
    by (bit_vector)
    ensures
        ((h1 & 8) | (l1 & 7)) < 16,
        ((h2 & 8) | (l2 & 7)) < 16,
        ((h1 & 8) | (l1 & 7)) << 4u8 | ((h2 & 8) | (l2 & 7)) == ((h1 & 8) | (l1 & 7)) * 16 + ((h2
            & 8) | (l2 & 7)),
{
}

/// Four transposed nibbles, packed into an address at 0x8000 and above, the first one highest.
proof fn lemma_pack_address(a: u8, b: u8, c: u8, d: u8)
    by (bit_vector)
    requires
        a < 16,
        b < 16,
        c < 16,
        d < 16,
    ensures
        0x8000u16 | ((a as u16) << 12u16) | ((b as u16) << 8u16) | ((c as u16) << 4u16) | (d as u16)
            == (a % 8 + 8) * 4096 + b * 256 + c * 16 + d,
{
}

/// The address that a code patches lies at 0x8000 or above: from the highest nibble down, it is
/// made of the nibbles formed by bit 3 and bits 0 to 2 of letters three and four (with its top
/// bit always set), five and six, two and three, and four and five.
pub proof fn law_genie_address(s: Seq<char>)
    requires
        s.len() == 6 || s.len() == 8,
        all_genie_chars(s),
    ensures
        genie_decode(s).target as int == (((digit_at(s, 2) & 8) | (digit_at(s, 3) & 7)) as int % 8
            + 8) * 4096 + ((digit_at(s, 4) & 8) | (digit_at(s, 5) & 7)) as int * 256 + ((digit_at(s, 1)
            & 8) | (digit_at(s, 2) & 7)) as int * 16 + ((digit_at(s, 3) & 8) | (digit_at(s, 4) & 7))
            as int,
{
    lemma_pack(digit_at(s, 2), digit_at(s, 3), digit_at(s, 4), digit_at(s, 5));
    lemma_pack(digit_at(s, 1), digit_at(s, 2), digit_at(s, 3), digit_at(s, 4));
    lemma_pack_address(
        nibble(s, 2, 3),
        nibble(s, 4, 5),
        nibble(s, 1, 2),
        nibble(s, 3, 4),
    );
}

/// The bytes that a code patches in. The replacement value takes its high nibble from bit 3 of
/// the first letter and bits 0 to 2 of the second, and its low nibble from bit 3 of the last
/// letter (the sixth or the eighth) and bits 0 to 2 of the first. An eight letter code's compare
/// value takes its high nibble from bit 3 of the seventh letter and bits 0 to 2 of the eighth,
/// and its low nibble from bit 3 of the sixth and bits 0 to 2 of the seventh; a six letter code
/// has none.
pub proof fn law_genie_values(s: Seq<char>)
    requires
        s.len() == 6 || s.len() == 8,
        all_genie_chars(s),
    ensures
        genie_decode(s).new_value as int == ((digit_at(s, 0) & 8) | (digit_at(s, 1) & 7)) as int
            * 16 + ((digit_at(s, s.len() - 1) & 8) | (digit_at(s, 0) & 7)) as int,
        s.len() == 8 ==> genie_decode(s).check_value == Some(
            (((digit_at(s, 6) & 8) | (digit_at(s, 7) & 7)) as int * 16 + ((digit_at(s, 5) & 8) | (
            digit_at(s, 6) & 7)) as int) as u8,
        ),
        s.len() == 6 ==> genie_decode(s).check_value is None,
{
    lemma_pack(digit_at(s, 0), digit_at(s, 1), digit_at(s, s.len() - 1), digit_at(s, 0));
    if s.len() == 8 {
        lemma_pack(digit_at(s, 6), digit_at(s, 7), digit_at(s, 5), digit_at(s, 6));
    }
}

} // verus!
