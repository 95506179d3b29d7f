//! Identifiers of schemas, relations and objects.
//!
//! Every identifier is a UUID, held as its 128-bit big-endian value. Its text
//! form is the lower-case hyphenated one (`67e55044-10b1-426f-9247-bb680e5fe0c8`);
//! the parser also accepts the simple, braced and URN forms, in either case.
use vstd::prelude::*;

verus! {

/// `16` raised to `e`.
pub open spec fn pow16(e: nat) -> nat
    decreases e,
{
    if e == 0 {
        1
    } else {
        16 * pow16((e - 1) as nat)
    }
}

/// The value of a hexadecimal digit, in either case.
pub open spec fn hex_digit_value(c: char) -> Option<int> {
    let n = c as int;
    if 48 <= n <= 57 {
        Some(n - 48)
    } else if 97 <= n <= 102 {
        Some(n - 87)
    } else if 65 <= n <= 70 {
        Some(n - 55)
    } else {
        None
    }
}

/// The lower-case hexadecimal digit of `d` (for `0 <= d < 16`).
pub open spec fn lower_hex_char(d: int) -> char {
    if d < 10 {
        (48 + d) as char
    } else {
        (87 + d) as char
    }
}

/// The value of a sequence of hexadecimal digits, most significant first.
pub open spec fn hex_value(s: Seq<char>) -> Option<int>
    decreases s.len(),
{
    if s.len() == 0 {
        Some(0)
    } else {
        match (hex_value(s.drop_last()), hex_digit_value(s.last())) {
            (Some(high), Some(d)) => Some(high * 16 + d),
            _ => None,
        }
    }
}

/// Digit `j` (0 is the most significant) of the 32 hexadecimal digits of `v`.
pub open spec fn nibble(v: u128, j: int) -> int {
    ((v as int) / (pow16((31 - j) as nat) as int)) % 16
}

/// Position among the 32 digits of character `i` of the hyphenated form.
pub open spec fn digit_index(i: int) -> int {
    if i < 8 {
        i
    } else if i < 13 {
        i - 1
    } else if i < 18 {
        i - 2
    } else if i < 23 {
        i - 3
    } else {
        i - 4
    }
}

/// Whether character `i` of the hyphenated form is a hyphen.
pub open spec fn is_hyphen_position(i: int) -> bool {
    i == 8 || i == 13 || i == 18 || i == 23
}

/// The lower-case hyphenated text of the UUID whose value is `v`.
pub open spec fn uuid_text(v: u128) -> Seq<char> {
    Seq::new(
        36,
        |i: int|
            if is_hyphen_position(i) {
                '-'
            } else {
                lower_hex_char(nibble(v, digit_index(i)))
            },
    )
}

/// The 32 digits of a hyphenated text, without its four hyphens, if the hyphens
/// stand where they belong.
pub open spec fn hyphenated_digits(s: Seq<char>) -> Option<Seq<char>> {
    if s.len() == 36 && s[8] == '-' && s[13] == '-' && s[18] == '-' && s[23] == '-' {
        Some(
            s.subrange(0, 8) + s.subrange(9, 13) + s.subrange(14, 18) + s.subrange(19, 23)
                + s.subrange(24, 36),
        )
    } else {
        None
    }
}

/// The value of a hyphenated text.
pub open spec fn hyphenated_value(s: Seq<char>) -> Option<int> {
    match hyphenated_digits(s) {
        Some(digits) => hex_value(digits),
        None => None,
    }
}

/// A character with ASCII upper-case letters turned to lower case.
pub open spec fn ascii_lower(c: char) -> char {
    if 65 <= c as int <= 90 {
        ((c as int) + 32) as char
    } else {
        c
    }
}

/// Whether `s` starts with `urn:uuid:`, letters in either case.
pub open spec fn has_urn_prefix(s: Seq<char>) -> bool {
    &&& s.len() >= 9
    &&& forall|i: int|
        0 <= i < 9 ==> #[trigger] ascii_lower(s[i]) == seq!['u', 'r', 'n', ':', 'u', 'u', 'i', 'd', ':'][i]
}

/// Whether every character of `s` is ASCII.
pub open spec fn all_ascii(s: Seq<char>) -> bool {
    forall|i: int| 0 <= i < s.len() ==> (#[trigger] s[i]) as int <= 127
}

/// The value of a UUID text: 32 digits (simple), 36 characters (hyphenated),
/// the hyphenated form in braces, or `urn:uuid:` and the hyphenated form.
/// Any other text is no UUID.
pub open spec fn uuid_value_of_text(s: Seq<char>) -> Option<u128> {
    let value = if !all_ascii(s) {
        None
    } else if s.len() == 32 {
        hex_value(s)
    } else if s.len() == 36 {
        hyphenated_value(s)
    } else if s.len() == 38 && s[0] == '{' && s[37] == '}' {
        hyphenated_value(s.subrange(1, 37))
    } else if s.len() == 45 && has_urn_prefix(s) {
        hyphenated_value(s.subrange(9, 45))
    } else {
        None
    };
    match value {
        Some(v) => Some(v as u128),
        None => None,
    }
}

/// Formats a UUID value with `uuid::Uuid`'s `Display`.
///
/// Trusted: `Uuid::from_u128(v).to_string()` writes the lower-case hyphenated
/// form of the big-endian value `v`, as the crate's formatter does.
#[verifier::external_body]
fn format_uuid(v: u128) -> (text: String)
    ensures
        text@ == uuid_text(v),
{
    uuid::Uuid::from_u128(v).to_string()
}

/// Parses a UUID text with `uuid::Uuid::parse_str`.
///
/// Trusted: the crate accepts exactly the simple, hyphenated, braced and URN
/// forms of ASCII hexadecimal digits (either case) and yields their big-endian
/// value, as its parser shows.
#[verifier::external_body]
fn parse_uuid_text(text: &str) -> (value: Option<u128>)
    ensures
        value == uuid_value_of_text(text@),
{
    uuid::Uuid::parse_str(text).ok().map(|u| u.as_u128())
}

/// The hyphenated lower-case text of a UUID.
pub fn uuid_to_string(v: u128) -> (text: String)
    ensures
        text@ == uuid_text(v),
{
    format_uuid(v)
}

/// Parses a UUID from its text; `None` when the text is no UUID.
pub fn parse_uuid(text: &str) -> (value: Option<u128>)
    ensures
        value == uuid_value_of_text(text@),
{
    parse_uuid_text(text)
}

/// Whether every text of `texts` is a UUID.
pub open spec fn all_uuids(texts: Seq<Seq<char>>) -> bool {
    forall|i: int| 0 <= i < texts.len() ==> (#[trigger] uuid_value_of_text(texts[i])) is Some
}

/// The UUIDs of `texts`, each of which is a UUID.
pub open spec fn uuids_of(texts: Seq<Seq<char>>) -> Seq<u128> {
    Seq::new(texts.len(), |i: int| uuid_value_of_text(texts[i])->0)
}

/// The texts of `ids`.
pub open spec fn uuid_texts(ids: Seq<u128>) -> Seq<Seq<char>> {
    Seq::new(ids.len(), |i: int| uuid_text(ids[i]))
}

/// Parses every text of `texts`; on failure, the index of the first text that
/// is no UUID.
pub fn parse_uuid_list(texts: &Vec<String>) -> (r: Result<Vec<u128>, usize>)
    ensures
        match r {
            Ok(ids) => all_uuids(crate::text::string_views(texts@)) && ids@ == uuids_of(
                crate::text::string_views(texts@),
            ),
            Err(k) => k < texts.len() && uuid_value_of_text(texts@[k as int]@) is None && forall|
                i: int,
            |
                0 <= i < k ==> (#[trigger] uuid_value_of_text(texts@[i]@)) is Some,
        },
{
    let mut ids: Vec<u128> = Vec::new();
    let n = texts.len();
    let ghost views = crate::text::string_views(texts@);
    for i in 0..n
        invariant
            n == texts.len(),
            views == crate::text::string_views(texts@),
            ids@.len() == i,
            forall|j: int| 0 <= j < i ==> uuid_value_of_text(#[trigger] views[j]) == Some(ids@[j]),
    {
        match parse_uuid(texts[i].as_str()) {
            Some(v) => ids.push(v),
            None => {
                assert forall|j: int| 0 <= j < i implies (#[trigger] uuid_value_of_text(
                    texts@[j]@,
                )) is Some by {
                    assert(views[j] == texts@[j]@);
                }
                return Err(i);
            },
        }
    }
    assert(ids@ =~= uuids_of(views));
    Ok(ids)
}

/// The texts of `ids`, in order.
pub fn uuids_to_strings(ids: &Vec<u128>) -> (texts: Vec<String>)
    ensures
        crate::text::string_views(texts@) == uuid_texts(ids@),
{
    let mut texts: Vec<String> = Vec::new();
    let n = ids.len();
    for i in 0..n
        invariant
            n == ids.len(),
            texts@.len() == i,
            forall|j: int| 0 <= j < i ==> (#[trigger] texts@[j])@ == uuid_text(ids@[j]),
    {
        texts.push(uuid_to_string(ids[i]));
    }
    assert(crate::text::string_views(texts@) =~= uuid_texts(ids@));
    texts
}

/// Parsing the texts of a list of UUIDs gives back the list.
pub proof fn lemma_uuid_texts_roundtrip(ids: Seq<u128>)
    ensures
        all_uuids(uuid_texts(ids)),
        uuids_of(uuid_texts(ids)) == ids,
{
    assert forall|i: int| 0 <= i < ids.len() implies uuid_value_of_text(uuid_texts(ids)[i]) == Some(
        ids[i],
    ) by {
        lemma_uuid_text_roundtrip(ids[i]);
    }
    assert(uuids_of(uuid_texts(ids)) =~= ids);
}

/// The 32 lower-case digits of `v`, most significant first.
pub open spec fn uuid_digits(v: u128) -> Seq<char> {
    Seq::new(32, |j: int| lower_hex_char(nibble(v, j)))
}

proof fn lemma_hex_char_value(d: int)
    requires
        0 <= d < 16,
    ensures
        hex_digit_value(lower_hex_char(d)) == Some(d),
        (lower_hex_char(d) as int) <= 127,
{
}

proof fn lemma_pow16_positive(e: nat)
    ensures
        pow16(e) > 0,
    decreases e,
{
    if e > 0 {
        lemma_pow16_positive((e - 1) as nat);
    }
}

proof fn lemma_div_step(x: int, p: int)
    requires
        x >= 0,
        p > 0,
    ensures
        (x / (16 * p)) * 16 + (x / p) % 16 == x / p,
{
    vstd::arithmetic::div_mod::lemma_div_denominator(x, p, 16);
    vstd::arithmetic::mul::lemma_mul_is_commutative(p, 16);
    vstd::arithmetic::div_mod::lemma_fundamental_div_mod(x / p, 16);
}

proof fn lemma_digits_prefix_value(v: u128, k: int)
    requires
        0 <= k <= 32,
    ensures
        hex_value(uuid_digits(v).take(k)) == Some((v as int) / (pow16((32 - k) as nat) as int)),
    decreases k,
{
    let ds = uuid_digits(v);
    if k == 0 {
        assert(ds.take(0) =~= Seq::<char>::empty());
        assert(pow16(32) == 0x1_0000_0000_0000_0000_0000_0000_0000_0000) by {
            reveal_with_fuel(pow16, 33);
        }
        vstd::arithmetic::div_mod::lemma_basic_div(v as int, pow16(32) as int);
    } else {
        lemma_digits_prefix_value(v, k - 1);
        let e = (32 - k) as nat;
        let p = pow16(e) as int;
        lemma_pow16_positive(e);
        let d = ((v as int) / p) % 16;
        assert(0 <= d < 16);
        lemma_hex_char_value(d);
        assert(ds.take(k).drop_last() =~= ds.take(k - 1));
        assert(ds.take(k).last() == lower_hex_char(d));
        assert(pow16((e + 1) as nat) == 16 * pow16(e));
        assert((32 - (k - 1)) as nat == (e + 1) as nat);
        lemma_div_step(v as int, p);
    }
}

/// Formatting a UUID and parsing the text gives back the UUID.
pub proof fn lemma_uuid_text_roundtrip(v: u128)
    ensures
        uuid_value_of_text(uuid_text(v)) == Some(v),
{
    let t = uuid_text(v);
    let ds = uuid_digits(v);
    assert forall|i: int| 0 <= i < t.len() implies (#[trigger] t[i]) as int <= 127 by {
        if !is_hyphen_position(i) {
            let j = digit_index(i);
            lemma_hex_char_value(nibble(v, j));
        }
    }
    assert(t[8] == '-' && t[13] == '-' && t[18] == '-' && t[23] == '-');
    let joined = t.subrange(0, 8) + t.subrange(9, 13) + t.subrange(14, 18) + t.subrange(19, 23)
        + t.subrange(24, 36);
    assert(joined =~= ds);
    lemma_digits_prefix_value(v, 32);
    assert(ds.take(32) =~= ds);
    assert(pow16(0) == 1);
    vstd::arithmetic::div_mod::lemma_basic_div(0, 1);
    vstd::arithmetic::div_mod::lemma_fundamental_div_mod(v as int, 1);
    assert((v as int) / 1 == v as int);
    assert(hex_value(ds) == Some(v as int));
}

} // verus!
