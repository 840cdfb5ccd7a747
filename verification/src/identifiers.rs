//! Random identifiers that stand for a device or a session: hexadecimal text
//! in three layouts, and a browser signature picked from a fixed list.

use vstd::prelude::*;
use crate::outside::random_below;

verus! {

/// The upper-case hexadecimal digit for a value below sixteen.
pub open spec fn upper_hex_digit_of(n: int) -> char {
    seq![
        '0',
        '1',
        '2',
        '3',
        '4',
        '5',
        '6',
        '7',
        '8',
        '9',
        'A',
        'B',
        'C',
        'D',
        'E',
        'F',
    ][n]
}

/// `c` is one of `0` to `9` or `A` to `F`.
pub open spec fn is_upper_hex_digit(c: char) -> bool {
    ('0' <= c && c <= '9') || ('A' <= c && c <= 'F')
}

/// Every character of `s` is an upper-case hexadecimal digit.
pub open spec fn all_upper_hex(s: Seq<char>) -> bool {
    forall|i: int| 0 <= i < s.len() ==> is_upper_hex_digit(#[trigger] s[i])
}

/// A value in upper-case hexadecimal without padding: one digit below
/// sixteen, two from there on.
pub open spec fn plain_hex(value: u8) -> Seq<char> {
    if value < 16 {
        seq![upper_hex_digit_of(value as int)]
    } else {
        seq![upper_hex_digit_of(value as int / 16), upper_hex_digit_of(value as int % 16)]
    }
}

/// The values in unpadded upper-case hexadecimal, one after the other.
pub open spec fn plain_hex_text(values: Seq<u8>) -> Seq<char>
    decreases values.len(),
{
    if values.len() == 0 {
        Seq::empty()
    } else {
        plain_hex_text(values.drop_last()) + plain_hex(values.last())
    }
}

/// The octets as two upper-case hexadecimal digits each, one pair after the
/// other.
pub open spec fn padded_hex_text(octets: Seq<u8>) -> Seq<char> {
    Seq::new(
        2 * octets.len(),
        |k: int|
            if k % 2 == 0 {
                upper_hex_digit_of(octets[k / 2] as int / 16)
            } else {
                upper_hex_digit_of(octets[k / 2] as int % 16)
            },
    )
}

/// The octets as two upper-case hexadecimal digits each, with a colon between
/// neighbouring pairs.
pub open spec fn colon_hex_text(octets: Seq<u8>) -> Seq<char> {
    Seq::new(
        if octets.len() == 0 {
            0nat
        } else {
            (3 * octets.len() - 1) as nat
        },
        |k: int|
            if k % 3 == 2 {
                ':'
            } else if k % 3 == 0 {
                upper_hex_digit_of(octets[k / 3] as int / 16)
            } else {
                upper_hex_digit_of(octets[k / 3] as int % 16)
            },
    )
}

/// Six groups of two upper-case hexadecimal digits, a colon between
/// neighbouring groups.
pub open spec fn is_mac_style(s: Seq<char>) -> bool {
    &&& s.len() == 17
    &&& forall|k: int|
        0 <= k < 17 ==> if k % 3 == 2 {
            #[trigger] s[k] == ':'
        } else {
            is_upper_hex_digit(s[k])
        }
}

/// The number of browser signatures to pick from.
pub open spec fn user_agent_count() -> int {
    5
}

/// The browser signature at `choice`.
pub open spec fn user_agent_text(choice: int) -> Seq<char> {
    if choice == 0 {
        "Mozilla/5.0 (Windows NT 10.0; Win64; x64) AppleWebKit/537.36 (KHTML, like Gecko) Chrome/91.0.4472.124 Safari/537.36"@
    } else if choice == 1 {
        "Mozilla/5.0 (Windows NT 10.0; Win64; x64) AppleWebKit/537.36 (KHTML, like Gecko) Chrome/92.0.4515.107 Safari/537.36"@
    } else if choice == 2 {
        "Mozilla/5.0 (Windows NT 10.0; Win64; x64) AppleWebKit/537.36 (KHTML, like Gecko) Chrome/93.0.4577.63 Safari/537.36"@
    } else if choice == 3 {
        "Mozilla/5.0 (Windows NT 10.0; Win64; x64) AppleWebKit/537.36 (KHTML, like Gecko) Chrome/94.0.4606.81 Safari/537.36"@
    } else {
        "Mozilla/5.0 (Windows NT 10.0; Win64; x64) AppleWebKit/537.36 (KHTML, like Gecko) Chrome/95.0.4638.54 Safari/537.36"@
    }
}

/// `s` is one of the browser signatures.
pub open spec fn is_user_agent(s: Seq<char>) -> bool {
    exists|choice: int| 0 <= choice < user_agent_count() && s == user_agent_text(choice)
}

/// Every upper-case hexadecimal digit is one.
pub proof fn lemma_digit_is_upper_hex(n: int)
    requires
        0 <= n < 16,
    ensures
        is_upper_hex_digit(upper_hex_digit_of(n)),
{
}

/// Padded hexadecimal text has two digits for each octet and nothing else.
pub proof fn lemma_padded_hex_shape(octets: Seq<u8>)
    ensures
        padded_hex_text(octets).len() == 2 * octets.len(),
        all_upper_hex(padded_hex_text(octets)),
{
    let text = padded_hex_text(octets);
    assert forall|k: int| 0 <= k < text.len() implies is_upper_hex_digit(#[trigger] text[k]) by {
        lemma_digit_is_upper_hex(octets[k / 2] as int / 16);
        lemma_digit_is_upper_hex(octets[k / 2] as int % 16);
    }
}

/// Six octets with colons between them read as a MAC-style identifier.
pub proof fn lemma_colon_hex_is_mac_style(octets: Seq<u8>)
    requires
        octets.len() == 6,
    ensures
        is_mac_style(colon_hex_text(octets)),
{
    let text = colon_hex_text(octets);
    assert forall|k: int| 0 <= k < 17 implies if k % 3 == 2 {
        #[trigger] text[k] == ':'
    } else {
        is_upper_hex_digit(text[k])
    } by {
        lemma_digit_is_upper_hex(octets[k / 3] as int / 16);
        lemma_digit_is_upper_hex(octets[k / 3] as int % 16);
    }
}

/// Values below sixteen give one digit each in unpadded hexadecimal.
pub proof fn lemma_plain_hex_of_digits(values: Seq<u8>)
    requires
        forall|i: int| 0 <= i < values.len() ==> values[i] < 16,
    ensures
        plain_hex_text(values).len() == values.len(),
        all_upper_hex(plain_hex_text(values)),
    decreases values.len(),
{
    if values.len() > 0 {
        lemma_plain_hex_of_digits(values.drop_last());
        lemma_digit_is_upper_hex(values.last() as int);
    }
}

/// The upper-case hexadecimal digit for `n`.
pub fn upper_hex_digit(n: u8) -> (c: char)
    requires
        n < 16,
    ensures
        c == upper_hex_digit_of(n as int),
{
    match n {
        0 => '0',
        1 => '1',
        2 => '2',
        3 => '3',
        4 => '4',
        5 => '5',
        6 => '6',
        7 => '7',
        8 => '8',
        9 => '9',
        10 => 'A',
        11 => 'B',
        12 => 'C',
        13 => 'D',
        14 => 'E',
        _ => 'F',
    }
}

/// Writes each value in unpadded upper-case hexadecimal.
pub fn hex_of(values: &[u8]) -> (text: String)
    ensures
        text@ == plain_hex_text(values@),
{
    let mut text = String::new();
    let mut i: usize = 0;
    while i < values.len()
        invariant
            i <= values.len(),
            text@ == plain_hex_text(values@.take(i as int)),
        decreases values.len() - i,
    {
        let value = values[i];
        if value >= 16 {
            text.push(upper_hex_digit(value / 16));
            text.push(upper_hex_digit(value % 16));
        } else {
            text.push(upper_hex_digit(value));
        }
        i = i + 1;
        proof {
            let done = values@.take(i as int);
            assert(done.drop_last() =~= values@.take(i - 1));
            assert(done.last() == value);
            assert(text@ =~= plain_hex_text(done.drop_last()) + plain_hex(value));
        }
    }
    assert(values@.take(i as int) =~= values@);
    text
}

/// Writes each octet as two upper-case hexadecimal digits.
pub fn padded_hex_of(octets: &[u8]) -> (text: String)
    ensures
        text@ == padded_hex_text(octets@),
{
    let mut text = String::new();
    let mut i: usize = 0;
    while i < octets.len()
        invariant
            i <= octets.len(),
            text@ == padded_hex_text(octets@.take(i as int)),
        decreases octets.len() - i,
    {
        text.push(upper_hex_digit(octets[i] / 16));
        text.push(upper_hex_digit(octets[i] % 16));
        i = i + 1;
        assert(text@ =~= padded_hex_text(octets@.take(i as int)));
    }
    assert(octets@.take(i as int) =~= octets@);
    text
}

/// Writes each octet as two upper-case hexadecimal digits, with a colon
/// between neighbouring pairs.
pub fn mac_address_of(octets: &[u8]) -> (text: String)
    ensures
        text@ == colon_hex_text(octets@),
{
    let mut text = String::new();
    let mut i: usize = 0;
    while i < octets.len()
        invariant
            i <= octets.len(),
            text@ == colon_hex_text(octets@.take(i as int)),
        decreases octets.len() - i,
    {
        if i > 0 {
            text.push(':');
        }
        text.push(upper_hex_digit(octets[i] / 16));
        text.push(upper_hex_digit(octets[i] % 16));
        i = i + 1;
        assert(text@ =~= colon_hex_text(octets@.take(i as int)));
    }
    assert(octets@.take(i as int) =~= octets@);
    text
}

/// Draws `count` numbers below `bound`.
fn random_values(count: usize, bound: usize) -> (values: Vec<u8>)
    requires
        0 < bound <= 256,
    ensures
        values@.len() == count,
        forall|i: int| 0 <= i < count ==> values@[i] < bound,
{
    let mut values: Vec<u8> = Vec::new();
    let mut i: usize = 0;
    while i < count
        invariant
            i <= count,
            0 < bound <= 256,
            values@.len() == i,
            forall|j: int| 0 <= j < i ==> values@[j] < bound,
        decreases count - i,
    {
        let drawn: usize = random_below(bound);
        values.push(drawn as u8);
        i = i + 1;
    }
    values
}

/// A random MAC-style device identifier: six random octets in upper-case
/// hexadecimal, colons between them.
pub fn generate_random_mac_address() -> (mac: String)
    ensures
        is_mac_style(mac@),
        exists|octets: Seq<u8>| octets.len() == 6 && mac@ == colon_hex_text(octets),
{
    let octets = random_values(6, 256);
    proof {
        lemma_colon_hex_is_mac_style(octets@);
    }
    mac_address_of(octets.as_slice())
}

/// A random session identifier: sixteen random octets as thirty-two
/// upper-case hexadecimal digits.
pub fn generate_rid() -> (rid: String)
    ensures
        rid@.len() == 32,
        all_upper_hex(rid@),
{
    let octets = random_values(16, 256);
    proof {
        lemma_padded_hex_shape(octets@);
    }
    padded_hex_of(octets.as_slice())
}

/// A random string of `length` upper-case hexadecimal digits.
pub fn generate_random_hex(length: usize) -> (hex: String)
    ensures
        hex@.len() == length,
        all_upper_hex(hex@),
{
    let digits = random_values(length, 16);
    proof {
        lemma_plain_hex_of_digits(digits@);
    }
    hex_of(digits.as_slice())
}

/// The browser signature at `choice`.
pub fn user_agent_at(choice: usize) -> (agent: &'static str)
    requires
        choice < user_agent_count(),
    ensures
        agent@ == user_agent_text(choice as int),
{
    if choice == 0 {
        "Mozilla/5.0 (Windows NT 10.0; Win64; x64) AppleWebKit/537.36 (KHTML, like Gecko) Chrome/91.0.4472.124 Safari/537.36"
    } else if choice == 1 {
        "Mozilla/5.0 (Windows NT 10.0; Win64; x64) AppleWebKit/537.36 (KHTML, like Gecko) Chrome/92.0.4515.107 Safari/537.36"
    } else if choice == 2 {
        "Mozilla/5.0 (Windows NT 10.0; Win64; x64) AppleWebKit/537.36 (KHTML, like Gecko) Chrome/93.0.4577.63 Safari/537.36"
    } else if choice == 3 {
        "Mozilla/5.0 (Windows NT 10.0; Win64; x64) AppleWebKit/537.36 (KHTML, like Gecko) Chrome/94.0.4606.81 Safari/537.36"
    } else {
        "Mozilla/5.0 (Windows NT 10.0; Win64; x64) AppleWebKit/537.36 (KHTML, like Gecko) Chrome/95.0.4638.54 Safari/537.36"
    }
}

/// One of the browser signatures, picked at random.
pub fn generate_random_user_agent() -> (agent: String)
    ensures
        is_user_agent(agent@),
{
    let choice = random_below(5);
    user_agent_at(choice).to_owned()
}

} // verus!
