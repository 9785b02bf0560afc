//! Numbers, bytes and blocks as text.

#[allow(unused_imports)]
use crate::types::BlockHash;
use crate::types::{BlockId, BlockNumberOrTag};
use vstd::prelude::*;
use vstd::string::*;

verus! {

/// The digit of value `d`.
pub open spec fn digit(d: int) -> char {
    "0123456789abcdef"@[d]
}

/// The number `n` in the given base, without leading zeros.
pub open spec fn numeral(n: nat, base: nat) -> Seq<char>
    decreases n,
    when base >= 2
{
    if n < base {
        seq![digit(n as int)]
    } else {
        proof {
            assert(n / base < n) by (nonlinear_arith)
                requires
                    n >= base,
                    base >= 2,
            ;
        }
        numeral(n / base, base).push(digit((n % base) as int))
    }
}

/// The bytes as two hexadecimal digits each.
pub open spec fn hex_digits(bytes: Seq<u8>) -> Seq<char> {
    Seq::new(
        2 * bytes.len(),
        |i: int|
            if i % 2 == 0 {
                digit(bytes[i / 2] as int / 16)
            } else {
                digit(bytes[i / 2] as int % 16)
            },
    )
}

/// A block height or tag: the height in hexadecimal, or the name of the tag.
pub open spec fn height_text(height: BlockNumberOrTag) -> Seq<char> {
    match height {
        BlockNumberOrTag::Number(number) => "0x"@ + numeral(number as nat, 16),
        BlockNumberOrTag::Latest => "latest"@,
        BlockNumberOrTag::Finalized => "finalized"@,
        BlockNumberOrTag::Safe => "safe"@,
        BlockNumberOrTag::Earliest => "earliest"@,
        BlockNumberOrTag::Pending => "pending"@,
    }
}

/// A block by its hash, height or tag.
pub open spec fn block_id_text(id: BlockId) -> Seq<char> {
    match id {
        BlockId::Hash { hash, require_canonical } => (if require_canonical == Some(true) {
            "canonical hash 0x"@
        } else {
            "hash 0x"@
        }) + hex_digits(hash@),
        BlockId::Number(height) => height_text(height),
    }
}

/// The characters of the strings.
pub open spec fn views(strings: Seq<String>) -> Seq<Seq<char>> {
    strings.map_values(|string: String| string@)
}

/// The parts, one after the other, with the separator between them.
pub open spec fn joined(parts: Seq<Seq<char>>, separator: Seq<char>) -> Seq<char>
    decreases parts.len(),
{
    if parts.len() == 0 {
        Seq::empty()
    } else if parts.len() == 1 {
        parts[0]
    } else {
        joined(parts.drop_last(), separator) + separator + parts.last()
    }
}

/// Appends the parts, with the separator between them.
pub fn push_joined(text: &mut String, parts: &Vec<String>, separator: &str)
    ensures
        final(text)@ == old(text)@ + joined(views(parts@), separator@),
{
    let mut i: usize = 0;
    assert(text@ =~= old(text)@ + joined(views(parts@).take(0), separator@));
    while i < parts.len()
        invariant
            i <= parts.len(),
            text@ == old(text)@ + joined(views(parts@).take(i as int), separator@),
        decreases parts.len() - i,
    {
        if i > 0 {
            text.append(separator);
        }
        text.append(parts[i].as_str());
        assert(views(parts@).take(i + 1).drop_last() =~= views(parts@).take(i as int));
        assert(views(parts@).take(i + 1).last() == parts@[i as int]@);
        assert(text@ =~= old(text)@ + joined(views(parts@).take(i + 1), separator@));
        i = i + 1;
    }
    assert(views(parts@).take(i as int) =~= views(parts@));
}

/// Appends the digit of value `d`.
fn push_digit(text: &mut String, d: usize)
    requires
        d < 16,
    ensures
        final(text)@ == old(text)@.push(digit(d as int)),
{
    let digits = "0123456789abcdef";
    proof {
        reveal_strlit("0123456789abcdef");
    }
    assert(vstd::utf8::is_ascii_chars(digits@));
    text.append(digits.substring_ascii(d, d + 1));
    assert(text@ =~= old(text)@.push(digit(d as int)));
}

/// Appends the number `n` in the given base.
fn push_numeral(text: &mut String, n: u64, base: u64)
    requires
        2 <= base <= 16,
    ensures
        final(text)@ == old(text)@ + numeral(n as nat, base as nat),
    decreases n,
{
    if n < base {
        push_digit(text, n as usize);
    } else {
        assert(n / base < n) by (nonlinear_arith)
            requires
                n >= base,
                base >= 2,
        ;
        assert(n % base < 16);
        push_numeral(text, n / base, base);
        push_digit(text, (n % base) as usize);
    }
    assert(text@ =~= old(text)@ + numeral(n as nat, base as nat));
}

/// Appends the number `n` in decimal.
pub fn push_decimal(text: &mut String, n: u64)
    ensures
        final(text)@ == old(text)@ + numeral(n as nat, 10),
{
    push_numeral(text, n, 10);
}

/// Appends the bytes as two hexadecimal digits each.
pub fn push_hex(text: &mut String, bytes: &[u8])
    ensures
        final(text)@ == old(text)@ + hex_digits(bytes@),
{
    let mut i: usize = 0;
    assert(text@ =~= old(text)@ + hex_digits(bytes@.take(0)));
    while i < bytes.len()
        invariant
            i <= bytes.len(),
            text@ == old(text)@ + hex_digits(bytes@.take(i as int)),
        decreases bytes.len() - i,
    {
        let byte: u8 = bytes[i];
        push_digit(text, (byte / 16) as usize);
        push_digit(text, (byte % 16) as usize);
        let ghost done = hex_digits(bytes@.take(i + 1));
        assert(forall|j: int|
            0 <= j < 2 * i ==> hex_digits(bytes@.take(i as int))[j] == #[trigger] done[j]);
        assert(done[2 * i] == digit(byte as int / 16));
        assert(done[2 * i + 1] == digit(byte as int % 16));
        assert(text@ =~= old(text)@ + done);
        i = i + 1;
    }
    assert(bytes@.take(i as int) =~= bytes@);
}

/// Appends a block height or tag.
pub fn push_height(text: &mut String, height: BlockNumberOrTag)
    ensures
        final(text)@ == old(text)@ + height_text(height),
{
    match height {
        BlockNumberOrTag::Number(number) => {
            text.append("0x");
            push_numeral(text, number, 16);
        },
        BlockNumberOrTag::Latest => text.append("latest"),
        BlockNumberOrTag::Finalized => text.append("finalized"),
        BlockNumberOrTag::Safe => text.append("safe"),
        BlockNumberOrTag::Earliest => text.append("earliest"),
        BlockNumberOrTag::Pending => text.append("pending"),
    }
    assert(text@ =~= old(text)@ + height_text(height));
}

/// Appends a block by its hash, height or tag.
pub fn push_block_id(text: &mut String, id: &BlockId)
    ensures
        final(text)@ == old(text)@ + block_id_text(*id),
{
    match id {
        BlockId::Hash { hash, require_canonical } => {
            let canonical: bool = match require_canonical {
                Some(canonical) => *canonical,
                None => false,
            };
            if canonical {
                text.append("canonical hash 0x");
            } else {
                text.append("hash 0x");
            }
            push_hex(text, &hash.bytes);
        },
        BlockId::Number(height) => {
            push_height(text, *height);
        },
    }
    assert(text@ =~= old(text)@ + block_id_text(*id));
}

/// Different numbers have different texts.
pub proof fn numerals_differ(m: nat, n: nat, base: nat)
    requires
        2 <= base <= 16,
        numeral(m, base) == numeral(n, base),
    ensures
        m == n,
    decreases m,
{
    lemma_numeral_len(m, base);
    lemma_numeral_len(n, base);
    let a = numeral(m, base);
    if m >= base && n >= base {
        assert(a.drop_last() == numeral(m / base, base));
        assert(numeral(n, base).drop_last() == numeral(n / base, base));
        assert(a.last() == digit((m % base) as int));
        assert(a.last() == digit((n % base) as int));
        lemma_digits_differ((m % base) as int, (n % base) as int);
        assert(m / base < m) by (nonlinear_arith)
            requires
                m >= base,
                base >= 2,
        ;
        numerals_differ(m / base, n / base, base);
        assert(m == base * (m / base) + m % base) by (nonlinear_arith)
            requires
                base >= 2,
        ;
        assert(n == base * (n / base) + n % base) by (nonlinear_arith)
            requires
                base >= 2,
        ;
    } else if m < base && n < base {
        assert(a[0] == digit(m as int));
        assert(a[0] == digit(n as int));
        lemma_digits_differ(m as int, n as int);
    }
}

proof fn lemma_numeral_len(n: nat, base: nat)
    requires
        2 <= base <= 16,
    ensures
        numeral(n, base).len() >= 1,
        n >= base ==> numeral(n, base).len() >= 2,
    decreases n,
{
    if n >= base {
        assert(n / base < n) by (nonlinear_arith)
            requires
                n >= base,
                base >= 2,
        ;
        lemma_numeral_len(n / base, base);
    }
}

proof fn lemma_digits_differ(a: int, b: int)
    requires
        0 <= a < 16,
        0 <= b < 16,
        digit(a) == digit(b),
    ensures
        a == b,
{
    reveal_strlit("0123456789abcdef");
}

/// The value of a digit, by its place among the characters.
pub open spec fn digit_value(c: char) -> int {
    if c as int <= '9' as int {
        c as int - '0' as int
    } else {
        c as int - 'a' as int + 10
    }
}

/// The value of a row of digits, read from the left.
pub open spec fn numeral_value(digits: Seq<char>, base: nat) -> int
    decreases digits.len(),
{
    if digits.len() == 0 {
        0
    } else {
        numeral_value(digits.drop_last(), base) * base + digit_value(digits.last())
    }
}

proof fn lemma_digit_value(d: int)
    requires
        0 <= d < 16,
    ensures
        digit_value(digit(d)) == d,
        d > 0 ==> digit(d) != '0',
{
    reveal_strlit("0123456789abcdef");
}

/// Whoever reads the text of a number gets the number back, and the text has no leading zeros.
pub proof fn numeral_reads_back(n: nat, base: nat)
    requires
        2 <= base <= 16,
    ensures
        numeral_value(numeral(n, base), base) == n,
        numeral(n, base).len() >= 1,
        n > 0 ==> numeral(n, base)[0] != '0',
    decreases n,
{
    let digits = numeral(n, base);
    if n < base {
        lemma_digit_value(n as int);
        assert(digits.drop_last() =~= Seq::empty());
        assert(numeral_value(Seq::empty(), base) == 0);
        assert(0 * base == 0);
    } else {
        assert(n / base < n && n / base > 0) by (nonlinear_arith)
            requires
                n >= base,
                base >= 2,
        ;
        assert(n == (n / base) * base + n % base && n % base < base) by (nonlinear_arith)
            requires
                base >= 2,
        ;
        numeral_reads_back(n / base, base);
        lemma_digit_value((n % base) as int);
        assert(digits.drop_last() =~= numeral(n / base, base));
        assert(digits.last() == digit((n % base) as int));
        assert(digits[0] == numeral(n / base, base)[0]);
    }
}

/// Whoever reads the digits of bytes two by two gets the bytes back, in order.
pub proof fn hex_digits_read_back(bytes: Seq<u8>, i: int)
    requires
        0 <= i < bytes.len(),
    ensures
        hex_digits(bytes).len() == 2 * bytes.len(),
        digit_value(hex_digits(bytes)[2 * i]) * 16 + digit_value(hex_digits(bytes)[2 * i + 1])
            == bytes[i],
{
    lemma_digit_value(bytes[i] as int / 16);
    lemma_digit_value(bytes[i] as int % 16);
}

/// A height is told in hexadecimal, and a tag by its name.
pub proof fn heights_are_named(number: u64)
    ensures
        height_text(BlockNumberOrTag::Number(number)).take(2) == "0x"@,
        numeral_value(height_text(BlockNumberOrTag::Number(number)).skip(2), 16) == number,
        height_text(BlockNumberOrTag::Latest) == "latest"@,
        height_text(BlockNumberOrTag::Finalized) == "finalized"@,
        height_text(BlockNumberOrTag::Safe) == "safe"@,
        height_text(BlockNumberOrTag::Earliest) == "earliest"@,
        height_text(BlockNumberOrTag::Pending) == "pending"@,
{
    reveal_strlit("0x");
    let words = height_text(BlockNumberOrTag::Number(number));
    assert(words.take(2) =~= "0x"@);
    assert(words.skip(2) =~= numeral(number as nat, 16));
    numeral_reads_back(number as nat, 16);
}

/// Parts are put one behind the other, and between two of them stands the separator.
pub proof fn parts_are_joined_in_order(
    parts: Seq<Seq<char>>,
    part: Seq<char>,
    separator: Seq<char>,
)
    ensures
        joined(Seq::empty(), separator).len() == 0,
        joined(seq![part], separator) == part,
        parts.len() > 0 ==> joined(parts.push(part), separator) == joined(parts, separator)
            + separator + part,
{
    if parts.len() > 0 {
        assert(parts.push(part).drop_last() =~= parts);
    }
}

/// A block is told by its hash in hexadecimal, with the word that says so where it must be on the
/// chain; or else by its height or tag.
pub proof fn blocks_are_named(hash: BlockHash, height: BlockNumberOrTag)
    ensures
        ({
            let by_hash = |canonical: Option<bool>|
                block_id_text(BlockId::Hash { hash, require_canonical: canonical });
            &&& by_hash(None) == "hash 0x"@ + hex_digits(hash@)
            &&& by_hash(Some(false)) == "hash 0x"@ + hex_digits(hash@)
            &&& by_hash(Some(true)) == "canonical hash 0x"@ + hex_digits(hash@)
        }),
        block_id_text(BlockId::Number(height)) == height_text(height),
{
}

} // verus!
