//! A line of the display: text in a buffer of fixed capacity.

use vstd::prelude::*;

verus! {

/// Bytes that a line has room for.
pub const LINE_CAPACITY: usize = 32;

/// `heapless::String`, text of fixed capacity, as it stands in its crate.
#[verifier::external_type_specification]
#[verifier::external_body]
pub struct ExHeaplessString<const N: usize>(heapless::String<N>);

/// The text that a line holds.
pub uninterp spec fn text(line: heapless::String<32>) -> Seq<char>;

/// Calls `heapless::String::new`. Claimed: the line is empty.
#[verifier::external_body]
fn empty_line() -> (line: heapless::String<32>)
    ensures
        text(line) == Seq::<char>::empty(),
{
    heapless::String::new()
}

/// Calls `heapless::String::push_str`. Claimed: the piece is put at the end of the
/// line when the line's capacity of 32 bytes has room for all of it; otherwise the
/// line stays as it is, and the call fails.
#[verifier::external_body]
fn push_piece(line: &mut heapless::String<32>, piece: &str) -> (pushed: Result<(), ()>)
    ensures
        vstd::utf8::encode_utf8(text(*old(line))).len() + vstd::utf8::encode_utf8(piece@).len() <= 32 ==> {
            &&& pushed is Ok
            &&& text(*final(line)) == text(*old(line)) + piece@
        },
        vstd::utf8::encode_utf8(text(*old(line))).len() + vstd::utf8::encode_utf8(piece@).len() > 32 ==> {
            &&& pushed is Err
            &&& text(*final(line)) == text(*old(line))
        },
{
    line.push_str(piece)
}

/// The character of a decimal digit.
pub open spec fn digit(d: nat) -> char {
    ('0' as nat + d) as char
}

/// `n` in decimal, without leading zeros.
pub open spec fn decimal(n: nat) -> Seq<char>
    decreases n,
{
    if n < 10 {
        seq![digit(n)]
    } else {
        decimal(n / 10).push(digit(n % 10))
    }
}

/// `v` in decimal, with a minus sign when it is negative.
pub open spec fn signed_decimal(v: int) -> Seq<char> {
    if v < 0 {
        seq!['-'] + decimal((-v) as nat)
    } else {
        decimal(v as nat)
    }
}

/// A line of plain text: one byte for each character.
pub open spec fn is_plain(line: heapless::String<32>) -> bool {
    vstd::utf8::is_ascii_chars(text(line))
}

/// A line with nothing in it.
pub(crate) fn start() -> (line: heapless::String<32>)
    ensures
        text(line) == Seq::<char>::empty(),
        is_plain(line),
{
    empty_line()
}

/// Puts a piece of plain text at the end of a line that has room for it.
pub(crate) fn append(line: &mut heapless::String<32>, piece: &str)
    requires
        is_plain(*old(line)),
        vstd::utf8::is_ascii_chars(piece@),
        text(*old(line)).len() + piece@.len() <= LINE_CAPACITY,
    ensures
        text(*final(line)) == text(*old(line)) + piece@,
        is_plain(*final(line)),
{
    proof {
        vstd::utf8::is_ascii_chars_encode_utf8(text(*line));
        vstd::utf8::is_ascii_chars_encode_utf8(piece@);
    }
    let _ = push_piece(line, piece);
}

/// A decimal digit as text.
fn digit_text(d: u32) -> (piece: &'static str)
    requires
        d < 10,
    ensures
        piece@ == seq![digit(d as nat)],
{
    proof {
        reveal_strlit("0");
        reveal_strlit("1");
        reveal_strlit("2");
        reveal_strlit("3");
        reveal_strlit("4");
        reveal_strlit("5");
        reveal_strlit("6");
        reveal_strlit("7");
        reveal_strlit("8");
        reveal_strlit("9");
    }
    let piece: &'static str = match d {
        0 => "0",
        1 => "1",
        2 => "2",
        3 => "3",
        4 => "4",
        5 => "5",
        6 => "6",
        7 => "7",
        8 => "8",
        _ => "9",
    };
    assert(piece@ =~= seq![digit(d as nat)]);
    piece
}

/// A decimal number is plain text, and short when the number is small.
proof fn lemma_decimal(n: nat)
    ensures
        vstd::utf8::is_ascii_chars(decimal(n)),
        1 <= decimal(n).len(),
        n < 10 ==> decimal(n).len() == 1,
        n < 100 ==> decimal(n).len() <= 2,
        n < 1_000 ==> decimal(n).len() <= 3,
        n < 10_000 ==> decimal(n).len() <= 4,
        n < 100_000 ==> decimal(n).len() <= 5,
        n < 1_000_000 ==> decimal(n).len() <= 6,
        n < 10_000_000 ==> decimal(n).len() <= 7,
        n < 100_000_000 ==> decimal(n).len() <= 8,
        n < 1_000_000_000 ==> decimal(n).len() <= 9,
        n < 10_000_000_000 ==> decimal(n).len() <= 10,
    decreases n,
{
    if n >= 10 {
        lemma_decimal(n / 10);
    }
}

/// How many characters numbers of the display take at most.
pub(crate) proof fn lemma_decimal_lengths(n: nat)
    ensures
        n < 10 ==> decimal(n).len() == 1,
        n < 1_000 ==> decimal(n).len() <= 3,
        n < 10_000_000_000 ==> decimal(n).len() <= 10,
        vstd::utf8::is_ascii_chars(decimal(n)),
{
    lemma_decimal(n);
}

/// Puts a number at the end of a line that has room for it.
pub(crate) fn append_decimal(line: &mut heapless::String<32>, n: u32)
    requires
        is_plain(*old(line)),
        text(*old(line)).len() + decimal(n as nat).len() <= LINE_CAPACITY,
    ensures
        text(*final(line)) == text(*old(line)) + decimal(n as nat),
        is_plain(*final(line)),
    decreases n,
{
    let ghost before = text(*line);
    if n >= 10 {
        append_decimal(line, n / 10);
    }
    let piece: &'static str = digit_text(n % 10);
    append(line, piece);
    assert(text(*line) =~= before + decimal(n as nat));
}

/// Puts a signed number at the end of a line that has room for it.
pub(crate) fn append_signed(line: &mut heapless::String<32>, v: i32)
    requires
        is_plain(*old(line)),
        text(*old(line)).len() + signed_decimal(v as int).len() <= LINE_CAPACITY,
    ensures
        text(*final(line)) == text(*old(line)) + signed_decimal(v as int),
        is_plain(*final(line)),
{
    let ghost before = text(*line);
    if v < 0 {
        proof {
            reveal_strlit("-");
        }
        assert("-"@ =~= seq!['-']);
        append(line, "-");
        let size: i64 = -(v as i64);
        append_decimal(line, size as u32);
        assert(text(*line) =~= before + signed_decimal(v as int));
    } else {
        append_decimal(line, v as u32);
    }
}

/// The number that decimal digits say.
pub open spec fn number_of(digits: Seq<char>) -> int
    decreases digits.len(),
{
    if digits.len() == 0 {
        0
    } else {
        10 * number_of(digits.drop_last()) + (digits.last() as int - '0' as int)
    }
}

/// A number in decimal reads back as that number. It is made of digits alone, and does
/// not start with a zero unless it is zero.
pub proof fn law_decimal_reads_back(n: nat)
    ensures
        number_of(decimal(n)) == n,
        decimal(n).len() >= 1,
        forall|i: int|
            0 <= i < decimal(n).len() ==> '0' as int <= #[trigger] decimal(n)[i] as int
                <= '9' as int,
        n > 0 ==> decimal(n)[0] != '0',
        n == 0 ==> decimal(n) == seq!['0'],
    decreases n,
{
    reveal_with_fuel(number_of, 2);
    if n >= 10 {
        law_decimal_reads_back(n / 10);
        assert(decimal(n).drop_last() =~= decimal(n / 10));
        assert(decimal(n)[0] == decimal(n / 10)[0]);
        assert forall|i: int| 0 <= i < decimal(n).len() implies '0' as int <= #[trigger] decimal(
            n,
        )[i] as int <= '9' as int by {
            if i < decimal(n / 10).len() {
                assert(decimal(n)[i] == decimal(n / 10)[i]);
            }
        }
    } else {
        assert(seq![digit(n)].drop_last() =~= Seq::<char>::empty());
    }
}

/// A negative number is a minus sign and its size; any other is its size alone.
pub proof fn law_signed_decimal_reads_back(v: int)
    ensures
        v >= 0 ==> number_of(signed_decimal(v)) == v,
        v < 0 ==> signed_decimal(v)[0] == '-' && number_of(signed_decimal(v).skip(1)) == -v,
{
    if v < 0 {
        law_decimal_reads_back((-v) as nat);
        assert(signed_decimal(v).skip(1) =~= decimal((-v) as nat));
    } else {
        law_decimal_reads_back(v as nat);
    }
}

} // verus!
