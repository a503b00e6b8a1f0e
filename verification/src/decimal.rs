//! Decimal numbers as text: what a run of digits is worth, how an integer is
//! written, and the reading of a 32-bit integer the way the standard library
//! reads one.
use vstd::prelude::*;
use vstd::string::StringExecFns;

verus! {

/// Whether `c` is one of the ten ASCII digits.
pub open spec fn is_digit(c: char) -> bool {
    '0' <= c <= '9'
}

/// Whether `text` holds ASCII digits only.
pub open spec fn all_digits(text: Seq<char>) -> bool {
    forall|i: int| 0 <= i < text.len() ==> is_digit(#[trigger] text[i])
}

/// What the digit `c` is worth.
pub open spec fn digit_value(c: char) -> int {
    c as int - '0' as int
}

/// The digit that is worth `d`.
pub open spec fn digit_char(d: int) -> char {
    (d + '0' as int) as char
}

/// What a run of digits is worth, read as a decimal number. No digits are worth 0.
pub open spec fn decimal_value(digits: Seq<char>) -> nat
    decreases digits.len(),
{
    if digits.len() == 0 {
        0
    } else {
        (decimal_value(digits.drop_last()) * 10 + digit_value(digits.last())) as nat
    }
}

/// The digits of `n`, highest first, without leading zeros.
pub open spec fn decimal_text(n: nat) -> Seq<char>
    decreases n,
{
    if n < 10 {
        seq![digit_char(n as int)]
    } else {
        decimal_text(n / 10).push(digit_char((n % 10) as int))
    }
}

/// How the integer `n` is written: a minus sign for a negative one, then its digits.
pub open spec fn integer_text(n: int) -> Seq<char> {
    if n < 0 {
        seq!['-'] + decimal_text((-n) as nat)
    } else {
        decimal_text(n as nat)
    }
}

/// The integer that `text` stands for: an optional sign, then at least one
/// digit and nothing else. `None` for any other text, and for a number that no
/// `i32` holds.
pub open spec fn i32_from_text(text: Seq<char>) -> Option<i32> {
    let signed = text.len() > 0 && (text[0] == '-' || text[0] == '+');
    let digits = if signed {
        text.skip(1)
    } else {
        text
    };
    let value = if signed && text[0] == '-' {
        -(decimal_value(digits) as int)
    } else {
        decimal_value(digits) as int
    };
    if digits.len() > 0 && all_digits(digits) && i32::MIN <= value <= i32::MAX {
        Some(value as i32)
    } else {
        None
    }
}

/// The digits of a number are digits, and there is at least one.
pub proof fn lemma_decimal_text_is_digits(n: nat)
    ensures
        decimal_text(n).len() >= 1,
        all_digits(decimal_text(n)),
    decreases n,
{
    if n >= 10 {
        lemma_decimal_text_is_digits(n / 10);
        let head = decimal_text(n / 10);
        let last = digit_char((n % 10) as int);
        assert forall|i: int| 0 <= i < head.push(last).len() implies is_digit(
            #[trigger] head.push(last)[i],
        ) by {
            if i < head.len() {
                assert(head.push(last)[i] == head[i]);
            }
        }
    }
}

/// Reading what was written gives the number back.
pub proof fn lemma_decimal_round_trip(n: nat)
    ensures
        decimal_value(decimal_text(n)) == n,
    decreases n,
{
    if n < 10 {
        let text = seq![digit_char(n as int)];
        assert(text.drop_last() =~= Seq::<char>::empty());
        assert(decimal_value(text.drop_last()) == 0);
        assert(text.last() == digit_char(n as int));
    } else {
        lemma_decimal_round_trip(n / 10);
        let head = decimal_text(n / 10);
        let last = digit_char((n % 10) as int);
        assert(head.push(last).drop_last() =~= head);
        assert(head.push(last).last() == last);
    }
}

/// A run of digits is worth at least as much as any run it starts with.
pub proof fn lemma_decimal_value_grows(digits: Seq<char>, k: int)
    requires
        all_digits(digits),
        0 <= k <= digits.len(),
    ensures
        decimal_value(digits.take(k)) <= decimal_value(digits),
    decreases digits.len() - k,
{
    if k == digits.len() {
        assert(digits.take(k) =~= digits);
    } else {
        lemma_decimal_value_grows(digits, k + 1);
        let longer = digits.take(k + 1);
        assert(longer.drop_last() =~= digits.take(k));
        assert(longer.last() == digits[k]);
        assert(is_digit(digits[k]));
    }
}

/// The text of one digit.
fn digit_text(d: u8) -> (text: &'static str)
    requires
        d < 10,
    ensures
        text@ == seq![digit_char(d as int)],
{
    proof {
        reveal_strlit("0");
        reveal_strlit("1");
        reveal_strlit("2");
        reveal_strlit("3");
        reveal_strlit("4");
        reveal_strlit("5");
        reveal_strlit("6");
        reveal_strlit("7");
        reveal_strlit("8");
        reveal_strlit("9");
    }
    let text = if d == 0 {
        "0"
    } else if d == 1 {
        "1"
    } else if d == 2 {
        "2"
    } else if d == 3 {
        "3"
    } else if d == 4 {
        "4"
    } else if d == 5 {
        "5"
    } else if d == 6 {
        "6"
    } else if d == 7 {
        "7"
    } else if d == 8 {
        "8"
    } else {
        "9"
    };
    assert(text@ =~= seq![digit_char(d as int)]);
    text
}

/// The digits of `n`, lowest first.
fn digits_lowest_first(n: u32) -> (digits: Vec<u8>)
    ensures
        digits.len() >= 1,
        forall|i: int| 0 <= i < digits.len() ==> digits[i] < 10,
        decimal_text(n as nat) == Seq::new(
            digits.len() as nat,
            |i: int| digit_char(digits[digits.len() - 1 - i] as int),
        ),
    decreases n,
{
    if n < 10 {
        let mut digits: Vec<u8> = Vec::new();
        digits.push(n as u8);
        assert(decimal_text(n as nat) =~= Seq::new(
            digits.len() as nat,
            |i: int| digit_char(digits[digits.len() - 1 - i] as int),
        ));
        digits
    } else {
        let higher = digits_lowest_first(n / 10);
        let mut digits: Vec<u8> = Vec::new();
        digits.push((n % 10) as u8);
        let mut i: usize = 0;
        while i < higher.len()
            invariant
                i <= higher.len(),
                digits.len() == i + 1,
                digits[0] == (n % 10) as u8,
                forall|j: int| 0 <= j < higher.len() ==> higher[j] < 10,
                forall|j: int| 0 <= j < i ==> digits[j + 1] == higher[j],
            decreases higher.len() - i,
        {
            digits.push(higher[i]);
            i = i + 1;
        }
        assert forall|j: int| 0 <= j < digits.len() implies digits[j] < 10 by {
            if j > 0 {
                assert(digits[(j - 1) + 1] == higher[j - 1]);
            }
        }
        assert(decimal_text(n as nat) =~= Seq::new(
            digits.len() as nat,
            |i: int| digit_char(digits[digits.len() - 1 - i] as int),
        )) by {
            let head = decimal_text((n / 10) as nat);
            assert(decimal_text(n as nat) == head.push(digit_char((n % 10) as int)));
        }
        digits
    }
}

/// Writes `n` as the standard library formats an integer: a minus sign for a
/// negative number, then the decimal digits without leading zeros.
pub fn integer_to_string(n: i32) -> (text: String)
    ensures
        text@ == integer_text(n as int),
{
    let magnitude: u32 = if n < 0 {
        (-(n as i64)) as u32
    } else {
        n as u32
    };
    let digits = digits_lowest_first(magnitude);
    let mut text = String::new();
    if n < 0 {
        proof {
            reveal_strlit("-");
        }
        text.append("-");
        assert(text@ =~= seq!['-']);
    }
    let ghost sign = text@;
    let ghost written = decimal_text(magnitude as nat);
    let mut left: usize = digits.len();
    while left > 0
        invariant
            left <= digits.len(),
            forall|i: int| 0 <= i < digits.len() ==> digits[i] < 10,
            written == Seq::new(
                digits.len() as nat,
                |i: int| digit_char(digits[digits.len() - 1 - i] as int),
            ),
            text@ == sign + written.take(digits.len() - left),
        decreases left,
    {
        left = left - 1;
        let ghost before = text@;
        text.append(digit_text(digits[left]));
        assert(text@ =~= sign + written.take(digits.len() - left)) by {
            let k = digits.len() - left - 1;
            assert(written[k] == digit_char(digits[left as int] as int));
            assert(written.take(k + 1) =~= written.take(k).push(written[k]));
        }
    }
    assert(written.take(digits.len() as int) =~= written);
    text
}

/// Whether `text[from..to]` holds digits only.
pub(crate) fn digits_only(text: &Vec<char>, from: usize, to: usize) -> (all: bool)
    requires
        from <= to <= text.len(),
    ensures
        all == all_digits(text@.subrange(from as int, to as int)),
{
    let mut i: usize = from;
    while i < to
        invariant
            from <= i <= to <= text.len(),
            forall|j: int| from <= j < i ==> is_digit(#[trigger] text[j]),
        decreases to - i,
    {
        let c = text[i];
        if !(c >= '0' && c <= '9') {
            assert(!is_digit(text@.subrange(from as int, to as int)[i - from]));
            return false;
        }
        i = i + 1;
    }
    assert forall|j: int| 0 <= j < to - from implies is_digit(
        #[trigger] text@.subrange(from as int, to as int)[j],
    ) by {
        assert(is_digit(text[j + from]));
    }
    true
}

/// Reads the digits `text[from..to]` as a number that is taken negative where
/// `negative` says so. `None` where no `i32` holds the number.
pub(crate) fn digits_to_i32(
    text: &Vec<char>,
    from: usize,
    to: usize,
    negative: bool,
) -> (number: Option<i32>)
    requires
        from <= to <= text.len(),
        all_digits(text@.subrange(from as int, to as int)),
    ensures
        ({
            let worth = decimal_value(text@.subrange(from as int, to as int)) as int;
            let value = if negative {
                -worth
            } else {
                worth
            };
            number == if i32::MIN <= value <= i32::MAX {
                Some(value as i32)
            } else {
                None::<i32>
            }
        }),
{
    let ghost digits = text@.subrange(from as int, to as int);
    let mut worth: i64 = 0;
    let mut i: usize = from;
    assert(digits.take(0) =~= Seq::<char>::empty());
    while i < to
        invariant
            from <= i <= to <= text.len(),
            digits == text@.subrange(from as int, to as int),
            all_digits(digits),
            worth == decimal_value(digits.take(i - from)),
            0 <= worth <= 0x8000_0000,
        decreases to - i,
    {
        let c = text[i];
        proof {
            let longer = digits.take(i - from + 1);
            assert(longer.drop_last() =~= digits.take(i - from));
            assert(longer.last() == digits[i - from]);
            assert(is_digit(digits[i - from]));
            assert(digits[i - from] == c);
        }
        worth = worth * 10 + (c as i64 - 48);
        if worth > 0x8000_0000 {
            proof {
                lemma_decimal_value_grows(digits, i - from + 1);
            }
            return None;
        }
        i = i + 1;
    }
    assert(digits.take(to - from) =~= digits);
    if negative {
        Some((-worth) as i32)
    } else if worth <= 0x7fff_ffff {
        Some(worth as i32)
    } else {
        None
    }
}

/// Reads `text` as the standard library reads an `i32`: an optional sign, then
/// at least one digit and nothing else.
pub fn text_to_i32(text: &Vec<char>) -> (number: Option<i32>)
    ensures
        number == i32_from_text(text@),
{
    let len: usize = text.len();
    let signed = len > 0 && (text[0] == '-' || text[0] == '+');
    let from: usize = if signed {
        1
    } else {
        0
    };
    assert(text@.subrange(from as int, len as int) =~= if signed {
        text@.skip(1)
    } else {
        text@
    });
    if from == len || !digits_only(text, from, len) {
        return None;
    }
    digits_to_i32(text, from, len, signed && text[0] == '-')
}

} // verus!
