use vstd::prelude::*;
use vstd::string::*;

verus! {

pub open spec fn is_digit_char(c: char) -> bool {
    '0' <= c && c <= '9'
}

pub open spec fn digit_value(c: char) -> int {
    c as int - '0' as int
}

pub open spec fn all_digits(s: Seq<char>) -> bool {
    forall|i: int| 0 <= i < s.len() ==> is_digit_char(#[trigger] s[i])
}

/// The value of a string of decimal digits.
pub open spec fn decimal(s: Seq<char>) -> int
    decreases s.len(),
{
    if s.len() == 0 {
        0
    } else {
        decimal(s.drop_last()) * 10 + digit_value(s.last())
    }
}

/// The length of the run of digits that `s` starts with.
pub open spec fn digit_prefix_len(s: Seq<char>) -> int
    decreases s.len(),
{
    if s.len() == 0 || !is_digit_char(s[0]) {
        0
    } else {
        1 + digit_prefix_len(s.drop_first())
    }
}

/// `r` is an error with the message `msg`.
pub open spec fn fails_with<T>(r: Result<T, String>, msg: Seq<char>) -> bool {
    match r {
        Ok(_) => false,
        Err(e) => e@ == msg,
    }
}

/// The message for a character that is not a digit.
pub open spec fn not_a_digit(c: char) -> Seq<char> {
    seq![c] + " is not a digit"@
}

pub open spec fn out_of_range() -> Seq<char> {
    "Number out of range"@
}

pub open spec fn no_digits() -> Seq<char> {
    "No digits found"@
}

/// The value of a whole string of digits, or the message for it.
pub open spec fn number_spec(s: Seq<char>) -> Result<u32, Seq<char>> {
    let n = digit_prefix_len(s);
    if n < s.len() {
        Err(not_a_digit(s[n]))
    } else if decimal(s) > u32::MAX {
        Err(out_of_range())
    } else {
        Ok(decimal(s) as u32)
    }
}

pub open spec fn number_view(r: Result<Number, String>) -> Result<u32, Seq<char>> {
    match r {
        Ok(n) => Ok(n.0),
        Err(e) => Err(e@),
    }
}

pub proof fn lemma_digit_prefix(s: Seq<char>, i: int)
    requires
        0 <= i <= s.len(),
        forall|j: int| 0 <= j < i ==> is_digit_char(#[trigger] s[j]),
    ensures
        digit_prefix_len(s) == i + digit_prefix_len(s.subrange(i, s.len() as int)),
    decreases i,
{
    if i > 0 {
        let d = s.drop_first();
        assert forall|j: int| 0 <= j < i - 1 implies is_digit_char(#[trigger] d[j]) by {
            assert(d[j] == s[j + 1]);
        }
        lemma_digit_prefix(d, i - 1);
        assert(d.subrange(i - 1, d.len() as int) =~= s.subrange(i, s.len() as int));
    } else {
        assert(s.subrange(0, s.len() as int) =~= s);
    }
}

/// A decimal digit.
pub enum Digit {
    Zero,
    One,
    Two,
    Three,
    Four,
    Five,
    Six,
    Seven,
    Eight,
    Nine,
}

impl Digit {
    pub open spec fn spec_value(&self) -> int {
        match self {
            Digit::Zero => 0,
            Digit::One => 1,
            Digit::Two => 2,
            Digit::Three => 3,
            Digit::Four => 4,
            Digit::Five => 5,
            Digit::Six => 6,
            Digit::Seven => 7,
            Digit::Eight => 8,
            Digit::Nine => 9,
        }
    }

    pub fn is_digit(c: &char) -> (b: bool)
        ensures
            b == is_digit_char(*c),
    {
        '0' <= *c && *c <= '9'
    }

    /// The digit `c` stands for, or the message that it is not a digit.
    pub fn try_from(c: char) -> (r: Result<Digit, String>)
        ensures
            is_digit_char(c) ==> (r matches Ok(d) && d.spec_value() == digit_value(c)),
            !is_digit_char(c) ==> fails_with(r, not_a_digit(c)),
    {
        match c {
            '0' => Ok(Digit::Zero),
            '1' => Ok(Digit::One),
            '2' => Ok(Digit::Two),
            '3' => Ok(Digit::Three),
            '4' => Ok(Digit::Four),
            '5' => Ok(Digit::Five),
            '6' => Ok(Digit::Six),
            '7' => Ok(Digit::Seven),
            '8' => Ok(Digit::Eight),
            '9' => Ok(Digit::Nine),
            _ => Err(not_a_digit_message(c)),
        }
    }

    /// The value of the digit.
    pub fn value(&self) -> (v: u32)
        ensures
            v == self.spec_value(),
    {
        match self {
            Digit::Zero => 0,
            Digit::One => 1,
            Digit::Two => 2,
            Digit::Three => 3,
            Digit::Four => 4,
            Digit::Five => 5,
            Digit::Six => 6,
            Digit::Seven => 7,
            Digit::Eight => 8,
            Digit::Nine => 9,
        }
    }
}

/// Relies on `String::push`: it appends the character at the end.
#[verifier::external_body]
pub(crate) fn push_char(s: &mut String, c: char)
    ensures
        final(s)@ == old(s)@.push(c),
{
    s.push(c)
}

/// The message `"<c> is not a digit"`.
fn not_a_digit_message(c: char) -> (e: String)
    ensures
        e@ == not_a_digit(c),
{
    let mut e = String::new();
    push_char(&mut e, c);
    e.append(" is not a digit");
    assert(e@ =~= not_a_digit(c));
    e
}

proof fn lemma_decimal_grows(s: Seq<char>, i: int, j: int)
    requires
        0 <= i <= j <= s.len(),
        all_digits(s),
    ensures
        decimal(s.subrange(0, i)) <= decimal(s.subrange(0, j)),
    decreases j - i,
{
    if i < j {
        lemma_decimal_grows(s, i, j - 1);
        assert(s.subrange(0, j).drop_last() =~= s.subrange(0, j - 1));
        lemma_decimal_nonneg(s.subrange(0, j - 1));
        assert(is_digit_char(s[j - 1]));
    }
}

proof fn lemma_decimal_nonneg(s: Seq<char>)
    requires
        all_digits(s),
    ensures
        decimal(s) >= 0,
    decreases s.len(),
{
    if s.len() > 0 {
        lemma_decimal_nonneg(s.drop_last());
        assert(is_digit_char(s[s.len() - 1]));
    }
}

/// A non-negative decimal number read from the protocol text.
#[derive(PartialEq, Eq, Debug, Clone, Copy, Structural)]
pub struct Number(pub u32);

impl Number {
    /// Reads a whole string of decimal digits. The first character that is not a
    /// digit is reported; a value beyond `u32` is out of range.
    pub fn try_from(value: &String) -> (r: Result<Number, String>)
        ensures
            number_view(r) == number_spec(value@),
    {
        let s = value.as_str();
        let n = s.unicode_len();
        let mut i: usize = 0;
        while i < n
            invariant
                s@ == value@,
                n == s@.len(),
                i <= n,
                forall|j: int| 0 <= j < i ==> is_digit_char(#[trigger] s@[j]),
            decreases n - i,
        {
            let c = s.get_char(i);
            if !Digit::is_digit(&c) {
                proof {
                    lemma_digit_prefix(s@, i as int);
                    assert(s@.subrange(i as int, n as int)[0] == c);
                }
                return Err(not_a_digit_message(c));
            }
            i += 1;
        }
        proof {
            lemma_digit_prefix(s@, n as int);
        }
        let mut acc: u64 = 0;
        let mut k: usize = 0;
        assert(s@.subrange(0, 0).len() == 0);
        while k < n
            invariant
                s@ == value@,
                n == s@.len(),
                all_digits(s@),
                digit_prefix_len(s@) == n,
                k <= n,
                acc == decimal(s@.subrange(0, k as int)),
                acc <= u32::MAX,
            decreases n - k,
        {
            let c = s.get_char(k);
            assert(s@.subrange(0, k + 1).drop_last() =~= s@.subrange(0, k as int));
            assert(is_digit_char(s@[k as int]));
            let d = match Digit::try_from(c) {
                Ok(digit) => digit.value() as u64,
                Err(_) => 0,
            };
            acc = acc * 10 + d;
            if acc > u32::MAX as u64 {
                proof {
                    lemma_decimal_grows(s@, k + 1, n as int);
                    assert(s@.subrange(0, n as int) =~= s@);
                }
                return Err(String::from_str("Number out of range"));
            }
            k += 1;
        }
        assert(s@.subrange(0, n as int) =~= s@);
        Ok(Number(acc as u32))
    }
}

} // verus!
