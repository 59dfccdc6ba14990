//! Reading the rendered display text back into an operand, and growing
//! the display text when a digit button is pressed.
//!
//! The display is a string of characters. Pressing a digit appends its
//! character and strips leading zeros; pressing an operator reads the
//! whole text back as a signed decimal number, or as "no operand yet"
//! when the text is not one.

use vstd::prelude::*;

verus! {

/// `c` is an ASCII decimal digit.
pub open spec fn is_digit_char(c: char) -> bool {
    '0' <= c && c <= '9'
}

/// The numeric value of the digit `c`.
pub open spec fn digit_value(c: char) -> int {
    c as int - '0' as int
}

/// Every character of `s` is an ASCII decimal digit.
pub open spec fn all_digits(s: Seq<char>) -> bool {
    forall|i: int| 0 <= i < s.len() ==> is_digit_char(s[i])
}

/// The value of `s` read as a decimal numeral, most significant digit
/// first.
pub open spec fn digits_value(s: Seq<char>) -> int
    decreases s.len(),
{
    if s.len() == 0 {
        0
    } else {
        digits_value(s.drop_last()) * 10 + digit_value(s.last())
    }
}

/// The digits of a signed numeral: everything after a single leading
/// `+` or `-`, or all of `s` when there is no sign.
pub open spec fn digits_part(s: Seq<char>) -> Seq<char> {
    if s.len() > 0 && (s[0] == '+' || s[0] == '-') {
        s.drop_first()
    } else {
        s
    }
}

/// The sign of a signed numeral: -1 under a leading `-`, else 1.
pub open spec fn sign_of(s: Seq<char>) -> int {
    if s.len() > 0 && s[0] == '-' {
        -1
    } else {
        1
    }
}

/// `s` is a well-formed signed decimal numeral whose value fits in
/// `i64`: an optional single `+` or `-`, then at least one digit, and
/// the signed value within the `i64` range.
pub open spec fn parses_as_i64(s: Seq<char>) -> bool {
    &&& digits_part(s).len() > 0
    &&& all_digits(digits_part(s))
    &&& i64::MIN <= sign_of(s) * digits_value(digits_part(s)) <= i64::MAX
}

/// The value of a well-formed signed decimal numeral.
pub open spec fn parsed_value(s: Seq<char>) -> int {
    sign_of(s) * digits_value(digits_part(s))
}

/// What reading the display text `s` as an operand yields: its value
/// when `s` is a signed decimal numeral in `i64` range, else nothing.
pub open spec fn spec_parse(s: Seq<char>) -> Option<i64> {
    if parses_as_i64(s) {
        Some(parsed_value(s) as i64)
    } else {
        None
    }
}

/// A numeral of digits has a non-negative value.
proof fn lemma_digits_value_nonneg(s: Seq<char>)
    requires
        all_digits(s),
    ensures
        digits_value(s) >= 0,
    decreases s.len(),
{
    if s.len() > 0 {
        assert(all_digits(s.drop_last()));
        lemma_digits_value_nonneg(s.drop_last());
    }
}

/// Extending a numeral of digits on the right never shrinks its value.
proof fn lemma_digits_value_prefix_le(s: Seq<char>, i: int)
    requires
        all_digits(s),
        0 <= i <= s.len(),
    ensures
        digits_value(s.take(i)) <= digits_value(s),
    decreases s.len() - i,
{
    if i < s.len() {
        let t = s.take(i + 1);
        assert(all_digits(t));
        assert(t.drop_last() =~= s.take(i));
        assert(digits_value(t) == digits_value(s.take(i)) * 10 + digit_value(t.last()));
        lemma_digits_value_nonneg(s.take(i));
        lemma_digits_value_prefix_le(s, i + 1);
        assert(s.take(s.len() as int) =~= s);
    } else {
        assert(s.take(i) =~= s);
    }
}

/// `s` with its leading zeros removed.
pub open spec fn strip_leading_zeros(s: Seq<char>) -> Seq<char>
    decreases s.len(),
{
    if s.len() == 0 {
        s
    } else if s[0] == '0' {
        strip_leading_zeros(s.drop_first())
    } else {
        s
    }
}

/// When the first `i` characters of `s` are zeros and the next one, if
/// any, is not, stripping the leading zeros keeps exactly the suffix
/// from `i` on.
proof fn lemma_strip_leading_zeros_at(s: Seq<char>, i: int)
    requires
        0 <= i <= s.len(),
        forall|j: int| 0 <= j < i ==> s[j] == '0',
        i < s.len() ==> s[i] != '0',
    ensures
        strip_leading_zeros(s) == s.subrange(i, s.len() as int),
    decreases i,
{
    if i == 0 {
        if s.len() == 0 {
            assert(strip_leading_zeros(s) =~= s.subrange(0, 0));
        } else {
            assert(strip_leading_zeros(s) =~= s.subrange(0, s.len() as int));
        }
    } else {
        let t = s.drop_first();
        lemma_strip_leading_zeros_at(t, i - 1);
        assert(t.subrange(i - 1, t.len() as int) =~= s.subrange(i, s.len() as int));
    }
}

/// The digit character for the value `d`.
pub open spec fn digit_char_of(d: int) -> char {
    if d == 0 {
        '0'
    } else if d == 1 {
        '1'
    } else if d == 2 {
        '2'
    } else if d == 3 {
        '3'
    } else if d == 4 {
        '4'
    } else if d == 5 {
        '5'
    } else if d == 6 {
        '6'
    } else if d == 7 {
        '7'
    } else if d == 8 {
        '8'
    } else {
        '9'
    }
}

/// The one-character label of the digit button for `d`.
fn digit_str(d: u8) -> (s: &'static str)
    requires
        d <= 9,
    ensures
        s@ =~= seq![digit_char_of(d as int)],
{
    if d == 0 {
        proof {
            reveal_strlit("0");
        }
        "0"
    } else if d == 1 {
        proof {
            reveal_strlit("1");
        }
        "1"
    } else if d == 2 {
        proof {
            reveal_strlit("2");
        }
        "2"
    } else if d == 3 {
        proof {
            reveal_strlit("3");
        }
        "3"
    } else if d == 4 {
        proof {
            reveal_strlit("4");
        }
        "4"
    } else if d == 5 {
        proof {
            reveal_strlit("5");
        }
        "5"
    } else if d == 6 {
        proof {
            reveal_strlit("6");
        }
        "6"
    } else if d == 7 {
        proof {
            reveal_strlit("7");
        }
        "7"
    } else if d == 8 {
        proof {
            reveal_strlit("8");
        }
        "8"
    } else {
        proof {
            reveal_strlit("9");
        }
        "9"
    }
}

/// The index of the first character of `s` that is not `'0'`, or the
/// length of `s` when every character is.
fn first_nonzero_index(s: &str) -> (i: usize)
    ensures
        0 <= i <= s@.len(),
        forall|j: int| 0 <= j < i ==> s@[j] == '0',
        i < s@.len() ==> s@[i as int] != '0',
{
    let len: usize = s.unicode_len();
    let mut i: usize = 0;
    while i < len
        invariant
            i <= len,
            len == s@.len(),
            forall|j: int| 0 <= j < i ==> s@[j] == '0',
        decreases len - i,
    {
        if s.get_char(i) != '0' {
            return i;
        }
        i = i + 1;
    }
    i
}

/// The display text after the digit button for `digit` is pressed:
/// the character of `digit` is appended and the leading zeros of the
/// result are stripped. (So a display of `"0"` followed by pressing 5
/// reads `"5"`, and pressing 0 there leaves the display empty.)
pub fn press_digit(display_text: &str, digit: u8) -> (r: String)
    requires
        digit <= 9,
    ensures
        r@ == strip_leading_zeros(display_text@ + seq![digit_char_of(digit as int)]),
{
    let mut grown: String = String::from_str(display_text);
    grown.append(digit_str(digit));
    let ghost full: Seq<char> = display_text@ + seq![digit_char_of(digit as int)];
    assert(grown@ =~= full);
    let start: usize = first_nonzero_index(grown.as_str());
    let len: usize = grown.as_str().unicode_len();
    let stripped: &str = grown.as_str().substring_char(start, len);
    proof {
        lemma_strip_leading_zeros_at(full, start as int);
    }
    String::from_str(stripped)
}

/// Read the display text back as a signed decimal `i64`: an optional
/// single `+` or `-` followed by at least one digit, value within the
/// `i64` range. Anything else — an empty text, a stray character, a
/// sign alone, a value out of range — yields `None`, the normal
/// "no operand yet" state.
pub fn parse_display(s: &str) -> (r: Option<i64>)
    ensures
        r == spec_parse(s@),
{
    let len: usize = s.unicode_len();
    if len == 0 {
        assert(digits_part(s@).len() == 0);
        return None;
    }
    let first: char = s.get_char(0);
    let neg: bool = first == '-';
    let has_sign: bool = neg || first == '+';
    let start: usize = if has_sign {
        1
    } else {
        0
    };
    let ghost d: Seq<char> = digits_part(s@);
    proof {
        assert(d =~= s@.subrange(start as int, len as int));
    }
    if start == len {
        assert(d.len() == 0);
        return None;
    }
    let mut i: usize = start;
    let mut acc: u128 = 0;
    while i < len
        invariant
            start <= i <= len,
            len == s@.len(),
            d == digits_part(s@),
            d =~= s@.subrange(start as int, len as int),
            d.len() == len - start,
            all_digits(d.take(i as int - start as int)),
            acc as int == digits_value(d.take(i as int - start as int)),
            acc <= 9223372036854775808u128,
        decreases len - i,
    {
        let c: char = s.get_char(i);
        let cv: u32 = c as u32;
        if cv < 48 || cv > 57 {
            proof {
                assert(d[i as int - start as int] == s@[i as int]);
                assert(!is_digit_char(c));
            }
            return None;
        }
        let dg: u32 = cv - 48;
        let next: u128 = acc * 10 + dg as u128;
        proof {
            let k = i as int - start as int;
            let t = d.take(k + 1);
            assert(d[k] == s@[i as int]);
            assert(is_digit_char(c));
            assert(t.drop_last() =~= d.take(k));
            assert(t.last() == c);
            assert(digits_value(t) == digits_value(d.take(k)) * 10 + digit_value(c));
            assert(digit_value(c) == dg as int);
        }
        if next > 9223372036854775808u128 {
            proof {
                let k = i as int - start as int;
                if all_digits(d) {
                    lemma_digits_value_prefix_le(d, k + 1);
                    assert(digits_value(d) > 9223372036854775808);
                }
            }
            return None;
        }
        acc = next;
        i = i + 1;
    }
    proof {
        assert(d.take(i as int - start as int) =~= d);
        assert(acc as int == digits_value(d));
        assert(all_digits(d));
    }
    if neg {
        assert(sign_of(s@) == -1);
        if acc == 9223372036854775808u128 {
            assert(parses_as_i64(s@));
            assert(parsed_value(s@) == i64::MIN);
            Some(i64::MIN)
        } else {
            let v: i64 = acc as i64;
            assert(parses_as_i64(s@));
            assert(parsed_value(s@) == -(v as int));
            Some(0i64 - v)
        }
    } else {
        assert(sign_of(s@) == 1);
        if acc > 9223372036854775807u128 {
            assert(digits_value(d) > i64::MAX);
            return None;
        }
        let v: i64 = acc as i64;
        assert(parses_as_i64(s@));
        assert(parsed_value(s@) == v as int);
        Some(v)
    }
}

/// Stripping leading zeros does not change what a numeral of digits is
/// worth: the zeros in front contribute nothing.
pub proof fn lemma_strip_preserves_value(s: Seq<char>)
    ensures
        digits_value(strip_leading_zeros(s)) == digits_value(s),
    decreases s.len(),
{
    if s.len() > 0 && s[0] == '0' {
        lemma_strip_preserves_value(s.drop_first());
        lemma_leading_zero_dropped(s);
    }
}

/// A numeral that starts with `'0'` is worth the same as its tail.
proof fn lemma_leading_zero_dropped(s: Seq<char>)
    requires
        s.len() > 0,
        s[0] == '0',
    ensures
        digits_value(s) == digits_value(s.drop_first()),
    decreases s.len(),
{
    if s.len() == 1 {
        assert(s.drop_last() =~= Seq::<char>::empty());
        assert(s.drop_first() =~= Seq::<char>::empty());
    } else {
        assert(s.drop_last().drop_first() =~= s.drop_first().drop_last());
        assert(s.drop_last()[0] == '0');
        lemma_leading_zero_dropped(s.drop_last());
    }
}

/// Pressing the digit button for `d` on a display of digits multiplies
/// the displayed value by ten and adds `d` — the stripping of leading
/// zeros notwithstanding. So the display text, grown one press at a
/// time, is worth exactly the number the presses spell out.
pub proof fn lemma_press_digit_value(s: Seq<char>, d: int)
    requires
        0 <= d <= 9,
    ensures
        digits_value(strip_leading_zeros(s + seq![digit_char_of(d)])) == digits_value(s) * 10 + d,
{
    let grown = s + seq![digit_char_of(d)];
    lemma_strip_preserves_value(grown);
    assert(grown.drop_last() =~= s);
    assert(grown.last() == digit_char_of(d));
    assert(digit_value(digit_char_of(d)) == d);
}

/// A non-empty display of digits whose value fits in `i64` always reads
/// back as an operand, and as exactly its decimal value.
pub proof fn lemma_digit_display_parses(s: Seq<char>)
    requires
        s.len() > 0,
        all_digits(s),
        digits_value(s) <= i64::MAX,
    ensures
        spec_parse(s) == Some((digits_value(s)) as i64),
{
    assert(is_digit_char(s[0]));
    assert(digits_part(s) == s);
    assert(sign_of(s) == 1);
    lemma_digits_value_nonneg(s);
}

/// The operand-chaining state behind the operator buttons: the operator
/// pressed last and the displayed value captured as the left-hand
/// operand, or `None` while no operand has been captured yet.
pub struct OperandState {
    pub op: String,
    pub first_num: Option<i64>,
}

impl OperandState {
    /// The state before any button is pressed: no operator, no operand.
    pub fn new() -> (s: OperandState)
        ensures
            s.op@ == Seq::<char>::empty(),
            s.first_num is None,
    {
        OperandState { op: String::new(), first_num: None }
    }

    /// An operator button was pressed: record which operator it is, and
    /// capture the current display text as the left-hand operand — its
    /// parsed value, or `None` when the text is not a number.
    pub fn change_op(&mut self, op: String, display_text: &str)
        ensures
            final(self).op@ == op@,
            final(self).first_num == spec_parse(display_text@),
    {
        self.op = op;
        self.first_num = parse_display(display_text);
    }
}

} // verus!
