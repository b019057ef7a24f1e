//! Decimal integers separated by whitespace: the text form of a view box
//! attribute, how it is written, and how it is read back.

use vstd::prelude::*;
use vstd::string::StringExecFns;

verus! {

/// The decimal digit that stands for `d`, for `0 <= d <= 9`.
pub open spec fn digit_char(d: int) -> char {
    (d + '0' as int) as char
}

/// Whether `c` is one of the ten decimal digits.
pub open spec fn is_digit(c: char) -> bool {
    '0' <= c && c <= '9'
}

/// The value of a decimal digit.
pub open spec fn digit_value(c: char) -> int {
    c as int - '0' as int
}

/// The decimal digits of `n`, most significant first, without leading zeros.
pub open spec fn digits(n: nat) -> Seq<char>
    decreases n,
{
    if n < 10 {
        seq![digit_char(n as int)]
    } else {
        digits(n / 10).push(digit_char((n % 10) as int))
    }
}

/// The decimal text of an integer: a minus sign for a negative one, then its digits.
pub open spec fn decimal(i: int) -> Seq<char> {
    if i < 0 {
        seq!['-'] + digits((-i) as nat)
    } else {
        digits(i as nat)
    }
}

/// The texts of `values`, each separated from the next by one space.
pub open spec fn joined(values: Seq<int>) -> Seq<char>
    decreases values.len(),
{
    if values.len() == 0 {
        Seq::empty()
    } else if values.len() == 1 {
        decimal(values[0])
    } else {
        joined(values.drop_last()) + seq![' '] + decimal(values.last())
    }
}

fn digit_text(d: u8) -> (text: &'static str)
    requires
        d < 10,
    ensures
        text@ == seq![digit_char(d as int)],
{
    proof {
        reveal_strlit("0");
        reveal_strlit("1");
        reveal_strlit("2");
        reveal_strlit("3");
        reveal_strlit("4");
        reveal_strlit("5");
        reveal_strlit("6");
        reveal_strlit("7");
        reveal_strlit("8");
        reveal_strlit("9");
    }
    let text = match d {
        0 => "0",
        1 => "1",
        2 => "2",
        3 => "3",
        4 => "4",
        5 => "5",
        6 => "6",
        7 => "7",
        8 => "8",
        _ => "9",
    };
    text
}

fn append_digits(out: &mut String, n: u64)
    ensures
        final(out)@ == old(out)@ + digits(n as nat),
    decreases n,
{
    if n >= 10 {
        append_digits(out, n / 10);
    }
    out.append(digit_text((n % 10) as u8));
}

/// Appends the decimal text of `value` to `out`.
pub fn append_decimal(out: &mut String, value: i64)
    ensures
        final(out)@ == old(out)@ + decimal(value as int),
{
    if value < 0 {
        proof {
            reveal_strlit("-");
        }
        out.append("-");
        append_digits(out, (-(value + 1)) as u64 + 1);
    } else {
        append_digits(out, value as u64);
    }
}

/// Whether `c` separates tokens: the Unicode property `White_Space`.
pub open spec fn is_whitespace(c: char) -> bool {
    let u = c as int;
    ||| 0x09 <= u <= 0x0d
    ||| u == 0x20
    ||| u == 0x85
    ||| u == 0xa0
    ||| u == 0x1680
    ||| 0x2000 <= u <= 0x200a
    ||| u == 0x2028
    ||| u == 0x2029
    ||| u == 0x202f
    ||| u == 0x205f
    ||| u == 0x3000
}

/// The length of the longest prefix of `s` that holds no whitespace.
pub open spec fn word_len(s: Seq<char>) -> int
    decreases s.len(),
{
    if s.len() == 0 || is_whitespace(s[0]) {
        0
    } else {
        1 + word_len(s.skip(1))
    }
}

/// The tokens of `s`: its maximal runs of characters other than whitespace,
/// in the order in which they occur.
pub open spec fn tokens(s: Seq<char>) -> Seq<Seq<char>>
    decreases s.len(),
    via tokens_decreases
{
    if s.len() == 0 {
        Seq::empty()
    } else if is_whitespace(s[0]) {
        tokens(s.skip(1))
    } else {
        seq![s.take(word_len(s))] + tokens(s.skip(word_len(s)))
    }
}

#[via_fn]
proof fn tokens_decreases(s: Seq<char>) {
    lemma_word_len_bounds(s);
}

/// A word is no longer than the text it starts, and not empty where the text
/// starts with something other than whitespace.
pub proof fn lemma_word_len_bounds(s: Seq<char>)
    ensures
        0 <= word_len(s) <= s.len(),
        s.len() > 0 && !is_whitespace(s[0]) ==> word_len(s) > 0,
    decreases s.len(),
{
    if s.len() > 0 && !is_whitespace(s[0]) {
        lemma_word_len_bounds(s.skip(1));
    }
}

/// The number that a string of decimal digits denotes.
pub open spec fn number(s: Seq<char>) -> nat
    decreases s.len(),
{
    if s.len() == 0 {
        0
    } else {
        (number(s.drop_last()) * 10 + digit_value(s.last())) as nat
    }
}

/// Whether `s` is a string of one or more decimal digits.
pub open spec fn is_number(s: Seq<char>) -> bool {
    s.len() > 0 && forall|i: int| 0 <= i < s.len() ==> is_digit(#[trigger] s[i])
}

/// The integer that `token` denotes: an optional sign, `+` or `-`, followed
/// by one or more decimal digits. Any other token denotes nothing.
pub open spec fn integer(token: Seq<char>) -> Option<int> {
    if token.len() > 0 && token[0] == '-' {
        if is_number(token.skip(1)) {
            Some(-(number(token.skip(1)) as int))
        } else {
            None
        }
    } else if token.len() > 0 && token[0] == '+' {
        if is_number(token.skip(1)) {
            Some(number(token.skip(1)) as int)
        } else {
            None
        }
    } else if is_number(token) {
        Some(number(token) as int)
    } else {
        None
    }
}

/// The integer that `token` denotes where it lies within `lo ..= hi`.
pub open spec fn integer_within(token: Seq<char>, lo: int, hi: int) -> Option<int> {
    match integer(token) {
        Some(value) => if lo <= value <= hi {
            Some(value)
        } else {
            None
        },
        None => None,
    }
}

/// The integers that the tokens of `s` denote, where every token denotes one
/// that an `i32` can hold.
pub open spec fn integers(s: Seq<char>) -> Option<Seq<int>> {
    if forall|i: int|
        0 <= i < tokens(s).len() ==> integer_within(
            #[trigger] tokens(s)[i],
            i32::MIN as int,
            i32::MAX as int,
        ) is Some {
        Some(Seq::new(tokens(s).len(), |i: int| integer(tokens(s)[i])->0))
    } else {
        None
    }
}

/// The integer values of a vector of `i32`.
pub open spec fn values_of(v: Seq<i32>) -> Seq<int> {
    v.map_values(|e: i32| e as int)
}

fn is_whitespace_char(c: char) -> (yes: bool)
    ensures
        yes == is_whitespace(c),
{
    let u = c as u32;
    (0x09 <= u && u <= 0x0d) || u == 0x20 || u == 0x85 || u == 0xa0 || u == 0x1680 || (0x2000 <= u
        && u <= 0x200a) || u == 0x2028 || u == 0x2029 || u == 0x202f || u == 0x205f || u
        == 0x3000
}

fn chars_of(text: &str) -> (chars: Vec<char>)
    ensures
        chars@ == text@,
{
    let mut chars: Vec<char> = Vec::new();
    for c in it: text.chars()
        invariant
            it.seq() == text@,
            chars@ == it.seq().take(it.index() as int),
    {
        chars.push(c);
    }
    chars
}

/// Splits `text` at whitespace into its tokens.
pub fn split_whitespace(text: &str) -> (words: Vec<Vec<char>>)
    ensures
        words.len() == tokens(text@).len(),
        forall|k: int| 0 <= k < words.len() ==> (#[trigger] words[k])@ == tokens(text@)[k],
{
    let chars = chars_of(text);
    let mut words: Vec<Vec<char>> = Vec::new();
    let ghost mut done: Seq<Seq<char>> = Seq::empty();
    let mut i: usize = 0;
    assert(chars@.skip(0) =~= chars@);
    while i < chars.len()
        invariant
            i <= chars.len(),
            chars@ == text@,
            tokens(text@) == done + tokens(chars@.skip(i as int)),
            done.len() == words.len(),
            forall|k: int| 0 <= k < words.len() ==> (#[trigger] words[k])@ == done[k],
        decreases chars.len() - i,
    {
        let ghost rest = chars@.skip(i as int);
        if is_whitespace_char(chars[i]) {
            assert(rest.skip(1) =~= chars@.skip(i + 1));
            i += 1;
        } else {
            let start = i;
            let mut word: Vec<char> = Vec::new();
            while i < chars.len() && !is_whitespace_char(chars[i])
                invariant
                    start <= i <= chars.len(),
                    rest == chars@.skip(start as int),
                    word@ == chars@.subrange(start as int, i as int),
                    word_len(rest) == (i - start) + word_len(chars@.skip(i as int)),
                decreases chars.len() - i,
            {
                assert(chars@.skip(i as int).skip(1) =~= chars@.skip(i + 1));
                word.push(chars[i]);
                i += 1;
            }
            proof {
                assert(rest.take(word_len(rest)) =~= word@);
                assert(rest.skip(word_len(rest)) =~= chars@.skip(i as int));
                assert(done + (seq![word@] + tokens(chars@.skip(i as int))) =~= done.push(word@)
                    + tokens(chars@.skip(i as int)));
                done = done.push(word@);
            }
            words.push(word);
        }
    }
    words
}

/// Reads `token` as a decimal integer within `lo ..= hi`.
///
/// Gives `None` where the token is not an optional sign followed by one or
/// more digits, and where the integer lies outside the bounds.
pub fn parse_integer(token: &Vec<char>, lo: i64, hi: i64) -> (value: Option<i64>)
    ensures
        match value {
            Some(v) => integer_within(token@, lo as int, hi as int) == Some(v as int),
            None => integer_within(token@, lo as int, hi as int) is None,
        },
{
    let n = token.len();
    if n == 0 {
        return None;
    }
    let negative = token[0] == '-';
    let start: usize = if token[0] == '-' || token[0] == '+' {
        1
    } else {
        0
    };
    let ghost body = token@.skip(start as int);
    if start == n {
        return None;
    }
    // The magnitude read so far, or one more than the largest magnitude of
    // an `i64` once the digits have gone beyond it.
    let reach: u128 = 0x8000_0000_0000_0000;
    let mut magnitude: u128 = 0;
    let mut i = start;
    while i < n
        invariant
            start <= i <= n,
            n == token.len(),
            reach == 0x8000_0000_0000_0000,
            start == if token@[0] == '-' || token@[0] == '+' { 1int } else { 0int },
            body == token@.skip(start as int),
            forall|k: int| 0 <= k < i - start ==> is_digit(#[trigger] body[k]),
            number(body.take(i - start)) <= reach ==> magnitude == number(body.take(i - start)),
            number(body.take(i - start)) > reach ==> magnitude == reach + 1,
        decreases n - i,
    {
        let c = token[i];
        if !('0' <= c && c <= '9') {
            assert(body[i - start] == c);
            return None;
        }
        let d = (c as u32 - '0' as u32) as u128;
        assert(body.take(i + 1 - start).drop_last() =~= body.take(i - start));
        if magnitude <= reach {
            magnitude = magnitude * 10 + d;
            if magnitude > reach {
                magnitude = reach + 1;
            }
        }
        i += 1;
    }
    proof {
        assert(body.take(n - start) =~= body);
        assert(token@.skip(0) =~= token@);
    }
    if magnitude > reach || (magnitude == reach && !negative) {
        return None;
    }
    let v: i64 = if magnitude == reach {
        i64::MIN
    } else if negative {
        -(magnitude as i64)
    } else {
        magnitude as i64
    };
    if lo <= v && v <= hi {
        Some(v)
    } else {
        None
    }
}

/// Reads a list of whitespace-separated decimal integers.
///
/// Gives `None` where some token is not an integer that an `i32` can hold.
pub fn string_to_vec(s: String) -> (list: Option<Vec<i32>>)
    ensures
        match list {
            Some(v) => integers(s@) == Some(values_of(v@)),
            None => integers(s@) is None,
        },
{
    read_integers(s.as_str())
}

/// Reads a list of whitespace-separated decimal integers from a borrowed text.
///
/// Gives `None` where some token is not an integer that an `i32` can hold.
pub fn read_integers(s: &str) -> (list: Option<Vec<i32>>)
    ensures
        match list {
            Some(v) => integers(s@) == Some(values_of(v@)),
            None => integers(s@) is None,
        },
{
    let words = split_whitespace(s);
    let mut list: Vec<i32> = Vec::new();
    let mut i: usize = 0;
    while i < words.len()
        invariant
            i <= words.len(),
            words.len() == tokens(s@).len(),
            forall|k: int| 0 <= k < words.len() ==> (#[trigger] words[k])@ == tokens(s@)[k],
            list.len() == i,
            forall|k: int|
                0 <= k < i ==> integer_within(
                    #[trigger] tokens(s@)[k],
                    i32::MIN as int,
                    i32::MAX as int,
                ) == Some(list[k] as int),
        decreases words.len() - i,
    {
        match parse_integer(&words[i], i32::MIN as i64, i32::MAX as i64) {
            Some(v) => {
                list.push(v as i32);
            },
            None => {
                assert(integer_within(tokens(s@)[i as int], i32::MIN as int, i32::MAX as int)
                    is None);
                return None;
            },
        }
        i += 1;
    }
    Some(list)
}

/// Writes a list of integers as decimal numbers separated by single spaces.
pub fn vec_to_string(v: Vec<i32>) -> (text: String)
    ensures
        text@ == joined(values_of(v@)),
{
    let mut text = String::new();
    let mut i: usize = 0;
    let ghost values = values_of(v@);
    while i < v.len()
        invariant
            i <= v.len(),
            values == values_of(v@),
            text@ == joined(values.take(i as int)),
        decreases v.len() - i,
    {
        proof {
            assert(values.take(i + 1).drop_last() =~= values.take(i as int));
            reveal_strlit(" ");
        }
        if i > 0 {
            text.append(" ");
        }
        append_decimal(&mut text, v[i] as i64);
        i += 1;
    }
    assert(values.take(v.len() as int) =~= values);
    text
}

/// Whether `w` can stand as a token: it is not empty and holds no whitespace.
pub open spec fn is_word(w: Seq<char>) -> bool {
    w.len() > 0 && forall|i: int| 0 <= i < w.len() ==> !is_whitespace(#[trigger] w[i])
}

/// The decimal texts of `values`, one token each.
pub open spec fn decimals(values: Seq<int>) -> Seq<Seq<char>> {
    values.map_values(|v: int| decimal(v))
}

/// The digits of a number are digits, there is at least one of them, and
/// they denote the number.
pub proof fn lemma_digits_denote(n: nat)
    ensures
        is_number(digits(n)),
        number(digits(n)) == n,
    decreases n,
{
    if n < 10 {
        assert(number(digits(n).drop_last()) == 0);
    } else {
        lemma_digits_denote(n / 10);
        assert(digits(n).drop_last() =~= digits(n / 10));
    }
}

/// The decimal text of an integer is a single token, and reading it gives
/// the integer back.
pub proof fn lemma_decimal_round_trip(i: int)
    ensures
        is_word(decimal(i)),
        integer(decimal(i)) == Some(i),
{
    if i < 0 {
        lemma_digits_denote((-i) as nat);
        assert(decimal(i).skip(1) =~= digits((-i) as nat));
    } else {
        lemma_digits_denote(i as nat);
    }
}

/// In front of whitespace a word ends where it would end without what follows.
pub proof fn lemma_word_len_before_whitespace(a: Seq<char>, b: Seq<char>)
    requires
        b.len() > 0,
        is_whitespace(b[0]),
    ensures
        word_len(a + b) == word_len(a),
    decreases a.len(),
{
    if a.len() > 0 && !is_whitespace(a[0]) {
        assert((a + b).skip(1) =~= a.skip(1) + b);
        lemma_word_len_before_whitespace(a.skip(1), b);
    }
}

/// A text without whitespace is one word.
pub proof fn lemma_word_len_of_word(w: Seq<char>)
    requires
        forall|i: int| 0 <= i < w.len() ==> !is_whitespace(#[trigger] w[i]),
    ensures
        word_len(w) == w.len(),
    decreases w.len(),
{
    if w.len() > 0 {
        lemma_word_len_of_word(w.skip(1));
    }
}

/// A word on its own is its only token.
pub proof fn lemma_tokens_of_word(w: Seq<char>)
    requires
        is_word(w),
    ensures
        tokens(w) == seq![w],
{
    lemma_word_len_of_word(w);
    assert(w.take(w.len() as int) =~= w);
    assert(tokens(w.skip(w.len() as int)) =~= Seq::<Seq<char>>::empty());
}

/// A space and a word, put behind any text, add the word as one more token.
pub proof fn lemma_tokens_push_word(a: Seq<char>, w: Seq<char>)
    requires
        is_word(w),
    ensures
        tokens(a + seq![' '] + w) == tokens(a).push(w),
    decreases a.len(),
{
    let tail = seq![' '] + w;
    let whole = a + seq![' '] + w;
    assert(whole =~= a + tail);
    if a.len() == 0 {
        assert(whole.skip(1) =~= w);
        lemma_tokens_of_word(w);
    } else if is_whitespace(a[0]) {
        assert(whole.skip(1) =~= a.skip(1) + seq![' '] + w);
        lemma_tokens_push_word(a.skip(1), w);
    } else {
        lemma_word_len_before_whitespace(a, tail);
        lemma_word_len_bounds(a);
        let n = word_len(a);
        assert(whole.take(n) =~= a.take(n));
        assert(whole.skip(n) =~= a.skip(n) + seq![' '] + w);
        lemma_tokens_push_word(a.skip(n), w);
    }
}

/// The tokens of a list written with `joined` are the decimal texts of its
/// members, and reading each gives the member back.
pub proof fn lemma_joined_round_trip(values: Seq<int>)
    ensures
        tokens(joined(values)) == decimals(values),
        forall|i: int|
            0 <= i < values.len() ==> integer(#[trigger] tokens(joined(values))[i]) == Some(
                values[i],
            ),
    decreases values.len(),
{
    if values.len() == 1 {
        lemma_decimal_round_trip(values[0]);
        lemma_tokens_of_word(decimal(values[0]));
    } else if values.len() > 1 {
        lemma_joined_round_trip(values.drop_last());
        lemma_decimal_round_trip(values.last());
        lemma_tokens_push_word(joined(values.drop_last()), decimal(values.last()));
    }
    assert forall|i: int| 0 <= i < values.len() implies integer(
        #[trigger] tokens(joined(values))[i],
    ) == Some(values[i]) by {
        lemma_decimal_round_trip(values[i]);
    }
}

/// A list of integers that `i32` can hold, written with `vec_to_string` and
/// read with `string_to_vec`, comes back as it was.
pub proof fn lemma_list_round_trip(values: Seq<int>)
    requires
        forall|i: int| 0 <= i < values.len() ==> i32::MIN <= #[trigger] values[i] <= i32::MAX,
    ensures
        integers(joined(values)) == Some(values),
{
    lemma_joined_round_trip(values);
}

} // verus!
