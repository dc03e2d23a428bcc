//! Text primitives: comparison, trimming, ASCII folding and decimal output.
use vstd::prelude::*;
use vstd::string::*;
use vstd::utf8::*;

verus! {

/// Appending one character to a `String` (`String::push`): the text grows by
/// exactly that character.
pub assume_specification[ String::push ](s: &mut String, c: char)
    ensures
        final(s)@ == old(s)@.push(c),
;

/// Number of bytes of the UTF-8 encoding of `s`.
pub open spec fn utf8_len(s: Seq<char>) -> nat {
    encode_utf8(s).len()
}

/// Bytes that one character takes in UTF-8.
pub open spec fn char_width(c: char) -> nat {
    if c <= '\u{7f}' {
        1
    } else if c <= '\u{7ff}' {
        2
    } else if c <= '\u{ffff}' {
        3
    } else {
        4
    }
}

/// The longest prefix of `s` that takes at most `budget` bytes.
pub open spec fn prefix_within(s: Seq<char>, budget: nat) -> Seq<char>
    decreases s.len(),
{
    if s.len() > 0 && char_width(s[0]) <= budget {
        seq![s[0]] + prefix_within(s.skip(1), (budget - char_width(s[0])) as nat)
    } else {
        Seq::empty()
    }
}

/// A character is encoded in as many bytes as it is wide.
proof fn lemma_scalar_width(c: char)
    ensures
        encode_scalar(c as u32).len() == char_width(c),
{
    char_is_scalar(c);
    assert(c as u32 as int == c as int);
    if c <= '\u{7f}' {
        assert(has_width_1_encoding(c as u32));
    } else if c <= '\u{7ff}' {
        assert(has_width_2_encoding(c as u32));
    } else if c <= '\u{ffff}' {
        assert(has_width_3_encoding(c as u32));
    } else {
        assert(has_width_4_encoding(c as u32));
    }
}

/// The length of a text is the width of its first character and the length of
/// the rest.
pub proof fn lemma_utf8_len_first(s: Seq<char>)
    requires
        s.len() > 0,
    ensures
        utf8_len(s) == char_width(s[0]) + utf8_len(s.skip(1)),
{
    assert(s.drop_first() =~= s.skip(1));
    lemma_scalar_width(s[0]);
}

/// Lengths add up.
pub proof fn lemma_utf8_len_concat(a: Seq<char>, b: Seq<char>)
    ensures
        utf8_len(a + b) == utf8_len(a) + utf8_len(b),
    decreases a.len(),
{
    if a.len() == 0 {
        assert(a + b =~= b);
        assert(encode_utf8(a).len() == 0);
    } else {
        lemma_utf8_len_first(a);
        lemma_utf8_len_first(a + b);
        assert((a + b).skip(1) =~= a.skip(1) + b);
        lemma_utf8_len_concat(a.skip(1), b);
    }
}

/// A prefix within a budget is a prefix, and is within the budget.
pub proof fn lemma_prefix_within(s: Seq<char>, budget: nat)
    ensures
        utf8_len(prefix_within(s, budget)) <= budget,
        prefix_within(s, budget).len() <= s.len(),
        prefix_within(s, budget) == s.take(prefix_within(s, budget).len() as int),
        prefix_within(s, budget).len() < s.len() ==> utf8_len(prefix_within(s, budget))
            + char_width(s[prefix_within(s, budget).len() as int]) > budget,
    decreases s.len(),
{
    let p = prefix_within(s, budget);
    if s.len() > 0 && char_width(s[0]) <= budget {
        let rest = (budget - char_width(s[0])) as nat;
        lemma_prefix_within(s.skip(1), rest);
        lemma_utf8_len_first(p);
        assert(p.skip(1) =~= prefix_within(s.skip(1), rest));
        assert(p =~= s.take(p.len() as int));
        if p.len() < s.len() {
            assert(s.skip(1)[p.len() - 1] == s[p.len() as int]);
        }
    } else {
        assert(encode_utf8(p).len() == 0);
        assert(p =~= s.take(0));
    }
}

/// `White_Space` of the Unicode character database.
pub open spec fn is_space(c: char) -> bool {
    ||| '\u{9}' <= c <= '\u{d}'
    ||| c == '\u{20}'
    ||| c == '\u{85}'
    ||| c == '\u{a0}'
    ||| c == '\u{1680}'
    ||| '\u{2000}' <= c <= '\u{200a}'
    ||| c == '\u{2028}'
    ||| c == '\u{2029}'
    ||| c == '\u{202f}'
    ||| c == '\u{205f}'
    ||| c == '\u{3000}'
}

/// General category `Cc`.
pub open spec fn is_control_char(c: char) -> bool {
    c <= '\u{1f}' || '\u{7f}' <= c <= '\u{9f}'
}

/// ASCII letters and digits.
pub open spec fn is_ascii_alnum(c: char) -> bool {
    'a' <= c <= 'z' || 'A' <= c <= 'Z' || '0' <= c <= '9'
}

/// Lower-case hexadecimal digits.
pub open spec fn is_lower_hex(c: char) -> bool {
    '0' <= c <= '9' || 'a' <= c <= 'f'
}

/// ASCII case folding of one character.
pub open spec fn lower(c: char) -> char {
    if 'A' <= c <= 'Z' {
        ((c as u32 + 32) as u32) as char
    } else {
        c
    }
}

/// ASCII case folding of a text.
pub open spec fn lower_text(s: Seq<char>) -> Seq<char> {
    Seq::new(s.len(), |i: int| lower(s[i]))
}

/// `s` without leading white space.
pub open spec fn trim_start(s: Seq<char>) -> Seq<char>
    decreases s.len(),
{
    if s.len() > 0 && is_space(s[0]) {
        trim_start(s.subrange(1, s.len() as int))
    } else {
        s
    }
}

/// `s` without trailing white space.
pub open spec fn trim_end(s: Seq<char>) -> Seq<char>
    decreases s.len(),
{
    if s.len() > 0 && is_space(s.last()) {
        trim_end(s.drop_last())
    } else {
        s
    }
}

/// `s` without white space at either edge.
pub open spec fn trim(s: Seq<char>) -> Seq<char> {
    trim_end(trim_start(s))
}

/// `prefix` opens `s`.
pub open spec fn has_prefix(s: Seq<char>, prefix: Seq<char>) -> bool {
    prefix.len() <= s.len() && s.subrange(0, prefix.len() as int) == prefix
}

/// Decimal digits of `n`, most significant first.
pub open spec fn decimal_digits(n: nat) -> Seq<char>
    decreases n,
{
    if n < 10 {
        seq![digit(n)]
    } else {
        decimal_digits(n / 10).push(digit(n % 10))
    }
}

/// The character of one decimal digit.
pub open spec fn digit(d: nat) -> char {
    ((48 + d) as u8) as char
}

/// Decimal notation of an integer.
pub open spec fn decimal(n: int) -> Seq<char> {
    if n < 0 {
        seq!['-'] + decimal_digits((-n) as nat)
    } else {
        decimal_digits(n as nat)
    }
}

/// Whether the two texts are the same.
pub fn same_text(a: &str, b: &str) -> (same: bool)
    ensures
        same == (a@ == b@),
{
    let x = a.as_bytes();
    let y = b.as_bytes();
    if x.len() != y.len() {
        return false;
    }
    let mut i: usize = 0;
    while i < x.len()
        invariant
            i <= x@.len(),
            x@.len() == y@.len(),
            x@ == encode_utf8(a@),
            y@ == encode_utf8(b@),
            forall|j: int| 0 <= j < i ==> x@[j] == y@[j],
        decreases x.len() - i,
    {
        if x[i] != y[i] {
            return false;
        }
        i += 1;
    }
    proof {
        assert(x@ =~= y@);
        encode_utf8_decode_utf8(a@);
        encode_utf8_decode_utf8(b@);
    }
    true
}

/// UTF-8 length of a text.
pub fn byte_len(s: &str) -> (n: usize)
    ensures
        n == utf8_len(s@),
{
    s.as_bytes().len()
}

/// The characters of a text.
pub fn chars_of(s: &str) -> (chars: Vec<char>)
    ensures
        chars@ == s@,
{
    let n: usize = s.unicode_len();
    let mut out: Vec<char> = Vec::new();
    let mut it = s.chars();
    let mut i: usize = 0;
    while i < n
        invariant
            i <= n,
            n == s@.len(),
            out@ == s@.take(i as int),
            vstd::std_specs::iter::IteratorSpec::remaining(&it) == s@.skip(i as int),
        decreases n - i,
    {
        let next = it.next();
        match next {
            Some(c) => {
                out.push(c);
                assert(s@.skip(i as int)[0] == s@[i as int]);
                assert(s@.take(i as int).push(c) =~= s@.take(i + 1));
                assert(s@.skip(i as int).drop_first() =~= s@.skip(i + 1));
            },
            None => {
                assert(false);
            },
        }
        i += 1;
    }
    assert(s@.take(n as int) =~= s@);
    out
}

/// `char::is_whitespace`.
pub fn is_whitespace(c: char) -> (b: bool)
    ensures
        b == is_space(c),
{
    ('\u{9}' <= c && c <= '\u{d}') || c == '\u{20}' || c == '\u{85}' || c == '\u{a0}' || c
        == '\u{1680}' || ('\u{2000}' <= c && c <= '\u{200a}') || c == '\u{2028}' || c == '\u{2029}'
        || c == '\u{202f}' || c == '\u{205f}' || c == '\u{3000}'
}

/// `char::is_control`.
pub fn is_control(c: char) -> (b: bool)
    ensures
        b == is_control_char(c),
{
    c <= '\u{1f}' || ('\u{7f}' <= c && c <= '\u{9f}')
}

/// The text without white space at its edges.
pub fn trimmed(s: &str) -> (r: String)
    ensures
        r@ == trim(s@),
{
    let chars = chars_of(s);
    let mut start: usize = 0;
    assert(s@.subrange(0, s@.len() as int) =~= s@);
    while start < chars.len() && is_whitespace(chars[start])
        invariant
            start <= chars.len(),
            chars@ == s@,
            trim_start(s@.subrange(start as int, s@.len() as int)) == trim_start(s@),
        decreases chars.len() - start,
    {
        assert(s@.subrange(start as int, s@.len() as int).subrange(
            1,
            s@.len() - start,
        ) =~= s@.subrange(start + 1, s@.len() as int));
        start += 1;
    }
    let ghost body = s@.subrange(start as int, s@.len() as int);
    assert(trim_start(s@) == body);
    let mut end: usize = chars.len();
    assert(s@.subrange(start as int, end as int) =~= body);
    while end > start && is_whitespace(chars[end - 1])
        invariant
            start <= end <= chars.len(),
            chars@ == s@,
            trim_end(s@.subrange(start as int, end as int)) == trim_end(body),
        decreases end,
    {
        assert(s@.subrange(start as int, end as int).drop_last() =~= s@.subrange(
            start as int,
            end - 1,
        ));
        assert(s@.subrange(start as int, end as int).last() == s@[end - 1]);
        end -= 1;
    }
    assert(end > start ==> s@.subrange(start as int, end as int).last() == s@[end - 1]);
    s.substring_char(start, end).to_owned()
}

/// `char::to_ascii_lowercase`.
pub fn lower_char(c: char) -> (r: char)
    ensures
        r == lower(c),
{
    if 'A' <= c && c <= 'Z' {
        let b: u8 = (c as u32) as u8;
        (b + 32) as char
    } else {
        c
    }
}

/// `str::to_ascii_lowercase`.
pub fn to_lower(s: &str) -> (r: String)
    ensures
        r@ == lower_text(s@),
{
    let chars = chars_of(s);
    let mut out = String::new();
    let mut i: usize = 0;
    while i < chars.len()
        invariant
            i <= chars.len(),
            chars@ == s@,
            out@ == lower_text(s@).take(i as int),
        decreases chars.len() - i,
    {
        out.push(lower_char(chars[i]));
        assert(lower_text(s@).take(i as int).push(lower(s@[i as int])) =~= lower_text(s@).take(
            i + 1,
        ));
        i += 1;
    }
    assert(lower_text(s@).take(s@.len() as int) =~= lower_text(s@));
    out
}

/// `str::eq_ignore_ascii_case`.
pub fn same_text_ignoring_case(a: &str, b: &str) -> (same: bool)
    ensures
        same == (lower_text(a@) == lower_text(b@)),
{
    to_lower(a) == to_lower(b)
}

/// `str::starts_with` for a text pattern.
pub fn starts_with(s: &str, prefix: &str) -> (b: bool)
    ensures
        b == has_prefix(s@, prefix@),
{
    let n: usize = prefix.unicode_len();
    if s.unicode_len() < n {
        return false;
    }
    same_text(s.substring_char(0, n), prefix)
}

/// Bytes that one character takes in UTF-8.
pub fn width_of(c: char) -> (n: usize)
    ensures
        n == char_width(c),
{
    if c <= '\u{7f}' {
        1
    } else if c <= '\u{7ff}' {
        2
    } else if c <= '\u{ffff}' {
        3
    } else {
        4
    }
}

/// The longest prefix of a text that takes at most `budget` bytes.
pub fn truncated(s: &str, budget: usize) -> (r: String)
    ensures
        r@ == prefix_within(s@, budget as nat),
{
    let chars = chars_of(s);
    let mut out = String::new();
    let mut left: usize = budget;
    let mut i: usize = 0;
    assert(s@.skip(0) =~= s@);
    assert(out@ + prefix_within(s@, budget as nat) =~= prefix_within(s@, budget as nat));
    while i < chars.len() && width_of(chars[i]) <= left
        invariant
            i <= chars@.len(),
            chars@ == s@,
            out@ + prefix_within(s@.skip(i as int), left as nat) == prefix_within(
                s@,
                budget as nat,
            ),
        decreases chars.len() - i,
    {
        let ghost rest = s@.skip(i as int);
        let ghost before = out@;
        assert(rest.skip(1) =~= s@.skip(i + 1));
        assert(rest[0] == chars@[i as int]);
        out.push(chars[i]);
        assert(before + prefix_within(rest, left as nat) =~= out@ + prefix_within(
            rest.skip(1),
            (left - char_width(rest[0])) as nat,
        ));
        left -= width_of(chars[i]);
        i += 1;
    }
    assert(i < chars@.len() ==> s@.skip(i as int)[0] == chars@[i as int]);
    assert(out@ + Seq::<char>::empty() =~= out@);
    out
}

/// Decimal notation of an unsigned integer.
pub fn unsigned_decimal(n: u64) -> (s: String)
    ensures
        s@ == decimal(n as int),
    decreases n,
{
    let tail = (48 + (n % 10) as u8) as char;
    if n < 10 {
        let mut out = String::new();
        out.push(tail);
        assert(out@ =~= seq![digit(n as nat)]);
        out
    } else {
        let mut out = unsigned_decimal(n / 10);
        out.push(tail);
        out
    }
}

/// Decimal notation of a signed integer.
pub fn signed_decimal(n: i64) -> (s: String)
    ensures
        s@ == decimal(n as int),
{
    if n >= 0 {
        unsigned_decimal(n as u64)
    } else {
        let magnitude: u64 = (-(n as i128)) as u64;
        let digits = unsigned_decimal(magnitude);
        let mut out = String::new();
        out.push('-');
        out.append(digits.as_str());
        assert(out@ =~= seq!['-'] + decimal_digits((-(n as int)) as nat));
        out
    }
}

/// `a` followed by `b`.
pub fn join(a: &str, b: &str) -> (s: String)
    ensures
        s@ == a@ + b@,
{
    a.to_owned().concat(b)
}

/// `a`, `b` and `c` in a row.
pub fn join3(a: &str, b: &str, c: &str) -> (s: String)
    ensures
        s@ == a@ + b@ + c@,
{
    a.to_owned().concat(b).concat(c)
}

/// The text without white space at its edges, if anything is left.
pub open spec fn filled(s: Option<String>) -> Option<Seq<char>> {
    match s {
        Some(text) => if trim(text@).len() > 0 {
            Some(trim(text@))
        } else {
            None
        },
        None => None,
    }
}

/// Trims an optional text; an empty one counts as absent.
pub fn filled_text(s: &Option<String>) -> (r: Option<String>)
    ensures
        match r {
            Some(text) => filled(*s) == Some(text@),
            None => filled(*s) is None,
        },
{
    match s {
        Some(text) => {
            let t = trimmed(text.as_str());
            if t.as_str().is_empty() {
                None
            } else {
                Some(t)
            }
        },
        None => None,
    }
}

/// Some text of the list is `s`.
pub open spec fn lists(list: Seq<String>, s: Seq<char>) -> bool {
    exists|i: int| 0 <= i < list.len() && #[trigger] list[i]@ == s
}

/// The texts of a list.
pub open spec fn texts(list: Seq<String>) -> Seq<Seq<char>> {
    Seq::new(list.len(), |i: int| list[i]@)
}

/// Whether a text is in a list.
pub fn listed(list: &Vec<String>, s: &str) -> (b: bool)
    ensures
        b == lists(list@, s@),
{
    let mut i: usize = 0;
    while i < list.len()
        invariant
            i <= list@.len(),
            forall|j: int| 0 <= j < i ==> #[trigger] list@[j]@ != s@,
        decreases list.len() - i,
    {
        if same_text(list[i].as_str(), s) {
            assert(list@[i as int]@ == s@);
            return true;
        }
        i += 1;
    }
    false
}

/// A copy of an optional text.
pub fn copy_text(s: &Option<String>) -> (r: Option<String>)
    ensures
        r == *s,
{
    match s {
        Some(text) => Some(text.clone()),
        None => None,
    }
}

/// What is trimmed is white space at both ends and nothing else: the text lies in
/// the original, with only white space before and behind it, and begins and ends with
/// none.
pub proof fn law_only_outer_white_space_is_trimmed(s: Seq<char>) -> (place: (int, int))
    ensures
        0 <= place.0 <= place.1 <= s.len(),
        trim(s) == s.subrange(place.0, place.1),
        forall|i: int| 0 <= i < place.0 ==> is_space(#[trigger] s[i]),
        forall|i: int| place.1 <= i < s.len() ==> is_space(#[trigger] s[i]),
        trim(s).len() > 0 ==> !is_space(trim(s)[0]) && !is_space(trim(s).last()),
{
    let from = lemma_trim_start(s);
    let to = lemma_trim_end(trim_start(s));
    assert(trim(s) =~= s.subrange(from, from + to));
    assert forall|i: int| from + to <= i < s.len() implies is_space(#[trigger] s[i]) by {
        assert(trim_start(s)[i - from] == s[i]);
    }
    (from, from + to)
}

/// White space is cut off the front.
proof fn lemma_trim_start(s: Seq<char>) -> (from: int)
    ensures
        0 <= from <= s.len(),
        trim_start(s) == s.subrange(from, s.len() as int),
        forall|i: int| 0 <= i < from ==> is_space(#[trigger] s[i]),
        trim_start(s).len() > 0 ==> !is_space(trim_start(s)[0]),
    decreases s.len(),
{
    if s.len() > 0 && is_space(s[0]) {
        let rest = s.subrange(1, s.len() as int);
        let from = lemma_trim_start(rest);
        assert(trim_start(s) =~= s.subrange(from + 1, s.len() as int));
        assert forall|i: int| 0 <= i < from + 1 implies is_space(#[trigger] s[i]) by {
            if i > 0 {
                assert(rest[i - 1] == s[i]);
            }
        }
        from + 1
    } else {
        assert(s.subrange(0, s.len() as int) =~= s);
        0
    }
}

/// White space is cut off the end.
proof fn lemma_trim_end(s: Seq<char>) -> (to: int)
    ensures
        0 <= to <= s.len(),
        trim_end(s) == s.subrange(0, to),
        forall|i: int| to <= i < s.len() ==> is_space(#[trigger] s[i]),
        trim_end(s).len() > 0 ==> !is_space(trim_end(s).last()),
    decreases s.len(),
{
    if s.len() > 0 && is_space(s.last()) {
        let to = lemma_trim_end(s.drop_last());
        assert(trim_end(s) =~= s.subrange(0, to));
        assert forall|i: int| to <= i < s.len() implies is_space(#[trigger] s[i]) by {
            if i < s.len() - 1 {
                assert(s.drop_last()[i] == s[i]);
            }
        }
        to
    } else {
        assert(s.subrange(0, s.len() as int) =~= s);
        s.len() as int
    }
}

/// Of the characters up to `~`, tabs, line ends and blanks are white space; no letter,
/// digit or sign is.
pub proof fn law_white_space_is_no_sign(c: char)
    requires
        c <= '~',
    ensures
        is_space(c) <==> c == ' ' || c == '\t' || c == '\n' || c == '\r' || c == '\u{b}' || c
            == '\u{c}',
        is_ascii_alnum(c) ==> !is_space(c) && !is_control_char(c),
{
}

/// The number that decimal digits write.
pub open spec fn digits_value(s: Seq<char>) -> int
    decreases s.len(),
{
    if s.len() == 0 {
        0
    } else {
        digits_value(s.drop_last()) * 10 + (s.last() as int - '0' as int)
    }
}

/// The digits of a number write that number, in digits alone and with no needless
/// zero in front.
pub proof fn law_digits_write_the_number(n: nat)
    ensures
        digits_value(decimal_digits(n)) == n,
        decimal_digits(n).len() > 0,
        forall|i: int|
            0 <= i < decimal_digits(n).len() ==> '0' <= #[trigger] decimal_digits(n)[i] <= '9',
        n > 0 ==> decimal_digits(n)[0] != '0',
    decreases n,
{
    if n < 10 {
        assert(decimal_digits(n).drop_last() =~= Seq::empty());
        assert(digits_value(Seq::<char>::empty()) == 0);
        assert(digits_value(decimal_digits(n)) == digits_value(decimal_digits(n).drop_last()) * 10
            + (decimal_digits(n).last() as int - '0' as int));
    } else {
        law_digits_write_the_number(n / 10);
        assert(decimal_digits(n).drop_last() =~= decimal_digits(n / 10));
    }
}

/// A number is written as its digits, with a minus in front where it is negative.
pub proof fn law_decimals_write_the_number(n: int)
    ensures
        n >= 0 ==> digits_value(decimal(n)) == n,
        n < 0 ==> decimal(n)[0] == '-' && digits_value(decimal(n).skip(1)) == -n,
{
    if n < 0 {
        law_digits_write_the_number((-n) as nat);
        assert(decimal(n).skip(1) =~= decimal_digits((-n) as nat));
    } else {
        law_digits_write_the_number(n as nat);
    }
}

/// Capital letters of ASCII become small ones; any other character stays.
pub proof fn law_only_capitals_are_lowered(c: char)
    ensures
        'A' <= c <= 'Z' ==> 'a' <= lower(c) <= 'z' && lower(c) as int == c as int + 32,
        !('A' <= c <= 'Z') ==> lower(c) == c,
        lower(lower(c)) == lower(c),
{
}

/// A text keeps its length when it is lowered, and texts that differ in case alone
/// become the same.
pub proof fn law_lowered_texts_fold_case(s: Seq<char>, i: int)
    requires
        0 <= i < s.len(),
    ensures
        lower_text(s).len() == s.len(),
        lower_text(s)[i] == lower(s[i]),
        lower_text(lower_text(s)) == lower_text(s),
{
    assert(lower_text(lower_text(s)) =~= lower_text(s));
}

/// A text counts as given where something is left of it once it is trimmed, and then
/// it counts as trimmed.
pub proof fn law_blank_texts_are_not_given(s: Option<String>)
    ensures
        s is None ==> filled(s) is None,
        s matches Some(text) ==> (trim(text@).len() == 0 ==> filled(s) is None),
        s matches Some(text) ==> (trim(text@).len() > 0 ==> filled(s) == Some(trim(text@))),
{
}

/// A text that is cut to a budget of bytes keeps its front, within the budget, and
/// loses nothing that would fit.
pub proof fn law_cut_texts_keep_their_front(s: Seq<char>, budget: nat)
    ensures
        prefix_within(s, budget).len() <= s.len(),
        prefix_within(s, budget) == s.take(prefix_within(s, budget).len() as int),
        utf8_len(prefix_within(s, budget)) <= budget,
        prefix_within(s, budget).len() < s.len() ==> utf8_len(
            s.take(prefix_within(s, budget).len() as int + 1),
        ) > budget,
        utf8_len(s) <= budget ==> prefix_within(s, budget) == s,
    decreases s.len(),
{
    if s.len() > 0 {
        lemma_utf8_len_first(s);
        let c = s[0];
        if char_width(c) <= budget {
            let rest = s.skip(1);
            let left = (budget - char_width(c)) as nat;
            let kept = prefix_within(rest, left);
            law_cut_texts_keep_their_front(rest, left);
            let all = prefix_within(s, budget);
            assert(all =~= seq![c] + kept);
            assert(all =~= s.take(all.len() as int));
            assert(all.skip(1) =~= kept);
            lemma_utf8_len_first(all);
            if kept.len() < rest.len() {
                let more = s.take(all.len() as int + 1);
                lemma_utf8_len_first(more);
                assert(more.skip(1) =~= rest.take(kept.len() as int + 1));
            }
            if utf8_len(s) <= budget {
                assert(all =~= s);
            }
        } else {
            let one = s.take(1);
            lemma_utf8_len_first(one);
            assert(prefix_within(s, budget) =~= s.take(0));
        }
    } else {
        assert(prefix_within(s, budget) =~= s.take(0));
        assert(s =~= s.take(0));
    }
    if prefix_within(s, budget).len() == 0 {
        assert(prefix_within(s, budget) =~= Seq::empty());
    }
}

/// A text has a prefix where it begins with it.
pub proof fn law_prefixes_begin_the_text(prefix: Seq<char>, rest: Seq<char>)
    ensures
        has_prefix(prefix + rest, prefix),
        rest.len() > 0 ==> !has_prefix(prefix, prefix + rest),
{
    assert((prefix + rest).subrange(0, prefix.len() as int) =~= prefix);
}

/// A list holds the texts that are in it.
pub proof fn law_lists_hold_their_texts(list: Seq<String>, s: Seq<char>)
    ensures
        lists(list, s) <==> texts(list).contains(s),
        texts(list).len() == list.len(),
{
    if lists(list, s) {
        let i = choose|i: int| 0 <= i < list.len() && #[trigger] list[i]@ == s;
        assert(texts(list)[i] == s);
    }
    if texts(list).contains(s) {
        let i = choose|i: int| 0 <= i < texts(list).len() && texts(list)[i] == s;
        assert(list[i]@ == s);
    }
}

} // verus!
