//! Plain text: comparing, searching and reading strings as sequences of
//! characters, and writing and reading decimal numerals.

use vstd::prelude::*;

verus! {

/// The characters that have the Unicode property `White_Space`.
pub open spec fn white_space(c: char) -> bool {
    ||| '\u{9}' <= c <= '\u{d}'
    ||| c == ' '
    ||| c == '\u{85}'
    ||| c == '\u{a0}'
    ||| c == '\u{1680}'
    ||| '\u{2000}' <= c <= '\u{200a}'
    ||| c == '\u{2028}'
    ||| c == '\u{2029}'
    ||| c == '\u{202f}'
    ||| c == '\u{205f}'
    ||| c == '\u{3000}'
}

/// A text is blank if it holds nothing but white space.
pub open spec fn blank(s: Seq<char>) -> bool {
    forall|i: int| 0 <= i < s.len() ==> white_space(#[trigger] s[i])
}

/// `needle` stands somewhere in `s`, in one piece.
pub open spec fn occurs_in(needle: Seq<char>, s: Seq<char>) -> bool {
    exists|i: int| occurs_at(needle, s, i)
}

/// `needle` stands in `s` and begins at position `i`.
pub open spec fn occurs_at(needle: Seq<char>, s: Seq<char>, i: int) -> bool {
    &&& 0 <= i
    &&& i + needle.len() <= s.len()
    &&& s.subrange(i, i + needle.len()) == needle
}

/// The text in an optional string.
pub open spec fn opt_text(s: Option<String>) -> Option<Seq<char>> {
    match s {
        Some(t) => Some(t@),
        None => None,
    }
}

/// The texts of a sequence of strings.
pub open spec fn texts(v: Seq<String>) -> Seq<Seq<char>> {
    v.map_values(|s: String| s@)
}

/// A copy of an optional string.
pub fn copy_opt(s: &Option<String>) -> (r: Option<String>)
    ensures
        opt_text(r) == opt_text(*s),
{
    match s {
        Some(t) => Some(t.clone()),
        None => None,
    }
}

/// The characters of a string, one by one.
pub fn chars_of(s: &str) -> (v: Vec<char>)
    ensures
        v@ == s@,
{
    let mut v: Vec<char> = Vec::new();
    for c in it: s.chars()
        invariant
            it.seq() == s@,
            v@ == s@.take(it.index() as int),
    {
        v.push(c);
        assert(v@ =~= s@.take(it.index() + 1));
    }
    assert(s@.take(s@.len() as int) =~= s@);
    v
}

/// Whether two strings hold the same characters.
pub fn same_text(a: &str, b: &str) -> (same: bool)
    ensures
        same == (a@ == b@),
{
    let x = chars_of(a);
    let y = chars_of(b);
    if x.len() != y.len() {
        return false;
    }
    for i in 0..x.len()
        invariant
            x@ == a@,
            y@ == b@,
            x.len() == y.len(),
            forall|j: int| 0 <= j < i ==> x@[j] == y@[j],
    {
        if x[i] != y[i] {
            return false;
        }
    }
    assert(x@ =~= y@);
    true
}

/// Whether a character is white space.
pub fn is_white_space(c: char) -> (r: bool)
    ensures
        r == white_space(c),
{
    ('\u{9}' <= c && c <= '\u{d}') || c == ' ' || c == '\u{85}' || c == '\u{a0}' || c == '\u{1680}'
        || ('\u{2000}' <= c && c <= '\u{200a}') || c == '\u{2028}' || c == '\u{2029}' || c
        == '\u{202f}' || c == '\u{205f}' || c == '\u{3000}'
}

/// Whether a string holds nothing but white space.
pub fn is_blank(s: &str) -> (r: bool)
    ensures
        r == blank(s@),
{
    let v = chars_of(s);
    for i in 0..v.len()
        invariant
            v@ == s@,
            forall|j: int| 0 <= j < i ==> white_space(#[trigger] v@[j]),
    {
        if !is_white_space(v[i]) {
            return false;
        }
    }
    true
}

/// Whether `needle` stands in `v` at position `i`.
fn stands_at(needle: &Vec<char>, v: &Vec<char>, i: usize) -> (r: bool)
    requires
        i + needle.len() <= v.len(),
    ensures
        r == occurs_at(needle@, v@, i as int),
{
    for k in 0..needle.len()
        invariant
            i + needle.len() <= v.len(),
            forall|j: int| 0 <= j < k ==> v@[i + j] == needle@[j],
    {
        if v[i + k] != needle[k] {
            assert(v@.subrange(i as int, i + needle.len())[k as int] != needle@[k as int]);
            return false;
        }
    }
    assert(v@.subrange(i as int, i + needle.len()) =~= needle@);
    true
}

/// Whether `needle` stands somewhere in `s`.
pub fn contains_text(s: &str, needle: &str) -> (r: bool)
    ensures
        r == occurs_in(needle@, s@),
{
    let v = chars_of(s);
    let n = chars_of(needle);
    if n.len() > v.len() {
        return false;
    }
    let last: usize = v.len() - n.len();
    let mut i: usize = 0;
    while i <= last
        invariant
            v@ == s@,
            n@ == needle@,
            last == v.len() - n.len(),
            i <= last + 1,
            forall|j: int| 0 <= j < i ==> !occurs_at(needle@, s@, j),
        decreases last + 1 - i,
    {
        if stands_at(&n, &v, i) {
            return true;
        }
        if i == last {
            return false;
        }
        i = i + 1;
    }
    false
}

/// The character of one decimal digit.
pub open spec fn digit(d: int) -> char
    recommends
        0 <= d < 10,
{
    ('0' as int + d) as char
}

/// The decimal numeral of a number, without leading zeros.
pub open spec fn decimal(n: nat) -> Seq<char>
    decreases n,
{
    if n < 10 {
        seq![digit(n as int)]
    } else {
        decimal(n / 10).push(digit((n % 10) as int))
    }
}

/// The decimal numeral of an integer, with a minus sign where it is negative.
pub open spec fn signed_decimal(n: int) -> Seq<char> {
    if n < 0 {
        seq!['-'] + decimal((-n) as nat)
    } else {
        decimal(n as nat)
    }
}

/// At least one character, and all of them decimal digits.
pub open spec fn all_digits(s: Seq<char>) -> bool {
    &&& s.len() > 0
    &&& forall|i: int| 0 <= i < s.len() ==> '0' <= #[trigger] s[i] <= '9'
}

/// The number that a sequence of digits denotes.
pub open spec fn numeral_value(s: Seq<char>) -> nat
    decreases s.len(),
{
    if s.len() == 0 {
        0
    } else {
        10 * numeral_value(s.drop_last()) + (s.last() as int - '0' as int) as nat
    }
}

/// A text without the one plus sign that may stand in front of a numeral.
pub open spec fn without_plus(s: Seq<char>) -> Seq<char> {
    if s.len() > 0 && s[0] == '+' {
        s.skip(1)
    } else {
        s
    }
}

/// The 16-bit number that a text denotes, if it denotes one: digits with at
/// most one plus sign in front, and a value that fits.
pub open spec fn u16_value(s: Seq<char>) -> Option<u16> {
    let digits = without_plus(s);
    if all_digits(digits) && numeral_value(digits) <= u16::MAX {
        Some(numeral_value(digits) as u16)
    } else {
        None
    }
}

/// An optional string holds a text exactly if it holds a string, and then the
/// text of that string.
pub proof fn law_optional_text(s: String)
    ensures
        opt_text(Some(s)) == Some(s@),
        opt_text(None) is None,
{
}

/// A sequence of strings gives as many texts, each in its place.
pub proof fn law_texts_keep_places(v: Seq<String>)
    ensures
        texts(v).len() == v.len(),
        forall|i: int| 0 <= i < v.len() ==> #[trigger] texts(v)[i] == v[i]@,
{
}

/// White space is made of these 25 characters.
pub proof fn law_white_space_characters(c: char)
    ensures
        white_space(c) <==> seq![
            0x9int, 0xa, 0xb, 0xc, 0xd, 0x20, 0x85, 0xa0, 0x1680, 0x2000, 0x2001, 0x2002, 0x2003,
            0x2004, 0x2005, 0x2006, 0x2007, 0x2008, 0x2009, 0x200a, 0x2028, 0x2029, 0x202f, 0x205f,
            0x3000,
        ].contains(c as int),
{
    let all = seq![
        0x9int, 0xa, 0xb, 0xc, 0xd, 0x20, 0x85, 0xa0, 0x1680, 0x2000, 0x2001, 0x2002, 0x2003,
        0x2004, 0x2005, 0x2006, 0x2007, 0x2008, 0x2009, 0x200a, 0x2028, 0x2029, 0x202f, 0x205f,
        0x3000,
    ];
    if '\u{9}' <= c <= '\u{d}' {
        assert(all[c as int - 0x9] == c as int);
    }
    if '\u{2000}' <= c <= '\u{200a}' {
        assert(all[c as int - 0x2000 + 9] == c as int);
    }
    assert(all[5] == 0x20 && all[6] == 0x85 && all[7] == 0xa0 && all[8] == 0x1680);
    assert(all[20] == 0x2028 && all[21] == 0x2029 && all[22] == 0x202f && all[23] == 0x205f
        && all[24] == 0x3000);
}

/// The empty text is blank, two texts in a row are blank exactly if both are,
/// and one character is blank exactly if it is white space.
pub proof fn law_blank_is_all_white_space(a: Seq<char>, b: Seq<char>, c: char)
    ensures
        blank(Seq::empty()),
        blank(a + b) <==> blank(a) && blank(b),
        blank(seq![c]) <==> white_space(c),
{
    if blank(a + b) {
        assert forall|i: int| 0 <= i < a.len() implies white_space(#[trigger] a[i]) by {
            assert((a + b)[i] == a[i]);
        }
        assert forall|i: int| 0 <= i < b.len() implies white_space(#[trigger] b[i]) by {
            assert((a + b)[a.len() + i] == b[i]);
        }
    }
    if blank(seq![c]) {
        assert(seq![c][0] == c);
    }
}

/// A text occurs in another exactly if the other is made of something, that
/// text, and something.
pub proof fn law_occurrence_splits_text(needle: Seq<char>, s: Seq<char>)
    ensures
        occurs_in(needle, s) <==> exists|front: Seq<char>, back: Seq<char>|
            s == #[trigger] (front + needle + back),
{
    if occurs_in(needle, s) {
        let i = choose|i: int| occurs_at(needle, s, i);
        let front = s.take(i);
        let back = s.skip(i + needle.len());
        assert(s =~= s.take(i) + s.subrange(i, i + needle.len()) + s.skip(i + needle.len()));
        assert(s == front + needle + back);
    }
    if exists|front: Seq<char>, back: Seq<char>| s == #[trigger] (front + needle + back) {
        let (front, back) = choose|front: Seq<char>, back: Seq<char>|
            s == #[trigger] (front + needle + back);
        let i = front.len() as int;
        assert(s.subrange(i, i + needle.len()) =~= needle);
        assert(occurs_at(needle, s, i));
    }
}

/// The digits are these ten characters.
pub proof fn law_digit_characters(s: Seq<char>)
    ensures
        all_digits(s) <==> s.len() > 0 && forall|i: int|
            0 <= i < s.len() ==> "0123456789"@.contains(#[trigger] s[i]),
{
    reveal_strlit("0123456789");
    let ten = "0123456789"@;
    assert forall|c: char| '0' <= c <= '9' implies #[trigger] ten.contains(c) by {
        assert(ten[c as int - '0' as int] == c);
    }
    assert forall|c: char| #[trigger] ten.contains(c) implies '0' <= c <= '9' by {}
    if s.len() > 0 && forall|i: int| 0 <= i < s.len() ==> ten.contains(#[trigger] s[i]) {
        assert forall|i: int| 0 <= i < s.len() implies '0' <= #[trigger] s[i] <= '9' by {
            assert(ten.contains(s[i]));
        }
    }
}

/// One digit more at the end makes ten times the number, and adds the digit.
pub proof fn law_digit_adds_to_value(s: Seq<char>, d: nat)
    requires
        d < 10,
    ensures
        numeral_value(Seq::empty()) == 0,
        numeral_value(s.push(('0' as int + d) as char)) == 10 * numeral_value(s) + d,
{
    assert(s.push(('0' as int + d) as char).drop_last() =~= s);
}

/// A numeral begins with a zero only if it is that of zero.
pub proof fn law_decimal_has_no_leading_zero(n: nat)
    ensures
        decimal(n)[0] == '0' <==> n == 0,
        n == 0 ==> decimal(n).len() == 1,
    decreases n,
{
    if n >= 10 {
        law_decimal_has_no_leading_zero(n / 10);
        law_decimal_denotes(n / 10);
        assert(decimal(n)[0] == decimal(n / 10)[0]);
    }
}

/// The numeral of an integer is that of its magnitude, and has a minus sign in
/// front exactly if the integer is negative.
pub proof fn law_sign_is_written(n: int)
    ensures
        n >= 0 ==> signed_decimal(n) == decimal(n as nat),
        n > 0 ==> signed_decimal(-n) == seq!['-'] + signed_decimal(n),
        signed_decimal(n)[0] == '-' <==> n < 0,
{
    law_decimal_denotes(n as nat);
}

/// The texts that are read as a 16-bit number are the digits that denote it,
/// with or without a plus sign in front.
pub proof fn law_what_is_read_as_u16(s: Seq<char>, n: u16)
    ensures
        u16_value(s) == Some(n) <==> exists|digits: Seq<char>|
            {
                &&& #[trigger] all_digits(digits)
                &&& numeral_value(digits) == n
                &&& s == digits || s == seq!['+'] + digits
            },
{
    let digits = without_plus(s);
    if u16_value(s) == Some(n) {
        assert(all_digits(digits));
        if s != digits {
            assert(s =~= seq!['+'] + digits);
        }
    }
    if exists|digits: Seq<char>|
        {
            &&& #[trigger] all_digits(digits)
            &&& numeral_value(digits) == n
            &&& s == digits || s == seq!['+'] + digits
        } {
        let digits = choose|digits: Seq<char>|
            {
                &&& #[trigger] all_digits(digits)
                &&& numeral_value(digits) == n
                &&& s == digits || s == seq!['+'] + digits
            };
        if s == digits {
            assert(s[0] != '+');
        } else {
            assert(s.skip(1) =~= digits);
        }
    }
}

/// The numeral of a number consists of digits, and denotes that number.
pub proof fn law_decimal_denotes(n: nat)
    ensures
        all_digits(decimal(n)),
        numeral_value(decimal(n)) == n,
    decreases n,
{
    reveal_with_fuel(numeral_value, 2);
    if n >= 10 {
        law_decimal_denotes(n / 10);
        assert(decimal(n).drop_last() =~= decimal(n / 10));
    } else {
        assert(decimal(n).drop_last() =~= Seq::<char>::empty());
    }
}

/// The numeral of a 16-bit number is read back as that number.
pub proof fn law_decimal_reads_back(n: u16)
    ensures
        u16_value(decimal(n as nat)) == Some(n),
{
    law_decimal_denotes(n as nat);
    assert(decimal(n as nat)[0] != '+');
}

/// A digit more can only make the value larger.
proof fn lemma_value_grows(s: Seq<char>, k: int)
    requires
        0 <= k <= s.len(),
        forall|i: int| 0 <= i < s.len() ==> '0' <= #[trigger] s[i] <= '9',
    ensures
        numeral_value(s.take(k)) <= numeral_value(s),
    decreases s.len(),
{
    if k < s.len() {
        lemma_value_grows(s.drop_last(), k);
        assert(s.drop_last().take(k) =~= s.take(k));
    } else {
        assert(s.take(k) =~= s);
    }
}

/// The text of one digit.
fn digit_text(d: u64) -> (s: &'static str)
    requires
        d < 10,
    ensures
        s@ == seq![digit(d as int)],
{
    proof {
        reveal_strlit("0");
        reveal_strlit("1");
        reveal_strlit("2");
        reveal_strlit("3");
        reveal_strlit("4");
        reveal_strlit("5");
        reveal_strlit("6");
        reveal_strlit("7");
        reveal_strlit("8");
        reveal_strlit("9");
    }
    if d == 0 {
        "0"
    } else if d == 1 {
        "1"
    } else if d == 2 {
        "2"
    } else if d == 3 {
        "3"
    } else if d == 4 {
        "4"
    } else if d == 5 {
        "5"
    } else if d == 6 {
        "6"
    } else if d == 7 {
        "7"
    } else if d == 8 {
        "8"
    } else {
        "9"
    }
}

/// Writes a number as a decimal numeral.
pub fn decimal_text(n: u64) -> (s: String)
    ensures
        s@ == decimal(n as nat),
    decreases n,
{
    if n < 10 {
        digit_text(n).to_string()
    } else {
        let mut s = decimal_text(n / 10);
        s.append(digit_text(n % 10));
        assert(s@ =~= decimal(n as nat));
        s
    }
}

/// Writes an integer as a decimal numeral.
pub fn signed_decimal_text(n: i32) -> (s: String)
    ensures
        s@ == signed_decimal(n as int),
{
    if n < 0 {
        proof {
            reveal_strlit("-");
        }
        let magnitude: u64 = (-(n as i64)) as u64;
        let s = "-".to_string().concat(decimal_text(magnitude).as_str());
        assert(s@ =~= signed_decimal(n as int));
        s
    } else {
        decimal_text(n as u64)
    }
}

/// Reads a 16-bit number.
pub fn read_u16(s: &str) -> (r: Option<u16>)
    ensures
        r == u16_value(s@),
{
    let v = chars_of(s);
    let start: usize = if v.len() > 0 && v[0] == '+' {
        1
    } else {
        0
    };
    let ghost digits = without_plus(s@);
    assert(digits =~= v@.skip(start as int));
    if v.len() == start {
        return None;
    }
    let mut value: u32 = 0;
    let mut i: usize = start;
    while i < v.len()
        invariant
            v@ == s@,
            start <= i <= v.len(),
            start < v.len(),
            digits == without_plus(s@),
            digits == v@.skip(start as int),
            forall|j: int| 0 <= j < i - start ==> '0' <= #[trigger] digits[j] <= '9',
            value <= u16::MAX,
            value == numeral_value(digits.take(i - start)),
        decreases v.len() - i,
    {
        let c = v[i];
        assert(digits[i - start] == c);
        if c < '0' || c > '9' {
            return None;
        }
        value = value * 10 + (c as u32 - '0' as u32);
        proof {
            let longer = digits.take(i + 1 - start);
            assert(longer.drop_last() =~= digits.take(i - start));
            assert(longer.last() == c);
            if value > u16::MAX && all_digits(digits) {
                lemma_value_grows(digits, i + 1 - start);
            }
        }
        if value > u16::MAX as u32 {
            return None;
        }
        i = i + 1;
    }
    assert(digits.take(v.len() - start) =~= digits);
    Some(value as u16)
}

} // verus!
