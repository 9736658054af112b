//! Text as a sequence of characters: comparing, searching, cutting and building it.

use vstd::prelude::*;
use vstd::string::*;
use vstd::utf8::*;

verus! {

/// `String::push` appends one character to the end of the string.
pub assume_specification[ String::push ](s: &mut String, c: char)
    ensures
        final(s)@ == old(s)@.push(c),
;

/// An ASCII capital letter in lower case, any other character as it is.
pub open spec fn ascii_lower(c: char) -> char {
    if 'A' <= c <= 'Z' {
        ((c as u32) + 32) as char
    } else {
        c
    }
}

/// Every character of `s` in ASCII lower case.
pub open spec fn all_ascii_lower(s: Seq<char>) -> Seq<char> {
    s.map_values(|c: char| ascii_lower(c))
}

/// `part` stands in `whole` at position `at`.
pub open spec fn stands_at(whole: Seq<char>, part: Seq<char>, at: int) -> bool {
    0 <= at && at + part.len() <= whole.len() && whole.subrange(at, at + part.len()) == part
}

/// `part` stands somewhere in `whole`.
pub open spec fn occurs_in(part: Seq<char>, whole: Seq<char>) -> bool {
    exists|at: int| stands_at(whole, part, at)
}

/// What stands before the first `mark`, or all of `s` where there is none.
pub open spec fn before_first(s: Seq<char>, mark: char) -> Seq<char>
    decreases s.len(),
{
    if s.len() == 0 || s.first() == mark {
        Seq::empty()
    } else {
        seq![s.first()] + before_first(s.drop_first(), mark)
    }
}

/// What stands after the last `mark`, or all of `s` where there is none.
pub open spec fn after_last(s: Seq<char>, mark: char) -> Seq<char>
    decreases s.len(),
{
    if s.len() == 0 || s.last() == mark {
        Seq::empty()
    } else {
        after_last(s.drop_last(), mark).push(s.last())
    }
}

/// The character of a decimal digit.
pub open spec fn digit_char(d: nat) -> char {
    ((0x30 + d) as u32) as char
}

/// A number in decimal, without leading zeros.
pub open spec fn decimal(n: nat) -> Seq<char>
    decreases n,
{
    if n < 10 {
        seq![digit_char(n)]
    } else {
        decimal(n / 10).push(digit_char(n % 10))
    }
}

/// The number that a row of decimal digits denotes.
pub open spec fn decimal_value(s: Seq<char>) -> int
    decreases s.len(),
{
    if s.len() == 0 {
        0
    } else {
        decimal_value(s.drop_last()) * 10 + (s.last() as u32 - 0x30)
    }
}

/// Two texts are the same.
pub fn same_text(a: &str, b: &str) -> (r: bool)
    ensures
        r == (a@ == b@),
{
    let x = a.as_bytes();
    let y = b.as_bytes();
    proof {
        encode_utf8_decode_utf8(a@);
        encode_utf8_decode_utf8(b@);
    }
    if x.len() != y.len() {
        return false;
    }
    let n: usize = x.len();
    let mut i: usize = 0;
    while i < n
        invariant
            n == x@.len(),
            n == y@.len(),
            x@ == a.spec_bytes(),
            y@ == b.spec_bytes(),
            i <= n,
            forall|j: int| 0 <= j < i ==> x@[j] == y@[j],
        decreases n - i,
    {
        if x[i] != y[i] {
            return false;
        }
        i += 1;
    }
    assert(x@ =~= y@);
    true
}

/// The characters of a text.
fn chars_of(s: &str) -> (r: Vec<char>)
    ensures
        r@ == s@,
{
    let mut chars: Vec<char> = Vec::new();
    for c in it: s.chars()
        invariant
            chars@ == s@.take(it.index() as int),
            it.seq() == s@,
    {
        chars.push(c);
    }
    assert(chars@ == s@);
    chars
}

/// The text that the characters from `from` up to `to` make.
fn text_between(chars: &Vec<char>, from: usize, to: usize) -> (r: String)
    requires
        from <= to <= chars@.len(),
    ensures
        r@ == chars@.subrange(from as int, to as int),
{
    let mut out = String::new();
    let mut i: usize = from;
    while i < to
        invariant
            from <= i <= to <= chars@.len(),
            out@ == chars@.subrange(from as int, i as int),
        decreases to - i,
    {
        out.push(chars[i]);
        i += 1;
    }
    out
}

/// `s` begins with `prefix`.
pub fn starts_with(s: &str, prefix: &str) -> (r: bool)
    ensures
        r == prefix@.is_prefix_of(s@),
{
    let whole = chars_of(s);
    let part = chars_of(prefix);
    if part.len() > whole.len() {
        return false;
    }
    matches_at(&whole, &part, 0)
}

/// `part` stands in `whole` at `at`.
fn matches_at(whole: &Vec<char>, part: &Vec<char>, at: usize) -> (r: bool)
    requires
        at + part@.len() <= whole@.len(),
    ensures
        r == (whole@.subrange(at as int, at + part@.len()) == part@),
{
    let size: usize = whole.len();
    let mut i: usize = 0;
    while i < part.len()
        invariant
            size == whole@.len(),
            at + part@.len() <= size,
            i <= part@.len(),
            forall|j: int| 0 <= j < i ==> whole@[at + j] == part@[j],
        decreases part@.len() - i,
    {
        if whole[at + i] != part[i] {
            assert(whole@.subrange(at as int, at + part@.len())[i as int] != part@[i as int]);
            return false;
        }
        i += 1;
    }
    assert(whole@.subrange(at as int, at + part@.len()) =~= part@);
    true
}

/// A character in ASCII lower case.
fn lower(c: char) -> (r: char)
    ensures
        r == ascii_lower(c),
{
    if 'A' <= c && c <= 'Z' {
        let code: u8 = c as u8;
        (code + 32) as char
    } else {
        c
    }
}

/// The characters of a text in ASCII lower case.
fn lower_chars(s: &str) -> (r: Vec<char>)
    ensures
        r@ == all_ascii_lower(s@),
{
    let chars = chars_of(s);
    let mut out: Vec<char> = Vec::new();
    let mut i: usize = 0;
    while i < chars.len()
        invariant
            i <= chars@.len(),
            out@ == all_ascii_lower(chars@.take(i as int)),
        decreases chars@.len() - i,
    {
        out.push(lower(chars[i]));
        assert(chars@.take(i + 1) =~= chars@.take(i as int).push(chars@[i as int]));
        i += 1;
        assert(out@ =~= all_ascii_lower(chars@.take(i as int)));
    }
    assert(chars@.take(i as int) =~= chars@);
    out
}

/// Two texts are the same but for the case of ASCII letters.
pub fn same_ignoring_ascii_case(a: &str, b: &str) -> (r: bool)
    ensures
        r == (all_ascii_lower(a@) == all_ascii_lower(b@)),
{
    let x = lower_chars(a);
    let y = lower_chars(b);
    if x.len() != y.len() {
        return false;
    }
    let r = matches_at(&x, &y, 0);
    assert(x@.subrange(0, y@.len() as int) =~= x@);
    r
}

/// `part` stands somewhere in `s` once `s` is in ASCII lower case.
pub fn lower_contains(s: &str, part: &str) -> (r: bool)
    ensures
        r == occurs_in(part@, all_ascii_lower(s@)),
{
    let whole = lower_chars(s);
    let wanted = chars_of(part);
    if wanted.len() > whole.len() {
        return false;
    }
    let last: usize = whole.len() - wanted.len();
    let mut at: usize = 0;
    while at < last
        invariant
            last == whole@.len() - wanted@.len(),
            whole@ == all_ascii_lower(s@),
            wanted@ == part@,
            at <= last,
            forall|j: int| 0 <= j < at ==> !stands_at(whole@, wanted@, j),
        decreases last - at,
    {
        if matches_at(&whole, &wanted, at) {
            assert(stands_at(whole@, wanted@, at as int));
            return true;
        }
        at += 1;
    }
    let r = matches_at(&whole, &wanted, last);
    assert(r == stands_at(whole@, wanted@, last as int));
    r
}

/// `before_first` ends where the first mark stands.
pub(crate) proof fn lemma_before_first(s: Seq<char>, mark: char, n: int)
    requires
        0 <= n <= s.len(),
        forall|j: int| 0 <= j < n ==> s[j] != mark,
        n == s.len() || s[n] == mark,
    ensures
        before_first(s, mark) == s.take(n),
    decreases n,
{
    if n == 0 {
        assert(s.take(0) =~= Seq::empty());
    } else {
        lemma_before_first(s.drop_first(), mark, n - 1);
        assert(seq![s.first()] + s.drop_first().take(n - 1) =~= s.take(n));
    }
}

/// `after_last` begins behind the last mark.
pub(crate) proof fn lemma_after_last(s: Seq<char>, mark: char, n: int)
    requires
        0 <= n <= s.len(),
        forall|j: int| n <= j < s.len() ==> s[j] != mark,
        n == 0 || s[n - 1] == mark,
    ensures
        after_last(s, mark) == s.skip(n),
    decreases s.len() - n,
{
    if n == s.len() {
        assert(s.skip(n) =~= Seq::empty());
    } else {
        lemma_after_last(s.drop_last(), mark, n);
        assert(s.drop_last().skip(n).push(s.last()) =~= s.skip(n));
    }
}

/// The text before the first `mark`.
pub fn cut_before_first(s: &str, mark: char) -> (r: String)
    ensures
        r@ == before_first(s@, mark),
{
    let chars = chars_of(s);
    let mut n: usize = 0;
    while n < chars.len() && chars[n] != mark
        invariant
            n <= chars@.len(),
            forall|j: int| 0 <= j < n ==> chars@[j] != mark,
        decreases chars@.len() - n,
    {
        n += 1;
    }
    proof {
        lemma_before_first(chars@, mark, n as int);
    }
    text_between(&chars, 0, n)
}

/// The text after the last `mark`.
pub fn cut_after_last(s: &str, mark: char) -> (r: String)
    ensures
        r@ == after_last(s@, mark),
{
    let chars = chars_of(s);
    let mut n: usize = chars.len();
    while n > 0 && chars[n - 1] != mark
        invariant
            n <= chars@.len(),
            forall|j: int| n <= j < chars@.len() ==> chars@[j] != mark,
        decreases n,
    {
        n -= 1;
    }
    proof {
        lemma_after_last(chars@, mark, n as int);
    }
    text_between(&chars, n, chars.len())
}

/// A number in decimal.
pub fn decimal_text(n: u128) -> (r: String)
    ensures
        r@ == decimal(n as nat),
    decreases n,
{
    let digit: u8 = (n % 10) as u8;
    let mut out = if n < 10 {
        String::new()
    } else {
        decimal_text(n / 10)
    };
    out.push((0x30 + digit) as char);
    assert(out@ =~= decimal(n as nat));
    out
}

/// Reading a decimal text back gives the number that was written.
pub proof fn law_decimal_reads_back(n: nat)
    ensures
        decimal_value(decimal(n)) == n,
        decimal(n).len() > 0,
        forall|i: int| 0 <= i < decimal(n).len() ==> '0' <= #[trigger] decimal(n)[i] <= '9',
    decreases n,
{
    if n < 10 {
        assert(decimal(n).drop_last() =~= Seq::empty());
        assert(decimal_value(Seq::<char>::empty()) == 0);
    } else {
        law_decimal_reads_back(n / 10);
        assert(decimal(n).drop_last() =~= decimal(n / 10));
    }
}

/// A digit is appended to a number by writing it behind it.
pub proof fn law_decimal_appends_digits(n: nat, digit: nat)
    requires
        digit < 10,
    ensures
        n > 0 ==> decimal(10 * n + digit) == decimal(n) + decimal(digit),
        decimal(digit).len() == 1,
        decimal(digit)[0] as u32 == '0' as u32 + digit,
{
    if n > 0 {
        assert((10 * n + digit) / 10 == n && (10 * n + digit) % 10 == digit);
        assert(decimal(10 * n + digit) =~= decimal(n) + decimal(digit));
    }
}

/// A decimal text of more than one digit does not begin with a zero.
pub proof fn law_decimal_has_no_leading_zero(n: nat)
    ensures
        decimal(n).len() > 0,
        n > 0 ==> decimal(n)[0] != '0',
        decimal(n).len() > 1 ==> n >= 10,
    decreases n,
{
    if n >= 10 {
        law_decimal_has_no_leading_zero(n / 10);
        assert(decimal(n)[0] == decimal(n / 10)[0]);
    }
}

/// Lower case changes the letters from `A` to `Z` and nothing else.
pub proof fn law_lower_case_changes_ascii_letters_only(s: Seq<char>)
    ensures
        all_ascii_lower(s).len() == s.len(),
        forall|i: int|
            0 <= i < s.len() ==> all_ascii_lower(s)[i] as u32 == #[trigger] s[i] as u32 + (if 'A'
                <= s[i] <= 'Z' {
                32int
            } else {
                0int
            }),
{
}

/// A text occurs in another exactly where the other is made of it, something before it and
/// something behind it.
pub proof fn law_a_part_occurs_between_the_rest(part: Seq<char>, whole: Seq<char>)
    ensures
        forall|before: Seq<char>, behind: Seq<char>|
            whole == #[trigger] (before + part + behind) ==> occurs_in(part, whole),
        occurs_in(part, whole) ==> exists|before: Seq<char>, behind: Seq<char>|
            whole == #[trigger] (before + part + behind),
{
    assert forall|before: Seq<char>, behind: Seq<char>|
        whole == #[trigger] (before + part + behind) implies occurs_in(part, whole) by {
        let at = before.len() as int;
        assert(whole.subrange(at, at + part.len()) =~= part);
        assert(stands_at(whole, part, at));
    }
    if occurs_in(part, whole) {
        let at = choose|at: int| stands_at(whole, part, at);
        let before = whole.take(at);
        let behind = whole.skip(at + part.len());
        assert(whole =~= before + part + behind);
    }
}

/// What stands before the first mark is free of it, and is followed by it or by nothing.
pub proof fn law_before_first_ends_at_the_first_mark(s: Seq<char>, mark: char)
    ensures
        before_first(s, mark).is_prefix_of(s),
        !before_first(s, mark).contains(mark),
        before_first(s, mark).len() < s.len() ==> s[before_first(s, mark).len() as int] == mark,
    decreases s.len(),
{
    if s.len() > 0 && s.first() != mark {
        let rest = s.drop_first();
        let cut = before_first(rest, mark);
        law_before_first_ends_at_the_first_mark(rest, mark);
        let all = before_first(s, mark);
        assert(all =~= seq![s.first()] + cut);
        assert forall|i: int| 0 <= i < all.len() implies all[i] != mark && all[i] == s[i] by {
            if i > 0 {
                assert(all[i] == cut[i - 1]);
                assert(cut[i - 1] == rest.subrange(0, cut.len() as int)[i - 1]);
            }
        }
        assert(s.subrange(0, all.len() as int) =~= all);
        if all.len() < s.len() {
            assert(rest[cut.len() as int] == s[all.len() as int]);
        }
    } else {
        assert(before_first(s, mark) =~= s.subrange(0, 0));
    }
}

/// What stands after the last mark is free of it, and is preceded by it or by nothing.
pub proof fn law_after_last_begins_at_the_last_mark(s: Seq<char>, mark: char)
    ensures
        after_last(s, mark).is_suffix_of(s),
        !after_last(s, mark).contains(mark),
        after_last(s, mark).len() < s.len() ==> s[s.len() - after_last(s, mark).len() - 1] == mark,
    decreases s.len(),
{
    if s.len() > 0 && s.last() != mark {
        let rest = s.drop_last();
        let cut = after_last(rest, mark);
        law_after_last_begins_at_the_last_mark(rest, mark);
        let all = after_last(s, mark);
        assert(all =~= cut.push(s.last()));
        assert forall|i: int| 0 <= i < all.len() implies all[i] != mark && all[i] == s[s.len()
            - all.len() + i] by {
            if i < cut.len() {
                assert(all[i] == cut[i]);
                assert(cut[i] == rest.subrange(rest.len() - cut.len(), rest.len() as int)[i]);
            }
        }
        assert(s.subrange(s.len() - all.len(), s.len() as int) =~= all);
    } else {
        assert(after_last(s, mark) =~= s.subrange(s.len() as int, s.len() as int));
    }
}

} // verus!
