//! Text operations with exact meanings, over strings seen as sequences of characters.
use vstd::prelude::*;
use vstd::string::*;

verus! {

/// The view of an optional string.
pub open spec fn option_view(s: Option<String>) -> Option<Seq<char>> {
    match s {
        Some(s) => Some(s@),
        None => None,
    }
}

/// Whether two strings hold the same characters.
pub fn same_text(a: &str, b: &str) -> (r: bool)
    ensures
        r == (a@ == b@),
{
    a.to_owned() == b.to_owned()
}

/// The characters of a string.
pub fn chars_of(s: &str) -> (r: Vec<char>)
    ensures
        r@ == s@,
{
    let mut out: Vec<char> = Vec::new();
    for c in it: s.chars()
        invariant
            it.seq() == s@,
            out@ == s@.take(it.index() as int),
    {
        proof {
            assert(s@.take(it.index() as int + 1) == s@.take(it.index() as int).push(c));
        }
        out.push(c);
    }
    proof {
        assert(s@.take(s@.len() as int) == s@);
    }
    out
}

/// The Unicode `White_Space` characters.
pub open spec fn white_space(c: char) -> bool {
    let n = c as u32;
    ||| 0x09 <= n <= 0x0d
    ||| n == 0x20
    ||| n == 0x85
    ||| n == 0xa0
    ||| n == 0x1680
    ||| 0x2000 <= n <= 0x200a
    ||| n == 0x2028
    ||| n == 0x2029
    ||| n == 0x202f
    ||| n == 0x205f
    ||| n == 0x3000
}

/// Whether a character is white space.
pub fn is_white_space(c: char) -> (r: bool)
    ensures
        r == white_space(c),
{
    let n: u32 = c as u32;
    (0x09 <= n && n <= 0x0d) || n == 0x20 || n == 0x85 || n == 0xa0 || n == 0x1680 || (0x2000 <= n
        && n <= 0x200a) || n == 0x2028 || n == 0x2029 || n == 0x202f || n == 0x205f || n == 0x3000
}

/// The Unicode control characters (general category `Cc`).
pub open spec fn control(c: char) -> bool {
    let n = c as u32;
    n <= 0x1f || 0x7f <= n <= 0x9f
}

/// Whether a character is a control character.
pub fn is_control(c: char) -> (r: bool)
    ensures
        r == control(c),
{
    let n: u32 = c as u32;
    n <= 0x1f || (0x7f <= n && n <= 0x9f)
}

/// Whether a string holds no control character.
pub fn is_printable(s: &str) -> (r: bool)
    ensures
        r == (forall|i: int| 0 <= i < s@.len() ==> !control(#[trigger] s@[i])),
{
    let chars = chars_of(s);
    let mut i: usize = 0;
    while i < chars.len()
        invariant
            i <= chars@.len(),
            chars@ == s@,
            forall|j: int| 0 <= j < i ==> !control(#[trigger] s@[j]),
        decreases chars@.len() - i,
    {
        if is_control(chars[i]) {
            assert(control(s@[i as int]));
            return false;
        }
        i = i + 1;
    }
    true
}

/// `s` without its leading white space.
pub open spec fn trimmed_start(s: Seq<char>) -> Seq<char>
    decreases s.len(),
{
    if s.len() > 0 && white_space(s[0]) {
        trimmed_start(s.skip(1))
    } else {
        s
    }
}

/// `s` without its trailing white space.
pub open spec fn trimmed_end(s: Seq<char>) -> Seq<char>
    decreases s.len(),
{
    if s.len() > 0 && white_space(s.last()) {
        trimmed_end(s.drop_last())
    } else {
        s
    }
}

/// `s` without the white space around it.
pub open spec fn trimmed(s: Seq<char>) -> Seq<char> {
    trimmed_end(trimmed_start(s))
}

/// Removes the white space around a string.
pub fn trim(s: &str) -> (r: String)
    ensures
        r@ == trimmed(s@),
{
    let chars = chars_of(s);
    let n: usize = chars.len();
    let mut from: usize = 0;
    proof {
        assert(s@.skip(0) == s@);
    }
    while from < n && is_white_space(chars[from])
        invariant
            from <= n,
            n == chars@.len(),
            chars@ == s@,
            trimmed_start(s@.skip(from as int)) == trimmed_start(s@),
        decreases n - from,
    {
        proof {
            assert(s@.skip(from as int).skip(1) == s@.skip(from as int + 1));
        }
        from = from + 1;
    }
    let mut to: usize = n;
    proof {
        assert(s@.subrange(from as int, to as int) == s@.skip(from as int));
    }
    while from < to && is_white_space(chars[to - 1])
        invariant
            from <= to <= n,
            n == chars@.len(),
            chars@ == s@,
            trimmed_start(s@) == s@.skip(from as int),
            trimmed_end(s@.subrange(from as int, to as int)) == trimmed_end(s@.skip(from as int)),
        decreases to - from,
    {
        proof {
            assert(s@.subrange(from as int, to as int).drop_last() == s@.subrange(
                from as int,
                to as int - 1,
            ));
        }
        to = to - 1;
    }
    s.substring_char(from, to).to_owned()
}

/// The first `n` characters of `s`, or all of them where there are fewer.
pub open spec fn first_chars(s: Seq<char>, n: nat) -> Seq<char> {
    if s.len() <= n {
        s
    } else {
        s.take(n as int)
    }
}

/// Keeps at most the first `n` characters of a string.
pub fn take_chars(s: &str, n: usize) -> (r: String)
    ensures
        r@ == first_chars(s@, n as nat),
{
    let len: usize = s.unicode_len();
    if len <= n {
        s.to_owned()
    } else {
        s.substring_char(0, n).to_owned()
    }
}

/// The index of the last `:` of `s`, or -1 where it has none.
pub open spec fn last_colon(s: Seq<char>) -> int
    decreases s.len(),
{
    if s.len() == 0 {
        -1
    } else if s.last() == ':' {
        s.len() - 1
    } else {
        last_colon(s.drop_last())
    }
}

/// What follows the last `:` of `s`: all of `s` where it has none.
pub open spec fn after_last_colon(s: Seq<char>) -> Seq<char> {
    s.skip(last_colon(s) + 1)
}

/// The part of a string behind its last `:`.
pub fn last_segment(s: &str) -> (r: String)
    ensures
        r@ == after_last_colon(s@),
{
    let chars = chars_of(s);
    let n: usize = chars.len();
    let mut i: usize = n;
    proof {
        assert(s@.take(n as int) == s@);
    }
    while i > 0 && chars[i - 1] != ':'
        invariant
            i <= n,
            n == chars@.len(),
            chars@ == s@,
            last_colon(s@.take(i as int)) == last_colon(s@),
        decreases i,
    {
        proof {
            assert(s@.take(i as int).drop_last() == s@.take(i as int - 1));
        }
        i = i - 1;
    }
    proof {
        assert(i > 0 ==> s@.take(i as int).last() == ':');
        assert(last_colon(s@) == i - 1);
        assert(s@.subrange(i as int, n as int) == s@.skip(i as int));
    }
    s.substring_char(i, n).to_owned()
}

/// `s` without the prefix `prefix`, where it starts with it.
pub open spec fn without_prefix(s: Seq<char>, prefix: Seq<char>) -> Option<Seq<char>> {
    if prefix.is_prefix_of(s) {
        Some(s.skip(prefix.len() as int))
    } else {
        None
    }
}

/// Whether the characters `chars` hold `pattern` at index `at`.
fn matches_at(chars: &Vec<char>, at: usize, pattern: &Vec<char>) -> (r: bool)
    requires
        at <= chars@.len(),
    ensures
        r == pattern@.is_prefix_of(chars@.skip(at as int)),
{
    let n: usize = chars.len();
    if n - at < pattern.len() {
        return false;
    }
    let mut i: usize = 0;
    while i < pattern.len()
        invariant
            i <= pattern@.len(),
            n == chars@.len(),
            at + pattern@.len() <= n,
            forall|j: int| 0 <= j < i ==> pattern@[j] == #[trigger] chars@.skip(at as int)[j],
        decreases pattern@.len() - i,
    {
        if chars[at + i] != pattern[i] {
            assert(pattern@[i as int] != chars@.skip(at as int)[i as int]);
            return false;
        }
        i = i + 1;
    }
    proof {
        assert(pattern@ == chars@.skip(at as int).subrange(0, pattern@.len() as int));
    }
    true
}

/// Takes a prefix off a string.
pub fn strip_prefix(s: &str, prefix: &str) -> (r: Option<String>)
    ensures
        match r {
            Some(rest) => without_prefix(s@, prefix@) == Some(rest@),
            None => without_prefix(s@, prefix@) is None,
        },
{
    let chars = chars_of(s);
    let pattern = chars_of(prefix);
    proof {
        assert(s@.skip(0) == s@);
    }
    if matches_at(&chars, 0, &pattern) {
        let rest = s.substring_char(pattern.len(), chars.len()).to_owned();
        proof {
            assert(rest@ == s@.skip(prefix@.len() as int));
        }
        Some(rest)
    } else {
        None
    }
}

/// `s` with each occurrence of `from`, found from the left and without overlap, replaced by `to`.
pub open spec fn replaced(s: Seq<char>, from: Seq<char>, to: Seq<char>) -> Seq<char>
    decreases s.len(),
{
    if s.len() == 0 || from.len() == 0 {
        s
    } else if from.is_prefix_of(s) {
        to + replaced(s.skip(from.len() as int), from, to)
    } else {
        seq![s[0]] + replaced(s.skip(1), from, to)
    }
}

/// Replaces each occurrence of a non-empty pattern.
pub fn replace_all(s: &str, from: &str, to: &str) -> (r: String)
    requires
        from@.len() > 0,
    ensures
        r@ == replaced(s@, from@, to@),
{
    let chars = chars_of(s);
    let pattern = chars_of(from);
    let n: usize = chars.len();
    let mut out = String::new();
    let mut start: usize = 0;
    let mut i: usize = 0;
    proof {
        assert(s@.skip(0) == s@);
        assert(out@ + s@.subrange(0, 0) + replaced(s@, from@, to@) == replaced(s@, from@, to@));
    }
    while i < n
        invariant
            start <= i <= n,
            n == chars@.len(),
            chars@ == s@,
            pattern@ == from@,
            from@.len() > 0,
            out@ + s@.subrange(start as int, i as int) + replaced(s@.skip(i as int), from@, to@)
                == replaced(s@, from@, to@),
        decreases n - i,
    {
        if matches_at(&chars, i, &pattern) {
            let ghost before = out@;
            out.append(s.substring_char(start, i));
            out.append(to);
            proof {
                let rest = s@.skip(i as int);
                let next = i as int + from@.len();
                assert(rest.skip(from@.len() as int) == s@.skip(next));
                assert(out@ + s@.subrange(next, next) + replaced(s@.skip(next), from@, to@)
                    == before + s@.subrange(start as int, i as int) + replaced(rest, from@, to@));
            }
            i = i + pattern.len();
            start = i;
        } else {
            proof {
                let rest = s@.skip(i as int);
                assert(rest.skip(1) == s@.skip(i as int + 1));
                assert(out@ + s@.subrange(start as int, i as int + 1) + replaced(
                    s@.skip(i as int + 1),
                    from@,
                    to@,
                ) == out@ + s@.subrange(start as int, i as int) + replaced(rest, from@, to@));
            }
            i = i + 1;
        }
    }
    proof {
        assert(out@ + s@.subrange(start as int, n as int) + replaced(s@.skip(n as int), from@, to@)
            == out@ + s@.subrange(start as int, n as int));
    }
    out.append(s.substring_char(start, n));
    out
}

/// The texts of `list` with `sep` between each and the next.
pub open spec fn joined(list: Seq<Seq<char>>, sep: Seq<char>) -> Seq<char>
    decreases list.len(),
{
    if list.len() == 0 {
        Seq::empty()
    } else if list.len() == 1 {
        list[0]
    } else {
        joined(list.drop_last(), sep) + sep + list.last()
    }
}

/// The decimal digit for `d`.
pub open spec fn digit(d: nat) -> char {
    "0123456789"@[d as int]
}

/// `n` written in decimal, without leading zeros.
pub open spec fn decimal(n: nat) -> Seq<char>
    decreases n,
{
    if n < 10 {
        seq![digit(n)]
    } else {
        decimal(n / 10).push(digit(n % 10))
    }
}

/// Writes a number in decimal.
pub fn decimal_text(n: usize) -> (r: String)
    ensures
        r@ == decimal(n as nat),
    decreases n,
{
    proof {
        reveal_strlit("0123456789");
    }
    let d: usize = n % 10;
    let last = "0123456789".substring_char(d, d + 1);
    proof {
        assert(last@ == seq![digit(d as nat)]);
    }
    if n < 10 {
        last.to_owned()
    } else {
        let r = decimal_text(n / 10).concat(last);
        proof {
            assert(r@ == decimal((n / 10) as nat).push(digit(d as nat)));
        }
        r
    }
}

/// Whether `c` is an ASCII digit.
pub open spec fn is_digit(c: char) -> bool {
    '0' <= c && c <= '9'
}

/// The number that the digits of `s` write in decimal.
pub open spec fn digits_value(s: Seq<char>) -> nat
    decreases s.len(),
{
    if s.len() == 0 {
        0
    } else {
        (digits_value(s.drop_last()) * 10 + (s.last() as int - '0' as int)) as nat
    }
}

/// Whether `s` holds nothing but digits.
pub open spec fn all_digits(s: Seq<char>) -> bool {
    forall|i: int| 0 <= i < s.len() ==> is_digit(#[trigger] s[i])
}

/// `s` without a leading `+`.
pub open spec fn unsigned_part(s: Seq<char>) -> Seq<char> {
    if s.len() > 0 && s[0] == '+' {
        s.skip(1)
    } else {
        s
    }
}

/// The number that `s` writes: decimal digits, at least one, after an optional `+`.
pub open spec fn count_of(s: Seq<char>) -> Option<nat> {
    let body = unsigned_part(s);
    if body.len() > 0 && all_digits(body) {
        Some(digits_value(body))
    } else {
        None
    }
}

/// Reads a number; `None` where the text is none or the number does not fit.
pub fn parse_count(s: &str) -> (r: Option<usize>)
    ensures
        match count_of(s@) {
            Some(n) => if n <= usize::MAX {
                r == Some(n as usize)
            } else {
                r is None
            },
            None => r is None,
        },
{
    let chars = chars_of(s);
    let n: usize = chars.len();
    let start: usize = if n > 0 && chars[0] == '+' {
        1
    } else {
        0
    };
    let ghost body = unsigned_part(s@);
    proof {
        assert(s@.skip(0) == s@);
        assert(body == s@.skip(start as int));
    }
    if start == n {
        return None;
    }
    let mut value: usize = 0;
    let mut i: usize = start;
    let mut fits: bool = true;
    proof {
        assert(body.take(0) == Seq::<char>::empty());
    }
    while i < n
        invariant
            start <= i <= n,
            n == chars@.len(),
            chars@ == s@,
            body == unsigned_part(s@),
            body == s@.skip(start as int),
            start < n,
            forall|j: int| 0 <= j < i - start ==> is_digit(#[trigger] body[j]),
            fits ==> value == digits_value(body.take(i - start)),
            !fits ==> digits_value(body.take(i - start)) > usize::MAX,
        decreases n - i,
    {
        let c = chars[i];
        let ghost k = i - start;
        proof {
            assert(body[k] == c);
            assert(body.take(k + 1).drop_last() == body.take(k));
            assert(body.take(k + 1).last() == c);
        }
        if c < '0' || c > '9' {
            assert(!is_digit(body[k]));
            return None;
        }
        let d: usize = (c as u32 - '0' as u32) as usize;
        if fits {
            match value.checked_mul(10) {
                Some(tens) => match tens.checked_add(d) {
                    Some(sum) => {
                        value = sum;
                    },
                    None => {
                        fits = false;
                    },
                },
                None => {
                    fits = false;
                },
            }
        }
        i = i + 1;
    }
    proof {
        assert(body.take(n - start) == body);
    }
    if fits {
        Some(value)
    } else {
        None
    }
}

/// Whether `s` holds `pattern` somewhere.
pub open spec fn occurs(pattern: Seq<char>, s: Seq<char>) -> bool {
    exists|i: int| 0 <= i <= s.len() && #[trigger] pattern.is_prefix_of(s.skip(i))
}

/// Where there is nothing to replace, replacing changes nothing.
pub proof fn law_replace_nothing(s: Seq<char>, from: Seq<char>, to: Seq<char>)
    requires
        !occurs(from, s),
    ensures
        replaced(s, from, to) == s,
    decreases s.len(),
{
    if s.len() > 0 && from.len() > 0 {
        assert(s.skip(0) == s);
        assert(!from.is_prefix_of(s.skip(0)));
        assert forall|i: int| 0 <= i <= s.skip(1).len() implies !(#[trigger] from.is_prefix_of(
            s.skip(1).skip(i),
        )) by {
            assert(s.skip(1).skip(i) == s.skip(i + 1));
        }
        law_replace_nothing(s.skip(1), from, to);
        assert(seq![s[0]] + s.skip(1) == s);
    }
}

/// Trimmed text neither starts nor ends with white space, and trimming it again changes nothing.
pub proof fn law_trimmed(s: Seq<char>)
    ensures
        trimmed(s).len() > 0 ==> !white_space(trimmed(s)[0]) && !white_space(trimmed(s).last()),
        trimmed(trimmed(s)) == trimmed(s),
{
    lemma_trimmed_start(s);
    lemma_trimmed_end(trimmed_start(s));
}

proof fn lemma_trimmed_start(s: Seq<char>)
    ensures
        trimmed_start(s).len() > 0 ==> !white_space(trimmed_start(s)[0]),
    decreases s.len(),
{
    if s.len() > 0 && white_space(s[0]) {
        lemma_trimmed_start(s.skip(1));
    }
}

proof fn lemma_trimmed_end(s: Seq<char>)
    ensures
        trimmed_end(s).len() > 0 ==> !white_space(trimmed_end(s).last()) && trimmed_end(s)[0]
            == s[0],
    decreases s.len(),
{
    if s.len() > 0 && white_space(s.last()) {
        lemma_trimmed_end(s.drop_last());
    }
}

/// A number written in decimal reads back as itself.
pub proof fn law_decimal_reads_back(n: nat)
    ensures
        count_of(decimal(n)) == Some(n),
{
    lemma_decimal(n);
    assert(decimal(n)[0] != '+') by {
        assert(is_digit(decimal(n)[0]));
    }
}

proof fn lemma_decimal(n: nat)
    ensures
        decimal(n).len() > 0,
        all_digits(decimal(n)),
        digits_value(decimal(n)) == n,
    decreases n,
{
    reveal_strlit("0123456789");
    reveal_with_fuel(digits_value, 2);
    if n >= 10 {
        lemma_decimal(n / 10);
        assert(decimal(n).drop_last() == decimal(n / 10));
    } else {
        assert(decimal(n).drop_last() == Seq::<char>::empty());
    }
}

/// An optional string is seen as the characters of the string that is there.
pub proof fn law_option_view(s: String)
    ensures
        option_view(Some(s)) == Some(s@),
        option_view(None) is None,
{
}

/// The white space is made of twenty-five characters.
pub proof fn law_white_space(c: char)
    ensures
        white_space(c) <==> seq![
            0x09int,
            0x0a,
            0x0b,
            0x0c,
            0x0d,
            0x20,
            0x85,
            0xa0,
            0x1680,
            0x2000,
            0x2001,
            0x2002,
            0x2003,
            0x2004,
            0x2005,
            0x2006,
            0x2007,
            0x2008,
            0x2009,
            0x200a,
            0x2028,
            0x2029,
            0x202f,
            0x205f,
            0x3000,
        ].contains(c as int),
{
    let all = seq![
        0x09int,
        0x0a,
        0x0b,
        0x0c,
        0x0d,
        0x20,
        0x85,
        0xa0,
        0x1680,
        0x2000,
        0x2001,
        0x2002,
        0x2003,
        0x2004,
        0x2005,
        0x2006,
        0x2007,
        0x2008,
        0x2009,
        0x200a,
        0x2028,
        0x2029,
        0x202f,
        0x205f,
        0x3000,
    ];
    let n = c as int;
    if white_space(c) {
        let i: int = if n <= 0x0d {
            n - 0x09
        } else if n == 0x20 {
            5
        } else if n == 0x85 {
            6
        } else if n == 0xa0 {
            7
        } else if n == 0x1680 {
            8
        } else if n <= 0x200a {
            9 + (n - 0x2000)
        } else if n == 0x2028 {
            20
        } else if n == 0x2029 {
            21
        } else if n == 0x202f {
            22
        } else if n == 0x205f {
            23
        } else {
            24
        };
        assert(all[i] == n);
    } else if all.contains(n) {
        let i = choose|i: int| 0 <= i < all.len() && all[i] == n;
        assert(false);
    }
}

/// The control characters are the first thirty-two of each half of Latin-1, and delete.
pub proof fn law_control(c: char)
    ensures
        control(c) <==> c as int == 127 || (c as int <= 255 && (c as int) % 128 < 32),
{
}

/// Trimming takes the white space off both sides and leaves what is between.
pub proof fn law_trimmed_is_the_middle(before: Seq<char>, middle: Seq<char>, after: Seq<char>)
    requires
        forall|i: int| 0 <= i < before.len() ==> white_space(#[trigger] before[i]),
        forall|i: int| 0 <= i < after.len() ==> white_space(#[trigger] after[i]),
        middle.len() > 0 ==> !white_space(middle[0]) && !white_space(middle.last()),
    ensures
        trimmed(before + middle + after) == middle,
{
    let rest = middle + after;
    assert(before + middle + after == before + rest);
    if middle.len() > 0 {
        assert(rest[0] == middle[0]);
        lemma_trimmed_start_of(before, rest);
        lemma_trimmed_end_of(middle, after);
    } else {
        assert(rest == after);
        let all = before + after;
        assert(all + Seq::<char>::empty() == all);
        assert forall|i: int| 0 <= i < all.len() implies white_space(#[trigger] all[i]) by {
            if i < before.len() {
                assert(white_space(before[i]));
            } else {
                assert(white_space(after[i - before.len()]));
            }
        }
        lemma_trimmed_start_of(all, Seq::<char>::empty());
    }
}

proof fn lemma_trimmed_start_of(before: Seq<char>, rest: Seq<char>)
    requires
        forall|i: int| 0 <= i < before.len() ==> white_space(#[trigger] before[i]),
        rest.len() > 0 ==> !white_space(rest[0]),
    ensures
        trimmed_start(before + rest) == rest,
    decreases before.len(),
{
    if before.len() == 0 {
        assert(before + rest == rest);
    } else {
        assert(white_space(before[0]));
        assert((before + rest).skip(1) == before.skip(1) + rest);
        assert forall|i: int| 0 <= i < before.skip(1).len() implies white_space(
            #[trigger] before.skip(1)[i],
        ) by {
            assert(white_space(before[i + 1]));
        }
        lemma_trimmed_start_of(before.skip(1), rest);
    }
}

proof fn lemma_trimmed_end_of(rest: Seq<char>, after: Seq<char>)
    requires
        forall|i: int| 0 <= i < after.len() ==> white_space(#[trigger] after[i]),
        rest.len() > 0,
        !white_space(rest.last()),
    ensures
        trimmed_end(rest + after) == rest,
    decreases after.len(),
{
    if after.len() == 0 {
        assert(rest + after == rest);
    } else {
        assert(white_space(after[after.len() - 1]));
        assert((rest + after).drop_last() == rest + after.drop_last());
        lemma_trimmed_end_of(rest, after.drop_last());
    }
}

/// The first characters of a text are a prefix of it, as long as is asked for or as there is.
pub proof fn law_first_chars(s: Seq<char>, n: nat)
    ensures
        first_chars(s, n).is_prefix_of(s),
        first_chars(s, n).len() <= n,
        first_chars(s, n).len() == s.len() || first_chars(s, n).len() == n,
{
}

/// What follows the last colon has none, and a text without a colon is taken whole.
pub proof fn law_after_last_colon(front: Seq<char>, tail: Seq<char>)
    requires
        forall|i: int| 0 <= i < tail.len() ==> #[trigger] tail[i] != ':',
    ensures
        after_last_colon(front.push(':') + tail) == tail,
        after_last_colon(tail) == tail,
{
    lemma_last_colon(front, tail);
    assert((front.push(':') + tail).skip(front.len() as int + 1) == tail);
    lemma_no_colon(tail);
    assert(tail.skip(0) == tail);
}

proof fn lemma_last_colon(front: Seq<char>, tail: Seq<char>)
    requires
        forall|i: int| 0 <= i < tail.len() ==> #[trigger] tail[i] != ':',
    ensures
        last_colon(front.push(':') + tail) == front.len(),
    decreases tail.len(),
{
    let s = front.push(':') + tail;
    if tail.len() > 0 {
        assert(s.last() == tail[tail.len() - 1]);
        assert(s.drop_last() == front.push(':') + tail.drop_last());
        lemma_last_colon(front, tail.drop_last());
    } else {
        assert(s == front.push(':'));
    }
}

proof fn lemma_no_colon(s: Seq<char>)
    requires
        forall|i: int| 0 <= i < s.len() ==> #[trigger] s[i] != ':',
    ensures
        last_colon(s) == -1,
    decreases s.len(),
{
    if s.len() > 0 {
        assert(s[s.len() - 1] != ':');
        lemma_no_colon(s.drop_last());
    }
}

/// Taking a prefix off gives what the prefix has to be put before, and a text that does not start
/// with it gives nothing.
pub proof fn law_without_prefix(s: Seq<char>, prefix: Seq<char>, rest: Seq<char>)
    ensures
        without_prefix(s, prefix) == Some(rest) <==> s == prefix + rest,
{
    if s == prefix + rest {
        assert(s.subrange(0, prefix.len() as int) == prefix);
        assert(s.skip(prefix.len() as int) == rest);
    } else if without_prefix(s, prefix) == Some(rest) {
        assert(s == prefix + rest);
    }
}

/// What stands before the first occurrence of a pattern is kept, the occurrence is replaced, and
/// replacing goes on behind it.
pub proof fn law_replace_first(a: Seq<char>, from: Seq<char>, to: Seq<char>, b: Seq<char>)
    requires
        from.len() > 0,
        forall|i: int| 0 <= i < a.len() ==> !(#[trigger] from.is_prefix_of((a + from + b).skip(i))),
    ensures
        replaced(a + from + b, from, to) == a + to + replaced(b, from, to),
    decreases a.len(),
{
    let s = a + from + b;
    assert(s.skip(0) == s);
    if a.len() == 0 {
        assert(s == from + b);
        assert(from.is_prefix_of(s)) by {
            assert(s.subrange(0, from.len() as int) == from);
        }
        assert(s.skip(from.len() as int) == b);
        assert(a + to == to);
    } else {
        assert(!from.is_prefix_of(s.skip(0)));
        let rest = a.skip(1);
        assert(s.skip(1) == rest + from + b);
        assert forall|i: int| 0 <= i < rest.len() implies !(#[trigger] from.is_prefix_of(
            (rest + from + b).skip(i),
        )) by {
            assert((rest + from + b).skip(i) == s.skip(i + 1));
            assert(!from.is_prefix_of(s.skip(i + 1)));
        }
        law_replace_first(rest, from, to, b);
        assert(seq![a[0]] + (rest + to + replaced(b, from, to)) == a + to + replaced(b, from, to));
    }
}

/// A text joined to others stands behind them and the separator; one alone stands for itself.
pub proof fn law_joined(list: Seq<Seq<char>>, sep: Seq<char>, s: Seq<char>)
    ensures
        joined(Seq::empty(), sep).len() == 0,
        joined(seq![s], sep) == s,
        list.len() > 0 ==> joined(list.push(s), sep) == joined(list, sep) + sep + s,
{
    assert(list.push(s).drop_last() == list);
}

/// How a number is read: one digit stands for itself, a further digit for one more unit, and a
/// leading plus for nothing.
pub proof fn law_count(s: Seq<char>, d: char)
    requires
        '0' <= d <= '9',
    ensures
        count_of(seq![d]) == Some((d as int - '0' as int) as nat),
        count_of(s) is Some ==> count_of(s.push(d)) == Some(
            (10 * count_of(s).unwrap() + (d as int - '0' as int)) as nat,
        ),
        count_of(seq!['+', d] + s) == count_of(seq![d] + s),
{
    reveal_with_fuel(digits_value, 2);
    let one = seq![d];
    assert(one.drop_last() == Seq::<char>::empty());
    assert(is_digit(one[0]));
    if count_of(s) is Some {
        let body = unsigned_part(s);
        let more = unsigned_part(s.push(d));
        assert(more == body.push(d));
        assert(more.drop_last() == body);
        assert forall|i: int| 0 <= i < more.len() implies is_digit(#[trigger] more[i]) by {
            if i < body.len() {
                assert(is_digit(body[i]));
            }
        }
    }
    assert((seq!['+', d] + s).skip(1) == seq![d] + s);
    assert((seq![d] + s)[0] == d);
}

/// What has anything but digits, a leading plus aside, or no digit at all, is no number.
pub proof fn law_no_count(s: Seq<char>, i: int)
    ensures
        0 <= i < s.len() && !('0' <= s[i] <= '9') && !(i == 0 && s[0] == '+') ==> count_of(s) is None,
        count_of(Seq::empty()) is None,
        count_of(seq!['+']) is None,
{
    if 0 <= i < s.len() && !('0' <= s[i] <= '9') && !(i == 0 && s[0] == '+') {
        let body = unsigned_part(s);
        let at = if s[0] == '+' {
            i - 1
        } else {
            i
        };
        assert(body[at] == s[i]);
        assert(!is_digit(body[at]));
    }
}

/// Numbers are written in digits alone, and without zeros before them.
pub proof fn law_decimal_is_plain(n: nat)
    ensures
        decimal(n).len() > 0,
        forall|i: int| 0 <= i < decimal(n).len() ==> '0' <= #[trigger] decimal(n)[i] <= '9',
        n > 0 ==> decimal(n)[0] != '0',
    decreases n,
{
    reveal_strlit("0123456789");
    lemma_decimal(n);
    assert forall|i: int| 0 <= i < decimal(n).len() implies '0' <= #[trigger] decimal(n)[i]
        <= '9' by {
        assert(is_digit(decimal(n)[i]));
    }
    if n >= 10 {
        law_decimal_is_plain(n / 10);
    }
}

} // verus!
