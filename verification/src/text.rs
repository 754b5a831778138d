//! Text primitives: whitespace trimming, decimal rendering and integer parsing,
//! all stated over the characters of the string.

use vstd::prelude::*;

verus! {

/// `String::push` appends one character at the end of the string.
pub assume_specification[ String::push ](s: &mut String, ch: char)
    ensures
        final(s)@ == old(s)@.push(ch),
;

/// Whether two strings hold the same characters.
pub fn same(a: &str, b: &str) -> (r: bool)
    ensures
        r == (a@ == b@),
{
    a.to_owned() == b.to_owned()
}

/// The characters of a string, in order.
pub fn chars_of(s: &str) -> (r: Vec<char>)
    ensures
        r@ == s@,
{
    let mut out: Vec<char> = Vec::new();
    for c in it: s.chars()
        invariant
            out@ == s@.take(it.index() as int),
            it.seq() == s@,
    {
        assert(s@.take(it.index() + 1) =~= s@.take(it.index() as int).push(c));
        out.push(c);
    }
    assert(s@.take(s@.len() as int) =~= s@);
    out
}

/// The Unicode `White_Space` characters.
pub open spec fn is_blank(c: char) -> bool {
    let n = c as u32;
    ||| 0x9 <= n <= 0xd
    ||| n == 0x20
    ||| n == 0x85
    ||| n == 0xa0
    ||| n == 0x1680
    ||| 0x2000 <= n <= 0x200a
    ||| n == 0x2028
    ||| n == 0x2029
    ||| n == 0x202f
    ||| n == 0x205f
    ||| n == 0x3000
}

/// `is_blank` as a test on a character.
pub fn blank(c: char) -> (r: bool)
    ensures
        r == is_blank(c),
{
    let n: u32 = c as u32;
    (0x9 <= n && n <= 0xd) || n == 0x20 || n == 0x85 || n == 0xa0 || n == 0x1680 || (0x2000 <= n && n
        <= 0x200a) || n == 0x2028 || n == 0x2029 || n == 0x202f || n == 0x205f || n == 0x3000
}

/// The text without leading and trailing whitespace.
pub open spec fn trimmed(s: Seq<char>) -> Seq<char>
    decreases s.len(),
{
    if s.len() == 0 {
        s
    } else if is_blank(s[0]) {
        trimmed(s.drop_first())
    } else if is_blank(s.last()) {
        trimmed(s.drop_last())
    } else {
        s
    }
}

/// Strip leading and trailing whitespace.
pub fn trim(s: &str) -> (r: &str)
    ensures
        r@ == trimmed(s@),
{
    let cs = chars_of(s);
    let mut lo: usize = 0;
    let mut hi: usize = cs.len();
    assert(s@.subrange(0, s@.len() as int) =~= s@);
    while lo < hi && blank(cs[lo])
        invariant
            lo <= hi == cs.len(),
            cs@ == s@,
            trimmed(s@) == trimmed(s@.subrange(lo as int, hi as int)),
        decreases hi - lo,
    {
        assert(s@.subrange(lo as int, hi as int).drop_first() =~= s@.subrange(lo + 1, hi as int));
        lo += 1;
    }
    while lo < hi && blank(cs[hi - 1])
        invariant
            lo <= hi <= cs.len(),
            cs@ == s@,
            lo < hi ==> !is_blank(s@[lo as int]),
            trimmed(s@) == trimmed(s@.subrange(lo as int, hi as int)),
        decreases hi - lo,
    {
        assert(s@.subrange(lo as int, hi as int).drop_last() =~= s@.subrange(lo as int, hi - 1));
        hi -= 1;
    }
    s.substring_char(lo, hi)
}

/// Trimming is idempotent.
pub proof fn lemma_trimmed_idempotent(s: Seq<char>)
    ensures
        trimmed(trimmed(s)) == trimmed(s),
    decreases s.len(),
{
    if s.len() > 0 {
        if is_blank(s[0]) {
            lemma_trimmed_idempotent(s.drop_first());
        } else if is_blank(s.last()) {
            lemma_trimmed_idempotent(s.drop_last());
        }
    }
}

/// The digit character for a value below ten.
pub open spec fn digit_char(d: nat) -> char {
    (48 + d) as char
}

/// The decimal rendering of a number, most significant digit first.
pub open spec fn decimal(n: nat) -> Seq<char>
    decreases n,
{
    if n < 10 {
        seq![digit_char(n)]
    } else {
        decimal(n / 10).push(digit_char(n % 10))
    }
}

/// Render a number in decimal.
pub fn wide_number(n: u128) -> (r: String)
    ensures
        r@ == decimal(n as nat),
    decreases n,
{
    let mut out = if n < 10 {
        String::new()
    } else {
        wide_number(n / 10)
    };
    let d: u8 = 48 + (n % 10) as u8;
    out.push(d as char);
    assert(Seq::<char>::empty().push(digit_char(n as nat)) =~= seq![digit_char(n as nat)]);
    out
}

/// Render a number in decimal.
pub fn number(n: u64) -> (r: String)
    ensures
        r@ == decimal(n as nat),
{
    wide_number(n as u128)
}

/// Why a text is not a number of the expected width.
#[derive(Debug, Clone, Copy, PartialEq, Eq, Structural)]
pub enum IntError {
    Empty,
    InvalidDigit,
    PosOverflow,
}

/// The value of a digit in bases up to sixteen, in either letter case.
pub open spec fn digit_value(c: char, radix: nat) -> Option<nat> {
    let n = c as u32;
    let v: int = if 48 <= n <= 57 {
        n - 48
    } else if 97 <= n <= 122 {
        n - 87
    } else if 65 <= n <= 90 {
        n - 55
    } else {
        255
    };
    if v < radix {
        Some(v as nat)
    } else {
        None
    }
}

/// The number a run of digits denotes, or the first problem met from the left.
pub open spec fn digits_value(s: Seq<char>, radix: nat, max: nat) -> Result<nat, IntError>
    decreases s.len(),
{
    if s.len() == 0 {
        Ok(0)
    } else {
        match digits_value(s.drop_last(), radix, max) {
            Err(e) => Err(e),
            Ok(v) => match digit_value(s.last(), radix) {
                None => Err(IntError::InvalidDigit),
                Some(d) => if v * radix + d > max {
                    Err(IntError::PosOverflow)
                } else {
                    Ok(v * radix + d)
                },
            },
        }
    }
}

/// The unsigned integer a text denotes: an optional `+` and at least one digit,
/// no larger than `max`.
pub open spec fn unsigned_value(s: Seq<char>, radix: nat, max: nat) -> Result<nat, IntError> {
    if s.len() == 0 {
        Err(IntError::Empty)
    } else if s[0] == '+' {
        if s.len() == 1 {
            Err(IntError::InvalidDigit)
        } else {
            digits_value(s.drop_first(), radix, max)
        }
    } else {
        digits_value(s, radix, max)
    }
}

/// Whether every character is a digit in this base.
pub open spec fn all_digits(s: Seq<char>, radix: nat) -> bool {
    forall|i: int| 0 <= i < s.len() ==> digit_value(#[trigger] s[i], radix) is Some
}

/// The number that digits denote in this base, however large.
pub open spec fn positional(s: Seq<char>, radix: nat) -> nat
    decreases s.len(),
{
    if s.len() == 0 {
        0
    } else {
        match digit_value(s.last(), radix) {
            Some(d) => positional(s.drop_last(), radix) * radix + d,
            None => 0,
        }
    }
}

/// A text without the `+` it may begin with.
pub open spec fn without_plus(s: Seq<char>) -> Seq<char> {
    if s.len() > 0 && s[0] == '+' {
        s.drop_first()
    } else {
        s
    }
}

/// The decimal number a text denotes, however large: an optional `+` and at least one digit.
pub open spec fn any_number(s: Seq<char>) -> Option<nat> {
    let body = without_plus(s);
    if body.len() > 0 && all_digits(body, 10) {
        Some(positional(body, 10))
    } else {
        None
    }
}

/// The number that digits denote, or the cap where it is larger; nothing where a character is
/// no digit.
pub fn parse_digits(cs: &Vec<char>, start: usize, radix: u64, cap: u64) -> (r: Option<u64>)
    requires
        2 <= radix <= 16,
        start <= cs.len(),
    ensures
        r is Some <==> all_digits(cs@.skip(start as int), radix as nat),
        r matches Some(v) ==> v == (if positional(cs@.skip(start as int), radix as nat) > cap {
            cap as nat
        } else {
            positional(cs@.skip(start as int), radix as nat)
        }),
{
    let ghost body = cs@.skip(start as int);
    let mut acc: u64 = 0;
    let mut i: usize = start;
    assert(body.take(0) =~= Seq::<char>::empty());
    while i < cs.len()
        invariant
            start <= i <= cs.len(),
            2 <= radix <= 16,
            body == cs@.skip(start as int),
            all_digits(body.take(i - start), radix as nat),
            acc == (if positional(body.take(i - start), radix as nat) > cap {
                cap as nat
            } else {
                positional(body.take(i - start), radix as nat)
            }),
        decreases cs.len() - i,
    {
        let ghost pre = body.take(i - start);
        let ghost next = body.take(i - start + 1);
        let ghost before = positional(pre, radix as nat);
        proof {
            assert(next.drop_last() =~= pre);
            assert(next.last() == cs@[i as int]);
            assert(body[i - start] == cs@[i as int]);
        }
        match digit(cs[i], radix) {
            None => {
                return None;
            },
            Some(d) => {
                proof {
                    assert(0 <= acc * radix <= u64::MAX * 16) by (nonlinear_arith)
                        requires
                            0 <= acc <= u64::MAX,
                            0 <= radix <= 16,
                    ;
                    assert(2 * acc <= acc * radix && before <= before * radix) by (nonlinear_arith)
                        requires
                            2 <= radix,
                            0 <= acc,
                            0 <= before,
                    ;
                    assert(positional(next, radix as nat) == before * radix + d);
                    assert forall|j: int| 0 <= j < next.len() implies digit_value(
                        #[trigger] next[j],
                        radix as nat,
                    ) is Some by {
                        if j < pre.len() {
                            assert(next[j] == pre[j]);
                        }
                    }
                }
                let wide: u128 = (acc as u128) * (radix as u128) + (d as u128);
                acc = if wide > cap as u128 {
                    cap
                } else {
                    wide as u64
                };
            },
        }
        i += 1;
    }
    assert(body.take(body.len() as int) =~= body);
    Some(acc)
}

/// Parse a decimal number; one above the cap counts as the cap.
pub fn parse_capped(s: &str, cap: u64) -> (r: Option<u64>)
    ensures
        (match any_number(s@) {
            Some(n) => r matches Some(v) && v == (if n > cap {
                cap as nat
            } else {
                n
            }),
            None => r is None,
        }),
{
    let cs = chars_of(s);
    let start: usize = if cs.len() > 0 && cs[0] == '+' {
        1
    } else {
        0
    };
    assert(cs@.skip(start as int) =~= without_plus(s@));
    if start == cs.len() {
        return None;
    }
    parse_digits(&cs, start, 10, cap)
}

fn digit(c: char, radix: u64) -> (r: Option<u64>)
    requires
        2 <= radix <= 16,
    ensures
        r == (match digit_value(c, radix as nat) {
            Some(v) => Some(v as u64),
            None => None,
        }),
        r matches Some(v) ==> v < radix,
{
    let n: u32 = c as u32;
    let v: u32 = if 48 <= n && n <= 57 {
        n - 48
    } else if 97 <= n && n <= 122 {
        n - 87
    } else if 65 <= n && n <= 90 {
        n - 55
    } else {
        255
    };
    if (v as u64) < radix {
        Some(v as u64)
    } else {
        None
    }
}

/// Parse an unsigned integer no larger than `max`.
pub fn parse_unsigned(s: &str, radix: u64, max: u64) -> (r: Result<u64, IntError>)
    requires
        2 <= radix <= 16,
    ensures
        r == (match unsigned_value(s@, radix as nat, max as nat) {
            Ok(v) => Ok(v as u64),
            Err(e) => Err(e),
        }),
        r matches Ok(v) ==> v <= max,
{
    let cs = chars_of(s);
    if cs.len() == 0 {
        return Err(IntError::Empty);
    }
    let start: usize = if cs[0] == '+' {
        1
    } else {
        0
    };
    if start == cs.len() {
        return Err(IntError::InvalidDigit);
    }
    let ghost body = s@.skip(start as int);
    assert(start == 1 ==> body =~= s@.drop_first());
    assert(start == 0 ==> body =~= s@);
    let mut acc: u64 = 0;
    let mut i: usize = start;
    assert(body.take(0) =~= Seq::<char>::empty());
    while i < cs.len()
        invariant
            start <= i <= cs.len(),
            start < cs.len(),
            2 <= radix <= 16,
            cs@ == s@,
            body == s@.skip(start as int),
            acc <= max,
            digits_value(body.take(i - start), radix as nat, max as nat) == Ok::<nat, IntError>(
                acc as nat,
            ),
            unsigned_value(s@, radix as nat, max as nat) == digits_value(
                body,
                radix as nat,
                max as nat,
            ),
        decreases cs.len() - i,
    {
        let ghost pre = body.take(i - start + 1);
        proof {
            assert(pre.drop_last() =~= body.take(i - start));
            assert(pre.last() == cs@[i as int]);
            lemma_digits_error_sticks(body, i - start + 1, radix as nat, max as nat);
        }
        match digit(cs[i], radix) {
            None => {
                return Err(IntError::InvalidDigit);
            },
            Some(d) => {
                assert(0 <= acc * radix <= u64::MAX * 16) by (nonlinear_arith)
                    requires
                        0 <= acc <= u64::MAX,
                        0 <= radix <= 16,
                ;
                let wide: u128 = (acc as u128) * (radix as u128) + (d as u128);
                if wide > max as u128 {
                    return Err(IntError::PosOverflow);
                }
                acc = wide as u64;
            },
        }
        i += 1;
    }
    assert(body.take(body.len() as int) =~= body);
    Ok(acc)
}

/// A prefix that already fails decides the outcome of the whole text.
proof fn lemma_digits_error_sticks(s: Seq<char>, n: int, radix: nat, max: nat)
    requires
        0 <= n <= s.len(),
    ensures
        digits_value(s.take(n), radix, max) matches Err(e) ==> digits_value(s, radix, max) == Err::<
            nat,
            IntError,
        >(e),
    decreases s.len(),
{
    if n < s.len() {
        assert(s.drop_last().take(n) =~= s.take(n));
        lemma_digits_error_sticks(s.drop_last(), n, radix, max);
    } else {
        assert(s.take(n) =~= s);
    }
}

/// Reading back a rendered number gives the number.
pub proof fn law_number_round_trips(n: nat, max: nat)
    requires
        n <= max,
    ensures
        unsigned_value(decimal(n), 10, max) == Ok::<nat, IntError>(n),
{
    lemma_decimal_digits(n, max);
}

proof fn lemma_decimal_digits(n: nat, max: nat)
    requires
        n <= max,
    ensures
        decimal(n).len() > 0,
        decimal(n)[0] != '+',
        digits_value(decimal(n), 10, max) == Ok::<nat, IntError>(n),
    decreases n,
{
    let last = digit_char(n % 10);
    assert(digit_value(last, 10) == Some(n % 10));
    if n < 10 {
        assert(decimal(n).drop_last() =~= Seq::<char>::empty());
        assert(digits_value(Seq::<char>::empty(), 10, max) == Ok::<nat, IntError>(0));
    } else {
        lemma_decimal_digits(n / 10, max);
        assert(decimal(n).drop_last() =~= decimal(n / 10));
    }
}

/// The ASCII lower-case form of a character; others are left alone.
pub open spec fn ascii_lower(c: char) -> char {
    if 65 <= c as u32 <= 90 {
        (c as u32 + 32) as char
    } else {
        c
    }
}

pub(crate) fn to_ascii_lower(c: char) -> (r: char)
    ensures
        r == ascii_lower(c),
{
    let n: u32 = c as u32;
    if 65 <= n && n <= 90 {
        let low: u8 = (n + 32) as u8;
        low as char
    } else {
        c
    }
}

/// Whether `s` begins with `p`, ASCII letter case aside.
pub open spec fn begins_ignoring_case(s: Seq<char>, p: Seq<char>) -> bool {
    p.len() <= s.len() && forall|i: int|
        0 <= i < p.len() ==> ascii_lower(#[trigger] s[i]) == ascii_lower(p[i])
}

/// Test for a prefix, ASCII letter case aside.
pub fn starts_ignoring_case(s: &str, p: &str) -> (r: bool)
    ensures
        r == begins_ignoring_case(s@, p@),
{
    let a = chars_of(s);
    let b = chars_of(p);
    if a.len() < b.len() {
        return false;
    }
    let mut i: usize = 0;
    while i < b.len()
        invariant
            i <= b.len() <= a.len(),
            a@ == s@,
            b@ == p@,
            forall|j: int| 0 <= j < i ==> ascii_lower(#[trigger] s@[j]) == ascii_lower(p@[j]),
        decreases b.len() - i,
    {
        if to_ascii_lower(a[i]) != to_ascii_lower(b[i]) {
            assert(ascii_lower(s@[i as int]) != ascii_lower(p@[i as int]));
            return false;
        }
        i += 1;
    }
    true
}

/// Whether two texts agree, ASCII letter case aside.
pub fn same_ignoring_case(a: &str, b: &str) -> (r: bool)
    ensures
        r == (a@.len() == b@.len() && begins_ignoring_case(a@, b@)),
{
    a.unicode_len() == b.unicode_len() && starts_ignoring_case(a, b)
}

/// Where `c` first occurs; the length where it does not.
pub open spec fn first_at(s: Seq<char>, c: char) -> int
    decreases s.len(),
{
    if s.len() == 0 {
        0
    } else if s[0] == c {
        0
    } else {
        1 + first_at(s.drop_first(), c)
    }
}

/// The text before and after the first `c`.
pub open spec fn halves(s: Seq<char>, c: char) -> Option<(Seq<char>, Seq<char>)> {
    let i = first_at(s, c);
    if i < s.len() {
        Some((s.take(i), s.skip(i + 1)))
    } else {
        None
    }
}

/// The first occurrence is the one with none before it.
pub proof fn lemma_first_at(s: Seq<char>, c: char, i: int)
    requires
        0 <= i <= s.len(),
        i < s.len() ==> s[i] == c,
        forall|j: int| 0 <= j < i ==> #[trigger] s[j] != c,
    ensures
        first_at(s, c) == i,
    decreases s.len(),
{
    if i > 0 {
        assert(s[0] != c);
        assert forall|j: int| 0 <= j < i - 1 implies #[trigger] s.drop_first()[j] != c by {
            assert(s.drop_first()[j] == s[j + 1]);
        }
        lemma_first_at(s.drop_first(), c, i - 1);
    }
}

/// Split at the first `c`.
pub fn split_once(s: &str, c: char) -> (r: Option<(&str, &str)>)
    ensures
        (match r {
            Some((a, b)) => halves(s@, c) == Some((a@, b@)),
            None => halves(s@, c) is None,
        }),
{
    let cs = chars_of(s);
    let mut i: usize = 0;
    while i < cs.len() && cs[i] != c
        invariant
            i <= cs.len(),
            cs@ == s@,
            forall|j: int| 0 <= j < i ==> #[trigger] s@[j] != c,
        decreases cs.len() - i,
    {
        i += 1;
    }
    proof {
        lemma_first_at(s@, c, i as int);
    }
    if i < cs.len() {
        let a = s.substring_char(0, i);
        let b = s.substring_char(i + 1, cs.len());
        assert(a@ =~= s@.take(i as int));
        assert(b@ =~= s@.skip(i + 1));
        Some((a, b))
    } else {
        None
    }
}

/// Joining two halves with a separator the first does not hold, and splitting again,
/// gives them back.
pub proof fn lemma_halves_of_joined(a: Seq<char>, c: char, b: Seq<char>)
    requires
        forall|j: int| 0 <= j < a.len() ==> #[trigger] a[j] != c,
    ensures
        halves(a + seq![c] + b, c) == Some((a, b)),
{
    let s = a + seq![c] + b;
    assert forall|j: int| 0 <= j < a.len() implies #[trigger] s[j] != c by {
        assert(s[j] == a[j]);
    }
    lemma_first_at(s, c, a.len() as int);
    assert(s.take(a.len() as int) =~= a);
    assert(s.skip(a.len() as int + 1) =~= b);
}

/// A rendered number holds digits only.
pub proof fn lemma_decimal_is_digits(n: nat)
    ensures
        forall|i: int| 0 <= i < decimal(n).len() ==> 48 <= #[trigger] decimal(n)[i] as u32 <= 57,
    decreases n,
{
    assert(48 <= digit_char(n % 10) as u32 <= 57);
    if n >= 10 {
        lemma_decimal_is_digits(n / 10);
        let head = decimal(n / 10);
        assert forall|i: int| 0 <= i < decimal(n).len() implies 48 <= #[trigger] decimal(n)[i] as u32
            <= 57 by {
            if i < head.len() {
                assert(decimal(n)[i] == head[i]);
            }
        }
    }
}

/// The whitespace-separated words of a text, in order.
pub open spec fn words(s: Seq<char>) -> Seq<Seq<char>>
    decreases s.len(),
{
    if s.len() == 0 {
        Seq::empty()
    } else {
        let before = words(s.drop_last());
        let c = s.last();
        if is_blank(c) {
            before
        } else if s.len() == 1 || is_blank(s[s.len() - 2]) {
            before.push(seq![c])
        } else {
            before.drop_last().push(before.last().push(c))
        }
    }
}

/// Split a text into its whitespace-separated words.
pub fn split_words(s: &str) -> (r: Vec<String>)
    ensures
        crate::ui::views(r@) == words(s@),
{
    let cs = chars_of(s);
    let mut out: Vec<String> = Vec::new();
    let mut i: usize = 0;
    let mut inside = false;
    assert(crate::ui::views(out@) =~= words(s@.take(0)));
    while i < cs.len()
        invariant
            i <= cs.len(),
            cs@ == s@,
            crate::ui::views(out@) == words(s@.take(i as int)),
            inside == (i > 0 && !is_blank(s@[i - 1])),
            inside ==> out@.len() > 0,
        decreases cs.len() - i,
    {
        let c = cs[i];
        let ghost pre = s@.take(i as int);
        let ghost next = s@.take(i + 1);
        let ghost before = crate::ui::views(out@);
        proof {
            assert(next.drop_last() =~= pre);
            assert(next.last() == c);
            if i > 0 {
                assert(next[next.len() - 2] == s@[i - 1]);
            }
        }
        if blank(c) {
            inside = false;
        } else if !inside {
            let mut w = String::new();
            w.push(c);
            assert(w@ =~= seq![c]);
            out.push(w);
            assert(crate::ui::views(out@) =~= before.push(seq![c]));
            inside = true;
        } else {
            let ghost held = out@;
            let popped = out.pop();
            let mut w = popped.unwrap();
            let ghost last = w@;
            w.push(c);
            out.push(w);
            assert(crate::ui::views(out@) =~= before.drop_last().push(last.push(c)));
        }
        i += 1;
    }
    assert(s@.take(s@.len() as int) =~= s@);
    out
}

/// The lower-case form of a text.
pub uninterp spec fn lowercase(s: Seq<char>) -> Seq<char>;

/// `str::to_lowercase`: the Unicode lower-case form, which depends on the text alone.
#[verifier::external_body]
pub(crate) fn to_lower(s: &str) -> (r: String)
    ensures
        r@ == lowercase(s@),
{
    s.to_lowercase()
}

/// The lower-case form of one character, which may be more than one character.
pub uninterp spec fn char_lowercase(c: char) -> Seq<char>;

/// `char::to_lowercase`: the Unicode lower-case form of one character, which depends on
/// the character alone.
#[verifier::external_body]
pub(crate) fn char_to_lower(c: char) -> (r: String)
    ensures
        r@ == char_lowercase(c),
{
    c.to_lowercase().collect::<String>()
}

/// What trimming does: blanks at either end go, one by one, and nothing else does.
pub proof fn law_trimming_takes_the_blank_ends(s: Seq<char>, c: char)
    ensures
        is_blank(c) ==> trimmed(seq![c] + s) == trimmed(s),
        is_blank(c) ==> trimmed(s.push(c)) == trimmed(s),
        trimmed(s).len() > 0 ==> !is_blank(trimmed(s)[0]) && !is_blank(trimmed(s).last()),
        s.len() > 0 && !is_blank(s[0]) && !is_blank(s.last()) ==> trimmed(s) == s,
        trimmed(Seq::<char>::empty()) == Seq::<char>::empty(),
    decreases s.len(),
{
    assert((seq![c] + s).drop_first() =~= s);
    assert(s.push(c).drop_last() =~= s);
    if s.len() > 0 {
        if is_blank(s[0]) {
            law_trimming_takes_the_blank_ends(s.drop_first(), c);
            assert(s.push(c).drop_first() =~= s.drop_first().push(c));
        } else if is_blank(s.last()) {
            law_trimming_takes_the_blank_ends(s.drop_last(), c);
        }
    } else if is_blank(c) {
        assert(s.push(c).drop_first() =~= s);
    }
}

/// What splitting at a character does: the parts put back together are the text, and the
/// first holds no such character; there are parts exactly when there is one.
pub proof fn law_halves_make_up_the_text(s: Seq<char>, c: char)
    ensures
        0 <= first_at(s, c) <= s.len(),
        halves(s, c) is Some <==> s.contains(c),
        (halves(s, c) matches Some((a, b)) ==> s == a + seq![c] + b && !a.contains(c)),
    decreases s.len(),
{
    if s.len() > 0 {
        let t = s.drop_first();
        law_halves_make_up_the_text(t, c);
        if s[0] == c {
            assert(s =~= s.take(0) + seq![c] + s.skip(1));
        } else {
            assert(s.contains(c) <==> t.contains(c)) by {
                if s.contains(c) {
                    let k = choose|k: int| 0 <= k < s.len() && s[k] == c;
                    assert(t[k - 1] == c);
                }
                if t.contains(c) {
                    let k = choose|k: int| 0 <= k < t.len() && t[k] == c;
                    assert(s[k + 1] == c);
                }
            }
            if let Some((a, b)) = halves(t, c) {
                let i = first_at(t, c);
                assert(s.take(i + 1) =~= seq![s[0]] + a);
                assert(s.skip(i + 2) =~= b);
                assert(s =~= seq![s[0]] + t);
                assert(s =~= (seq![s[0]] + a) + seq![c] + b) by {
                    assert(t == a + seq![c] + b);
                }
                assert(!(seq![s[0]] + a).contains(c)) by {
                    if (seq![s[0]] + a).contains(c) {
                        let k = choose|k: int|
                            0 <= k < (seq![s[0]] + a).len() && (seq![s[0]] + a)[k] == c;
                        assert(k > 0);
                        assert(a[k - 1] == c);
                    }
                }
            }
        }
    }
}

/// What splitting into words does: a word is never empty and holds no blank, a blank after a
/// text adds no word, and a letter after one goes onto its last word or begins a new one.
pub proof fn law_words_are_runs_of_letters(s: Seq<char>, c: char)
    ensures
        forall|i: int| 0 <= i < words(s).len() ==> (#[trigger] words(s)[i]).len() > 0,
        forall|i: int, j: int|
            0 <= i < words(s).len() && 0 <= j < words(s)[i].len() ==> !is_blank(
                #[trigger] words(s)[i][j],
            ),
        is_blank(c) ==> words(s.push(c)) == words(s),
        !is_blank(c) && (s.len() == 0 || is_blank(s.last())) ==> words(s.push(c)) == words(s).push(
            seq![c],
        ),
        !is_blank(c) && s.len() > 0 && !is_blank(s.last()) ==> words(s).len() > 0 && words(
            s.push(c),
        ) == words(s).drop_last().push(words(s).last().push(c)),
    decreases s.len(),
{
    assert(s.push(c).drop_last() =~= s);
    if s.len() > 0 {
        law_words_are_runs_of_letters(s.drop_last(), s.last());
        assert(s.drop_last().push(s.last()) =~= s);
    }
}

/// A rendered number reads as the number it is, however large, with a `+` before it or not.
pub proof fn law_any_number_round_trips(n: nat)
    ensures
        any_number(decimal(n)) == Some(n),
        any_number(seq!['+'] + decimal(n)) == Some(n),
    decreases n,
{
    lemma_decimal_reads_back(n);
    lemma_decimal_is_digits(n);
    assert((seq!['+'] + decimal(n)).drop_first() =~= decimal(n));
}

proof fn lemma_decimal_reads_back(n: nat)
    ensures
        decimal(n).len() > 0,
        all_digits(decimal(n), 10),
        positional(decimal(n), 10) == n,
    decreases n,
{
    let d = decimal(n);
    if n >= 10 {
        lemma_decimal_reads_back(n / 10);
        assert(d.drop_last() =~= decimal(n / 10));
        assert forall|i: int| 0 <= i < d.len() implies digit_value(#[trigger] d[i], 10) is Some by {
            if i < d.len() - 1 {
                assert(d[i] == decimal(n / 10)[i]);
            }
        }
    } else {
        assert(d.drop_last() =~= Seq::<char>::empty());
        assert(positional(d.drop_last(), 10) == 0);
    }
}

/// Letter case does not matter where it is set aside: a text begins with what it begins with,
/// in capitals or not, and two texts that agree but for case begin alike.
pub proof fn law_case_is_set_aside(s: Seq<char>, p: Seq<char>, rest: Seq<char>)
    ensures
        begins_ignoring_case(p + rest, p),
        begins_ignoring_case(s, p) ==> p.len() <= s.len(),
        p.len() <= s.len() && (forall|i: int|
            0 <= i < p.len() ==> ascii_lower(#[trigger] s[i]) == ascii_lower(p[i]))
            ==> begins_ignoring_case(s, p),
        ascii_lower('A') == 'a' && ascii_lower('Z') == 'z' && ascii_lower('a') == 'a' && ascii_lower(
            '/',
        ) == '/',
{
}

} // verus!
