//! Text handling shared by every parser: whitespace trimming, decimal
//! parsing and decimal rendering of unsigned 64-bit integers.

use vstd::prelude::*;

verus! {

/// Whether `c` has the Unicode property `White_Space`.
pub open spec fn is_space(c: char) -> bool {
    let u = c as u32;
    ||| u == 0x20
    ||| (0x09 <= u && u <= 0x0d)
    ||| u == 0x85
    ||| u == 0xa0
    ||| u == 0x1680
    ||| (0x2000 <= u && u <= 0x200a)
    ||| u == 0x2028
    ||| u == 0x2029
    ||| u == 0x202f
    ||| u == 0x205f
    ||| u == 0x3000
}

/// `s` without its leading whitespace.
pub open spec fn trim_start_spec(s: Seq<char>) -> Seq<char>
    decreases s.len(),
{
    if s.len() > 0 && is_space(s.first()) {
        trim_start_spec(s.drop_first())
    } else {
        s
    }
}

/// `s` without its trailing whitespace.
pub open spec fn trim_end_spec(s: Seq<char>) -> Seq<char>
    decreases s.len(),
{
    if s.len() > 0 && is_space(s.last()) {
        trim_end_spec(s.drop_last())
    } else {
        s
    }
}

/// `s` without the whitespace that surrounds it.
pub open spec fn trim_spec(s: Seq<char>) -> Seq<char> {
    trim_end_spec(trim_start_spec(s))
}

/// Whether `c` is one of the ten decimal digits.
pub open spec fn is_digit(c: char) -> bool {
    0x30 <= c as u32 && c as u32 <= 0x39
}

/// The number that the digit `c` stands for.
pub open spec fn digit_value(c: char) -> nat {
    (c as u32 - 0x30) as nat
}

/// Whether `s` holds decimal digits only.
pub open spec fn all_digits(s: Seq<char>) -> bool {
    forall|i: int| 0 <= i < s.len() ==> is_digit(#[trigger] s[i])
}

/// The number that a sequence of decimal digits denotes, most significant
/// digit first. The empty sequence denotes zero.
pub open spec fn digits_value(s: Seq<char>) -> nat
    decreases s.len(),
{
    if s.len() == 0 {
        0
    } else {
        digits_value(s.drop_last()) * 10 + digit_value(s.last())
    }
}

/// `s` without one leading plus sign.
pub open spec fn without_sign(s: Seq<char>) -> Seq<char> {
    if s.len() > 0 && s.first() == '+' {
        s.drop_first()
    } else {
        s
    }
}

/// What a text denotes as an unsigned 64-bit integer: an optional plus sign,
/// then one or more decimal digits whose value fits. Anything else denotes
/// nothing.
pub open spec fn parse_u64_spec(s: Seq<char>) -> Option<u64> {
    let d = without_sign(s);
    if d.len() > 0 && all_digits(d) && digits_value(d) <= u64::MAX {
        Some(digits_value(d) as u64)
    } else {
        None
    }
}

/// The digit that stands for `d`, a number below ten.
pub open spec fn digit_char(d: nat) -> char {
    if d == 0 {
        '0'
    } else if d == 1 {
        '1'
    } else if d == 2 {
        '2'
    } else if d == 3 {
        '3'
    } else if d == 4 {
        '4'
    } else if d == 5 {
        '5'
    } else if d == 6 {
        '6'
    } else if d == 7 {
        '7'
    } else if d == 8 {
        '8'
    } else {
        '9'
    }
}

/// The decimal numeral of `n`, without leading zeros.
pub open spec fn decimal(n: nat) -> Seq<char>
    decreases n,
{
    if n < 10 {
        seq![digit_char(n)]
    } else {
        decimal(n / 10).push(digit_char(n % 10))
    }
}

/// Whether `c` ends a piece of text: a line feed where lines are split,
/// any whitespace where fields are.
pub open spec fn is_separator(c: char, lines: bool) -> bool {
    if lines {
        c == '\n'
    } else {
        is_space(c)
    }
}

/// The text read from left to right: the pieces that a separator has ended,
/// without the empty ones, and the piece that none has ended yet.
pub open spec fn split_scan(s: Seq<char>, lines: bool) -> (Seq<Seq<char>>, Seq<char>)
    decreases s.len(),
{
    if s.len() == 0 {
        (Seq::empty(), Seq::empty())
    } else {
        let (done, current) = split_scan(s.drop_last(), lines);
        if !is_separator(s.last(), lines) {
            (done, current.push(s.last()))
        } else if current.len() > 0 {
            (done.push(current), Seq::empty())
        } else {
            (done, current)
        }
    }
}

/// The longest stretches of `s` that hold no separator, in order: its lines
/// that are not empty, or its fields.
pub open spec fn split_spec(s: Seq<char>, lines: bool) -> Seq<Seq<char>> {
    let (done, current) = split_scan(s, lines);
    if current.len() > 0 {
        done.push(current)
    } else {
        done
    }
}

/// Whether `p` holds no separator.
pub open spec fn no_separator(p: Seq<char>, lines: bool) -> bool {
    forall|j: int| 0 <= j < p.len() ==> !is_separator(#[trigger] p[j], lines)
}

/// Whether each of `pieces` is not empty and holds no separator.
pub open spec fn all_pieces(pieces: Seq<Seq<char>>, lines: bool) -> bool {
    forall|i: int|
        0 <= i < pieces.len() ==> (#[trigger] pieces[i]).len() > 0 && no_separator(
            pieces[i],
            lines,
        )
}

/// Each piece as a sequence of characters.
pub open spec fn pieces_view(pieces: Seq<Vec<char>>) -> Seq<Seq<char>> {
    pieces.map_values(|p: Vec<char>| p@)
}

/// Where the first colon of `s` stands; the length of `s` where it has none.
pub open spec fn first_colon(s: Seq<char>) -> nat
    decreases s.len(),
{
    if s.len() == 0 || s.first() == ':' {
        0
    } else {
        1 + first_colon(s.drop_first())
    }
}

/// Whether `c` has the Unicode property `White_Space`.
pub fn is_whitespace(c: char) -> (b: bool)
    ensures
        b == is_space(c),
{
    let u: u32 = c as u32;
    u == 0x20 || (0x09 <= u && u <= 0x0d) || u == 0x85 || u == 0xa0 || u == 0x1680 || (0x2000 <= u
        && u <= 0x200a) || u == 0x2028 || u == 0x2029 || u == 0x202f || u == 0x205f || u == 0x3000
}

/// The characters of `s`, in order.
pub fn chars_of(s: &str) -> (v: Vec<char>)
    ensures
        v@ == s@,
{
    let mut v: Vec<char> = Vec::new();
    for c in it: s.chars()
        invariant
            it.seq() == s@,
            v@ == s@.take(it.index() as int),
    {
        v.push(c);
    }
    v
}

/// `String::push` of the standard library. The contract claims what its
/// documentation says: the character is appended at the end, and the
/// characters before it stay.
#[verifier::external_body]
fn push_char(s: &mut String, c: char)
    ensures
        final(s)@ == old(s)@.push(c),
{
    s.push(c)
}

/// The text that `chars` spell.
pub fn string_of(chars: &Vec<char>) -> (r: String)
    ensures
        r@ == chars@,
{
    let mut r = String::new();
    let n: usize = chars.len();
    let mut i: usize = 0;
    assert(chars@.take(0) =~= Seq::<char>::empty());
    while i < n
        invariant
            i <= n,
            n == chars.len(),
            r@ == chars@.take(i as int),
        decreases n - i,
    {
        push_char(&mut r, chars[i]);
        assert(chars@.take(i + 1) =~= chars@.take(i as int).push(chars@[i as int]));
        i += 1;
    }
    assert(chars@.take(n as int) =~= chars@);
    r
}

/// Splits `v` into its lines that are not empty, or into its fields.
pub fn split(v: &Vec<char>, lines: bool) -> (r: Vec<Vec<char>>)
    ensures
        pieces_view(r@) == split_spec(v@, lines),
{
    let mut done: Vec<Vec<char>> = Vec::new();
    let mut current: Vec<char> = Vec::new();
    let n: usize = v.len();
    let mut i: usize = 0;
    assert(pieces_view(done@) =~= Seq::<Seq<char>>::empty());
    assert(v@.take(0) =~= Seq::<char>::empty());
    while i < n
        invariant
            i <= n,
            n == v.len(),
            split_scan(v@.take(i as int), lines) == (pieces_view(done@), current@),
        decreases n - i,
    {
        let c: char = v[i];
        proof {
            assert(v@.take(i + 1).drop_last() =~= v@.take(i as int));
            assert(v@.take(i + 1).last() == c);
        }
        let separator: bool = if lines {
            c == '\n'
        } else {
            is_whitespace(c)
        };
        if !separator {
            current.push(c);
        } else if current.len() > 0 {
            let ghost before = done@;
            let ghost piece = current@;
            done.push(current);
            current = Vec::new();
            assert(pieces_view(done@) =~= pieces_view(before).push(piece));
            assert(current@ =~= Seq::<char>::empty());
        }
        i += 1;
    }
    assert(v@.take(n as int) =~= v@);
    if current.len() > 0 {
        let ghost before = done@;
        let ghost piece = current@;
        done.push(current);
        assert(pieces_view(done@) =~= pieces_view(before).push(piece));
    }
    done
}

/// Where the first colon of `v` stands; the length of `v` where it has none.
pub fn find_colon(v: &Vec<char>) -> (k: usize)
    ensures
        k == first_colon(v@),
        k <= v.len(),
{
    let n: usize = v.len();
    let mut i: usize = 0;
    assert(v@.skip(0) =~= v@);
    while i < n && v[i] != ':'
        invariant
            i <= n,
            n == v.len(),
            first_colon(v@) == i + first_colon(v@.skip(i as int)),
        decreases n - i,
    {
        assert(v@.skip(i as int).drop_first() =~= v@.skip(i + 1));
        i += 1;
    }
    i
}

/// Where the trimmed part of `v` starts and ends.
pub fn trim_bounds(v: &Vec<char>) -> (r: (usize, usize))
    ensures
        r.0 <= r.1 <= v.len(),
        v@.subrange(r.0 as int, r.1 as int) == trim_spec(v@),
{
    let n: usize = v.len();
    let mut a: usize = 0;
    assert(v@ =~= v@.subrange(0, n as int));
    while a < n && is_whitespace(v[a])
        invariant
            a <= n,
            n == v.len(),
            trim_start_spec(v@) == trim_start_spec(v@.subrange(a as int, n as int)),
        decreases n - a,
    {
        proof {
            assert(v@.subrange(a as int, n as int).drop_first() =~= v@.subrange(a + 1, n as int));
        }
        a += 1;
    }
    assert(trim_start_spec(v@) == v@.subrange(a as int, n as int));
    let mut b: usize = n;
    while b > a && is_whitespace(v[b - 1])
        invariant
            a <= b <= n,
            n == v.len(),
            trim_spec(v@) == trim_end_spec(v@.subrange(a as int, b as int)),
        decreases b - a,
    {
        proof {
            assert(v@.subrange(a as int, b as int).drop_last() =~= v@.subrange(a as int, b - 1));
        }
        b -= 1;
    }
    (a, b)
}

/// Whether `pattern` stands in `v` at position `at`.
pub fn matches_at(v: &Vec<char>, at: usize, pattern: &Vec<char>) -> (b: bool)
    requires
        at + pattern.len() <= v.len(),
    ensures
        b == (v@.subrange(at as int, at + pattern.len()) == pattern@),
{
    let m: usize = pattern.len();
    let mut i: usize = 0;
    while i < m
        invariant
            i <= m,
            m == pattern.len(),
            at + m <= v.len(),
            v@.subrange(at as int, at + i) == pattern@.take(i as int),
        decreases m - i,
    {
        if v[at + i] != pattern[i] {
            assert(v@.subrange(at as int, at + m)[i as int] != pattern@[i as int]);
            return false;
        }
        assert(v@.subrange(at as int, at + i + 1) =~= v@.subrange(at as int, at + i).push(
            v@[at + i],
        ));
        assert(pattern@.take(i + 1) =~= pattern@.take(i as int).push(pattern@[i as int]));
        i += 1;
    }
    assert(pattern@.take(m as int) =~= pattern@);
    true
}

/// The value of a prefix of a digit sequence never exceeds the value of the
/// whole.
pub proof fn lemma_digits_value_prefix(s: Seq<char>, k: int)
    requires
        0 <= k <= s.len(),
    ensures
        digits_value(s.take(k)) <= digits_value(s),
    decreases s.len(),
{
    if k == s.len() {
        assert(s.take(k) =~= s);
    } else {
        lemma_digits_value_prefix(s.drop_last(), k);
        assert(s.drop_last().take(k) =~= s.take(k));
    }
}

/// While a text is read, every piece that a separator has ended is not
/// empty and holds no separator, and the piece that none has ended yet holds
/// no separator.
pub proof fn lemma_split_scan_pieces(s: Seq<char>, lines: bool)
    ensures
        all_pieces(split_scan(s, lines).0, lines),
        no_separator(split_scan(s, lines).1, lines),
    decreases s.len(),
{
    if s.len() > 0 {
        lemma_split_scan_pieces(s.drop_last(), lines);
        let (done, current) = split_scan(s.drop_last(), lines);
        if !is_separator(s.last(), lines) {
            let longer = current.push(s.last());
            assert forall|j: int| 0 <= j < longer.len() implies !is_separator(
                #[trigger] longer[j],
                lines,
            ) by {
                if j < current.len() {
                    assert(longer[j] == current[j]);
                }
            }
        } else if current.len() > 0 {
            let more = done.push(current);
            assert forall|i: int| 0 <= i < more.len() implies (#[trigger] more[i]).len() > 0
                && no_separator(more[i], lines) by {
                if i < done.len() {
                    assert(more[i] == done[i]);
                }
            }
        }
    }
}

/// Every line or field that splitting gives is not empty and holds no
/// separator.
pub proof fn lemma_split_pieces(s: Seq<char>, lines: bool)
    ensures
        all_pieces(split_spec(s, lines), lines),
{
    lemma_split_scan_pieces(s, lines);
    let (done, current) = split_scan(s, lines);
    if current.len() > 0 {
        let more = done.push(current);
        assert forall|i: int| 0 <= i < more.len() implies (#[trigger] more[i]).len() > 0
            && no_separator(more[i], lines) by {
            if i < done.len() {
                assert(more[i] == done[i]);
            }
        }
    }
}

/// The numeral of `n` is made of digits, starts with no sign, and denotes
/// `n`.
pub proof fn lemma_decimal_denotes(n: nat)
    ensures
        decimal(n).len() > 0,
        all_digits(decimal(n)),
        digits_value(decimal(n)) == n,
    decreases n,
{
    let s = decimal(n);
    if n < 10 {
        assert(s.drop_last() =~= Seq::<char>::empty());
        assert(s.last() == digit_char(n));
        assert(digits_value(s.drop_last()) == 0);
        assert(digit_value(digit_char(n)) == n);
        assert(digits_value(s) == n);
    } else {
        lemma_decimal_denotes(n / 10);
        assert(s.drop_last() =~= decimal(n / 10));
        assert(s.last() == digit_char(n % 10));
        assert(digit_value(digit_char(n % 10)) == n % 10);
        assert(digits_value(s) == (n / 10) * 10 + n % 10);
        assert forall|i: int| 0 <= i < s.len() implies is_digit(#[trigger] s[i]) by {
            if i < s.len() - 1 {
                assert(s[i] == decimal(n / 10)[i]);
            }
        }
    }
}

/// Parsing the numeral of a number gives the number back.
pub proof fn lemma_parse_decimal(n: u64)
    ensures
        parse_u64_spec(decimal(n as nat)) == Some(n),
{
    lemma_decimal_denotes(n as nat);
    assert(is_digit(decimal(n as nat)[0]));
}

/// Whitespace around a text does not change what is left of it once
/// trimmed: trimming twice is trimming once.
pub proof fn lemma_trim_twice(s: Seq<char>)
    ensures
        trim_spec(trim_spec(s)) == trim_spec(s),
{
    lemma_trim_start_shape(s);
    let t = trim_start_spec(s);
    lemma_trim_end_shape(t);
    let u = trim_end_spec(t);
    if u.len() > 0 {
        assert(u.first() == t.first());
    }
}

/// What is left after trimming at the start is a tail of the text that
/// starts with no whitespace.
pub proof fn lemma_trim_start_shape(s: Seq<char>)
    ensures
        trim_start_spec(s).len() <= s.len(),
        trim_start_spec(s) == s.skip(s.len() - trim_start_spec(s).len()),
        trim_start_spec(s).len() > 0 ==> !is_space(trim_start_spec(s).first()),
        trim_start_spec(trim_start_spec(s)) == trim_start_spec(s),
    decreases s.len(),
{
    if s.len() > 0 && is_space(s.first()) {
        let r = s.drop_first();
        lemma_trim_start_shape(r);
        let k = r.len() - trim_start_spec(r).len();
        assert(r.skip(k) =~= s.skip(k + 1));
    } else {
        assert(s.skip(0) =~= s);
    }
}

/// What is left after trimming at the end is a head of the text that ends
/// with no whitespace.
pub proof fn lemma_trim_end_shape(s: Seq<char>)
    ensures
        trim_end_spec(s).len() <= s.len(),
        trim_end_spec(s) == s.take(trim_end_spec(s).len() as int),
        trim_end_spec(s).len() > 0 ==> !is_space(trim_end_spec(s).last()),
        trim_end_spec(trim_end_spec(s)) == trim_end_spec(s),
    decreases s.len(),
{
    if s.len() > 0 && is_space(s.last()) {
        let r = s.drop_last();
        lemma_trim_end_shape(r);
        let k = trim_end_spec(r).len() as int;
        assert(r.take(k) =~= s.take(k));
    } else {
        assert(s.take(s.len() as int) =~= s);
    }
}

/// Parses the characters of `v` from `from` up to `to` as an unsigned 64-bit
/// integer.
pub fn parse_u64_range(v: &Vec<char>, from: usize, to: usize) -> (r: Option<u64>)
    requires
        from <= to <= v.len(),
    ensures
        r == parse_u64_spec(v@.subrange(from as int, to as int)),
{
    let ghost s = v@.subrange(from as int, to as int);
    let start: usize = if from < to && v[from] == '+' {
        from + 1
    } else {
        from
    };
    let ghost d = v@.subrange(start as int, to as int);
    assert(d =~= without_sign(s));
    if start == to {
        return None;
    }
    let mut acc: u64 = 0;
    let mut i: usize = start;
    while i < to
        invariant
            from <= start <= i <= to <= v.len(),
            start < to,
            d == v@.subrange(start as int, to as int),
            d == without_sign(v@.subrange(from as int, to as int)),
            all_digits(d.take(i - start)),
            acc == digits_value(d.take(i - start)),
        decreases to - i,
    {
        let c: char = v[i];
        assert(c == d[i - start]);
        let u: u32 = c as u32;
        if u < 0x30 || u > 0x39 {
            assert(!is_digit(d[i - start]));
            return None;
        }
        let digit: u64 = (u - 0x30) as u64;
        proof {
            let next = d.take(i - start + 1);
            assert(next.drop_last() =~= d.take(i - start));
            assert(next.last() == c);
            assert(digits_value(next) == acc * 10 + digit);
            lemma_digits_value_prefix(d, i - start + 1);
            assert forall|j: int| 0 <= j < next.len() implies is_digit(#[trigger] next[j]) by {
                if j < i - start {
                    assert(next[j] == d.take(i - start)[j]);
                } else {
                    assert(next[j] == c);
                }
            }
        }
        if acc > (u64::MAX - digit) / 10 {
            assert(acc * 10 + digit > u64::MAX);
            return None;
        }
        acc = acc * 10 + digit;
        i += 1;
    }
    assert(d.take(to - start) =~= d);
    Some(acc)
}

/// Parses `s` as an unsigned 64-bit integer, with nothing trimmed.
pub fn parse_u64(s: &str) -> (r: Option<u64>)
    ensures
        r == parse_u64_spec(s@),
{
    let v = chars_of(s);
    assert(v@.subrange(0, v.len() as int) =~= v@);
    parse_u64_range(&v, 0, v.len())
}

/// Parses `s`, without the whitespace that surrounds it, as an unsigned
/// 64-bit integer.
pub fn parse_trimmed_u64(s: &str) -> (r: Option<u64>)
    ensures
        r == parse_u64_spec(trim_spec(s@)),
{
    let v = chars_of(s);
    let (a, b) = trim_bounds(&v);
    parse_u64_range(&v, a, b)
}

fn digit_str(d: u64) -> (r: &'static str)
    requires
        d < 10,
    ensures
        r@ == seq![digit_char(d as nat)],
{
    proof {
        reveal_strlit("0");
        reveal_strlit("1");
        reveal_strlit("2");
        reveal_strlit("3");
        reveal_strlit("4");
        reveal_strlit("5");
        reveal_strlit("6");
        reveal_strlit("7");
        reveal_strlit("8");
        reveal_strlit("9");
    }
    let r = if d == 0 {
        "0"
    } else if d == 1 {
        "1"
    } else if d == 2 {
        "2"
    } else if d == 3 {
        "3"
    } else if d == 4 {
        "4"
    } else if d == 5 {
        "5"
    } else if d == 6 {
        "6"
    } else if d == 7 {
        "7"
    } else if d == 8 {
        "8"
    } else {
        "9"
    };
    assert(r@ =~= seq![digit_char(d as nat)]);
    r
}

/// The decimal numeral of `n`.
pub fn decimal_string(n: u64) -> (r: String)
    ensures
        r@ == decimal(n as nat),
    decreases n,
{
    if n < 10 {
        String::from_str(digit_str(n))
    } else {
        let head = decimal_string(n / 10);
        let r = head.concat(digit_str(n % 10));
        assert(r@ =~= decimal(n as nat));
        r
    }
}

} // verus!
