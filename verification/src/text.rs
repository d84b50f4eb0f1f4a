//! Text building blocks: decimal and hexadecimal rendering, decimal parsing,
//! joining and path composition, all over `Seq<char>` models.
use vstd::prelude::*;
use vstd::string::*;

verus! {

/// The ASCII digit character for `d` (`0 <= d < 10`).
pub open spec fn digit_char(d: nat) -> char {
    (d + 48) as char
}

/// Decimal rendering of a natural number, without sign or leading zeros.
pub open spec fn dec(n: nat) -> Seq<char>
    decreases n,
{
    if n < 10 {
        seq![digit_char(n)]
    } else {
        dec(n / 10).push(digit_char(n % 10))
    }
}

fn digit_str(d: u64) -> (s: &'static str)
    requires
        d < 10,
    ensures
        s@ == seq![digit_char(d as nat)],
{
    proof {
        reveal_strlit("0");
        reveal_strlit("1");
        reveal_strlit("2");
        reveal_strlit("3");
        reveal_strlit("4");
        reveal_strlit("5");
        reveal_strlit("6");
        reveal_strlit("7");
        reveal_strlit("8");
        reveal_strlit("9");
    }
    match d {
        0 => "0",
        1 => "1",
        2 => "2",
        3 => "3",
        4 => "4",
        5 => "5",
        6 => "6",
        7 => "7",
        8 => "8",
        _ => "9",
    }
}

/// Renders `n` in decimal, as `n.to_string()` does.
pub fn to_decimal(n: u64) -> (s: String)
    ensures
        s@ == dec(n as nat),
    decreases n,
{
    if n < 10 {
        String::from_str(digit_str(n))
    } else {
        let mut s = to_decimal(n / 10);
        s.append(digit_str(n % 10));
        s
    }
}


/// A hexadecimal digit character; `upper` picks `A-F` over `a-f`.
pub open spec fn hex_digit(d: nat, upper: bool) -> char {
    if d < 10 {
        digit_char(d)
    } else if upper {
        (d + 55) as char
    } else {
        (d + 87) as char
    }
}

/// The lowest `width` hexadecimal digits of `n`, most significant first,
/// zero padded (as `{:0width$x}` prints a number that fits in `width` digits).
pub open spec fn hex_pad(n: nat, width: nat, upper: bool) -> Seq<char>
    decreases width,
{
    if width == 0 {
        Seq::empty()
    } else {
        hex_pad(n / 16, (width - 1) as nat, upper).push(hex_digit(n % 16, upper))
    }
}

fn hex_letter_str(d: u64, upper: bool) -> (s: &'static str)
    requires
        10 <= d < 16,
    ensures
        s@ == seq![hex_digit(d as nat, upper)],
{
    proof {
        reveal_strlit("a");
        reveal_strlit("b");
        reveal_strlit("c");
        reveal_strlit("d");
        reveal_strlit("e");
        reveal_strlit("f");
        reveal_strlit("A");
        reveal_strlit("B");
        reveal_strlit("C");
        reveal_strlit("D");
        reveal_strlit("E");
        reveal_strlit("F");
    }
    if upper {
        match d {
            10 => "A",
            11 => "B",
            12 => "C",
            13 => "D",
            14 => "E",
            _ => "F",
        }
    } else {
        match d {
            10 => "a",
            11 => "b",
            12 => "c",
            13 => "d",
            14 => "e",
            _ => "f",
        }
    }
}

fn hex_digit_str(d: u64, upper: bool) -> (s: &'static str)
    requires
        d < 16,
    ensures
        s@ == seq![hex_digit(d as nat, upper)],
{
    if d < 10 {
        digit_str(d)
    } else {
        hex_letter_str(d, upper)
    }
}

/// Renders the lowest `width` hexadecimal digits of `n`, zero padded.
pub fn to_hex_padded(n: u64, width: u64, upper: bool) -> (s: String)
    ensures
        s@ == hex_pad(n as nat, width as nat, upper),
    decreases width,
{
    if width == 0 {
        String::new()
    } else {
        let mut s = to_hex_padded(n / 16, width - 1, upper);
        s.append(hex_digit_str(n % 16, upper));
        s
    }
}

/// An ASCII decimal digit.
pub open spec fn is_digit(c: char) -> bool {
    '0' <= c && c <= '9'
}

/// An ASCII hexadecimal digit (`char::is_ascii_hexdigit`).
pub open spec fn is_hex_digit(c: char) -> bool {
    ||| ('0' <= c && c <= '9')
    ||| ('a' <= c && c <= 'f')
    ||| ('A' <= c && c <= 'F')
}

/// Every character of `s` is an ASCII decimal digit.
pub open spec fn all_digits(s: Seq<char>) -> bool {
    forall|i: int| 0 <= i < s.len() ==> #[trigger] is_digit(s[i])
}

/// The value of a string of decimal digits, most significant first.
pub open spec fn digits_value(s: Seq<char>) -> nat
    decreases s.len(),
{
    if s.len() == 0 {
        0
    } else {
        digits_value(s.drop_last()) * 10 + ((s.last() as int - 48) as nat)
    }
}

/// The digits that an unsigned integer parser reads: one leading `+` is skipped.
pub open spec fn unsigned_digits(s: Seq<char>) -> Seq<char> {
    if s.len() > 0 && s[0] == '+' {
        s.drop_first()
    } else {
        s
    }
}

/// What `str::parse` gives for an unsigned integer type whose largest value is
/// `max`: an optional `+`, then at least one ASCII digit and nothing else, and a
/// value no larger than `max`.
pub open spec fn parse_unsigned(s: Seq<char>, max: nat) -> Option<nat> {
    let d = unsigned_digits(s);
    if d.len() > 0 && all_digits(d) && digits_value(d) <= max {
        Some(digits_value(d))
    } else {
        None
    }
}

/// The decimal rendering of `n` is a non-empty string of digits whose value is `n`.
pub proof fn lemma_dec_digits(n: nat)
    ensures
        dec(n).len() > 0,
        all_digits(dec(n)),
        digits_value(dec(n)) == n,
    decreases n,
{
    if n >= 10 {
        lemma_dec_digits(n / 10);
        let d = dec(n);
        assert(d.drop_last() =~= dec(n / 10));
        assert(d.last() == digit_char(n % 10));
        assert(digit_char(n % 10) as int == n % 10 + 48);
        assert((n / 10) * 10 + n % 10 == n);
        assert forall|i: int| 0 <= i < d.len() implies #[trigger] is_digit(d[i]) by {
            if i < d.len() - 1 {
                assert(d[i] == dec(n / 10)[i]);
            }
        }
        assert(digits_value(d) == digits_value(d.drop_last()) * 10 + (d.last() as int - 48));
        assert(digits_value(d.drop_last()) == n / 10);
        assert(digits_value(d) == (n / 10) * 10 + n % 10);
    } else {
        assert(dec(n).drop_last() =~= Seq::<char>::empty());
        assert(digits_value(dec(n).drop_last()) == 0);
        assert(dec(n).last() == digit_char(n));
        assert(digit_char(n) as int == n + 48);
        assert(digits_value(dec(n)) == n);
    }
}

/// Parsing the decimal rendering of a number no larger than `max` gives the
/// number back.
pub proof fn lemma_parse_dec(n: nat, max: nat)
    requires
        n <= max,
    ensures
        parse_unsigned(dec(n), max) == Some(n),
{
    lemma_dec_digits(n);
    assert(is_digit(dec(n)[0]));
    assert(unsigned_digits(dec(n)) == dec(n));
}

/// `10` to the power `n`.
pub open spec fn pow10(n: nat) -> nat
    decreases n,
{
    if n == 0 {
        1
    } else {
        10 * pow10((n - 1) as nat)
    }
}

/// A string of `n` digits has a value below `10^n`.
pub proof fn lemma_digits_value_bound(s: Seq<char>)
    requires
        all_digits(s),
    ensures
        digits_value(s) < pow10(s.len()),
    decreases s.len(),
{
    if s.len() > 0 {
        let t = s.drop_last();
        assert(all_digits(t)) by {
            assert forall|i: int| 0 <= i < t.len() implies #[trigger] is_digit(t[i]) by {
                assert(t[i] == s[i]);
            }
        }
        lemma_digits_value_bound(t);
        assert(is_digit(s[s.len() - 1]));
        let v = digits_value(t);
        let d = (s.last() as int - 48);
        let p = pow10(t.len());
        assert(v * 10 + d < p * 10) by (nonlinear_arith)
            requires
                v < p,
                0 <= d < 10,
        ;
    }
}

proof fn lemma_digits_value_prefix_monotone(s: Seq<char>, i: int, j: int)
    requires
        0 <= i <= j <= s.len(),
        all_digits(s),
    ensures
        digits_value(s.take(i)) <= digits_value(s.take(j)),
    decreases j - i,
{
    if i < j {
        lemma_digits_value_prefix_monotone(s, i, j - 1);
        assert(s.take(j).drop_last() =~= s.take(j - 1));
        assert(is_digit(s[j - 1]));
    }
}

fn char_digit(c: char) -> (r: Option<u64>)
    ensures
        r is Some <==> is_digit(c),
        r matches Some(d) ==> d == c as int - 48 && d < 10,
{
    if '0' <= c && c <= '9' {
        Some((c as u32 - 48) as u64)
    } else {
        None
    }
}

/// Parses an unsigned decimal integer no larger than `max`, as `str::parse`
/// does for the unsigned type whose largest value is `max`.
pub fn parse_unsigned_str(s: &str, max: u64) -> (r: Option<u64>)
    ensures
        r matches Some(v) ==> parse_unsigned(s@, max as nat) == Some(v as nat),
        r is None ==> parse_unsigned(s@, max as nat) is None,
{
    let len = s.unicode_len();
    let start: usize = if len > 0 && s.get_char(0) == '+' { 1 } else { 0 };
    let ghost d = unsigned_digits(s@);
    assert(d =~= s@.skip(start as int));
    if start == len {
        return None;
    }
    let mut v: u64 = 0;
    let mut i: usize = start;
    while i < len
        invariant
            start <= i <= len,
            len == s@.len(),
            d == s@.skip(start as int),
            d == unsigned_digits(s@),
            all_digits(d.take(i - start)),
            v as nat == digits_value(d.take(i - start)),
            v <= max,
        decreases len - i,
    {
        let c = s.get_char(i);
        let dg = char_digit(c);
        let ghost k: int = i - start;
        assert(d[k] == c);
        match dg {
            None => {
                assert(!all_digits(d));
                return None;
            },
            Some(x) => {
                assert(d.take(k + 1).drop_last() =~= d.take(k));
                if x > max || v > (max - x) / 10 {
                    assert(v * 10 + x > max) by (nonlinear_arith)
                        requires
                            x > max || v > (max - x) / 10,
                    ;
                    proof {
                        if all_digits(d) {
                            lemma_digits_value_prefix_monotone(d, k + 1, d.len() as int);
                            assert(d.take(d.len() as int) =~= d);
                            assert(digits_value(d.take(k + 1)) == v * 10 + x);
                        }
                    }
                    return None;
                }
                assert(v * 10 + x <= max) by (nonlinear_arith)
                    requires
                        v <= (max - x) / 10,
                        x <= max,
                ;
                v = v * 10 + x;
                assert(all_digits(d.take(k + 1)));
                i = i + 1;
            },
        }
    }
    assert(d.take(d.len() as int) =~= d);
    Some(v)
}


/// `s` and `t` hold the same characters (`==` on `str`).
pub fn str_equal(s: &str, t: &str) -> (r: bool)
    ensures
        r == (s@ == t@),
{
    let n = s.unicode_len();
    let m = t.unicode_len();
    if n != m {
        return false;
    }
    let mut i: usize = 0;
    while i < n
        invariant
            n == s@.len(),
            m == t@.len(),
            n == m,
            i <= n,
            s@.take(i as int) =~= t@.take(i as int),
        decreases n - i,
    {
        if s.get_char(i) != t.get_char(i) {
            return false;
        }
        assert(s@.take(i + 1) =~= s@.take(i as int).push(s@[i as int]));
        assert(t@.take(i + 1) =~= t@.take(i as int).push(t@[i as int]));
        i = i + 1;
    }
    assert(s@ =~= s@.take(n as int));
    assert(t@ =~= t@.take(n as int));
    true
}

/// The position of the first `c` in `s`, if any.
pub open spec fn find_char(s: Seq<char>, c: char) -> Option<nat>
    decreases s.len(),
{
    if s.len() == 0 {
        None
    } else if s[0] == c {
        Some(0)
    } else {
        match find_char(s.drop_first(), c) {
            Some(k) => Some(k + 1),
            None => None,
        }
    }
}

/// `find_char` gives the first position holding `c`, and `None` exactly when
/// no position holds it.
pub proof fn lemma_find_char(s: Seq<char>, c: char)
    ensures
        find_char(s, c) matches Some(k) ==> k < s.len() && s[k as int] == c && forall|j: int|
            0 <= j < k ==> s[j] != c,
        find_char(s, c) is None ==> forall|j: int| 0 <= j < s.len() ==> s[j] != c,
    decreases s.len(),
{
    if s.len() > 0 && s[0] != c {
        lemma_find_char(s.drop_first(), c);
        if find_char(s.drop_first(), c) is None {
            assert forall|j: int| 0 <= j < s.len() implies s[j] != c by {
                if j > 0 {
                    assert(s[j] == s.drop_first()[j - 1]);
                }
            }
        } else {
            let k = find_char(s.drop_first(), c)->0;
            assert forall|j: int| 0 <= j < k + 1 implies s[j] != c by {
                if j > 0 {
                    assert(s[j] == s.drop_first()[j - 1]);
                }
            }
        }
    }
}

/// The first position of `c` in `s[from..to]`, counted from `from`.
pub fn find_char_in(s: &str, c: char, from: usize, to: usize) -> (r: Option<usize>)
    requires
        from <= to <= s@.len(),
    ensures
        r matches Some(k) ==> find_char(s@.subrange(from as int, to as int), c) == Some(
            k as nat,
        ),
        r is None ==> find_char(s@.subrange(from as int, to as int), c) is None,
{
    let ghost w = s@.subrange(from as int, to as int);
    proof {
        lemma_find_char(w, c);
    }
    let mut i = from;
    while i < to
        invariant
            from <= i <= to <= s@.len(),
            w == s@.subrange(from as int, to as int),
            forall|j: int| 0 <= j < i - from ==> w[j] != c,
            find_char(w, c) matches Some(k) ==> k < w.len() && w[k as int] == c && forall|j: int|
                0 <= j < k ==> w[j] != c,
            find_char(w, c) is None ==> forall|j: int| 0 <= j < w.len() ==> w[j] != c,
        decreases to - i,
    {
        if s.get_char(i) == c {
            assert(w[i - from] == c);
            return Some(i - from);
        }
        assert(w[i - from] != c);
        i = i + 1;
    }
    None
}

/// Joins `parts` with `sep` between consecutive parts (`[..].join(sep)`).
pub open spec fn join(parts: Seq<Seq<char>>, sep: Seq<char>) -> Seq<char>
    decreases parts.len(),
{
    if parts.len() == 0 {
        Seq::empty()
    } else if parts.len() == 1 {
        parts[0]
    } else {
        join(parts.drop_last(), sep) + sep + parts.last()
    }
}

/// The character sequences of a list of strings.
pub open spec fn views(v: Seq<String>) -> Seq<Seq<char>> {
    v.map_values(|x: String| x@)
}

/// Joins the strings of `parts` with `sep`.
pub fn join_strings(parts: &Vec<String>, sep: &str) -> (r: String)
    ensures
        r@ == join(views(parts@), sep@),
{
    let mut r = String::new();
    let ghost vs = views(parts@);
    let mut i: usize = 0;
    while i < parts.len()
        invariant
            i <= parts@.len(),
            vs == views(parts@),
            r@ == join(vs.take(i as int), sep@),
        decreases parts@.len() - i,
    {
        assert(vs.take(i + 1).drop_last() =~= vs.take(i as int));
        if i != 0 {
            r.append(sep);
        }
        r.append(parts[i].as_str());
        proof {
            if i == 0 {
                assert(r@ =~= vs.take(1)[0]);
            }
        }
        i = i + 1;
    }
    assert(vs.take(parts@.len() as int) =~= vs);
    r
}

/// Appends copies of the strings of `more` to `args`.
pub fn extend_strings(args: &mut Vec<String>, more: &Vec<String>)
    ensures
        views(final(args)@) == views(old(args)@) + views(more@),
{
    let ghost head = views(args@);
    let mut i: usize = 0;
    while i < more.len()
        invariant
            i <= more@.len(),
            views(args@) == head + views(more@).take(i as int),
        decreases more@.len() - i,
    {
        let ghost before = args@;
        let c = more[i].clone();
        args.push(c);
        assert(views(args@) =~= views(before).push(c@));
        assert(views(more@).take(i + 1) =~= views(more@).take(i as int).push(more@[i as int]@));
        i = i + 1;
    }
    assert(views(more@).take(more@.len() as int) =~= views(more@));
}

/// The argument lists of `s`, one after the other.
pub open spec fn concat(s: Seq<Seq<Seq<char>>>) -> Seq<Seq<char>>
    decreases s.len(),
{
    if s.len() == 0 {
        Seq::empty()
    } else {
        concat(s.drop_last()) + s.last()
    }
}

/// `PathBuf::push` of a relative component: a `/` goes between the two unless
/// the base is empty or already ends with one.
pub open spec fn path_join(base: Seq<char>, comp: Seq<char>) -> Seq<char> {
    if base.len() == 0 || base.last() == '/' {
        base + comp
    } else {
        base + seq!['/'] + comp
    }
}

/// Appends a relative component to a path, as `PathBuf::push` does.
pub fn push_path(base: &mut String, comp: &str)
    ensures
        final(base)@ == path_join(old(base)@, comp@),
{
    let n = base.as_str().unicode_len();
    proof {
        reveal_strlit("/");
    }
    if n != 0 && base.as_str().get_char(n - 1) != '/' {
        base.append("/");
    }
    base.append(comp);
}

/// A path made of `base` and one relative component.
pub fn joined_path(base: &str, comp: &str) -> (r: String)
    ensures
        r@ == path_join(base@, comp@),
{
    let mut r = String::from_str(base);
    push_path(&mut r, comp);
    r
}

} // verus!
