//! Character-level string helpers shared by the whole library: equality,
//! ASCII case folding, Unicode whitespace trimming, decimal rendering and
//! parsing, and joining.
use vstd::prelude::*;
use vstd::string::*;

verus! {

// ---------------------------------------------------------------------------
// Building strings
// ---------------------------------------------------------------------------

/// `String::push` of std: appends one character at the end.
#[verifier::external_body]
fn push_char(s: &mut String, c: char)
    ensures
        final(s)@ == old(s)@.push(c),
{
    s.push(c);
}

/// The characters of `s`, in order.
pub fn chars_of(s: &str) -> (v: Vec<char>)
    ensures
        v@ == s@,
{
    let n = s.unicode_len();
    let mut v: Vec<char> = Vec::new();
    let mut i: usize = 0;
    while i < n
        invariant
            n == s@.len(),
            i <= n,
            v@ == s@.subrange(0, i as int),
        decreases n - i,
    {
        let c = s.get_char(i);
        v.push(c);
        i = i + 1;
    }
    v
}

/// A string holding the characters `v[from..to]`.
pub fn string_from_range(v: &Vec<char>, from: usize, to: usize) -> (s: String)
    requires
        from <= to <= v@.len(),
    ensures
        s@ == v@.subrange(from as int, to as int),
{
    let mut s = String::new();
    let mut i: usize = from;
    while i < to
        invariant
            from <= i <= to <= v@.len(),
            s@ == v@.subrange(from as int, i as int),
        decreases to - i,
    {
        push_char(&mut s, v[i]);
        i = i + 1;
    }
    s
}

/// A string holding exactly the characters of `v`.
pub fn string_from_chars(v: &Vec<char>) -> (s: String)
    ensures
        s@ == v@,
{
    let s = string_from_range(v, 0, v.len());
    assert(v@.subrange(0, v@.len() as int) =~= v@);
    s
}

/// A fresh `String` with the contents of `s`.
pub fn owned(s: &str) -> (r: String)
    ensures
        r@ == s@,
{
    String::from_str(s)
}

/// The concatenation of `a` and `b`.
pub fn concat(a: &str, b: &str) -> (r: String)
    ensures
        r@ == a@ + b@,
{
    let mut r = String::from_str(a);
    r.append(b);
    r
}

// ---------------------------------------------------------------------------
// Equality and ASCII case folding
// ---------------------------------------------------------------------------

/// Whether two strings hold the same characters.
pub fn str_eq(a: &str, b: &str) -> (r: bool)
    ensures
        r == (a@ == b@),
{
    let n = a.unicode_len();
    let m = b.unicode_len();
    if n != m {
        return false;
    }
    let mut i: usize = 0;
    while i < n
        invariant
            n == a@.len(),
            m == b@.len(),
            n == m,
            i <= n,
            forall|k: int| 0 <= k < i ==> a@[k] == b@[k],
        decreases n - i,
    {
        if a.get_char(i) != b.get_char(i) {
            return false;
        }
        i = i + 1;
    }
    assert(a@ =~= b@);
    true
}

/// ASCII lower-casing of one character: `A`..`Z` become `a`..`z`, every
/// other character is left alone.
pub open spec fn ascii_lower(c: char) -> char {
    if 'A' <= c && c <= 'Z' {
        ((c as u32) + 32) as char
    } else {
        c
    }
}

/// ASCII upper-casing of one character: `a`..`z` become `A`..`Z`.
pub open spec fn ascii_upper(c: char) -> char {
    if 'a' <= c && c <= 'z' {
        ((c as u32) - 32) as char
    } else {
        c
    }
}

/// ASCII lower-casing of a whole sequence.
pub open spec fn ascii_lower_seq(s: Seq<char>) -> Seq<char> {
    s.map_values(|c: char| ascii_lower(c))
}

pub fn to_ascii_lower(c: char) -> (r: char)
    ensures
        r == ascii_lower(c),
{
    if 'A' <= c && c <= 'Z' {
        let code: u32 = (c as u32) + 32;
        char_from_ascii(code as u8)
    } else {
        c
    }
}

pub fn to_ascii_upper(c: char) -> (r: char)
    ensures
        r == ascii_upper(c),
{
    if 'a' <= c && c <= 'z' {
        let code: u32 = (c as u32) - 32;
        char_from_ascii(code as u8)
    } else {
        c
    }
}

fn char_from_ascii(b: u8) -> (c: char)
    requires
        b < 128,
    ensures
        c == (b as u32) as char,
        c as u32 == b as u32,
{
    b as char
}

/// Whether `a` and `b` are equal once ASCII letters are lower-cased
/// (the comparison of `str::eq_ignore_ascii_case`).
pub fn eq_ignore_ascii_case(a: &str, b: &str) -> (r: bool)
    ensures
        r == (ascii_lower_seq(a@) == ascii_lower_seq(b@)),
{
    let n = a.unicode_len();
    let m = b.unicode_len();
    if n != m {
        proof {
            assert(ascii_lower_seq(a@).len() != ascii_lower_seq(b@).len());
        }
        return false;
    }
    let mut i: usize = 0;
    while i < n
        invariant
            n == a@.len(),
            m == b@.len(),
            n == m,
            i <= n,
            forall|k: int| 0 <= k < i ==> ascii_lower(a@[k]) == ascii_lower(b@[k]),
        decreases n - i,
    {
        let x = to_ascii_lower(a.get_char(i));
        let y = to_ascii_lower(b.get_char(i));
        if x != y {
            proof {
                assert(ascii_lower_seq(a@)[i as int] != ascii_lower_seq(b@)[i as int]);
            }
            return false;
        }
        i = i + 1;
    }
    assert(ascii_lower_seq(a@) =~= ascii_lower_seq(b@));
    true
}

/// The text a name is compared in: ASCII letters lower-cased, the Kelvin
/// sign read as `k` and `-` read as `_`. For names made of ASCII lower-case
/// letters and `_` (every name this library parses) this is what
/// `to_lowercase` followed by `replace('-', "_")` compares: the Kelvin sign
/// is the one character besides the ASCII letters that lower-cases to an
/// ASCII letter, and none lower-cases to `_` or `-` but these.
pub open spec fn fold_name(s: Seq<char>) -> Seq<char> {
    s.map_values(
        |c: char|
            if c == '-' {
                '_'
            } else if c == '\u{212A}' {
                'k'
            } else {
                ascii_lower(c)
            },
    )
}

/// Whether `s`, with ASCII letters lower-cased, is `name`.
pub fn lowered_is(s: &str, name: &str) -> (r: bool)
    ensures
        r == (ascii_lower_seq(s@) == name@),
{
    let n = s.unicode_len();
    let m = name.unicode_len();
    if n != m {
        proof {
            assert(ascii_lower_seq(s@).len() != name@.len());
        }
        return false;
    }
    let mut i: usize = 0;
    while i < n
        invariant
            n == s@.len(),
            m == name@.len(),
            n == m,
            i <= n,
            forall|k: int| 0 <= k < i ==> ascii_lower(s@[k]) == name@[k],
        decreases n - i,
    {
        if to_ascii_lower(s.get_char(i)) != name.get_char(i) {
            proof {
                assert(ascii_lower_seq(s@)[i as int] != name@[i as int]);
            }
            return false;
        }
        i = i + 1;
    }
    assert(ascii_lower_seq(s@) =~= name@);
    true
}

/// Whether `s`, folded as by `fold_name`, is `name`.
pub fn folded_is(s: &str, name: &str) -> (r: bool)
    ensures
        r == (fold_name(s@) == name@),
{
    let n = s.unicode_len();
    let m = name.unicode_len();
    if n != m {
        proof {
            assert(fold_name(s@).len() != name@.len());
        }
        return false;
    }
    let mut i: usize = 0;
    while i < n
        invariant
            n == s@.len(),
            m == name@.len(),
            n == m,
            i <= n,
            forall|k: int| 0 <= k < i ==> #[trigger] fold_name(s@)[k] == name@[k],
        decreases n - i,
    {
        let c = s.get_char(i);
        let folded = if c == '-' {
            '_'
        } else if c == '\u{212A}' {
            'k'
        } else {
            to_ascii_lower(c)
        };
        if folded != name.get_char(i) {
            proof {
                assert(fold_name(s@)[i as int] != name@[i as int]);
            }
            return false;
        }
        i = i + 1;
    }
    assert(fold_name(s@) =~= name@);
    true
}

/// A vocabulary whose values are parsed from their names.
pub trait ParseName: Sized + Copy {
    /// The value that a text names, if any.
    spec fn name_parse(s: Seq<char>) -> Option<Self>;

    fn parse_name(s: &str) -> (r: Option<Self>)
        ensures
            r == Self::name_parse(s@),
    ;
}

/// Whether `s` begins with `prefix`.
pub fn starts_with(s: &str, prefix: &str) -> (r: bool)
    ensures
        r == (prefix@.len() <= s@.len() && s@.subrange(0, prefix@.len() as int) == prefix@),
{
    let n = s.unicode_len();
    let m = prefix.unicode_len();
    if m > n {
        return false;
    }
    let mut i: usize = 0;
    while i < m
        invariant
            n == s@.len(),
            m == prefix@.len(),
            m <= n,
            i <= m,
            forall|k: int| 0 <= k < i ==> s@[k] == prefix@[k],
        decreases m - i,
    {
        if s.get_char(i) != prefix.get_char(i) {
            proof {
                assert(s@.subrange(0, m as int)[i as int] != prefix@[i as int]);
            }
            return false;
        }
        i = i + 1;
    }
    assert(s@.subrange(0, m as int) =~= prefix@);
    true
}

// ---------------------------------------------------------------------------
// Whitespace trimming
// ---------------------------------------------------------------------------

/// The Unicode `White_Space` property (the characters for which
/// `char::is_whitespace` holds).
pub open spec fn is_white_space(c: char) -> bool {
    let u = c as u32;
    (0x9 <= u && u <= 0xD) || u == 0x20 || u == 0x85 || u == 0xA0 || u == 0x1680
        || (0x2000 <= u && u <= 0x200A) || u == 0x2028 || u == 0x2029 || u == 0x202F
        || u == 0x205F || u == 0x3000
}

pub fn white_space(c: char) -> (r: bool)
    ensures
        r == is_white_space(c),
{
    let u = c as u32;
    (0x9 <= u && u <= 0xD) || u == 0x20 || u == 0x85 || u == 0xA0 || u == 0x1680 || (0x2000 <= u
        && u <= 0x200A) || u == 0x2028 || u == 0x2029 || u == 0x202F || u == 0x205F || u == 0x3000
}

/// `s` without its leading whitespace.
pub open spec fn trim_start_spec(s: Seq<char>) -> Seq<char>
    decreases s.len(),
{
    if s.len() > 0 && is_white_space(s[0]) {
        trim_start_spec(s.drop_first())
    } else {
        s
    }
}

/// `s` without its trailing whitespace.
pub open spec fn trim_end_spec(s: Seq<char>) -> Seq<char>
    decreases s.len(),
{
    if s.len() > 0 && is_white_space(s.last()) {
        trim_end_spec(s.drop_last())
    } else {
        s
    }
}

/// `s` without leading and trailing whitespace (what `str::trim` returns).
pub open spec fn trim_spec(s: Seq<char>) -> Seq<char> {
    trim_end_spec(trim_start_spec(s))
}

/// Removes leading and trailing whitespace.
pub fn trim(s: &str) -> (r: String)
    ensures
        r@ == trim_spec(s@),
{
    let v = chars_of(s);
    let n = v.len();
    let mut i: usize = 0;
    assert(s@.subrange(0, n as int) =~= s@);
    while i < n && white_space(v[i])
        invariant
            v@ == s@,
            n == v@.len(),
            i <= n,
            trim_start_spec(s@) == trim_start_spec(s@.subrange(i as int, n as int)),
        decreases n - i,
    {
        proof {
            let t = s@.subrange(i as int, n as int);
            assert(t.drop_first() =~= s@.subrange(i + 1, n as int));
        }
        i = i + 1;
    }
    let ghost front = s@.subrange(i as int, n as int);
    assert(trim_start_spec(front) == front);
    let mut j: usize = n;
    while j > i && white_space(v[j - 1])
        invariant
            v@ == s@,
            n == v@.len(),
            i <= j <= n,
            front == s@.subrange(i as int, n as int),
            trim_end_spec(front) == trim_end_spec(s@.subrange(i as int, j as int)),
        decreases j - i,
    {
        proof {
            let t = s@.subrange(i as int, j as int);
            assert(t.drop_last() =~= s@.subrange(i as int, j - 1));
        }
        j = j - 1;
    }
    assert(trim_end_spec(s@.subrange(i as int, j as int)) == s@.subrange(i as int, j as int));
    string_from_range(&v, i, j)
}

/// `Some` of the trimmed text when it is not empty, `None` otherwise.
pub open spec fn non_blank_spec(s: Seq<char>) -> Option<Seq<char>> {
    if trim_spec(s).len() == 0 {
        None
    } else {
        Some(trim_spec(s))
    }
}

/// The trimmed text of `s`, or `None` when nothing but whitespace is left.
pub fn non_blank(s: &str) -> (r: Option<String>)
    ensures
        r matches Some(t) ==> non_blank_spec(s@) == Some(t@),
        r is None ==> non_blank_spec(s@) is None,
{
    let t = trim(s);
    if t.unicode_len() == 0 {
        None
    } else {
        Some(t)
    }
}

/// The view of an optional string.
pub open spec fn opt_view(o: Option<String>) -> Option<Seq<char>> {
    match o {
        Some(s) => Some(s@),
        None => None,
    }
}

// ---------------------------------------------------------------------------
// Decimal rendering
// ---------------------------------------------------------------------------

/// The ASCII digit for `d` (`0 <= d < 10`).
pub open spec fn digit_char(d: nat) -> char {
    ((48 + d) as u32) as char
}

/// The decimal digits of `n`, most significant first, without leading zeros.
pub open spec fn decimal(n: nat) -> Seq<char>
    decreases n,
{
    if n < 10 {
        seq![digit_char(n)]
    } else {
        decimal(n / 10).push(digit_char(n % 10))
    }
}

/// The decimal rendering of an integer, with a leading `-` when negative
/// (what `to_string` gives for the integer types).
pub open spec fn int_decimal(i: int) -> Seq<char> {
    if i < 0 {
        seq!['-'] + decimal((-i) as nat)
    } else {
        decimal(i as nat)
    }
}

fn digit(d: u64) -> (c: char)
    requires
        d < 10,
    ensures
        c == digit_char(d as nat),
{
    let b: u8 = 48 + (d as u8);
    char_from_ascii(b)
}

fn write_decimal(s: &mut String, n: u64)
    ensures
        final(s)@ == old(s)@ + decimal(n as nat),
    decreases n,
{
    if n >= 10 {
        write_decimal(s, n / 10);
    }
    push_char(s, digit(n % 10));
    proof {
        if n >= 10 {
            assert(decimal(n as nat) == decimal((n / 10) as nat).push(digit_char((n % 10) as nat)));
        }
    }
    assert(final(s)@ =~= old(s)@ + decimal(n as nat)) by {
        reveal_with_fuel(decimal, 2);
    }
}

/// Appends the decimal rendering of `n` to `s`.
pub fn push_u64(s: &mut String, n: u64)
    ensures
        final(s)@ == old(s)@ + decimal(n as nat),
{
    write_decimal(s, n);
}

/// Appends the decimal rendering of `n` (with a `-` when negative) to `s`.
pub fn push_i64(s: &mut String, n: i64)
    ensures
        final(s)@ == old(s)@ + int_decimal(n as int),
{
    if n < 0 {
        push_char(s, '-');
        let magnitude: u64 = (0 - (n as i128)) as u64;
        write_decimal(s, magnitude);
        assert(final(s)@ =~= old(s)@ + int_decimal(n as int));
    } else {
        write_decimal(s, n as u64);
    }
}

/// The decimal rendering of `n`.
pub fn u64_to_string(n: u64) -> (r: String)
    ensures
        r@ == decimal(n as nat),
{
    let mut s = String::new();
    write_decimal(&mut s, n);
    assert(s@ =~= decimal(n as nat));
    s
}

/// The decimal rendering of `n`, with a leading `-` when negative.
pub fn i64_to_string(n: i64) -> (r: String)
    ensures
        r@ == int_decimal(n as int),
{
    let mut s = String::new();
    push_i64(&mut s, n);
    assert(s@ =~= int_decimal(n as int));
    s
}

// ---------------------------------------------------------------------------
// Decimal parsing
// ---------------------------------------------------------------------------

pub open spec fn is_digit(c: char) -> bool {
    '0' <= c && c <= '9'
}

pub open spec fn digit_value(c: char) -> nat {
    ((c as u32) - 48) as nat
}

pub open spec fn all_digits(s: Seq<char>) -> bool {
    forall|k: int| 0 <= k < s.len() ==> is_digit(#[trigger] s[k])
}

/// The number written by the digits of `s`, most significant first.
pub open spec fn digits_value(s: Seq<char>) -> nat
    decreases s.len(),
{
    if s.len() == 0 {
        0
    } else {
        digits_value(s.drop_last()) * 10 + digit_value(s.last())
    }
}

/// What `str::parse` gives for an integer type with bounds `lo..=hi`: an
/// optional sign (`-` only where `lo < 0`), then at least one ASCII digit,
/// nothing else, and a value within the bounds.
pub open spec fn parse_int_spec(s: Seq<char>, lo: int, hi: int) -> Option<int> {
    let signed = s.len() > 0 && (s[0] == '+' || (s[0] == '-' && lo < 0));
    let body = if signed {
        s.drop_first()
    } else {
        s
    };
    let value: int = if s.len() > 0 && s[0] == '-' && lo < 0 {
        -digits_value(body)
    } else {
        digits_value(body) as int
    };
    if body.len() > 0 && all_digits(body) && lo <= value && value <= hi {
        Some(value)
    } else {
        None
    }
}

/// The value of the digits `v[from..]` when they are all digits, at least
/// one, and their value is at most `limit`.
fn digits_up_to(v: &Vec<char>, from: usize, limit: u64) -> (r: Option<u64>)
    requires
        from <= v@.len(),
        limit >= 9,
    ensures
        ({
            let body = v@.subrange(from as int, v@.len() as int);
            r == (if body.len() > 0 && all_digits(body) && digits_value(body) <= limit {
                Some(digits_value(body) as u64)
            } else {
                None
            })
        }),
{
    let n = v.len();
    if from == n {
        return None;
    }
    let mut acc: u64 = 0;
    let mut over = false;
    let mut i: usize = from;
    while i < n
        invariant
            from <= i <= n,
            n == v@.len(),
            limit >= 9,
            all_digits(v@.subrange(from as int, i as int)),
            !over ==> acc as nat == digits_value(v@.subrange(from as int, i as int)) && acc <= limit,
            over ==> digits_value(v@.subrange(from as int, i as int)) > limit,
        decreases n - i,
    {
        let c = v[i];
        if !('0' <= c && c <= '9') {
            proof {
                let body = v@.subrange(from as int, n as int);
                assert(body[i - from] == c);
            }
            return None;
        }
        let d: u64 = (c as u32 - 48) as u64;
        proof {
            let pre = v@.subrange(from as int, i as int);
            let post = v@.subrange(from as int, i + 1);
            assert(post.drop_last() =~= pre);
            assert(post.last() == c);
            assert(digits_value(post) == digits_value(pre) * 10 + digit_value(c));
            assert(all_digits(post));
        }
        if !over {
            if acc > (limit - d) / 10 {
                over = true;
            } else {
                acc = acc * 10 + d;
            }
        }
        i = i + 1;
    }
    assert(v@.subrange(from as int, n as int) =~= v@.subrange(from as int, i as int));
    if over {
        None
    } else {
        Some(acc)
    }
}

/// `str::parse::<u32>`: `Some` exactly when `s` is an optional `+` followed by
/// decimal digits whose value fits in a `u32`.
pub fn parse_u32(s: &str) -> (r: Option<u32>)
    ensures
        r matches Some(x) ==> parse_int_spec(s@, 0, u32::MAX as int) == Some(x as int),
        r is None ==> parse_int_spec(s@, 0, u32::MAX as int) is None,
{
    let v = chars_of(s);
    let from: usize = if v.len() > 0 && v[0] == '+' { 1 } else { 0 };
    proof {
        assert(v@.subrange(from as int, v@.len() as int) =~= (if from == 1 {
            s@.drop_first()
        } else {
            s@
        }));
    }
    match digits_up_to(&v, from, u32::MAX as u64) {
        Some(x) => Some(x as u32),
        None => None,
    }
}

fn parse_signed(s: &str, neg_limit: u64, pos_limit: u64) -> (r: Option<i64>)
    requires
        neg_limit == pos_limit + 1,
        9 <= pos_limit <= i64::MAX,
    ensures
        r matches Some(x) ==> parse_int_spec(s@, -(neg_limit as int), pos_limit as int) == Some(
            x as int,
        ),
        r is None ==> parse_int_spec(s@, -(neg_limit as int), pos_limit as int) is None,
{
    let v = chars_of(s);
    let negative = v.len() > 0 && v[0] == '-';
    let from: usize = if v.len() > 0 && (v[0] == '+' || v[0] == '-') {
        1
    } else {
        0
    };
    proof {
        assert(v@.subrange(from as int, v@.len() as int) =~= (if from == 1 {
            s@.drop_first()
        } else {
            s@
        }));
    }
    let limit = if negative {
        neg_limit
    } else {
        pos_limit
    };
    match digits_up_to(&v, from, limit) {
        Some(x) => {
            if negative {
                Some((0 - (x as i128)) as i64)
            } else {
                Some(x as i64)
            }
        },
        None => None,
    }
}

/// `str::parse::<i64>`: an optional sign, then decimal digits whose value
/// fits in an `i64`.
pub fn parse_i64(s: &str) -> (r: Option<i64>)
    ensures
        r matches Some(x) ==> parse_int_spec(s@, i64::MIN as int, i64::MAX as int) == Some(
            x as int,
        ),
        r is None ==> parse_int_spec(s@, i64::MIN as int, i64::MAX as int) is None,
{
    parse_signed(s, 0x8000_0000_0000_0000u64, 0x7fff_ffff_ffff_ffffu64)
}

/// `str::parse::<i32>`: an optional sign, then decimal digits whose value
/// fits in an `i32`.
pub fn parse_i32(s: &str) -> (r: Option<i32>)
    ensures
        r matches Some(x) ==> parse_int_spec(s@, i32::MIN as int, i32::MAX as int) == Some(
            x as int,
        ),
        r is None ==> parse_int_spec(s@, i32::MIN as int, i32::MAX as int) is None,
{
    match parse_signed(s, 0x8000_0000u64, 0x7fff_ffffu64) {
        Some(x) => Some(x as i32),
        None => None,
    }
}

// ---------------------------------------------------------------------------
// Joining
// ---------------------------------------------------------------------------

/// The parts joined with `sep` between consecutive parts (what `join` gives).
pub open spec fn join_spec(parts: Seq<Seq<char>>, sep: Seq<char>) -> Seq<char>
    decreases parts.len(),
{
    if parts.len() == 0 {
        Seq::empty()
    } else if parts.len() == 1 {
        parts[0]
    } else {
        join_spec(parts.drop_last(), sep) + sep + parts.last()
    }
}

/// The views of a sequence of strings.
pub open spec fn views(v: Seq<String>) -> Seq<Seq<char>> {
    v.map_values(|s: String| s@)
}

/// Joins `parts` with `sep` between consecutive parts.
pub fn join(parts: &Vec<String>, sep: &str) -> (r: String)
    ensures
        r@ == join_spec(views(parts@), sep@),
{
    let mut r = String::new();
    let n = parts.len();
    let mut i: usize = 0;
    while i < n
        invariant
            n == parts@.len(),
            i <= n,
            r@ == join_spec(views(parts@).take(i as int), sep@),
        decreases n - i,
    {
        proof {
            assert(views(parts@).take(i + 1).drop_last() =~= views(parts@).take(i as int));
        }
        if i > 0 {
            r.append(sep);
        }
        r.append(parts[i].as_str());
        proof {
            if i == 0 {
                assert(views(parts@).take(1) =~= seq![parts@[0]@]);
            }
        }
        i = i + 1;
    }
    assert(views(parts@).take(n as int) =~= views(parts@));
    r
}

/// The views of a sequence of string slices.
pub open spec fn str_views(v: Seq<&str>) -> Seq<Seq<char>> {
    v.map_values(|s: &str| s@)
}

/// Joins string slices with `sep` between consecutive parts.
pub fn join_strs(parts: &[&str], sep: &str) -> (r: String)
    ensures
        r@ == join_spec(str_views(parts@), sep@),
{
    let mut r = String::new();
    let n = parts.len();
    let mut i: usize = 0;
    while i < n
        invariant
            n == parts@.len(),
            i <= n,
            r@ == join_spec(str_views(parts@).take(i as int), sep@),
        decreases n - i,
    {
        proof {
            assert(str_views(parts@).take(i + 1).drop_last() =~= str_views(parts@).take(i as int));
        }
        if i > 0 {
            r.append(sep);
        }
        r.append(parts[i]);
        proof {
            if i == 0 {
                assert(str_views(parts@).take(1) =~= seq![parts@[0]@]);
            }
        }
        i = i + 1;
    }
    assert(str_views(parts@).take(n as int) =~= str_views(parts@));
    r
}

} // verus!

verus! {

// ---------------------------------------------------------------------------
// Laws
// ---------------------------------------------------------------------------

proof fn lemma_trim_start_shape(s: Seq<char>)
    ensures
        trim_start_spec(s).len() == 0 || !is_white_space(trim_start_spec(s)[0]),
        exists|k: int| 0 <= k <= s.len() && trim_start_spec(s) == s.subrange(k, s.len() as int),
    decreases s.len(),
{
    if s.len() > 0 && is_white_space(s[0]) {
        lemma_trim_start_shape(s.drop_first());
        let k = choose|k: int|
            0 <= k <= s.drop_first().len() && trim_start_spec(s.drop_first())
                == s.drop_first().subrange(k, s.drop_first().len() as int);
        assert(s.drop_first().subrange(k, s.drop_first().len() as int) =~= s.subrange(
            k + 1,
            s.len() as int,
        ));
    } else {
        assert(s.subrange(0, s.len() as int) =~= s);
    }
}

proof fn lemma_trim_end_shape(s: Seq<char>)
    ensures
        trim_end_spec(s).len() == 0 || !is_white_space(trim_end_spec(s).last()),
        exists|k: int| 0 <= k <= s.len() && trim_end_spec(s) == s.subrange(0, k),
    decreases s.len(),
{
    if s.len() > 0 && is_white_space(s.last()) {
        lemma_trim_end_shape(s.drop_last());
        let k = choose|k: int|
            0 <= k <= s.drop_last().len() && trim_end_spec(s.drop_last()) == s.drop_last().subrange(
                0,
                k,
            );
        assert(s.drop_last().subrange(0, k) =~= s.subrange(0, k));
    } else {
        assert(s.subrange(0, s.len() as int) =~= s);
    }
}

proof fn lemma_trim_end_keeps_start(s: Seq<char>)
    requires
        s.len() == 0 || !is_white_space(s[0]),
    ensures
        trim_end_spec(s).len() == 0 || !is_white_space(trim_end_spec(s)[0]),
        trim_end_spec(s).len() == 0 || trim_end_spec(s)[0] == s[0],
{
    lemma_trim_end_shape(s);
}

/// A trimmed text has no whitespace at either end, so trimming it again
/// changes nothing: `trim` is idempotent.
pub proof fn lemma_trim_idempotent(s: Seq<char>)
    ensures
        trim_spec(trim_spec(s)) == trim_spec(s),
        trim_spec(s).len() == 0 || (!is_white_space(trim_spec(s)[0]) && !is_white_space(
            trim_spec(s).last(),
        )),
{
    let a = trim_start_spec(s);
    lemma_trim_start_shape(s);
    lemma_trim_end_keeps_start(a);
    lemma_trim_end_shape(a);
    let t = trim_end_spec(a);
    assert(trim_start_spec(t) == t);
    assert(trim_end_spec(t) == t);
}

/// The decimal rendering of a number is made of digits and reads back as
/// the number.
pub proof fn lemma_decimal_digits(n: nat)
    ensures
        decimal(n).len() > 0,
        all_digits(decimal(n)),
        digits_value(decimal(n)) == n,
    decreases n,
{
    if n < 10 {
        assert(digits_value(decimal(n)) == digits_value(decimal(n).drop_last()) * 10
            + digit_value(decimal(n).last()));
        assert(decimal(n).drop_last() =~= Seq::<char>::empty());
    } else {
        lemma_decimal_digits(n / 10);
        let d = decimal(n);
        assert(d.drop_last() =~= decimal(n / 10));
        assert forall|k: int| 0 <= k < d.len() implies is_digit(#[trigger] d[k]) by {
            if k < d.len() - 1 {
                assert(d[k] == decimal(n / 10)[k]);
            }
        }
    }
}

/// Parsing the decimal rendering of a number in range gives the number back.
pub proof fn lemma_parse_decimal_roundtrip(n: nat, hi: int)
    requires
        n <= hi,
    ensures
        parse_int_spec(decimal(n), 0, hi) == Some(n as int),
{
    lemma_decimal_digits(n);
    let d = decimal(n);
    assert(is_digit(d[0]));
}


/// Parsing the decimal rendering of an integer in range, sign included,
/// gives the integer back.
pub proof fn lemma_parse_int_decimal_roundtrip(i: int, lo: int, hi: int)
    requires
        lo < 0,
        lo <= i <= hi,
    ensures
        parse_int_spec(int_decimal(i), lo, hi) == Some(i),
{
    if i >= 0 {
        lemma_decimal_digits(i as nat);
        let d = decimal(i as nat);
        assert(is_digit(d[0]));
        assert(int_decimal(i) == d);
    } else {
        let m = (-i) as nat;
        lemma_decimal_digits(m);
        let s = int_decimal(i);
        assert(s[0] == '-');
        assert(s.drop_first() =~= decimal(m));
    }
}

} // verus!
