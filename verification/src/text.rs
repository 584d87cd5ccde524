//! Standard library text conversions the editor uses: file names of paths, path
//! comparison and decimal numbers.
use vstd::prelude::*;

verus! {

/// Why a decimal integer text was not accepted (mirrors `std::num::IntErrorKind`;
/// `Other` stands for the kinds std may add later).
#[derive(Clone, Copy, Debug, PartialEq, Eq, Structural)]
pub enum IntErrorKind {
    Empty,
    InvalidDigit,
    PosOverflow,
    NegOverflow,
    Zero,
    Other,
}

/// The last component of a path, as `std::path::Path::file_name` gives it.
pub uninterp spec fn path_file_name(path: Seq<char>) -> Option<Seq<char>>;

/// Whether `std::path::Path` compares two paths equal.
pub uninterp spec fn same_path(a: Seq<char>, b: Seq<char>) -> bool;

/// What `str::parse::<usize>` gives for a text.
pub uninterp spec fn usize_from_text(text: Seq<char>) -> Result<usize, IntErrorKind>;

/// An ASCII decimal digit.
pub open spec fn is_digit(c: char) -> bool {
    '0' <= c && c <= '9'
}

/// The value of a decimal digit.
pub open spec fn digit_value(c: char) -> nat {
    (c as int - '0' as int) as nat
}

/// The digit character of a value below ten.
pub open spec fn digit_char(d: nat) -> char {
    (d + '0' as int) as char
}

/// The value of a sequence of decimal digits, most significant first.
pub open spec fn digits_value(s: Seq<char>) -> nat
    decreases s.len(),
{
    if s.len() == 0 {
        0
    } else {
        digits_value(s.drop_last()) * 10 + digit_value(s.last())
    }
}

/// The digits of a number text: the text after an optional leading `+`.
pub open spec fn unsigned_digits(s: Seq<char>) -> Seq<char> {
    if s.len() > 0 && s[0] == '+' { s.drop_first() } else { s }
}

/// A number text as `str::parse` reads one for an unsigned type: an optional `+`, then one
/// or more decimal digits.
pub open spec fn is_decimal(s: Seq<char>) -> bool {
    &&& unsigned_digits(s).len() > 0
    &&& forall|i: int| 0 <= i < unsigned_digits(s).len() ==> is_digit(#[trigger] unsigned_digits(s)[i])
}

/// The value of a number text.
pub open spec fn decimal_value(s: Seq<char>) -> nat {
    digits_value(unsigned_digits(s))
}

/// A parse that failed, for the given reason.
pub open spec fn fails_with(r: Result<usize, IntErrorKind>, kind: IntErrorKind) -> bool {
    r matches Err(e) && e == kind
}

/// The decimal digits of a number, with no leading zero.
pub open spec fn decimal_text(n: nat) -> Seq<char>
    decreases n,
{
    if n < 10 {
        seq![digit_char(n)]
    } else {
        decimal_text(n / 10).push(digit_char(n % 10))
    }
}

/// What `str::parse::<NonZeroU32>` gives for a text, as a plain number: the value of a
/// number text that is neither zero nor above `u32::MAX`, else nothing.
pub open spec fn nonzero_u32_of_text(s: Seq<char>) -> Option<u32> {
    if is_decimal(s) && 0 < decimal_value(s) <= u32::MAX {
        Some(decimal_value(s) as u32)
    } else {
        None
    }
}

/// The digit character of a value below ten is a digit of that value.
proof fn lemma_digit_char(d: nat)
    requires
        d < 10,
    ensures
        is_digit(digit_char(d)),
        digit_value(digit_char(d)) == d,
        digit_char(d) != '+',
{
    let c = digit_char(d);
    assert(c as int == d + 48) by {
        assert('0' as int == 48);
    }
}

/// The decimal text of a number is a number text of that value.
pub proof fn lemma_decimal_text(n: nat)
    ensures
        decimal_text(n).len() > 0,
        decimal_text(n)[0] != '+',
        forall|i: int| 0 <= i < decimal_text(n).len() ==> is_digit(#[trigger] decimal_text(n)[i]),
        digits_value(decimal_text(n)) == n,
    decreases n,
{
    lemma_digit_char(n % 10);
    if n < 10 {
        let t = seq![digit_char(n)];
        assert(t.drop_last() =~= Seq::<char>::empty());
        assert(t.last() == digit_char(n));
        assert(digits_value(t.drop_last()) == 0);
        assert(decimal_text(n) == t);
        assert(digits_value(t) == digit_value(digit_char(n)));
    } else {
        lemma_decimal_text(n / 10);
        let prev = decimal_text(n / 10);
        let t = prev.push(digit_char(n % 10));
        assert(t.drop_last() =~= prev);
        assert(digits_value(t) == digits_value(prev) * 10 + n % 10);
        assert((n / 10) * 10 + n % 10 == n);
        assert forall|i: int| 0 <= i < t.len() implies is_digit(#[trigger] t[i]) by {
            if i < prev.len() {
                assert(t[i] == prev[i]);
            }
        }
    }
}

/// A non-zero number written in decimal reads back as that number.
pub proof fn lemma_nonzero_u32_round_trip(n: u32)
    requires
        n != 0,
    ensures
        nonzero_u32_of_text(decimal_text(n as nat)) == Some(n),
{
    lemma_decimal_text(n as nat);
    assert(unsigned_digits(decimal_text(n as nat)) == decimal_text(n as nat));
}

/// `std::path::Path::file_name`, as a string. The input is a `str`, so the name is too.
#[verifier::external_body]
pub(crate) fn file_name_of(path: &str) -> (r: Option<String>)
    ensures
        r matches Some(n) ==> path_file_name(path@) == Some(n@),
        r is None ==> path_file_name(path@) is None,
{
    std::path::Path::new(path).file_name().map(|name| name.to_string_lossy().into_owned())
}

/// `==` on `std::path::Path`: an equivalence that compares paths by their components,
/// so equal texts are equal paths.
#[verifier::external_body]
pub(crate) fn paths_equal(a: &str, b: &str) -> (r: bool)
    ensures
        r == same_path(a@, b@),
        a@ == b@ ==> r,
{
    std::path::Path::new(a) == std::path::Path::new(b)
}

/// `str::parse::<usize>`, its error told apart by `kind()`. As its documentation says, a
/// text is read exactly when it is an optional `+` and decimal digits of a value that fits;
/// an empty text is refused as empty, digits of a value that does not fit as too large, and
/// any other text of at most nine characters after an optional `+` (too short to hold a
/// value that does not fit) as holding an invalid digit. Which error the remaining texts get
/// is named only.
#[verifier::external_body]
pub(crate) fn parse_usize(text: &str) -> (r: Result<usize, IntErrorKind>)
    ensures
        r == usize_from_text(text@),
        r is Ok <==> (is_decimal(text@) && decimal_value(text@) <= usize::MAX),
        r matches Ok(v) ==> v == decimal_value(text@),
        text@.len() == 0 ==> fails_with(r, IntErrorKind::Empty),
        is_decimal(text@) && decimal_value(text@) > usize::MAX ==> fails_with(r, IntErrorKind::PosOverflow),
        text@.len() > 0 && !is_decimal(text@) && unsigned_digits(text@).len() <= 9
            ==> fails_with(r, IntErrorKind::InvalidDigit),
{
    match text.parse::<usize>() {
        Ok(v) => Ok(v),
        Err(e) => Err(match e.kind() {
            std::num::IntErrorKind::Empty => IntErrorKind::Empty,
            std::num::IntErrorKind::InvalidDigit => IntErrorKind::InvalidDigit,
            std::num::IntErrorKind::PosOverflow => IntErrorKind::PosOverflow,
            std::num::IntErrorKind::NegOverflow => IntErrorKind::NegOverflow,
            std::num::IntErrorKind::Zero => IntErrorKind::Zero,
            _ => IntErrorKind::Other,
        }),
    }
}

/// `str::parse::<NonZeroU32>`, as a plain number; `None` where it fails. It reads a `u32`
/// as `str::parse::<u32>` does (an optional `+` and decimal digits of a value that fits) and
/// refuses zero.
#[verifier::external_body]
pub(crate) fn parse_nonzero_u32(text: &str) -> (r: Option<u32>)
    ensures
        r == nonzero_u32_of_text(text@),
{
    text.parse::<std::num::NonZeroU32>().ok().map(|v| v.get())
}

/// `u32::to_string`: the decimal digits of the number, with no leading zero.
#[verifier::external_body]
pub(crate) fn u32_to_string(n: u32) -> (r: String)
    ensures
        r@ == decimal_text(n as nat),
{
    n.to_string()
}


/// A string made of the given characters (`FromIterator<&char>` for `String`).
#[verifier::external_body]
pub(crate) fn string_from_chars(chars: &[char]) -> (r: String)
    ensures
        r@ == chars@,
{
    chars.iter().collect::<String>()
}

/// The characters of a text, in order.
pub fn chars_of(text: &str) -> (r: Vec<char>)
    ensures
        r@ == text@,
{
    broadcast use vstd::string::group_string_axioms;
    let mut r: Vec<char> = Vec::new();
    for c in iter: text.chars()
        invariant
            r@.len() == iter.index(),
            forall|i: int| 0 <= i < r@.len() ==> r@[i] == iter.seq()[i],
    {
        r.push(c);
    }
    assert(r@ =~= text@);
    r
}

/// `needle` occurs in `hay` starting at `k`.
pub open spec fn occurs_at(hay: Seq<char>, needle: Seq<char>, k: int) -> bool {
    0 <= k && k + needle.len() <= hay.len() && hay.subrange(k, k + needle.len()) == needle
}

/// `k` is where `needle` first occurs in `hay`.
pub open spec fn first_occurrence(hay: Seq<char>, needle: Seq<char>, k: int) -> bool {
    &&& occurs_at(hay, needle, k)
    &&& forall|j: int| 0 <= j < k ==> !occurs_at(hay, needle, j)
}

/// The position where `needle` first occurs in `hay`.
pub fn find_chars(hay: &Vec<char>, needle: &Vec<char>) -> (r: Option<usize>)
    ensures
        r matches Some(k) ==> first_occurrence(hay@, needle@, k as int),
        r is None ==> forall|k: int| !occurs_at(hay@, needle@, k),
{
    let n = hay.len();
    let m = needle.len();
    if m > n {
        return None;
    }
    if m == 0 {
        assert(hay@.subrange(0, 0) =~= needle@);
        return Some(0);
    }
    let last = n - m;
    let mut k: usize = 0;
    while k <= last
        invariant
            n == hay@.len(),
            m == needle@.len(),
            0 < m <= n,
            last == n - m,
            forall|j: int| 0 <= j < k ==> !occurs_at(hay@, needle@, j),
        decreases last + 1 - k,
    {
        let mut matched = true;
        let mut i: usize = 0;
        while i < m
            invariant_except_break
                matched,
            invariant
                0 <= i <= m,
                k + m <= n,
                n == hay@.len(),
                m == needle@.len(),
                forall|t: int| 0 <= t < i ==> hay@[k + t] == needle@[t],
            ensures
                matched ==> i == m,
                !matched ==> !occurs_at(hay@, needle@, k as int),
            decreases m - i,
        {
            if hay[k + i] != needle[i] {
                assert(hay@.subrange(k as int, k + m)[i as int] != needle@[i as int]);
                matched = false;
                break;
            }
            i = i + 1;
        }
        if matched {
            assert(hay@.subrange(k as int, k + m) =~= needle@);
            return Some(k);
        }
        k = k + 1;
    }
    None
}

/// A line's text without the carriage return that ends it, if any.
pub open spec fn strip_cr(line: Seq<char>) -> Seq<char> {
    if line.len() > 0 && line.last() == '\r' { line.drop_last() } else { line }
}

/// The finished lines of a text and the line that is still open, reading it from the start.
pub open spec fn scan_lines(s: Seq<char>) -> (Seq<Seq<char>>, Seq<char>)
    decreases s.len(),
{
    if s.len() == 0 {
        (Seq::empty(), Seq::empty())
    } else {
        let (done, cur) = scan_lines(s.drop_last());
        if s.last() == '\n' {
            (done.push(strip_cr(cur)), Seq::empty())
        } else {
            (done, cur.push(s.last()))
        }
    }
}

/// The lines of a text, as `str::lines` yields them: split at `\n`, a `\r` before the
/// `\n` dropped, and no empty line after a final line break.
pub open spec fn text_lines(s: Seq<char>) -> Seq<Seq<char>> {
    let (done, cur) = scan_lines(s);
    if cur.len() > 0 { done.push(cur) } else { done }
}

/// The lines of the characters from `start` on.
pub fn lines_from(chars: &Vec<char>, start: usize) -> (r: Vec<String>)
    requires
        start <= chars@.len(),
    ensures
        r@.map_values(|l: String| l@) == text_lines(chars@.skip(start as int)),
{
    let ghost s = chars@.skip(start as int);
    let n = chars.len();
    let mut done: Vec<String> = Vec::new();
    let mut cur: Vec<char> = Vec::new();
    let mut i: usize = start;
    while i < n
        invariant
            start <= i <= n == chars@.len(),
            s == chars@.skip(start as int),
            (done@.map_values(|l: String| l@), cur@) == scan_lines(s.take(i - start)),
        decreases n - i,
    {
        let c = chars[i];
        proof {
            assert(s.take(i - start + 1).drop_last() =~= s.take(i - start));
            assert(s.take(i - start + 1).last() == c);
        }
        if c == '\n' {
            let len = cur.len();
            let line = if len > 0 && cur[len - 1] == '\r' {
                string_from_chars(&cur.as_slice()[0..len - 1])
            } else {
                string_from_chars(cur.as_slice())
            };
            proof {
                if len > 0 && cur@[len - 1] == '\r' {
                    assert(cur@.subrange(0, len - 1) =~= strip_cr(cur@));
                }
            }
            done.push(line);
            cur = Vec::new();
            proof {
                assert(done@.map_values(|l: String| l@) =~= scan_lines(s.take(i - start + 1)).0);
            }
        } else {
            cur.push(c);
            proof {
                assert(done@.map_values(|l: String| l@) =~= scan_lines(s.take(i - start + 1)).0);
            }
        }
        i = i + 1;
    }
    assert(s.take(n - start) =~= s);
    if cur.len() > 0 {
        let last = string_from_chars(cur.as_slice());
        done.push(last);
        assert(done@.map_values(|l: String| l@) =~= text_lines(s));
    }
    done
}

} // verus!
