use vstd::prelude::*;
use vstd::string::StrSliceExecFns;
use vstd::string::StringExecFns;

verus! {

/// Appends `c` to `s` (`String::push`).
#[verifier::external_body]
fn push_char(s: &mut String, c: char)
    ensures
        final(s)@ == old(s)@.push(c),
{
    s.push(c);
}

/// The characters of `s`, in order.
pub(crate) fn chars_of(s: &str) -> (r: Vec<char>)
    ensures
        r@ == s@,
{
    let n = s.unicode_len();
    let mut out: Vec<char> = Vec::new();
    let mut i: usize = 0;
    while i < n
        invariant
            n == s@.len(),
            0 <= i <= n,
            out@ == s@.take(i as int),
        decreases n - i,
    {
        out.push(s.get_char(i));
        assert(out@ =~= s@.take(i + 1));
        i = i + 1;
    }
    assert(out@ =~= s@);
    out
}

/// `a` and `b` hold the same characters.
pub(crate) fn chars_equal(a: &Vec<char>, b: &str) -> (r: bool)
    ensures
        r == (a@ == b@),
{
    let n = b.unicode_len();
    if a.len() != n {
        return false;
    }
    let mut i: usize = 0;
    while i < n
        invariant
            n == b@.len(),
            a@.len() == n,
            0 <= i <= n,
            forall|j: int| 0 <= j < i ==> a@[j] == b@[j],
        decreases n - i,
    {
        if a[i] != b.get_char(i) {
            return false;
        }
        i = i + 1;
    }
    assert(a@ =~= b@);
    true
}

// ---------------------------------------------------------------------------
// Decimal text
// ---------------------------------------------------------------------------

/// The character of decimal digit `d`.
pub open spec fn digit_char(d: nat) -> char {
    if d == 0 {
        '0'
    } else if d == 1 {
        '1'
    } else if d == 2 {
        '2'
    } else if d == 3 {
        '3'
    } else if d == 4 {
        '4'
    } else if d == 5 {
        '5'
    } else if d == 6 {
        '6'
    } else if d == 7 {
        '7'
    } else if d == 8 {
        '8'
    } else {
        '9'
    }
}

/// Decimal text of `n`, without leading zeros.
pub open spec fn decimal(n: nat) -> Seq<char>
    decreases n,
{
    if n < 10 {
        seq![digit_char(n)]
    } else {
        decimal(n / 10).push(digit_char(n % 10))
    }
}

fn digit_of(d: u128) -> (c: char)
    requires
        d < 10,
    ensures
        c == digit_char(d as nat),
{
    if d == 0 {
        '0'
    } else if d == 1 {
        '1'
    } else if d == 2 {
        '2'
    } else if d == 3 {
        '3'
    } else if d == 4 {
        '4'
    } else if d == 5 {
        '5'
    } else if d == 6 {
        '6'
    } else if d == 7 {
        '7'
    } else if d == 8 {
        '8'
    } else {
        '9'
    }
}

fn push_decimal(s: &mut String, n: u128)
    ensures
        final(s)@ == old(s)@ + decimal(n as nat),
    decreases n,
{
    if n >= 10 {
        push_decimal(s, n / 10);
    }
    push_char(s, digit_of(n % 10));
    assert(s@ =~= old(s)@ + decimal(n as nat));
}

// ---------------------------------------------------------------------------
// File sizes
// ---------------------------------------------------------------------------

/// `num / den` rounded to the nearest integer, ties to even.
pub open spec fn round_half_even(num: nat, den: nat) -> nat {
    let q = num / den;
    let r = num % den;
    if 2 * r > den || (2 * r == den && q % 2 == 1) {
        q + 1
    } else {
        q
    }
}

/// 2^53, the first integer above which not every integer is a double.
pub open spec fn double_mantissa_limit() -> nat {
    0x20_0000_0000_0000
}

/// The power of two, starting from `p`, by which `b` must be divided to fit the 53-bit
/// significand of a double.
pub open spec fn double_unit(b: nat, p: nat) -> nat
    decreases b - p,
{
    if p == 0 {
        1
    } else if b / p < double_mantissa_limit() {
        p
    } else {
        proof {
            lemma_unit_step(b, p);
        }
        double_unit(b, 2 * p)
    }
}

/// Halving steps of `double_unit` stay below `b` and so terminate.
pub proof fn lemma_unit_step(b: nat, p: nat)
    requires
        p >= 1,
        b / p >= double_mantissa_limit(),
    ensures
        2 * p <= b,
        b - 2 * p < b - p,
{
    assert(b >= p * (b / p)) by (nonlinear_arith)
        requires
            p >= 1,
    ;
    assert(p * (b / p) >= p * 2) by (nonlinear_arith)
        requires
            p >= 1,
            b / p >= 2,
    ;
}

/// The value of `b as f64`: `b` rounded to 53 significant bits, ties to even.
pub open spec fn double_of(b: nat) -> nat {
    let p = double_unit(b, 1);
    if p == 1 {
        b
    } else {
        round_half_even(b, p) * p
    }
}

/// The text `x` formats to with one decimal: `x` in tenths, rounded ties to even.
pub open spec fn tenths_text(tenths: nat) -> Seq<char> {
    decimal(tenths / 10) + seq!['.'] + decimal(tenths % 10)
}

/// A byte count for people: plain bytes below 1 KiB, then KiB and MiB with one decimal
/// (the count taken as a double, rounded to tenths ties to even).
pub open spec fn file_size_text(bytes: u64) -> Seq<char> {
    if bytes < 1024 {
        decimal(bytes as nat) + " B"@
    } else if bytes < 1024 * 1024 {
        tenths_text(round_half_even(bytes as nat * 10, 1024)) + " KB"@
    } else {
        tenths_text(round_half_even(double_of(bytes as nat) * 10, 1024 * 1024)) + " MB"@
    }
}

/// `num / den` rounded ties to even.
fn div_round_half_even(num: u128, den: u128) -> (r: u128)
    requires
        2 <= den <= 0x1_0000_0000,
    ensures
        r == round_half_even(num as nat, den as nat),
{
    let q = num / den;
    let rem = num % den;
    assert(q <= num) by (nonlinear_arith)
        requires
            den >= 2,
            q == num / den,
    ;
    assert(q < u128::MAX) by {
        assert(num / den <= u128::MAX / 2) by (nonlinear_arith)
            requires
                den >= 2,
        ;
    }
    if 2 * rem > den || (2 * rem == den && q % 2 == 1) {
        q + 1
    } else {
        q
    }
}

/// The value of `b as f64` (see `double_of`).
fn double_value(b: u64) -> (r: u128)
    ensures
        r == double_of(b as nat),
        r <= 0x1_0000_0000_0000_1000,
{
    let mut p: u64 = 1;
    while b / p >= 0x20_0000_0000_0000
        invariant
            p >= 1,
            p <= 0x1000,
            double_unit(b as nat, 1) == double_unit(b as nat, p as nat),
            b as nat / (p as nat) >= 1 ==> p <= b,
        decreases b - p,
    {
        proof {
            lemma_unit_step(b as nat, p as nat);
            assert(p * 0x20_0000_0000_0000 <= b) by (nonlinear_arith)
                requires
                    p >= 1,
                    b / p >= 0x20_0000_0000_0000,
            ;
        }
        p = p * 2;
    }
    if p == 1 {
        return b as u128;
    }
    let q = div_round_half_even(b as u128, p as u128);
    proof {
        let bp = b as int / p as int;
        assert(p * bp <= b) by (nonlinear_arith)
            requires
                p >= 1,
                bp == b as int / p as int,
                b >= 0,
        ;
        assert(q * p <= p * bp + p) by (nonlinear_arith)
            requires
                q <= bp + 1,
                p >= 0,
        ;

    }
    q * p as u128
}

/// Human-readable size of a file of `bytes` bytes (see `file_size_text`).
pub fn format_file_size(bytes: u64) -> (r: String)
    ensures
        r@ == file_size_text(bytes),
{
    let mut s = String::new();
    if bytes < 1024 {
        push_decimal(&mut s, bytes as u128);
        s.append(" B");
    } else if bytes < 1024 * 1024 {
        let tenths = div_round_half_even(bytes as u128 * 10, 1024);
        push_decimal(&mut s, tenths / 10);
        push_char(&mut s, '.');
        push_decimal(&mut s, tenths % 10);
        s.append(" KB");
    } else {
        let value = double_value(bytes);
        let tenths = div_round_half_even(value * 10, 1024 * 1024);
        push_decimal(&mut s, tenths / 10);
        push_char(&mut s, '.');
        push_decimal(&mut s, tenths % 10);
        s.append(" MB");
    }
    assert(s@ =~= file_size_text(bytes));
    s
}

// ---------------------------------------------------------------------------
// Labels
// ---------------------------------------------------------------------------

/// A name shortened for a hotbar slot: more than 14 characters become the first 11
/// followed by `...`.
pub open spec fn short_label_text(name: Seq<char>) -> Seq<char> {
    if name.len() > 14 {
        name.take(11) + "..."@
    } else {
        name
    }
}

/// Shorten a name for a hotbar slot (see `short_label_text`).
pub fn short_label(name: String) -> (r: String)
    ensures
        r@ == short_label_text(name@),
{
    let chars = chars_of(name.as_str());
    if chars.len() > 14 {
        let mut out = String::new();
        let mut i: usize = 0;
        while i < 11
            invariant
                chars@ == name@,
                chars@.len() > 14,
                0 <= i <= 11,
                out@ == name@.take(i as int),
            decreases 11 - i,
        {
            push_char(&mut out, chars[i]);
            assert(out@ =~= name@.take(i + 1));
            i = i + 1;
        }
        out.append("...");
        out
    } else {
        name
    }
}

// ---------------------------------------------------------------------------
// Numbers and switches read from text
// ---------------------------------------------------------------------------

/// `c` is a decimal digit.
pub open spec fn is_digit(c: char) -> bool {
    '0' <= c <= '9'
}

/// Value of the decimal digits `s`.
pub open spec fn digits_value(s: Seq<char>) -> nat
    decreases s.len(),
{
    if s.len() == 0 {
        0
    } else {
        digits_value(s.drop_last()) * 10 + ((s.last() as u32) - ('0' as u32)) as nat
    }
}

/// `s` without one leading `+`.
pub open spec fn sign_stripped(s: Seq<char>) -> Seq<char> {
    if s.len() > 0 && s[0] == '+' {
        s.skip(1)
    } else {
        s
    }
}

/// Every character of `s` is a decimal digit.
pub open spec fn all_digits(s: Seq<char>) -> bool {
    forall|i: int| 0 <= i < s.len() ==> is_digit(#[trigger] s[i])
}

/// What `s.parse::<usize>()` gives: an optional `+`, then at least one decimal digit and
/// nothing else, with a value that fits in `usize`.
pub open spec fn parse_usize_spec(s: Seq<char>) -> Option<usize> {
    let body = sign_stripped(s);
    if body.len() == 0 || !all_digits(body) {
        None
    } else if digits_value(body) > usize::MAX {
        None
    } else {
        Some(digits_value(body) as usize)
    }
}

proof fn lemma_digits_value_monotone(s: Seq<char>, k: int)
    requires
        0 <= k <= s.len(),
        all_digits(s),
    ensures
        digits_value(s.take(k)) <= digits_value(s),
    decreases s.len() - k,
{
    if k < s.len() {
        lemma_digits_value_monotone(s, k + 1);
        assert(s.take(k + 1).drop_last() =~= s.take(k));
        assert(s.take(k + 1).last() == s[k]);
        assert(is_digit(s[k]));
    } else {
        assert(s.take(k) =~= s);
    }
}

/// Parse the characters `s` as `str::parse::<usize>` does (see `parse_usize_spec`).
pub fn parse_usize_chars(s: &Vec<char>) -> (r: Option<usize>)
    ensures
        r == parse_usize_spec(s@),
{
    let start: usize = if s.len() > 0 && s[0] == '+' {
        1
    } else {
        0
    };
    let ghost body = sign_stripped(s@);
    assert(body =~= s@.skip(start as int));
    if start >= s.len() {
        return None;
    }
    let mut i: usize = start;
    while i < s.len()
        invariant
            start <= i <= s.len(),
            body == sign_stripped(s@),
            body =~= s@.skip(start as int),
            forall|j: int| start <= j < i ==> is_digit(#[trigger] s@[j]),
        decreases s.len() - i,
    {
        if !('0' <= s[i] && s[i] <= '9') {
            assert(body[i - start] == s@[i as int]);
            assert(!all_digits(body));
            return None;
        }
        i = i + 1;
    }
    assert(all_digits(body)) by {
        assert forall|j: int| 0 <= j < body.len() implies is_digit(#[trigger] body[j]) by {
            assert(body[j] == s@[start + j]);
        }
    }
    let mut value: usize = 0;
    let mut k: usize = start;
    while k < s.len()
        invariant
            start <= k <= s.len(),
            body == sign_stripped(s@),
            body =~= s@.skip(start as int),
            all_digits(body),
            value == digits_value(body.take(k - start)),
        decreases s.len() - k,
    {
        proof {
            assert(body.take(k - start + 1).drop_last() =~= body.take(k - start));
            assert(body.take(k - start + 1).last() == s@[k as int]);
        }
        let d = (s[k] as u32 - '0' as u32) as usize;
        if value > (usize::MAX - d) / 10 {
            proof {
                assert(value * 10 + d > usize::MAX) by (nonlinear_arith)
                    requires
                        value > (usize::MAX - d) / 10,
                        d <= 9,
                ;
                lemma_digits_value_monotone(body, k - start + 1);
            }
            return None;
        }
        value = value * 10 + d;
        k = k + 1;
    }
    assert(body.take(body.len() as int) =~= body);
    Some(value)
}

proof fn lemma_digit_char_value(d: nat)
    requires
        d < 10,
    ensures
        is_digit(digit_char(d)),
        ((digit_char(d) as u32) - ('0' as u32)) as nat == d,
{
}

proof fn lemma_decimal_digits(n: nat)
    ensures
        decimal(n).len() >= 1,
        all_digits(decimal(n)),
        digits_value(decimal(n)) == n,
    decreases n,
{
    if n < 10 {
        lemma_digit_char_value(n);
        let d = decimal(n);
        assert(d.drop_last() =~= Seq::<char>::empty());
        assert(d.last() == digit_char(n));
        assert(digits_value(d) == digits_value(d.drop_last()) * 10 + ((d.last() as u32) - ('0' as u32)) as nat);
        assert(digits_value(Seq::<char>::empty()) == 0);
    } else {
        lemma_decimal_digits(n / 10);
        lemma_digit_char_value(n % 10);
        let d = decimal(n);
        assert(d.drop_last() =~= decimal(n / 10));
        assert forall|i: int| 0 <= i < d.len() implies is_digit(#[trigger] d[i]) by {
            if i < d.len() - 1 {
                assert(d[i] == decimal(n / 10)[i]);
            }
        }
        assert(d.last() == digit_char(n % 10));
        assert(digits_value(d) == digits_value(d.drop_last()) * 10 + ((d.last() as u32) - ('0' as u32)) as nat);
        assert(n == (n / 10) * 10 + n % 10);
    }
}

/// Reading back the decimal text of a number gives the number: `str::parse::<usize>`
/// of the digits `decimal(n)` is `n` for every `n` that fits in `usize`.
pub proof fn lemma_parse_decimal_round_trip(n: nat)
    requires
        n <= usize::MAX,
    ensures
        parse_usize_spec(decimal(n)) == Some(n as usize),
{
    lemma_decimal_digits(n);
    let d = decimal(n);
    assert(is_digit(d[0]));
    assert(sign_stripped(d) == d);
}

/// `c` is white space as `char::is_whitespace` defines it (Unicode `White_Space`).
pub open spec fn is_white_space(c: char) -> bool {
    ||| '\t' <= c <= '\r'
    ||| c == ' '
    ||| c == '\u{85}'
    ||| c == '\u{a0}'
    ||| c == '\u{1680}'
    ||| '\u{2000}' <= c <= '\u{200a}'
    ||| c == '\u{2028}'
    ||| c == '\u{2029}'
    ||| c == '\u{202f}'
    ||| c == '\u{205f}'
    ||| c == '\u{3000}'
}

fn white_space(c: char) -> (r: bool)
    ensures
        r == is_white_space(c),
{
    ('\t' <= c && c <= '\r') || c == ' ' || c == '\u{85}' || c == '\u{a0}' || c == '\u{1680}'
        || ('\u{2000}' <= c && c <= '\u{200a}') || c == '\u{2028}' || c == '\u{2029}' || c
        == '\u{202f}' || c == '\u{205f}' || c == '\u{3000}'
}

/// Index of the first character of `s` that is not white space (`s.len()` if none).
pub open spec fn trim_start_index(s: Seq<char>, i: int) -> int
    decreases s.len() - i,
{
    if i >= s.len() || !is_white_space(s[i]) {
        i
    } else {
        trim_start_index(s, i + 1)
    }
}

/// One past the last character of `s[lo..hi]` that is not white space (`lo` if none).
pub open spec fn trim_end_index(s: Seq<char>, lo: int, hi: int) -> int
    decreases hi - lo,
{
    if hi <= lo || !is_white_space(s[hi - 1]) {
        hi
    } else {
        trim_end_index(s, lo, hi - 1)
    }
}

/// `s` without leading and trailing white space (`str::trim`).
pub open spec fn trimmed(s: Seq<char>) -> Seq<char> {
    let lo = trim_start_index(s, 0);
    s.subrange(lo, trim_end_index(s, lo, s.len() as int))
}

/// `c` with ASCII upper-case letters lowered.
pub open spec fn ascii_lower(c: char) -> char {
    if 'A' <= c <= 'Z' {
        ((c as u32) + 32) as char
    } else {
        c
    }
}

/// The characters of `s` trimmed and ASCII-lowered.
fn trimmed_lower(s: &str) -> (r: Vec<char>)
    ensures
        r@ == trimmed(s@).map_values(|c: char| ascii_lower(c)),
{
    let t = trimmed_chars(s);
    let mut out: Vec<char> = Vec::new();
    let mut i: usize = 0;
    while i < t.len()
        invariant
            t@ == trimmed(s@),
            0 <= i <= t.len(),
            out@ == t@.take(i as int).map_values(|c: char| ascii_lower(c)),
        decreases t.len() - i,
    {
        let c = t[i];
        let lc = if 'A' <= c && c <= 'Z' {
            ((c as u8) + 32) as char
        } else {
            c
        };
        out.push(lc);
        assert(out@ =~= t@.take(i + 1).map_values(|c: char| ascii_lower(c)));
        i = i + 1;
    }
    assert(t@.take(t@.len() as int) =~= t@);
    out
}

/// A switch is on unless its text, trimmed and lowered, is empty, `0`, `false`, `off` or
/// `no`.
pub open spec fn flag_text_enabled_spec(text: Seq<char>) -> bool {
    let t = trimmed(text).map_values(|c: char| ascii_lower(c));
    !(t.len() == 0 || t == "0"@ || t == "false"@ || t == "off"@ || t == "no"@)
}

/// Whether the text of a switch turns it on (see `flag_text_enabled_spec`).
pub fn flag_text_enabled(text: &str) -> (r: bool)
    ensures
        r == flag_text_enabled_spec(text@),
{
    let t = trimmed_lower(text);
    !(t.len() == 0 || chars_equal(&t, "0") || chars_equal(&t, "false") || chars_equal(&t, "off")
        || chars_equal(&t, "no"))
}

/// A positive count read from optional text: the trimmed text parsed as `usize`, or
/// `default_value` when there is no text, it does not parse, or it is zero.
pub open spec fn env_usize_spec(text: Option<Seq<char>>, default_value: usize) -> usize {
    match text {
        None => default_value,
        Some(t) => match parse_usize_spec(trimmed(t)) {
            Some(v) => if v > 0 {
                v
            } else {
                default_value
            },
            None => default_value,
        },
    }
}

/// View of optional text.
pub open spec fn opt_text(text: Option<&str>) -> Option<Seq<char>> {
    match text {
        None => None,
        Some(t) => Some(t@),
    }
}

/// A positive count read from optional text (see `env_usize_spec`).
pub fn env_usize(text: Option<&str>, default_value: usize) -> (r: usize)
    ensures
        r == env_usize_spec(opt_text(text), default_value),
{
    match text {
        None => default_value,
        Some(t) => {
            let raw = trimmed_chars(t);
            match parse_usize_chars(&raw) {
                Some(v) => if v > 0 {
                    v
                } else {
                    default_value
                },
                None => default_value,
            }
        },
    }
}

/// The characters of `s` trimmed.
fn trimmed_chars(s: &str) -> (r: Vec<char>)
    ensures
        r@ == trimmed(s@),
{
    let chars = chars_of(s);
    let n = chars.len();
    let mut lo: usize = 0;
    while lo < n && white_space(chars[lo])
        invariant
            chars@ == s@,
            n == chars@.len(),
            0 <= lo <= n,
            trim_start_index(s@, 0) == trim_start_index(s@, lo as int),
        decreases n - lo,
    {
        lo = lo + 1;
    }
    let mut hi: usize = n;
    while hi > lo && white_space(chars[hi - 1])
        invariant
            chars@ == s@,
            n == chars@.len(),
            0 <= lo <= hi <= n,
            trim_end_index(s@, lo as int, n as int) == trim_end_index(s@, lo as int, hi as int),
        decreases hi,
    {
        hi = hi - 1;
    }
    let mut out: Vec<char> = Vec::new();
    let mut i: usize = lo;
    while i < hi
        invariant
            chars@ == s@,
            lo <= i <= hi <= n,
            n == chars@.len(),
            out@ == s@.subrange(lo as int, i as int),
        decreases hi - i,
    {
        out.push(chars[i]);
        assert(out@ =~= s@.subrange(lo as int, i + 1));
        i = i + 1;
    }
    out
}

// ---------------------------------------------------------------------------
// Renderer switches read from the environment
// ---------------------------------------------------------------------------

/// A switch whose environment value is `value` (`None` when the variable is unset or
/// not valid text): on exactly when the value is present and its text turns it on.
pub open spec fn env_flag_spec(value: Option<Seq<char>>) -> bool {
    match value {
        None => false,
        Some(t) => flag_text_enabled_spec(t),
    }
}

/// Whether a switch with environment value `value` is on (see `env_flag_spec`).
pub fn env_flag_enabled(value: Option<&str>) -> (r: bool)
    ensures
        r == env_flag_spec(opt_text(value)),
{
    match value {
        None => false,
        Some(t) => flag_text_enabled(t),
    }
}

/// Level-of-detail tinting of voxel chunks, switched by its environment value.
pub fn vte_lod_tint_enabled(value: Option<&str>) -> (r: bool)
    ensures
        r == env_flag_spec(opt_text(value)),
{
    env_flag_enabled(value)
}

/// A diagnostics switch: on only in a build with the voxel-traversal diagnostics
/// (`diagnostics_build`) whose environment value turns it on.
pub open spec fn diagnostic_switch_spec(diagnostics_build: bool, value: Option<Seq<char>>) -> bool {
    diagnostics_build && env_flag_spec(value)
}

fn diagnostic_switch(diagnostics_build: bool, value: Option<&str>) -> (r: bool)
    ensures
        r == diagnostic_switch_spec(diagnostics_build, opt_text(value)),
{
    if !diagnostics_build {
        return false;
    }
    env_flag_enabled(value)
}

/// Linear-only entity traversal (a diagnostics switch, see `diagnostic_switch_spec`).
pub fn vte_entity_linear_only_enabled(diagnostics_build: bool, value: Option<&str>) -> (r: bool)
    ensures
        r == diagnostic_switch_spec(diagnostics_build, opt_text(value)),
{
    diagnostic_switch(diagnostics_build, value)
}

/// Comparison of entity BVH traversal against a linear scan (a diagnostics switch, see
/// `diagnostic_switch_spec`).
pub fn vte_entity_bvh_compare_enabled(diagnostics_build: bool, value: Option<&str>) -> (r: bool)
    ensures
        r == diagnostic_switch_spec(diagnostics_build, opt_text(value)),
{
    diagnostic_switch(diagnostics_build, value)
}

/// Timing breakdown of traversal stage A (a diagnostics switch, see
/// `diagnostic_switch_spec`).
pub fn vte_stage_a_breakdown_enabled(diagnostics_build: bool, value: Option<&str>) -> (r: bool)
    ensures
        r == diagnostic_switch_spec(diagnostics_build, opt_text(value)),
{
    diagnostic_switch(diagnostics_build, value)
}

/// Ray diagnostics of the world BVH (a diagnostics switch, see
/// `diagnostic_switch_spec`).
pub fn vte_world_bvh_ray_diag_env_enabled(diagnostics_build: bool, value: Option<&str>) -> (r: bool)
    ensures
        r == diagnostic_switch_spec(diagnostics_build, opt_text(value)),
{
    diagnostic_switch(diagnostics_build, value)
}

} // verus!
