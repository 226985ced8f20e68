//! Character classes and string measurements used by request validation.
//!
//! The character classes follow the Unicode definitions that Rust's
//! `char::is_control` (general category `Cc`) and `char::is_whitespace`
//! (property `White_Space`) document; string lengths are counted in bytes of
//! the UTF-8 encoding, as `str::len` counts them.
use vstd::prelude::*;
use vstd::string::*;
use vstd::utf8::*;

verus! {

/// General category `Cc`: U+0000..U+001F and U+007F..U+009F.
pub open spec fn is_control_char(c: char) -> bool {
    let v = c as u32;
    v <= 0x1F || (0x7F <= v && v <= 0x9F)
}

/// The Unicode `White_Space` property.
pub open spec fn is_white_space_char(c: char) -> bool {
    let v = c as u32;
    ||| (0x9 <= v && v <= 0xD)
    ||| v == 0x20
    ||| v == 0x85
    ||| v == 0xA0
    ||| v == 0x1680
    ||| (0x2000 <= v && v <= 0x200A)
    ||| v == 0x2028
    ||| v == 0x2029
    ||| v == 0x202F
    ||| v == 0x205F
    ||| v == 0x3000
}

/// Characters that identifiers must not contain.
pub open spec fn is_unsafe_char(c: char) -> bool {
    is_control_char(c) || is_white_space_char(c)
}

/// Number of bytes of the UTF-8 encoding of one character.
pub open spec fn char_width(c: char) -> nat {
    let v = c as u32;
    if v <= 0x7F {
        1
    } else if v <= 0x7FF {
        2
    } else if v <= 0xFFFF {
        3
    } else {
        4
    }
}

/// Number of bytes of the UTF-8 encoding of a character sequence.
pub open spec fn utf8_len(s: Seq<char>) -> nat
    decreases s.len(),
{
    if s.len() == 0 {
        0
    } else {
        utf8_len(s.drop_last()) + char_width(s.last())
    }
}

/// The sequence with leading `White_Space` characters removed.
pub open spec fn trim_start(s: Seq<char>) -> Seq<char>
    decreases s.len(),
{
    if s.len() > 0 && is_white_space_char(s[0]) {
        trim_start(s.drop_first())
    } else {
        s
    }
}

/// The sequence with trailing `White_Space` characters removed.
pub open spec fn trim_end(s: Seq<char>) -> Seq<char>
    decreases s.len(),
{
    if s.len() > 0 && is_white_space_char(s.last()) {
        trim_end(s.drop_last())
    } else {
        s
    }
}

/// What `str::trim` returns.
pub open spec fn trim(s: Seq<char>) -> Seq<char> {
    trim_end(trim_start(s))
}

/// Whether some character of the sequence is an identifier-unsafe one.
pub open spec fn has_unsafe_char(s: Seq<char>) -> bool {
    exists|i: int| 0 <= i < s.len() && is_unsafe_char(#[trigger] s[i])
}

/// Every character is printable ASCII (U+0020 to U+007E).
pub open spec fn is_printable_ascii(s: Seq<char>) -> bool {
    forall|i: int| 0 <= i < s.len() ==> 0x20 <= (#[trigger] s[i]) as u32 <= 0x7E
}

/// Every character is printable ASCII other than the space.
pub open spec fn is_visible_ascii(s: Seq<char>) -> bool {
    forall|i: int| 0 <= i < s.len() ==> 0x21 <= (#[trigger] s[i]) as u32 <= 0x7E
}

/// Printable ASCII takes one byte per character.
pub proof fn lemma_printable_ascii_len(s: Seq<char>)
    requires
        is_printable_ascii(s),
    ensures
        utf8_len(s) == s.len(),
    decreases s.len(),
{
    if s.len() > 0 {
        let p = s.drop_last();
        assert forall|i: int| 0 <= i < p.len() implies 0x20 <= (#[trigger] p[i]) as u32 <= 0x7E by {
            assert(p[i] == s[i]);
        }
        lemma_printable_ascii_len(p);
        assert(0x20 <= s[s.len() - 1] as u32 <= 0x7E);
    }
}

/// Visible ASCII holds no whitespace or control character, and takes one
/// byte per character.
pub proof fn lemma_visible_ascii(s: Seq<char>)
    requires
        is_visible_ascii(s),
    ensures
        !has_unsafe_char(s),
        utf8_len(s) == s.len(),
{
    assert forall|i: int| 0 <= i < s.len() implies 0x20 <= (#[trigger] s[i]) as u32 <= 0x7E by {
        assert(0x21 <= s[i] as u32);
    }
    lemma_printable_ascii_len(s);
    if has_unsafe_char(s) {
        let i = choose|i: int| 0 <= i < s.len() && is_unsafe_char(#[trigger] s[i]);
        assert(0x21 <= s[i] as u32 <= 0x7E);
    }
}

/// Number of occurrences of `c` in `s`.
pub open spec fn count_char(s: Seq<char>, c: char) -> nat
    decreases s.len(),
{
    if s.len() == 0 {
        0
    } else {
        count_char(s.drop_last(), c) + if s.last() == c {
            1nat
        } else {
            0nat
        }
    }
}

pub proof fn lemma_utf8_len_first(s: Seq<char>)
    requires
        s.len() > 0,
    ensures
        utf8_len(s) == char_width(s[0]) + utf8_len(s.drop_first()),
    decreases s.len(),
{
    if s.len() > 1 {
        lemma_utf8_len_first(s.drop_last());
        assert(s.drop_last().drop_first() =~= s.drop_first().drop_last());
    } else {
        assert(s.drop_last() =~= Seq::<char>::empty());
        assert(s.drop_first() =~= Seq::<char>::empty());
    }
}

/// `utf8_len` measures exactly the encoding that vstd gives to `str` values,
/// whose length `str::len` returns.
pub proof fn lemma_utf8_len_is_encoding_len(s: Seq<char>)
    ensures
        encode_utf8(s).len() == utf8_len(s),
    decreases s.len(),
{
    if s.len() > 0 {
        lemma_utf8_len_first(s);
        lemma_utf8_len_is_encoding_len(s.drop_first());
        let v = s[0] as u32;
        vstd::utf8::char_is_scalar(s[0]);
        assert(encode_scalar(v).len() == char_width(s[0]));
    }
}

proof fn lemma_utf8_len_take_step(s: Seq<char>, i: int)
    requires
        0 <= i < s.len(),
    ensures
        utf8_len(s.take(i + 1)) == utf8_len(s.take(i)) + char_width(s[i]),
{
    assert(s.take(i + 1).drop_last() =~= s.take(i));
}

proof fn lemma_utf8_len_take_mono(s: Seq<char>, i: int, j: int)
    requires
        0 <= i <= j <= s.len(),
    ensures
        utf8_len(s.take(i)) <= utf8_len(s.take(j)),
    decreases j - i,
{
    if i < j {
        lemma_utf8_len_take_mono(s, i, j - 1);
        lemma_utf8_len_take_step(s, j - 1);
    }
}

proof fn lemma_count_char_take_step(s: Seq<char>, i: int, c: char)
    requires
        0 <= i < s.len(),
    ensures
        count_char(s.take(i + 1), c) == count_char(s.take(i), c) + if s[i] == c {
            1nat
        } else {
            0nat
        },
{
    assert(s.take(i + 1).drop_last() =~= s.take(i));
}

/// `char::is_control`.
pub fn is_control(c: char) -> (r: bool)
    ensures
        r == is_control_char(c),
{
    let v = c as u32;
    v <= 0x1F || (0x7F <= v && v <= 0x9F)
}

/// `char::is_whitespace`.
pub fn is_whitespace(c: char) -> (r: bool)
    ensures
        r == is_white_space_char(c),
{
    let v = c as u32;
    (0x9 <= v && v <= 0xD) || v == 0x20 || v == 0x85 || v == 0xA0 || v == 0x1680 || (0x2000 <= v
        && v <= 0x200A) || v == 0x2028 || v == 0x2029 || v == 0x202F || v == 0x205F || v == 0x3000
}

/// Whether the UTF-8 encoding of `s` is longer than `limit` bytes; stops
/// reading as soon as the limit is passed.
pub fn byte_len_exceeds(s: &str, limit: usize) -> (r: bool)
    ensures
        r == (utf8_len(s@) > limit),
{
    let n = s.unicode_len();
    let mut i: usize = 0;
    let mut total: usize = 0;
    while i < n
        invariant
            n == s@.len(),
            i <= n,
            total == utf8_len(s@.take(i as int)),
            total <= limit,
        decreases n - i,
    {
        let c = s.get_char(i);
        let v = c as u32;
        let w: usize = if v <= 0x7F {
            1
        } else if v <= 0x7FF {
            2
        } else if v <= 0xFFFF {
            3
        } else {
            4
        };
        proof {
            lemma_utf8_len_take_step(s@, i as int);
        }
        if w > limit - total {
            proof {
                lemma_utf8_len_take_mono(s@, i + 1, n as int);
                assert(s@.take(n as int) =~= s@);
            }
            return true;
        }
        total = total + w;
        i = i + 1;
    }
    assert(s@.take(n as int) =~= s@);
    false
}

/// Whether `s` holds a control or whitespace character.
pub fn contains_unsafe_char(s: &str) -> (r: bool)
    ensures
        r == has_unsafe_char(s@),
{
    let n = s.unicode_len();
    let mut i: usize = 0;
    while i < n
        invariant
            n == s@.len(),
            i <= n,
            forall|j: int| 0 <= j < i ==> !is_unsafe_char(#[trigger] s@[j]),
        decreases n - i,
    {
        let c = s.get_char(i);
        if is_control(c) || is_whitespace(c) {
            return true;
        }
        i = i + 1;
    }
    false
}

/// Number of occurrences of `c` in `s`.
pub fn count_occurrences(s: &str, c: char) -> (r: usize)
    ensures
        r == count_char(s@, c),
{
    let n = s.unicode_len();
    let mut i: usize = 0;
    let mut count: usize = 0;
    while i < n
        invariant
            n == s@.len(),
            i <= n,
            count == count_char(s@.take(i as int), c),
            count <= i,
        decreases n - i,
    {
        proof {
            lemma_count_char_take_step(s@, i as int, c);
        }
        if s.get_char(i) == c {
            count = count + 1;
        }
        i = i + 1;
    }
    assert(s@.take(n as int) =~= s@);
    count
}

/// Whether `s` holds the character `c`.
pub fn contains_char(s: &str, c: char) -> (r: bool)
    ensures
        r == s@.contains(c),
{
    let n = s.unicode_len();
    let mut i: usize = 0;
    while i < n
        invariant
            n == s@.len(),
            i <= n,
            forall|j: int| 0 <= j < i ==> s@[j] != c,
        decreases n - i,
    {
        if s.get_char(i) == c {
            assert(s@[i as int] == c);
            return true;
        }
        i = i + 1;
    }
    false
}

/// Position of the first occurrence of `c` in `s`.
pub fn find_char(s: &str, c: char) -> (r: Option<usize>)
    ensures
        match r {
            Some(i) => i < s@.len() && s@[i as int] == c && forall|j: int|
                0 <= j < i ==> s@[j] != c,
            None => !s@.contains(c),
        },
{
    let n = s.unicode_len();
    let mut i: usize = 0;
    while i < n
        invariant
            n == s@.len(),
            i <= n,
            forall|j: int| 0 <= j < i ==> s@[j] != c,
        decreases n - i,
    {
        if s.get_char(i) == c {
            return Some(i);
        }
        i = i + 1;
    }
    proof {
        if s@.contains(c) {
            let k = choose|k: int| 0 <= k < s@.len() && s@[k] == c;
            assert(s@[k] != c);
        }
    }
    None
}

proof fn lemma_trim_start_skip(s: Seq<char>, i: int)
    requires
        0 <= i <= s.len(),
        forall|j: int| 0 <= j < i ==> is_white_space_char(#[trigger] s[j]),
        i == s.len() || !is_white_space_char(s[i]),
    ensures
        trim_start(s) == s.skip(i),
    decreases i,
{
    if i == 0 {
        assert(s.skip(0) =~= s);
    } else {
        assert(is_white_space_char(s[0]));
        let t = s.drop_first();
        assert forall|j: int| 0 <= j < i - 1 implies is_white_space_char(#[trigger] t[j]) by {
            assert(t[j] == s[j + 1]);
        }
        lemma_trim_start_skip(t, i - 1);
        assert(t.skip(i - 1) =~= s.skip(i));
    }
}

proof fn lemma_trim_end_take(s: Seq<char>, k: int)
    requires
        0 <= k <= s.len(),
        forall|j: int| k <= j < s.len() ==> is_white_space_char(#[trigger] s[j]),
        k == 0 || !is_white_space_char(s[k - 1]),
    ensures
        trim_end(s) == s.take(k),
    decreases s.len() - k,
{
    if k == s.len() {
        assert(s.take(k) =~= s);
    } else {
        assert(is_white_space_char(s.last()));
        let t = s.drop_last();
        assert forall|j: int| k <= j < t.len() implies is_white_space_char(#[trigger] t[j]) by {
            assert(t[j] == s[j]);
        }
        lemma_trim_end_take(t, k);
        assert(t.take(k) =~= s.take(k));
    }
}

/// Trimming leaves the sequence unchanged exactly when neither end is a
/// whitespace character.
pub proof fn lemma_trim_unchanged(s: Seq<char>)
    ensures
        (trim(s) == s) <==> (s.len() == 0 || (!is_white_space_char(s[0])
            && !is_white_space_char(s.last()))),
{
    lemma_trim_start_len(s);
    lemma_trim_end_len(trim_start(s));
    if s.len() > 0 && is_white_space_char(s[0]) {
        assert(trim_start(s).len() < s.len());
        assert(trim(s).len() < s.len());
    } else if s.len() > 0 && is_white_space_char(s.last()) {
        assert(trim_start(s) == s);
        assert(trim(s).len() < s.len());
    } else {
        assert(trim_start(s) == s);
        assert(trim_end(s) == s);
    }
}

proof fn lemma_trim_start_len(s: Seq<char>)
    ensures
        trim_start(s).len() <= s.len(),
        s.len() > 0 && is_white_space_char(s[0]) ==> trim_start(s).len() < s.len(),
    decreases s.len(),
{
    if s.len() > 0 && is_white_space_char(s[0]) {
        lemma_trim_start_len(s.drop_first());
    }
}

proof fn lemma_trim_end_len(s: Seq<char>)
    ensures
        trim_end(s).len() <= s.len(),
        s.len() > 0 && is_white_space_char(s.last()) ==> trim_end(s).len() < s.len(),
    decreases s.len(),
{
    if s.len() > 0 && is_white_space_char(s.last()) {
        lemma_trim_end_len(s.drop_last());
    }
}

/// Whether `s` differs from `s.trim()`, that is, starts or ends with
/// whitespace.
pub fn differs_from_trimmed(s: &str) -> (r: bool)
    ensures
        r == (trim(s@) != s@),
{
    proof {
        lemma_trim_unchanged(s@);
    }
    let n = s.unicode_len();
    if n == 0 {
        false
    } else {
        is_whitespace(s.get_char(0)) || is_whitespace(s.get_char(n - 1))
    }
}

/// `str::trim`.
pub fn trimmed(s: &str) -> (r: String)
    ensures
        r@ == trim(s@),
{
    let n = s.unicode_len();
    let mut i: usize = 0;
    while i < n && is_whitespace(s.get_char(i))
        invariant
            n == s@.len(),
            i <= n,
            forall|j: int| 0 <= j < i ==> is_white_space_char(#[trigger] s@[j]),
        decreases n - i,
    {
        i = i + 1;
    }
    proof {
        lemma_trim_start_skip(s@, i as int);
    }
    let ghost rest = s@.skip(i as int);
    let mut k: usize = n;
    while k > i && is_whitespace(s.get_char(k - 1))
        invariant
            n == s@.len(),
            i <= k <= n,
            rest == s@.skip(i as int),
            forall|j: int| k <= j < n ==> is_white_space_char(#[trigger] s@[j]),
        decreases k,
    {
        k = k - 1;
    }
    proof {
        assert forall|j: int| (k - i) <= j < rest.len() implies is_white_space_char(
            #[trigger] rest[j],
        ) by {
            assert(rest[j] == s@[j + i]);
        }
        if k > i {
            assert(rest[k - i - 1] == s@[k - 1]);
        }
        lemma_trim_end_take(rest, k - i);
        assert(rest.take(k - i) =~= s@.subrange(i as int, k as int));
    }
    s.substring_char(i, k).to_owned()
}

/// Decimal digit character of a value below 10.
pub open spec fn digit_char(d: nat) -> char {
    (('0' as u32) + d) as char
}

/// Decimal representation of a natural number, as `Display` writes it.
pub open spec fn decimal(n: nat) -> Seq<char>
    decreases n,
{
    if n < 10 {
        seq![digit_char(n)]
    } else {
        decimal(n / 10) + seq![digit_char(n % 10)]
    }
}

/// The one-character string of a decimal digit.
pub fn digit_str(d: u64) -> (r: &'static str)
    requires
        d < 10,
    ensures
        r@ == seq![digit_char(d as nat)],
{
    proof {
        reveal_strlit("0");
        reveal_strlit("1");
        reveal_strlit("2");
        reveal_strlit("3");
        reveal_strlit("4");
        reveal_strlit("5");
        reveal_strlit("6");
        reveal_strlit("7");
        reveal_strlit("8");
        reveal_strlit("9");
    }
    if d == 0 {
        "0"
    } else if d == 1 {
        "1"
    } else if d == 2 {
        "2"
    } else if d == 3 {
        "3"
    } else if d == 4 {
        "4"
    } else if d == 5 {
        "5"
    } else if d == 6 {
        "6"
    } else if d == 7 {
        "7"
    } else if d == 8 {
        "8"
    } else {
        "9"
    }
}

/// Decimal representation of `n`.
pub fn decimal_string(n: u64) -> (r: String)
    ensures
        r@ == decimal(n as nat),
    decreases n,
{
    if n < 10 {
        String::from_str(digit_str(n))
    } else {
        let mut s = decimal_string(n / 10);
        s.append(digit_str(n % 10));
        s
    }
}

/// `a` followed by `b` followed by `c`.
pub fn concat3(a: &str, b: &str, c: &str) -> (r: String)
    ensures
        r@ == a@ + b@ + c@,
{
    let mut s = String::from_str(a);
    s.append(b);
    s.append(c);
    s
}

} // verus!

verus! {

/// Whether two strings hold the same characters.
pub fn str_equals(a: &str, b: &str) -> (r: bool)
    ensures
        r == (a@ == b@),
{
    let n = a.unicode_len();
    if n != b.unicode_len() {
        return false;
    }
    let mut i: usize = 0;
    while i < n
        invariant
            n == a@.len(),
            n == b@.len(),
            i <= n,
            forall|j: int| 0 <= j < i ==> a@[j] == b@[j],
        decreases n - i,
    {
        if a.get_char(i) != b.get_char(i) {
            return false;
        }
        i = i + 1;
    }
    assert(a@ =~= b@);
    true
}

/// `s` without the leading `prefix`, when it starts with it.
pub fn strip_prefix(s: &str, prefix: &str) -> (r: Option<String>)
    ensures
        match r {
            Some(rest) => s@.len() >= prefix@.len() && s@.take(prefix@.len() as int) == prefix@
                && rest@ == s@.skip(prefix@.len() as int),
            None => !(s@.len() >= prefix@.len() && s@.take(prefix@.len() as int) == prefix@),
        },
{
    let n = s.unicode_len();
    let m = prefix.unicode_len();
    if n < m {
        return None;
    }
    let mut i: usize = 0;
    while i < m
        invariant
            n == s@.len(),
            m == prefix@.len(),
            m <= n,
            i <= m,
            forall|j: int| 0 <= j < i ==> s@[j] == prefix@[j],
        decreases m - i,
    {
        if s.get_char(i) != prefix.get_char(i) {
            assert(s@.take(m as int)[i as int] != prefix@[i as int]);
            return None;
        }
        i = i + 1;
    }
    assert(s@.take(m as int) =~= prefix@);
    Some(s.substring_char(m, n).to_owned())
}

} // verus!

verus! {

/// The sequence without its trailing run of `c` (`trim_end_matches`).
pub open spec fn strip_trailing(s: Seq<char>, c: char) -> Seq<char>
    decreases s.len(),
{
    if s.len() > 0 && s.last() == c {
        strip_trailing(s.drop_last(), c)
    } else {
        s
    }
}

/// The sequence without its leading run of `c` (`trim_start_matches`).
pub open spec fn strip_leading(s: Seq<char>, c: char) -> Seq<char>
    decreases s.len(),
{
    if s.len() > 0 && s[0] == c {
        strip_leading(s.drop_first(), c)
    } else {
        s
    }
}

/// `trim_matches` with one character: both runs removed.
pub open spec fn strip_both(s: Seq<char>, c: char) -> Seq<char> {
    strip_trailing(strip_leading(s, c), c)
}

proof fn lemma_strip_leading_skip(s: Seq<char>, c: char, i: int)
    requires
        0 <= i <= s.len(),
        forall|j: int| 0 <= j < i ==> #[trigger] s[j] == c,
        i == s.len() || s[i] != c,
    ensures
        strip_leading(s, c) == s.skip(i),
    decreases i,
{
    if i == 0 {
        assert(s.skip(0) =~= s);
    } else {
        let t = s.drop_first();
        assert forall|j: int| 0 <= j < i - 1 implies #[trigger] t[j] == c by {
            assert(t[j] == s[j + 1]);
        }
        lemma_strip_leading_skip(t, c, i - 1);
        assert(t.skip(i - 1) =~= s.skip(i));
    }
}

proof fn lemma_strip_trailing_take(s: Seq<char>, c: char, k: int)
    requires
        0 <= k <= s.len(),
        forall|j: int| k <= j < s.len() ==> #[trigger] s[j] == c,
        k == 0 || s[k - 1] != c,
    ensures
        strip_trailing(s, c) == s.take(k),
    decreases s.len() - k,
{
    if k == s.len() {
        assert(s.take(k) =~= s);
    } else {
        let t = s.drop_last();
        assert forall|j: int| k <= j < t.len() implies #[trigger] t[j] == c by {
            assert(t[j] == s[j]);
        }
        lemma_strip_trailing_take(t, c, k);
        assert(t.take(k) =~= s.take(k));
    }
}

/// `s.trim_end_matches(c)`.
pub fn trim_end_char(s: &str, c: char) -> (r: String)
    ensures
        r@ == strip_trailing(s@, c),
{
    let n = s.unicode_len();
    let mut k: usize = n;
    while k > 0 && s.get_char(k - 1) == c
        invariant
            n == s@.len(),
            k <= n,
            forall|j: int| k <= j < n ==> #[trigger] s@[j] == c,
        decreases k,
    {
        k = k - 1;
    }
    proof {
        lemma_strip_trailing_take(s@, c, k as int);
    }
    s.substring_char(0, k).to_owned()
}

/// `s.trim_matches(c)`.
pub fn trim_char(s: &str, c: char) -> (r: String)
    ensures
        r@ == strip_both(s@, c),
{
    let n = s.unicode_len();
    let mut i: usize = 0;
    while i < n && s.get_char(i) == c
        invariant
            n == s@.len(),
            i <= n,
            forall|j: int| 0 <= j < i ==> #[trigger] s@[j] == c,
        decreases n - i,
    {
        i = i + 1;
    }
    proof {
        lemma_strip_leading_skip(s@, c, i as int);
    }
    let ghost rest = s@.skip(i as int);
    let mut k: usize = n;
    while k > i && s.get_char(k - 1) == c
        invariant
            n == s@.len(),
            i <= k <= n,
            rest == s@.skip(i as int),
            forall|j: int| k <= j < n ==> #[trigger] s@[j] == c,
        decreases k,
    {
        k = k - 1;
    }
    proof {
        assert forall|j: int| (k - i) <= j < rest.len() implies #[trigger] rest[j] == c by {
            assert(rest[j] == s@[j + i]);
        }
        if k > i {
            assert(rest[k - i - 1] == s@[k - 1]);
        }
        lemma_strip_trailing_take(rest, c, k - i);
        assert(rest.take(k - i) =~= s@.subrange(i as int, k as int));
    }
    s.substring_char(i, k).to_owned()
}

/// Upper-case hexadecimal digit of a value below 16.
pub open spec fn hex_digit_upper(d: nat) -> char {
    if d < 10 {
        (('0' as u32) + d) as char
    } else {
        (('A' as u32) + d - 10) as char
    }
}

/// Upper-case hexadecimal representation, without leading zeros.
pub open spec fn hex_upper(n: nat) -> Seq<char>
    decreases n,
{
    if n < 16 {
        seq![hex_digit_upper(n)]
    } else {
        hex_upper(n / 16) + seq![hex_digit_upper(n % 16)]
    }
}

/// The one-character string of a hexadecimal digit.
pub fn hex_digit_str(d: u32) -> (r: &'static str)
    requires
        d < 16,
    ensures
        r@ == seq![hex_digit_upper(d as nat)],
{
    proof {
        reveal_strlit("0");
        reveal_strlit("1");
        reveal_strlit("2");
        reveal_strlit("3");
        reveal_strlit("4");
        reveal_strlit("5");
        reveal_strlit("6");
        reveal_strlit("7");
        reveal_strlit("8");
        reveal_strlit("9");
        reveal_strlit("A");
        reveal_strlit("B");
        reveal_strlit("C");
        reveal_strlit("D");
        reveal_strlit("E");
        reveal_strlit("F");
    }
    if d == 0 {
        "0"
    } else if d == 1 {
        "1"
    } else if d == 2 {
        "2"
    } else if d == 3 {
        "3"
    } else if d == 4 {
        "4"
    } else if d == 5 {
        "5"
    } else if d == 6 {
        "6"
    } else if d == 7 {
        "7"
    } else if d == 8 {
        "8"
    } else if d == 9 {
        "9"
    } else if d == 10 {
        "A"
    } else if d == 11 {
        "B"
    } else if d == 12 {
        "C"
    } else if d == 13 {
        "D"
    } else if d == 14 {
        "E"
    } else {
        "F"
    }
}

/// Upper-case hexadecimal representation of `n`.
pub fn hex_upper_string(n: u32) -> (r: String)
    ensures
        r@ == hex_upper(n as nat),
    decreases n,
{
    if n < 16 {
        String::from_str(hex_digit_str(n))
    } else {
        let mut s = hex_upper_string(n / 16);
        s.append(hex_digit_str(n % 16));
        s
    }
}

// ---------------------------------------------------------------------------
// Decimal integers, as `i64`'s `FromStr` reads them.
// ---------------------------------------------------------------------------
pub open spec fn is_digit(c: char) -> bool {
    '0' <= c && c <= '9'
}

/// The value of a string of decimal digits.
pub open spec fn digits_value(s: Seq<char>) -> nat
    decreases s.len(),
{
    if s.len() == 0 {
        0
    } else {
        digits_value(s.drop_last()) * 10 + ((s.last() as u32) - ('0' as u32)) as nat
    }
}

pub open spec fn all_digits(s: Seq<char>) -> bool {
    forall|i: int| 0 <= i < s.len() ==> is_digit(#[trigger] s[i])
}

/// What `str::parse::<i64>` returns: an optional `+` or `-` followed by at
/// least one decimal digit, with a value inside the range of `i64`;
/// anything else is an error (`None`).
pub open spec fn parse_i64_spec(s: Seq<char>) -> Option<i64> {
    let neg = s.len() > 0 && s[0] == '-';
    let signed = s.len() > 0 && (s[0] == '-' || s[0] == '+');
    let body = if signed {
        s.drop_first()
    } else {
        s
    };
    if body.len() == 0 || !all_digits(body) {
        None
    } else {
        let v: int = if neg {
            -(digits_value(body) as int)
        } else {
            digits_value(body) as int
        };
        if i64::MIN <= v <= i64::MAX {
            Some(v as i64)
        } else {
            None
        }
    }
}

/// The decimal representation of an `i64`, as `Display` writes it.
pub open spec fn i64_decimal(n: i64) -> Seq<char> {
    if n < 0 {
        seq!['-'] + decimal((-(n as int)) as nat)
    } else {
        decimal(n as nat)
    }
}

proof fn lemma_digits_value_step(s: Seq<char>, i: int)
    requires
        0 <= i < s.len(),
    ensures
        digits_value(s.take(i + 1)) == digits_value(s.take(i)) * 10 + ((s[i] as u32) - ('0' as u32)) as nat,
{
    assert(s.take(i + 1).drop_last() =~= s.take(i));
}

proof fn lemma_digit_char(d: nat)
    requires
        d < 10,
    ensures
        digit_char(d) as u32 == ('0' as u32) + d,
        is_digit(digit_char(d)),
{
}

proof fn lemma_decimal_digits(n: nat)
    ensures
        decimal(n).len() > 0,
        all_digits(decimal(n)),
        digits_value(decimal(n)) == n,
        decimal(n)[0] != '-' && decimal(n)[0] != '+',
    decreases n,
{
    lemma_digit_char(n % 10);
    if n < 10 {
        assert(decimal(n).drop_last() =~= Seq::<char>::empty());
        assert(digits_value(Seq::<char>::empty()) == 0);
    } else {
        lemma_decimal_digits(n / 10);
        let d = decimal(n);
        assert(d.drop_last() =~= decimal(n / 10));
        assert((n / 10) * 10 + n % 10 == n) by (nonlinear_arith);
        assert forall|i: int| 0 <= i < d.len() implies is_digit(#[trigger] d[i]) by {
            if i < d.len() - 1 {
                assert(d[i] == decimal(n / 10)[i]);
            }
        }
        assert(d[0] == decimal(n / 10)[0]);
    }
}

/// Reading back what `Display` wrote for an `i64` gives the same number.
pub proof fn law_i64_decimal_round_trip(n: i64)
    ensures
        parse_i64_spec(i64_decimal(n)) == Some(n),
{
    if n < 0 {
        let m = (-(n as int)) as nat;
        lemma_decimal_digits(m);
        let s = i64_decimal(n);
        assert(s.drop_first() =~= decimal(m));
    } else {
        lemma_decimal_digits(n as nat);
    }
}

/// `str::parse::<i64>`, returning `None` where it returns an error.
pub fn parse_i64(s: &str) -> (r: Option<i64>)
    ensures
        r == parse_i64_spec(s@),
{
    let n = s.unicode_len();
    let mut start: usize = 0;
    let mut neg = false;
    if n > 0 {
        let c0 = s.get_char(0);
        if c0 == '-' {
            neg = true;
            start = 1;
        } else if c0 == '+' {
            start = 1;
        }
    }
    let ghost body = if start == 1 {
        s@.drop_first()
    } else {
        s@
    };
    assert(body =~= s@.skip(start as int));
    if start == n {
        return None;
    }
    // Largest magnitude an i64 of this sign can have.
    let limit: u64 = if neg {
        9223372036854775808
    } else {
        9223372036854775807
    };
    let mut acc: u64 = 0;
    let mut i: usize = start;
    while i < n
        invariant
            n == s@.len(),
            start <= i <= n,
            start < n,
            start == 0 || start == 1,
            body == s@.skip(start as int),
            forall|j: int| start <= j < i ==> is_digit(#[trigger] s@[j]),
            acc == digits_value(body.take(i - start)),
            acc <= limit,
            limit >= 9223372036854775807,
            neg ==> limit == 9223372036854775808,
            !neg ==> limit == 9223372036854775807,
            neg == (s@[0] == '-'),
            start == 1 <==> (s@[0] == '-' || s@[0] == '+'),
        decreases n - i,
    {
        let c = s.get_char(i);
        if !('0' <= c && c <= '9') {
            proof {
                assert(body[i - start] == s@[i as int]);
                assert(!is_digit(body[i - start]));
            }
            return None;
        }
        let d = (c as u32 - '0' as u32) as u64;
        proof {
            assert(body[i - start] == c);
            lemma_digits_value_step(body, i - start);
            assert(body.take(i - start + 1) == body.take((i + 1 - start) as int));
        }
        if acc > (limit - d) / 10 {
            // The value is already beyond the limit and digits only add.
            proof {
                assert(acc * 10 + d > limit) by (nonlinear_arith)
                    requires
                        acc > (limit - d) / 10,
                        d <= 9,
                        d <= limit,
                ;
                lemma_digits_value_grows(body, i - start + 1, body.len() as int);
                assert(body.take(body.len() as int) =~= body);
                assert(digits_value(body) > limit);
                if start == 1 {
                    assert(body =~= s@.drop_first());
                } else {
                    assert(body =~= s@);
                }
                assert(parse_i64_spec(s@) is None);
            }
            return None;
        }
        proof {
            assert(acc * 10 + d <= limit) by (nonlinear_arith)
                requires
                    acc <= (limit - d) / 10,
                    d <= 9,
                    d <= limit,
            ;
        }
        acc = acc * 10 + d;
        i = i + 1;
    }
    proof {
        assert(body.take(n - start) =~= body);
        assert forall|j: int| 0 <= j < body.len() implies is_digit(#[trigger] body[j]) by {
            assert(body[j] == s@[j + start]);
        }
    }
    if neg {
        if acc == 9223372036854775808 {
            Some(-9223372036854775807 - 1)
        } else {
            Some(-(acc as i64))
        }
    } else {
        Some(acc as i64)
    }
}

proof fn lemma_digits_value_grows(s: Seq<char>, i: int, j: int)
    requires
        0 <= i <= j <= s.len(),
    ensures
        digits_value(s.take(i)) <= digits_value(s.take(j)),
    decreases j - i,
{
    if i < j {
        lemma_digits_value_grows(s, i, j - 1);
        lemma_digits_value_step(s, j - 1);
        assert(digits_value(s.take(j - 1)) <= digits_value(s.take(j - 1)) * 10) by (nonlinear_arith);
    }
}

} // verus!
