use vstd::prelude::*;

verus! {

broadcast use vstd::string::group_string_axioms;

/// The characters that `char::is_whitespace` accepts: the Unicode `White_Space` property.
pub open spec fn is_white_space(c: char) -> bool {
    let u = c as u32;
    ||| 0x09 <= u <= 0x0D
    ||| u == 0x20
    ||| u == 0x85
    ||| u == 0xA0
    ||| u == 0x1680
    ||| 0x2000 <= u <= 0x200A
    ||| u == 0x2028
    ||| u == 0x2029
    ||| u == 0x202F
    ||| u == 0x205F
    ||| u == 0x3000
}

/// The sequence with its leading white space removed.
pub open spec fn trim_start_chars(s: Seq<char>) -> Seq<char>
    decreases s.len(),
{
    if s.len() > 0 && is_white_space(s[0]) {
        trim_start_chars(s.drop_first())
    } else {
        s
    }
}

/// The sequence with its trailing white space removed.
pub open spec fn trim_end_chars(s: Seq<char>) -> Seq<char>
    decreases s.len(),
{
    if s.len() > 0 && is_white_space(s.last()) {
        trim_end_chars(s.drop_last())
    } else {
        s
    }
}

/// The sequence with leading and trailing white space removed, as `str::trim` does.
pub open spec fn trim_chars(s: Seq<char>) -> Seq<char> {
    trim_end_chars(trim_start_chars(s))
}

/// A string is blank when nothing but white space is in it.
pub open spec fn is_blank_chars(s: Seq<char>) -> bool {
    trim_chars(s).len() == 0
}

/// The pieces of a text between its separators, as `str::split` gives them: one more than
/// there are separators.
pub open spec fn split_pieces(s: Seq<char>, sep: char) -> Seq<Seq<char>>
    decreases s.len(),
{
    if s.len() == 0 {
        seq![Seq::<char>::empty()]
    } else {
        let rest = split_pieces(s.drop_last(), sep);
        if s.last() == sep {
            rest.push(Seq::<char>::empty())
        } else {
            rest.update(rest.len() - 1, rest.last().push(s.last()))
        }
    }
}

/// The number of bytes of the UTF-8 encoding, as `str::len` counts them.
pub open spec fn byte_len(s: Seq<char>) -> nat {
    vstd::utf8::encode_utf8(s).len()
}

/// The decimal digit character for a number below ten.
pub open spec fn digit_char(d: nat) -> char {
    if d == 0 { '0' }
    else if d == 1 { '1' }
    else if d == 2 { '2' }
    else if d == 3 { '3' }
    else if d == 4 { '4' }
    else if d == 5 { '5' }
    else if d == 6 { '6' }
    else if d == 7 { '7' }
    else if d == 8 { '8' }
    else { '9' }
}

/// The decimal notation of a natural number, without leading zeros.
pub open spec fn decimal_nat(n: nat) -> Seq<char>
    decreases n,
{
    if n < 10 {
        seq![digit_char(n)]
    } else {
        decimal_nat(n / 10).push(digit_char(n % 10))
    }
}

/// The decimal notation of an integer, as `to_string` writes it.
pub open spec fn decimal(n: int) -> Seq<char> {
    if n < 0 {
        seq!['-'] + decimal_nat((-n) as nat)
    } else {
        decimal_nat(n as nat)
    }
}

/// `true` or `false`, as `bool::to_string` writes it.
pub open spec fn bool_text(b: bool) -> Seq<char> {
    if b { seq!['t', 'r', 'u', 'e'] } else { seq!['f', 'a', 'l', 's', 'e'] }
}

/// The pieces joined with the separator between each two of them.
pub open spec fn join_chars(parts: Seq<Seq<char>>, sep: Seq<char>) -> Seq<char>
    decreases parts.len(),
{
    if parts.len() == 0 {
        Seq::empty()
    } else if parts.len() == 1 {
        parts[0]
    } else {
        join_chars(parts.drop_last(), sep) + sep + parts.last()
    }
}

/// A list of integers as `{:?}` writes a vector of them: `[1, 2]`.
pub open spec fn debug_int_list(ns: Seq<i32>) -> Seq<char> {
    seq!['['] + join_chars(ns.map_values(|n: i32| decimal(n as int)), seq![',', ' ']) + seq![']']
}

/// ASCII upper-case letters lowered, every other character kept.
pub open spec fn ascii_lower_char(c: char) -> char {
    if 'A' <= c && c <= 'Z' {
        ((c as u32) + 32) as char
    } else {
        c
    }
}

/// `str::to_lowercase` restricted to what it does on ASCII letters.
pub open spec fn ascii_lower_chars(s: Seq<char>) -> Seq<char> {
    s.map_values(|c: char| ascii_lower_char(c))
}

/// The number of bytes of the UTF-8 encoding of one character.
pub open spec fn char_width(c: char) -> nat {
    vstd::utf8::encode_scalar(c as u32).len()
}

proof fn lemma_encode_push(s: Seq<char>, c: char)
    ensures
        vstd::utf8::encode_utf8(s.push(c)) == vstd::utf8::encode_utf8(s)
            + vstd::utf8::encode_scalar(c as u32),
    decreases s.len(),
{
    if s.len() == 0 {
        assert(s.push(c).drop_first() =~= Seq::<char>::empty());
        assert(vstd::utf8::encode_utf8(Seq::<char>::empty()) =~= Seq::<u8>::empty());
        assert(vstd::utf8::encode_utf8(s.push(c)) =~= vstd::utf8::encode_scalar(c as u32));
    } else {
        assert(s.push(c).drop_first() =~= s.drop_first().push(c));
        lemma_encode_push(s.drop_first(), c);
        assert(vstd::utf8::encode_utf8(s.push(c)) =~= vstd::utf8::encode_utf8(s)
            + vstd::utf8::encode_scalar(c as u32));
    }
}

/// The number of UTF-8 bytes of a character.
fn utf8_width(c: char) -> (w: usize)
    ensures
        w == char_width(c),
{
    let u = c as u32;
    if u <= 0x7F {
        1
    } else if u <= 0x7FF {
        2
    } else if u <= 0xFFFF && !(0xD800 <= u && u <= 0xDFFF) {
        3
    } else {
        4
    }
}

/// Whether the UTF-8 encoding of the string is longer than `limit` bytes, as `str::len` counts them.
pub fn byte_len_exceeds(s: &str, limit: usize) -> (b: bool)
    ensures
        b == (byte_len(s@) > limit),
{
    let v = chars_of(s);
    let mut total: usize = 0;
    let mut i: usize = 0;
    while i < v.len()
        invariant
            v@ == s@,
            i <= v@.len(),
            total <= limit,
            total == byte_len(v@.take(i as int)),
        decreases v.len() - i,
    {
        let w = utf8_width(v[i]);
        proof {
            assert(v@.take(i + 1) =~= v@.take(i as int).push(v@[i as int]));
            lemma_encode_push(v@.take(i as int), v@[i as int]);
        }
        if w > limit - total {
            proof {
                lemma_byte_len_prefix(v@, i + 1);
            }
            return true;
        }
        total = total + w;
        i = i + 1;
    }
    assert(v@.take(v@.len() as int) =~= v@);
    false
}

proof fn lemma_byte_len_prefix(s: Seq<char>, k: int)
    requires
        0 <= k <= s.len(),
    ensures
        byte_len(s.take(k)) <= byte_len(s),
    decreases s.len() - k,
{
    if k < s.len() {
        lemma_byte_len_prefix(s, k + 1);
        assert(s.take(k + 1) =~= s.take(k).push(s[k]));
        lemma_encode_push(s.take(k), s[k]);
    } else {
        assert(s.take(k) =~= s);
    }
}

/// The characters of a string slice, collected into a vector.
pub fn chars_of(s: &str) -> (v: Vec<char>)
    ensures
        v@ == s@,
{
    let mut v: Vec<char> = Vec::new();
    for c in it: s.chars()
        invariant
            v@ == it.seq().take(it.index() as int),
            it.seq() == s@,
    {
        v.push(c);
    }
    v
}

/// Whether the character is white space in Unicode's sense.
pub fn is_white_space_char(c: char) -> (b: bool)
    ensures
        b == is_white_space(c),
{
    let u = c as u32;
    (0x09 <= u && u <= 0x0D) || u == 0x20 || u == 0x85 || u == 0xA0 || u == 0x1680 || (0x2000
        <= u && u <= 0x200A) || u == 0x2028 || u == 0x2029 || u == 0x202F || u == 0x205F || u
        == 0x3000
}

proof fn lemma_trim_start_skip(s: Seq<char>, i: int)
    requires
        0 <= i < s.len(),
        is_white_space(s[i]),
    ensures
        trim_start_chars(s.subrange(i, s.len() as int)) == trim_start_chars(
            s.subrange(i + 1, s.len() as int),
        ),
{
    assert(s.subrange(i, s.len() as int).drop_first() =~= s.subrange(i + 1, s.len() as int));
}

proof fn lemma_trim_end_skip(s: Seq<char>, j: int)
    requires
        0 < j <= s.len(),
        is_white_space(s[j - 1]),
    ensures
        trim_end_chars(s.subrange(0, j)) == trim_end_chars(s.subrange(0, j - 1)),
{
    assert(s.subrange(0, j).drop_last() =~= s.subrange(0, j - 1));
}

/// The string with leading and trailing white space removed.
pub fn trim(s: &str) -> (r: String)
    ensures
        r@ == trim_chars(s@),
{
    let v = chars_of(s);
    let n = v.len();
    let mut i: usize = 0;
    assert(v@.subrange(0, n as int) =~= v@);
    while i < n && is_white_space_char(v[i])
        invariant
            i <= n,
            n == v@.len(),
            trim_start_chars(v@) == trim_start_chars(v@.subrange(i as int, n as int)),
        decreases n - i,
    {
        proof {
            lemma_trim_start_skip(v@, i as int);
        }
        i = i + 1;
    }
    let ghost t = v@.subrange(i as int, n as int);
    assert(trim_start_chars(v@) == t) by {
        if i < n {
            assert(t[0] == v@[i as int]);
        } else {
            assert(t.len() == 0);
        }
    }
    let mut j: usize = n;
    assert(t.subrange(0, (n - i) as int) =~= t);
    while j > i && is_white_space_char(v[j - 1])
        invariant
            i <= j <= n,
            n == v@.len(),
            t == v@.subrange(i as int, n as int),
            trim_end_chars(t) == trim_end_chars(t.subrange(0, (j - i) as int)),
        decreases j,
    {
        proof {
            assert(t[(j - i) - 1] == v@[j - 1]);
            lemma_trim_end_skip(t, (j - i) as int);
        }
        j = j - 1;
    }
    let ghost u = t.subrange(0, (j - i) as int);
    assert(trim_end_chars(t) == u) by {
        if j > i {
            assert(u.last() == v@[j - 1]);
        }
    }
    assert(u =~= s@.subrange(i as int, j as int));
    let sub = s.substring_char(i, j);
    String::from_str(sub)
}

/// Whether the string holds nothing but white space.
pub fn is_blank(s: &str) -> (b: bool)
    ensures
        b == is_blank_chars(s@),
{
    let t = trim(s);
    t.as_str().unicode_len() == 0
}

/// Whether two strings hold the same characters.
pub fn str_eq(a: &str, b: &str) -> (r: bool)
    ensures
        r == (a@ == b@),
{
    let x = chars_of(a);
    let y = chars_of(b);
    if x.len() != y.len() {
        return false;
    }
    let mut i: usize = 0;
    while i < x.len()
        invariant
            x@ == a@,
            y@ == b@,
            x@.len() == y@.len(),
            i <= x@.len(),
            forall|k: int| 0 <= k < i ==> x@[k] == y@[k],
        decreases x.len() - i,
    {
        if x[i] != y[i] {
            return false;
        }
        i = i + 1;
    }
    assert(x@ =~= y@);
    true
}

/// Whether the characters spell the string.
pub fn chars_equal_str(v: &Vec<char>, s: &str) -> (r: bool)
    ensures
        r == (v@ == s@),
{
    let w = chars_of(s);
    if v.len() != w.len() {
        return false;
    }
    let mut i: usize = 0;
    while i < v.len()
        invariant
            w@ == s@,
            v@.len() == w@.len(),
            i <= v@.len(),
            forall|k: int| 0 <= k < i ==> v@[k] == w@[k],
        decreases v.len() - i,
    {
        if v[i] != w[i] {
            return false;
        }
        i = i + 1;
    }
    assert(v@ =~= w@);
    true
}

/// Whether the character occurs in the string.
pub fn contains_char(s: &str, c: char) -> (r: bool)
    ensures
        r == s@.contains(c),
{
    let v = chars_of(s);
    let mut i: usize = 0;
    while i < v.len()
        invariant
            v@ == s@,
            i <= v@.len(),
            forall|k: int| 0 <= k < i ==> v@[k] != c,
        decreases v.len() - i,
    {
        if v[i] == c {
            assert(s@[i as int] == c);
            return true;
        }
        i = i + 1;
    }
    false
}

/// Whether the string begins with the prefix.
pub fn starts_with(s: &str, prefix: &str) -> (r: bool)
    ensures
        r == (prefix@.len() <= s@.len() && s@.subrange(0, prefix@.len() as int) == prefix@),
{
    let v = chars_of(s);
    let p = chars_of(prefix);
    if p.len() > v.len() {
        return false;
    }
    let mut i: usize = 0;
    while i < p.len()
        invariant
            v@ == s@,
            p@ == prefix@,
            p@.len() <= v@.len(),
            i <= p@.len(),
            forall|k: int| 0 <= k < i ==> v@[k] == p@[k],
        decreases p.len() - i,
    {
        if v[i] != p[i] {
            assert(s@.subrange(0, prefix@.len() as int)[i as int] != prefix@[i as int]);
            return false;
        }
        i = i + 1;
    }
    assert(s@.subrange(0, prefix@.len() as int) =~= prefix@);
    true
}

/// Whether the string holds the given sequence of characters somewhere.
pub fn contains_str(s: &str, needle: &str) -> (r: bool)
    ensures
        r == exists|k: int|
            0 <= k && k + needle@.len() <= s@.len() && #[trigger] s@.subrange(
                k,
                k + needle@.len(),
            ) == needle@,
{
    let v = chars_of(s);
    let p = chars_of(needle);
    if p.len() > v.len() {
        assert forall|k: int|
            0 <= k && k + needle@.len() <= s@.len() implies #[trigger] s@.subrange(
            k,
            k + needle@.len(),
        ) != needle@ by {}
        return false;
    }
    let vlen = v.len();
    let last = vlen - p.len();
    let mut k: usize = 0;
    while k <= last
        invariant
            v@ == s@,
            p@ == needle@,
            last == v@.len() - p@.len(),
            vlen == v@.len(),
            k <= last + 1,
            forall|m: int| 0 <= m < k ==> #[trigger] s@.subrange(m, m + needle@.len()) != needle@,
        decreases last + 1 - k,
    {
        let mut i: usize = 0;
        let mut same = true;
        while i < p.len()
            invariant
                v@ == s@,
                p@ == needle@,
                k + p@.len() <= v@.len(),
                vlen == v@.len(),
                i <= p@.len(),
                same == (forall|q: int| 0 <= q < i ==> v@[k + q] == p@[q]),
            decreases p.len() - i,
        {
            assert(k + i < v@.len());
            let idx = k + i;
            if v[idx] != p[i] {
                same = false;
            }
            i = i + 1;
        }
        if same {
            assert(s@.subrange(k as int, k + needle@.len()) =~= needle@);
            return true;
        } else {
            let ghost q = choose|q: int| 0 <= q < p@.len() && v@[k + q] != p@[q];
            assert(s@.subrange(k as int, k + needle@.len())[q] != needle@[q]);
        }
        k = k + 1;
    }
    assert forall|m: int|
        0 <= m && m + needle@.len() <= s@.len() implies #[trigger] s@.subrange(
        m,
        m + needle@.len(),
    ) != needle@ by {
        assert(m < k);
    }
    false
}

/// Whether the number occurs in the list.
pub fn contains_i32(v: &Vec<i32>, x: i32) -> (b: bool)
    ensures
        b == v@.contains(x),
{
    let mut i: usize = 0;
    while i < v.len()
        invariant
            i <= v@.len(),
            forall|k: int| 0 <= k < i ==> v@[k] != x,
        decreases v.len() - i,
    {
        if v[i] == x {
            assert(v@[i as int] == x);
            return true;
        }
        i = i + 1;
    }
    false
}

/// The one-character string for a decimal digit.
fn digit_str(d: u64) -> (r: &'static str)
    requires
        d < 10,
    ensures
        r@ == seq![digit_char(d as nat)],
{
    proof {
        reveal_strlit("0");
        reveal_strlit("1");
        reveal_strlit("2");
        reveal_strlit("3");
        reveal_strlit("4");
        reveal_strlit("5");
        reveal_strlit("6");
        reveal_strlit("7");
        reveal_strlit("8");
        reveal_strlit("9");
    }
    if d == 0 {
        "0"
    } else if d == 1 {
        "1"
    } else if d == 2 {
        "2"
    } else if d == 3 {
        "3"
    } else if d == 4 {
        "4"
    } else if d == 5 {
        "5"
    } else if d == 6 {
        "6"
    } else if d == 7 {
        "7"
    } else if d == 8 {
        "8"
    } else {
        "9"
    }
}

/// Appends the decimal notation of `n`.
fn push_decimal(out: &mut String, n: u64)
    ensures
        final(out)@ == old(out)@ + decimal_nat(n as nat),
    decreases n,
{
    if n < 10 {
        out.append(digit_str(n));
    } else {
        push_decimal(out, n / 10);
        out.append(digit_str(n % 10));
        assert(decimal_nat(n as nat) == decimal_nat((n / 10) as nat).push(
            digit_char((n % 10) as nat),
        ));
    }
}

/// The decimal notation of an unsigned number.
pub fn u64_to_string(n: u64) -> (s: String)
    ensures
        s@ == decimal(n as int),
{
    let mut s = String::new();
    push_decimal(&mut s, n);
    s
}

/// The decimal notation of a signed number, as `i32::to_string` writes it.
pub fn i32_to_string(n: i32) -> (s: String)
    ensures
        s@ == decimal(n as int),
{
    if n < 0 {
        proof {
            reveal_strlit("-");
        }
        let mut s = String::from_str("-");
        let m: u64 = (0i64 - (n as i64)) as u64;
        push_decimal(&mut s, m);
        s
    } else {
        u64_to_string(n as u64)
    }
}

/// `true` or `false`.
pub fn bool_to_string(b: bool) -> (s: String)
    ensures
        s@ == bool_text(b),
{
    proof {
        reveal_strlit("true");
        reveal_strlit("false");
    }
    if b {
        String::from_str("true")
    } else {
        String::from_str("false")
    }
}

/// The strings joined with the separator between each two of them.
pub fn join(parts: &Vec<String>, sep: &str) -> (s: String)
    ensures
        s@ == join_chars(parts@.map_values(|p: String| p@), sep@),
{
    let ghost views = parts@.map_values(|p: String| p@);
    let mut s = String::new();
    let mut i: usize = 0;
    while i < parts.len()
        invariant
            i <= parts@.len(),
            views == parts@.map_values(|p: String| p@),
            s@ == join_chars(views.take(i as int), sep@),
        decreases parts.len() - i,
    {
        if i > 0 {
            s.append(sep);
        }
        s.append(parts[i].as_str());
        proof {
            let next = views.take(i + 1);
            assert(next.drop_last() =~= views.take(i as int));
            assert(next.last() == parts@[i as int]@);
            if i == 0 {
                assert(views.take(0) =~= Seq::<Seq<char>>::empty());
            }
        }
        i = i + 1;
    }
    assert(views.take(parts@.len() as int) =~= views);
    s
}

/// A list of integers as `{:?}` writes it: `[1, 2]`.
pub fn debug_i32_list(ns: &Vec<i32>) -> (s: String)
    ensures
        s@ == debug_int_list(ns@),
{
    let mut parts: Vec<String> = Vec::new();
    let mut i: usize = 0;
    while i < ns.len()
        invariant
            i <= ns@.len(),
            parts@.len() == i,
            forall|k: int| 0 <= k < i ==> #[trigger] parts@[k]@ == decimal(ns@[k] as int),
        decreases ns.len() - i,
    {
        parts.push(i32_to_string(ns[i]));
        i = i + 1;
    }
    proof {
        reveal_strlit(", ");
        reveal_strlit("[");
        reveal_strlit("]");
    }
    assert(", "@ == seq![',', ' ']);
    let body = join(&parts, ", ");
    assert(parts@.map_values(|p: String| p@) =~= ns@.map_values(|n: i32| decimal(n as int)));
    let mut s = String::from_str("[");
    s.append(body.as_str());
    s.append("]");
    assert("["@ == seq!['[']);
    assert("]"@ == seq![']']);
    assert(body@ == join_chars(ns@.map_values(|n: i32| decimal(n as int)), seq![',', ' ']));
    s
}

/// The string with ASCII upper-case letters lowered.
pub fn ascii_lowercase(s: &str) -> (r: Vec<char>)
    ensures
        r@ == ascii_lower_chars(s@),
{
    let v = chars_of(s);
    let mut out: Vec<char> = Vec::new();
    let mut i: usize = 0;
    while i < v.len()
        invariant
            v@ == s@,
            i <= v@.len(),
            out@ =~= ascii_lower_chars(s@).take(i as int),
        decreases v.len() - i,
    {
        let c = v[i];
        let l = if 'A' <= c && c <= 'Z' {
            char_from_ascii_code((c as u32 + 32) as u8)
        } else {
            c
        };
        out.push(l);
        i = i + 1;
    }
    out
}

/// The character with the given ASCII code.
fn char_from_ascii_code(b: u8) -> (c: char)
    requires
        b < 128,
    ensures
        c as u32 == b as u32,
{
    b as char
}

/// Distinct digits are written with distinct characters, none of them a minus sign.
proof fn lemma_digit_char_injective(a: nat, b: nat)
    requires
        a < 10,
        b < 10,
    ensures
        digit_char(a) != '-',
        digit_char(a) == digit_char(b) ==> a == b,
{
}

/// The decimal notation of a natural number is not empty and does not start with a minus sign.
proof fn lemma_decimal_nat_shape(n: nat)
    ensures
        decimal_nat(n).len() >= 1,
        decimal_nat(n)[0] != '-',
        n >= 10 ==> decimal_nat(n).len() >= 2,
    decreases n,
{
    if n < 10 {
        lemma_digit_char_injective(n, n);
    } else {
        lemma_decimal_nat_shape(n / 10);
    }
}

/// Distinct natural numbers have distinct decimal notations.
proof fn lemma_decimal_nat_injective(a: nat, b: nat)
    requires
        decimal_nat(a) == decimal_nat(b),
    ensures
        a == b,
    decreases a + b,
{
    lemma_decimal_nat_shape(a);
    lemma_decimal_nat_shape(b);
    if a < 10 && b < 10 {
        assert(decimal_nat(a)[0] == decimal_nat(b)[0]);
        lemma_digit_char_injective(a, b);
    } else if a >= 10 && b >= 10 {
        let da = decimal_nat(a);
        let db = decimal_nat(b);
        assert(da.last() == digit_char(a % 10));
        assert(db.last() == digit_char(b % 10));
        lemma_digit_char_injective(a % 10, b % 10);
        assert(da.drop_last() =~= decimal_nat(a / 10));
        assert(db.drop_last() =~= decimal_nat(b / 10));
        lemma_decimal_nat_injective(a / 10, b / 10);
    }
}

/// Distinct integers have distinct decimal notations: `to_string` loses nothing.
pub proof fn lemma_decimal_injective(a: int, b: int)
    ensures
        decimal(a) == decimal(b) ==> a == b,
{
    if decimal(a) == decimal(b) {
        if a < 0 && b < 0 {
            assert(decimal(a).drop_first() =~= decimal_nat((-a) as nat));
            assert(decimal(b).drop_first() =~= decimal_nat((-b) as nat));
            lemma_decimal_nat_injective((-a) as nat, (-b) as nat);
        } else if a >= 0 && b >= 0 {
            lemma_decimal_nat_injective(a as nat, b as nat);
        } else if a < 0 {
            lemma_decimal_nat_shape(b as nat);
            assert(decimal(a)[0] == '-');
        } else {
            lemma_decimal_nat_shape(a as nat);
            assert(decimal(b)[0] == '-');
        }
    }
}

} // verus!
