//! Character-level string helpers shared by the parsers and renderers.
use vstd::prelude::*;
use vstd::multiset::Multiset;

verus! {

/// Appends one character to a `String` (std `String::push`).
#[verifier::external_body]
pub(crate) fn push_char(s: &mut String, c: char)
    ensures
        final(s)@ == old(s)@.push(c),
{
    s.push(c);
}

/// The characters of `s`, in order.
pub fn chars_of(s: &str) -> (v: Vec<char>)
    ensures
        v@ == s@,
{
    let mut v: Vec<char> = Vec::new();
    for c in it: s.chars()
        invariant
            v@ == it.seq().take(it.index() as int),
    {
        v.push(c);
    }
    v
}

/// Appends the characters `cs[from..to]` to `out`.
pub fn push_range(out: &mut String, cs: &Vec<char>, from: usize, to: usize)
    requires
        from <= to <= cs@.len(),
    ensures
        final(out)@ == old(out)@ + cs@.subrange(from as int, to as int),
{
    let mut i: usize = from;
    while i < to
        invariant
            from <= i <= to <= cs@.len(),
            out@ == old(out)@ + cs@.subrange(from as int, i as int),
        decreases to - i,
    {
        push_char(out, cs[i]);
        assert(cs@.subrange(from as int, i + 1) == cs@.subrange(from as int, i as int).push(
            cs@[i as int],
        ));
        i = i + 1;
    }
}

/// A `String` holding exactly the characters `cs`.
pub fn string_from_chars(cs: &Vec<char>) -> (s: String)
    ensures
        s@ == cs@,
{
    let mut s = String::new();
    push_range(&mut s, cs, 0, cs.len());
    assert(cs@.subrange(0, cs@.len() as int) == cs@);
    s
}

/// Appends a string slice.
pub fn push_str(out: &mut String, s: &str)
    ensures
        final(out)@ == old(out)@ + s@,
{
    out.append(s);
}

/// A fresh copy of `s` as an owned `String`.
pub fn owned(s: &str) -> (r: String)
    ensures
        r@ == s@,
{
    let mut r = String::new();
    r.append(s);
    r
}

/// Concatenation of two strings.
pub fn concat2(a: &str, b: &str) -> (r: String)
    ensures
        r@ == a@ + b@,
{
    let mut r = owned(a);
    r.append(b);
    r
}

/// Concatenation of three strings.
pub fn concat3(a: &str, b: &str, c: &str) -> (r: String)
    ensures
        r@ == a@ + b@ + c@,
{
    let mut r = concat2(a, b);
    r.append(c);
    r
}

/// The ASCII digit character for `d < 10`.
pub open spec fn digit_char(d: nat) -> char {
    ((48 + d) as u8) as char
}

/// Decimal rendering of a natural number, most significant digit first.
pub open spec fn decimal(n: nat) -> Seq<char>
    decreases n,
{
    if n < 10 {
        seq![digit_char(n)]
    } else {
        decimal(n / 10).push(digit_char(n % 10))
    }
}

/// Decimal text of `n`, as `{}` formatting prints it.
pub fn u64_to_decimal(n: u64) -> (s: String)
    ensures
        s@ == decimal(n as nat),
    decreases n,
{
    let d: u8 = (n % 10) as u8;
    let c: char = (48u8 + d) as char;
    if n < 10 {
        let mut s = String::new();
        push_char(&mut s, c);
        s
    } else {
        let mut s = u64_to_decimal(n / 10);
        push_char(&mut s, c);
        s
    }
}

/// Decimal text of a signed number (`-` before the digits of a negative one).
pub open spec fn signed_decimal(n: int) -> Seq<char> {
    if n < 0 {
        seq!['-'] + decimal((-n) as nat)
    } else {
        decimal(n as nat)
    }
}

/// Decimal text of `n`, as `{}` formatting prints it.
pub fn i64_to_decimal(n: i64) -> (s: String)
    ensures
        s@ == signed_decimal(n as int),
{
    if n < 0 {
        let m: u64 = if n == i64::MIN {
            9223372036854775808u64
        } else {
            (-n) as u64
        };
        let digits = u64_to_decimal(m);
        let mut s = String::new();
        push_char(&mut s, '-');
        s.append(digits.as_str());
        s
    } else {
        u64_to_decimal(n as u64)
    }
}

/// Whether `c` is an ASCII decimal digit.
pub open spec fn is_digit(c: char) -> bool {
    '0' <= c <= '9'
}

/// Value of the decimal digit string `ds` (every element a digit).
pub open spec fn digits_value(ds: Seq<char>) -> nat
    decreases ds.len(),
{
    if ds.len() == 0 {
        0
    } else {
        digits_value(ds.drop_last()) * 10 + ((ds.last() as u32) - 48) as nat
    }
}

/// `s` without one leading `+`.
pub open spec fn unsigned_digits_part(s: Seq<char>) -> Seq<char> {
    if s.len() > 0 && s[0] == '+' {
        s.drop_first()
    } else {
        s
    }
}

/// Every element of `ds` is an ASCII digit.
pub open spec fn all_digits(ds: Seq<char>) -> bool {
    forall|i: int| 0 <= i < ds.len() ==> is_digit(#[trigger] ds[i])
}

/// What `str::parse::<u64>` returns for `s`: an optional `+`, then at least
/// one ASCII digit and nothing else, whose value fits in a `u64`.
pub open spec fn parse_u64_spec(s: Seq<char>) -> Option<u64> {
    let ds = unsigned_digits_part(s);
    if ds.len() > 0 && all_digits(ds) && digits_value(ds) <= u64::MAX {
        Some(digits_value(ds) as u64)
    } else {
        None
    }
}

proof fn lemma_digits_value_push(ds: Seq<char>, c: char)
    ensures
        digits_value(ds.push(c)) == digits_value(ds) * 10 + ((c as u32) - 48) as nat,
{
    assert(ds.push(c).drop_last() =~= ds);
}

/// Parses decimal text as `str::parse::<u64>` does.
pub fn parse_u64(s: &Vec<char>) -> (r: Option<u64>)
    ensures
        r == parse_u64_spec(s@),
{
    let start: usize = if s.len() > 0 && s[0] == '+' {
        1
    } else {
        0
    };
    let ghost ds = unsigned_digits_part(s@);
    assert(ds =~= s@.subrange(start as int, s@.len() as int));
    if start >= s.len() {
        return None;
    }
    let mut acc: u64 = 0;
    let mut i: usize = start;
    while i < s.len()
        invariant
            start <= i <= s@.len(),
            ds == unsigned_digits_part(s@),
            ds =~= s@.subrange(start as int, s@.len() as int),
            forall|j: int| start <= j < i ==> is_digit(#[trigger] s@[j]),
            acc as nat == digits_value(s@.subrange(start as int, i as int)),
        decreases s.len() - i,
    {
        let c = s[i];
        proof {
            lemma_digits_value_push(s@.subrange(start as int, i as int), c);
            assert(s@.subrange(start as int, i + 1) =~= s@.subrange(start as int, i as int).push(c));
        }
        if !('0' <= c && c <= '9') {
            assert(ds[(i - start) as int] == c);
            assert(!is_digit(ds[(i - start) as int]));
            assert(!all_digits(ds));
            assert(parse_u64_spec(s@) is None);
            return None;
        }
        let d: u64 = (c as u32 - 48) as u64;
        if acc > 1844674407370955161u64 || (acc == 1844674407370955161u64 && d > 5) {
            proof {
                assert(ds.take((i + 1 - start) as int) =~= s@.subrange(start as int, i + 1));
                lemma_prefix_value_bound(ds, (i + 1 - start) as nat);
                assert(digits_value(s@.subrange(start as int, i + 1)) == acc * 10 + d);
                assert(digits_value(ds) > u64::MAX);
                assert(parse_u64_spec(s@) is None);
            }
            return None;
        }
        acc = acc * 10 + d;
        i = i + 1;
    }
    assert(s@.subrange(start as int, s@.len() as int) =~= ds);
    Some(acc)
}

/// A digit string is worth at least as much as any of its prefixes.
proof fn lemma_prefix_value_bound(ds: Seq<char>, k: nat)
    requires
        k <= ds.len(),
    ensures
        digits_value(ds) >= digits_value(ds.take(k as int)),
    decreases ds.len() - k,
{
    if k < ds.len() {
        lemma_prefix_value_bound(ds, k + 1);
        assert(ds.take((k + 1) as int) =~= ds.take(k as int).push(ds[k as int]));
        lemma_digits_value_push(ds.take(k as int), ds[k as int]);
    } else {
        assert(ds.take(k as int) =~= ds);
    }
}

/// Whether `c` has the Unicode `White_Space` property (what `str::trim` removes).
pub open spec fn is_whitespace(c: char) -> bool {
    ||| c == ' ' || c == '\t' || c == '\n' || c == '\r'
    ||| c == '\u{0B}' || c == '\u{0C}'
    ||| c == '\u{85}' || c == '\u{A0}' || c == '\u{1680}'
    ||| ('\u{2000}' <= c && c <= '\u{200A}')
    ||| c == '\u{2028}' || c == '\u{2029}' || c == '\u{202F}' || c == '\u{205F}' || c == '\u{3000}'
}

/// Executable `is_whitespace`.
pub fn char_is_whitespace(c: char) -> (b: bool)
    ensures
        b == is_whitespace(c),
{
    c == ' ' || c == '\t' || c == '\n' || c == '\r' || c == '\u{0B}' || c == '\u{0C}'
        || c == '\u{85}' || c == '\u{A0}' || c == '\u{1680}' || ('\u{2000}' <= c && c
        <= '\u{200A}') || c == '\u{2028}' || c == '\u{2029}' || c == '\u{202F}' || c
        == '\u{205F}' || c == '\u{3000}'
}

/// Start of `s` without its leading whitespace.
pub open spec fn trim_start_index(s: Seq<char>) -> int
    decreases s.len(),
{
    if s.len() > 0 && is_whitespace(s[0]) {
        1 + trim_start_index(s.drop_first())
    } else {
        0
    }
}

/// End of `s` without its trailing whitespace.
pub open spec fn trim_end_index(s: Seq<char>) -> int
    decreases s.len(),
{
    if s.len() > 0 && is_whitespace(s.last()) {
        trim_end_index(s.drop_last())
    } else {
        s.len() as int
    }
}

/// `s` without leading and trailing whitespace, as `str::trim` gives it.
pub open spec fn trimmed(s: Seq<char>) -> Seq<char> {
    let e = trim_end_index(s);
    let b = trim_start_index(s.take(e));
    s.subrange(b, e)
}

proof fn lemma_trim_end_bounds(s: Seq<char>)
    ensures
        0 <= trim_end_index(s) <= s.len(),
    decreases s.len(),
{
    if s.len() > 0 && is_whitespace(s.last()) {
        lemma_trim_end_bounds(s.drop_last());
    }
}

proof fn lemma_trim_start_bounds(s: Seq<char>)
    ensures
        0 <= trim_start_index(s) <= s.len(),
    decreases s.len(),
{
    if s.len() > 0 && is_whitespace(s[0]) {
        lemma_trim_start_bounds(s.drop_first());
    }
}

/// `s` with surrounding whitespace removed.
pub fn trim(s: &Vec<char>) -> (r: Vec<char>)
    ensures
        r@ == trimmed(s@),
{
    let mut e: usize = s.len();
    proof {
        lemma_trim_end_bounds(s@);
        assert(s@.take(e as int) =~= s@);
    }
    while e > 0 && char_is_whitespace(s[e - 1])
        invariant
            0 <= e <= s@.len(),
            trim_end_index(s@) == trim_end_index(s@.take(e as int)),
        decreases e,
    {
        assert(s@.take(e as int).drop_last() =~= s@.take(e - 1));
        e = e - 1;
    }
    assert(trim_end_index(s@.take(e as int)) == e as int);
    let mut b: usize = 0;
    proof {
        lemma_trim_start_bounds(s@.take(e as int));
    }
    while b < e && char_is_whitespace(s[b])
        invariant
            0 <= b <= e <= s@.len(),
            trim_start_index(s@.take(e as int)) == b + trim_start_index(s@.subrange(b as int, e as int)),
        decreases e - b,
    {
        assert(s@.subrange(b as int, e as int).drop_first() =~= s@.subrange(b + 1, e as int));
        b = b + 1;
    }
    assert(trim_start_index(s@.subrange(b as int, e as int)) == 0);
    let mut r: Vec<char> = Vec::new();
    let mut i: usize = b;
    while i < e
        invariant
            b <= i <= e <= s@.len(),
            r@ == s@.subrange(b as int, i as int),
        decreases e - i,
    {
        r.push(s[i]);
        i = i + 1;
    }
    r
}

/// `s` with surrounding whitespace removed, as a new `String`.
pub fn trim_str(s: &str) -> (r: String)
    ensures
        r@ == trimmed(s@),
{
    let cs = chars_of(s);
    let t = trim(&cs);
    string_from_chars(&t)
}

/// Strict lexicographic order of character sequences by code point
/// (the order of `String`'s `Ord`).
pub open spec fn seq_lt(a: Seq<char>, b: Seq<char>) -> bool
    decreases a.len(),
{
    if a.len() == 0 {
        b.len() > 0
    } else if b.len() == 0 {
        false
    } else if a[0] != b[0] {
        (a[0] as u32) < (b[0] as u32)
    } else {
        seq_lt(a.drop_first(), b.drop_first())
    }
}

/// `seq_lt` is irreflexive.
pub proof fn lemma_seq_lt_irreflexive(a: Seq<char>)
    ensures
        !seq_lt(a, a),
    decreases a.len(),
{
    if a.len() > 0 {
        lemma_seq_lt_irreflexive(a.drop_first());
    }
}

/// `seq_lt` is a strict total order: exactly one of `a < b`, `a == b`, `b < a`.
pub proof fn lemma_seq_lt_trichotomy(a: Seq<char>, b: Seq<char>)
    ensures
        a == b || seq_lt(a, b) || seq_lt(b, a),
        !(seq_lt(a, b) && seq_lt(b, a)),
        seq_lt(a, b) ==> a != b,
    decreases a.len(),
{
    lemma_seq_lt_irreflexive(a);
    if a.len() > 0 && b.len() > 0 {
        if a[0] == b[0] {
            lemma_seq_lt_trichotomy(a.drop_first(), b.drop_first());
            if a.drop_first() == b.drop_first() {
                assert(a =~= seq![a[0]] + a.drop_first());
                assert(b =~= seq![b[0]] + b.drop_first());
            }
        } else {
            vstd::utf8::char_u32_cast(a[0], a[0] as u32);
            vstd::utf8::char_u32_cast(b[0], b[0] as u32);
        }
    } else if a.len() == 0 && b.len() == 0 {
        assert(a =~= b);
    }
}

/// `seq_lt` is transitive.
pub proof fn lemma_seq_lt_transitive(a: Seq<char>, b: Seq<char>, c: Seq<char>)
    requires
        seq_lt(a, b),
        seq_lt(b, c),
    ensures
        seq_lt(a, c),
    decreases a.len(),
{
    if a.len() > 0 && b.len() > 0 && c.len() > 0 {
        if a[0] == b[0] && b[0] == c[0] {
            lemma_seq_lt_transitive(a.drop_first(), b.drop_first(), c.drop_first());
        }
    }
}

/// Strict `seq_lt` order of `a` against `b`.
pub fn chars_lt(a: &Vec<char>, b: &Vec<char>) -> (r: bool)
    ensures
        r == seq_lt(a@, b@),
{
    let mut i: usize = 0;
    assert(a@.skip(0) =~= a@);
    assert(b@.skip(0) =~= b@);
    while i < a.len() && i < b.len()
        invariant
            i <= a@.len(),
            i <= b@.len(),
            seq_lt(a@, b@) == seq_lt(a@.skip(i as int), b@.skip(i as int)),
        decreases a.len() - i,
    {
        let x = a[i];
        let y = b[i];
        assert(a@.skip(i as int)[0] == x);
        assert(b@.skip(i as int)[0] == y);
        if x != y {
            return (x as u32) < (y as u32);
        }
        assert(a@.skip(i as int).drop_first() =~= a@.skip(i + 1));
        assert(b@.skip(i as int).drop_first() =~= b@.skip(i + 1));
        i = i + 1;
    }
    i >= a.len() && i < b.len()
}

/// Elements of `s` strictly increase under `seq_lt` (so none repeats).
pub open spec fn strictly_sorted(s: Seq<Seq<char>>) -> bool {
    forall|i: int, j: int| 0 <= i < j < s.len() ==> seq_lt(#[trigger] s[i], #[trigger] s[j])
}

/// Inserts `x` into the strictly sorted `v` unless it is already there.
pub fn insert_sorted_unique(v: &mut Vec<Vec<char>>, x: Vec<char>)
    requires
        strictly_sorted(old(v).deep_view()),
    ensures
        strictly_sorted(final(v).deep_view()),
        final(v).deep_view().to_set() == old(v).deep_view().to_set().insert(x@),
{
    let ghost dv = v.deep_view();
    let mut k: usize = 0;
    while k < v.len() && chars_lt(&v[k], &x)
        invariant
            k <= v@.len(),
            v.deep_view() == dv,
            forall|j: int| 0 <= j < k ==> seq_lt(#[trigger] dv[j], x@),
        decreases v.len() - k,
    {
        assert(dv[k as int] == v@[k as int]@) by {
            assert(v@[k as int].deep_view() =~= v@[k as int]@);
        }
        k = k + 1;
    }
    if k < v.len() {
        assert(dv[k as int] == v@[k as int]@) by {
            assert(v@[k as int].deep_view() =~= v@[k as int]@);
        }
        if chars_eq_vec(&v[k], &x) {
            proof {
                assert(dv.to_set().insert(x@) =~= dv.to_set()) by {
                    assert(dv.contains(x@)) by { assert(dv[k as int] == x@); }
                }
            }
            return;
        }
        proof {
            lemma_seq_lt_trichotomy(x@, dv[k as int]);
        }
    }
    let ghost xv = x@;
    assert(x.deep_view() =~= x@);
    v.insert(k, x);
    proof {
        let nv = v.deep_view();
        assert(nv =~= dv.insert(k as int, xv));
        assert forall|i: int, j: int| 0 <= i < j < nv.len() implies seq_lt(#[trigger] nv[i], #[trigger] nv[j]) by {
            if j < k {
            } else if j == k {
                assert(nv[i] == dv[i]);
            } else if i == k {
                assert(nv[j] == dv[j - 1]);
                if j - 1 > k {
                    assert(seq_lt(dv[k as int], dv[j - 1]));
                    lemma_seq_lt_transitive(xv, dv[k as int], dv[j - 1]);
                }
            } else if i < k {
                assert(nv[i] == dv[i]);
                assert(nv[j] == dv[j - 1]);
                if i < j - 1 {
                } else {
                }
                assert(seq_lt(dv[i], dv[j - 1]) || i == j - 1);
            } else {
                assert(nv[i] == dv[i - 1]);
                assert(nv[j] == dv[j - 1]);
            }
        }
        assert(nv.to_set() =~= dv.to_set().insert(xv)) by {
            assert forall|y: Seq<char>| nv.to_set().contains(y) <==> dv.to_set().insert(xv).contains(y) by {
                if nv.contains(y) {
                    let i = choose|i: int| 0 <= i < nv.len() && nv[i] == y;
                    if i < k {
                        assert(dv[i] == y);
                    } else if i > k {
                        assert(dv[i - 1] == y);
                    }
                }
                if dv.contains(y) {
                    let i = choose|i: int| 0 <= i < dv.len() && dv[i] == y;
                    if i < k {
                        assert(nv[i] == y);
                    } else {
                        assert(nv[i + 1] == y);
                    }
                }
                if y == xv {
                    assert(nv[k as int] == y);
                }
            }
        }
    }
}

fn chars_eq_vec(a: &Vec<char>, b: &Vec<char>) -> (r: bool)
    ensures
        r == (a@ == b@),
{
    let lt = chars_lt(a, b);
    let gt = chars_lt(b, a);
    proof {
        lemma_seq_lt_trichotomy(a@, b@);
        lemma_seq_lt_irreflexive(a@);
    }
    !lt && !gt
}

/// Values ordered by a text key.
pub trait Keyed: Sized {
    /// The key's text.
    spec fn key(&self) -> Seq<char>;

    /// The key's characters.
    fn key_chars(&self) -> (k: Vec<char>)
        ensures
            k@ == self.key(),
    ;
}

/// Keys never decrease along `s`.
pub open spec fn sorted_by_key<T: Keyed>(s: Seq<T>) -> bool {
    forall|i: int, j: int| 0 <= i < j < s.len() ==> !seq_lt(#[trigger] s[j].key(), #[trigger] s[i].key())
}

/// Stable sort by key (as `sort_by` on the key's `cmp`).
pub fn sort_by_key<T: Keyed>(v: Vec<T>) -> (r: Vec<T>)
    ensures
        sorted_by_key(r@),
        r@.to_multiset() == v@.to_multiset(),
{
    broadcast use vstd::seq_lib::group_to_multiset_ensures;
    let mut v = v;
    let ghost orig = v@;
    let mut r: Vec<T> = Vec::new();
    assert(r@.to_multiset() =~= Multiset::<T>::empty());
    while v.len() > 0
        invariant
            sorted_by_key(r@),
            r@.to_multiset().add(v@.to_multiset()) == orig.to_multiset(),
        decreases v.len(),
    {
        let ghost pre_v = v@;
        let x = v.pop().unwrap();
        proof {
            assert(pre_v =~= v@.push(x));
            vstd::seq_lib::to_multiset_build(v@, x);
        }
        let xk = x.key_chars();
        let mut k: usize = 0;
        while k < r.len() && chars_lt(&r[k].key_chars(), &xk)
            invariant
                k <= r@.len(),
                xk@ == x.key(),
                forall|j: int| 0 <= j < k ==> seq_lt(#[trigger] r@[j].key(), x.key()),
            decreases r.len() - k,
        {
            k = k + 1;
        }
        let ghost pre_r = r@;
        proof {
            if k < pre_r.len() {
                lemma_seq_lt_trichotomy(pre_r[k as int].key(), x.key());
            }
        }
        r.insert(k, x);
        proof {
            vstd::seq_lib::to_multiset_insert(pre_r, k as int, x);
            assert(r@ =~= pre_r.insert(k as int, x));
            assert forall|i: int, j: int| 0 <= i < j < r@.len() implies !seq_lt(#[trigger] r@[j].key(), #[trigger] r@[i].key()) by {
                if i < k && j == k {
                    assert(r@[i] == pre_r[i]);
                    lemma_seq_lt_trichotomy(pre_r[i].key(), x.key());
                } else if i < k && j > k {
                    assert(r@[i] == pre_r[i]);
                    assert(r@[j] == pre_r[j - 1]);
                } else if i == k {
                    assert(r@[j] == pre_r[j - 1]);
                    if seq_lt(pre_r[j - 1].key(), x.key()) {
                        if j - 1 > k {
                            assert(!seq_lt(pre_r[j - 1].key(), pre_r[k as int].key()));
                            lemma_seq_lt_trichotomy(pre_r[j - 1].key(), pre_r[k as int].key());
                            if pre_r[k as int].key() != pre_r[j - 1].key() {
                                lemma_seq_lt_transitive(pre_r[k as int].key(), pre_r[j - 1].key(), x.key());
                            }
                        }
                    }
                } else if i > k {
                    assert(r@[i] == pre_r[i - 1]);
                    assert(r@[j] == pre_r[j - 1]);
                } else {
                    assert(r@[i] == pre_r[i]);
                    assert(r@[j] == pre_r[j]);
                }
            }
            assert(r@.to_multiset().add(v@.to_multiset()) =~= orig.to_multiset());
        }
    }
    assert(v@.to_multiset() =~= Multiset::<T>::empty());
    assert(r@.to_multiset().add(Multiset::<T>::empty()) =~= r@.to_multiset());
    r
}

} // verus!
