//! Small shared helpers: shell quoting and random short ids.
use vstd::prelude::*;
use crate::text::{chars_of, push_char, push_str};

verus! {

/// The text between the quotes of a single-quoted shell word: each `'`
/// becomes `'"'"'` (close, double-quoted quote, reopen).
pub open spec fn quote_body(s: Seq<char>) -> Seq<char>
    decreases s.len(),
{
    if s.len() == 0 {
        seq![]
    } else {
        quote_body(s.drop_last()) + if s.last() == '\'' {
            seq!['\'', '"', '\'', '"', '\'']
        } else {
            seq![s.last()]
        }
    }
}

/// `s` as one single-quoted word for `bash -c` scripts.
pub open spec fn shell_quoted(s: Seq<char>) -> Seq<char> {
    seq!['\''] + quote_body(s) + seq!['\'']
}

/// Where a shell is, reading a word left to right, and the word's value so
/// far. Only quoted text is modelled: an unquoted character other than a
/// quote, or a `$`, backquote or backslash inside double quotes, leaves the
/// model (`Unmodelled`).
pub enum ShellRead {
    Unquoted(Seq<char>),
    InSingleQuotes(Seq<char>),
    InDoubleQuotes(Seq<char>),
    Unmodelled,
}

/// One character of the word read in state `st` (POSIX shell quoting:
/// everything up to the closing `'` is literal; inside `"` every character
/// but `$`, backquote, backslash and the closing `"` is literal).
pub open spec fn shell_step(st: ShellRead, c: char) -> ShellRead {
    match st {
        ShellRead::Unquoted(v) => if c == '\'' {
            ShellRead::InSingleQuotes(v)
        } else if c == '"' {
            ShellRead::InDoubleQuotes(v)
        } else {
            ShellRead::Unmodelled
        },
        ShellRead::InSingleQuotes(v) => if c == '\'' {
            ShellRead::Unquoted(v)
        } else {
            ShellRead::InSingleQuotes(v.push(c))
        },
        ShellRead::InDoubleQuotes(v) => if c == '"' {
            ShellRead::Unquoted(v)
        } else if c == '$' || c == '`' || c == '\\' {
            ShellRead::Unmodelled
        } else {
            ShellRead::InDoubleQuotes(v.push(c))
        },
        ShellRead::Unmodelled => ShellRead::Unmodelled,
    }
}

/// The state after reading `t` from `st`.
pub open spec fn shell_read(st: ShellRead, t: Seq<char>) -> ShellRead
    decreases t.len(),
{
    if t.len() == 0 {
        st
    } else {
        shell_step(shell_read(st, t.drop_last()), t.last())
    }
}

proof fn lemma_shell_read_concat(st: ShellRead, a: Seq<char>, b: Seq<char>)
    ensures
        shell_read(st, a + b) == shell_read(shell_read(st, a), b),
    decreases b.len(),
{
    if b.len() == 0 {
        assert(a + b =~= a);
    } else {
        lemma_shell_read_concat(st, a, b.drop_last());
        assert((a + b).drop_last() =~= a + b.drop_last());
        assert((a + b).last() == b.last());
    }
}

proof fn lemma_quote_body_read(s: Seq<char>)
    ensures
        shell_read(ShellRead::InSingleQuotes(seq![]), quote_body(s)) == ShellRead::InSingleQuotes(s),
    decreases s.len(),
{
    if s.len() > 0 {
        let st = ShellRead::InSingleQuotes(seq![]);
        lemma_quote_body_read(s.drop_last());
        let piece = if s.last() == '\'' { seq!['\'', '"', '\'', '"', '\''] } else { seq![s.last()] };
        lemma_shell_read_concat(st, quote_body(s.drop_last()), piece);
        let mid = ShellRead::InSingleQuotes(s.drop_last());
        if s.last() == '\'' {
            assert(shell_read(mid, piece.take(1)) == ShellRead::Unquoted(s.drop_last())) by {
                assert(piece.take(1).drop_last() =~= seq![]);
                assert(piece.take(1).last() == piece[0]);
                assert(shell_read(mid, piece.take(1).drop_last()) == shell_read(mid, seq![]));
            }
            assert(shell_read(mid, piece.take(2)) == ShellRead::InDoubleQuotes(s.drop_last())) by {
                assert(piece.take(2).drop_last() =~= piece.take(1));
                assert(piece.take(2).last() == piece[1]);
                assert(shell_read(mid, piece.take(2).drop_last()) == shell_read(mid, piece.take(1)));
            }
            assert(shell_read(mid, piece.take(3)) == ShellRead::InDoubleQuotes(s.drop_last().push('\''))) by {
                assert(piece.take(3).drop_last() =~= piece.take(2));
                assert(piece.take(3).last() == piece[2]);
                assert(shell_read(mid, piece.take(3).drop_last()) == shell_read(mid, piece.take(2)));
            }
            assert(shell_read(mid, piece.take(4)) == ShellRead::Unquoted(s.drop_last().push('\''))) by {
                assert(piece.take(4).drop_last() =~= piece.take(3));
                assert(piece.take(4).last() == piece[3]);
                assert(shell_read(mid, piece.take(4).drop_last()) == shell_read(mid, piece.take(3)));
            }
            assert(shell_read(mid, piece) == ShellRead::InSingleQuotes(s.drop_last().push('\''))) by {
                assert(piece.drop_last() =~= piece.take(4));
                assert(piece.last() == '\'');
            }
        } else {
            assert(piece.drop_last() =~= seq![]);
            assert(piece.last() == s.last());
            assert(shell_read(mid, piece.drop_last()) == mid);
            assert(shell_read(mid, piece) == ShellRead::InSingleQuotes(s.drop_last().push(s.last())));
        }
        assert(s.drop_last().push(s.last()) =~= s);
        assert(quote_body(s) == quote_body(s.drop_last()) + piece);
    } else {
        assert(s =~= Seq::<char>::empty());
    }
}

/// A shell reads `shell_quoted(s)` back as exactly `s`: the text is one
/// word made of quoted parts only, and its value is `s`.
pub proof fn shell_quote_reads_back(s: Seq<char>)
    ensures
        shell_read(ShellRead::Unquoted(seq![]), shell_quoted(s)) == ShellRead::Unquoted(s),
{
    let st = ShellRead::Unquoted(seq![]);
    let open = seq!['\''];
    lemma_shell_read_concat(st, open + quote_body(s), seq!['\'']);
    lemma_shell_read_concat(st, open, quote_body(s));
    assert(open.drop_last() =~= seq![]);
    assert(open.last() == '\'');
    assert(shell_read(st, open.drop_last()) == st);
    assert(shell_read(st, open) == ShellRead::InSingleQuotes(seq![]));
    lemma_quote_body_read(s);
    let close = seq!['\''];
    let inner = shell_read(st, open + quote_body(s));
    assert(inner == ShellRead::InSingleQuotes(s));
    assert(close.drop_last() =~= Seq::<char>::empty());
    assert(close.last() == '\'');
    assert(shell_read(inner, close.drop_last()) == inner);
    assert(shell_read(inner, close) == ShellRead::Unquoted(s));
    assert(shell_quoted(s) == open + quote_body(s) + close);
}

/// Single-quotes `s` for `sh -c` / mount scripts.
pub fn shell_quote(s: &str) -> (r: String)
    ensures
        r@ == shell_quoted(s@),
{
    let cs = chars_of(s);
    let mut r = String::new();
    push_char(&mut r, '\'');
    let mut i: usize = 0;
    while i < cs.len()
        invariant
            i <= cs@.len(),
            r@ == seq!['\''] + quote_body(cs@.take(i as int)),
        decreases cs.len() - i,
    {
        let c = cs[i];
        proof {
            assert(cs@.take(i + 1).drop_last() =~= cs@.take(i as int));
        }
        if c == '\'' {
            push_str(&mut r, "'\"'\"'");
            proof {
                reveal_strlit("'\"'\"'");
            }
        } else {
            push_char(&mut r, c);
        }
        assert(r@ =~= seq!['\''] + quote_body(cs@.take(i + 1)));
        i = i + 1;
    }
    push_char(&mut r, '\'');
    assert(cs@.take(cs@.len() as int) =~= s@);
    r
}

/// Lowercase hexadecimal digit for `d < 16`.
pub open spec fn hex_digit(d: nat) -> char {
    if d < 10 {
        ((48 + d) as u8) as char
    } else {
        ((87 + d) as u8) as char
    }
}

/// Two lowercase hex digits per byte, high nibble first.
pub open spec fn hex_of(bytes: Seq<u8>) -> Seq<char>
    decreases bytes.len(),
{
    if bytes.len() == 0 {
        seq![]
    } else {
        hex_of(bytes.drop_last()) + seq![
            hex_digit((bytes.last() / 16) as nat),
            hex_digit((bytes.last() % 16) as nat),
        ]
    }
}

fn hex_digit_exec(d: u8) -> (c: char)
    requires
        d < 16,
    ensures
        c == hex_digit(d as nat),
{
    if d < 10 {
        (48u8 + d) as char
    } else {
        (87u8 + d) as char
    }
}

/// Lowercase hex of the first `n` bytes.
pub fn hex_prefix(bytes: &Vec<u8>, n: usize) -> (s: String)
    requires
        n <= bytes@.len(),
    ensures
        s@ == hex_of(bytes@.take(n as int)),
        s@.len() == 2 * n,
{
    let mut s = String::new();
    let mut i: usize = 0;
    while i < n
        invariant
            i <= n <= bytes@.len(),
            s@ == hex_of(bytes@.take(i as int)),
            s@.len() == 2 * i,
        decreases n - i,
    {
        let b = bytes[i];
        proof {
            assert(bytes@.take(i + 1).drop_last() =~= bytes@.take(i as int));
        }
        push_char(&mut s, hex_digit_exec(b / 16));
        push_char(&mut s, hex_digit_exec(b % 16));
        assert(s@ =~= hex_of(bytes@.take(i + 1)));
        i = i + 1;
    }
    s
}

/// The sixteen bytes of a fresh random UUID (`uuid::Uuid::new_v4`, then
/// `as_bytes`). Claimed: there are sixteen, byte 6 carries version 4 in its
/// high nibble and byte 8 the standard variant (`10`) in its top bits, as
/// `new_v4` masks them; the other bits are random and nothing is said of
/// them. (`uuid` panics only when the system's random source fails.)
#[verifier::external_body]
fn uuid_v4_bytes() -> (v: Vec<u8>)
    ensures
        v@.len() == 16,
        v@[6] / 16 == 4,
        v@[8] / 64 == 2,
{
    uuid::Uuid::new_v4().as_bytes().to_vec()
}

/// Twelve lowercase hex characters from a fresh random UUID (its first six bytes).
pub fn short_id() -> (s: String)
    ensures
        s@.len() == 12,
        exists|b: Seq<u8>| b.len() == 6 && s@ == hex_of(b),
{
    let bytes = uuid_v4_bytes();
    let s = hex_prefix(&bytes, 6);
    s
}

/// The current UTC time as RFC 3339 text with `Z` (how `chrono`'s serde
/// writes `DateTime<Utc>`): `chrono::Utc::now().to_rfc3339_opts(AutoSi,
/// true)`. Claimed: the text ends in `Z` (the offset of `Utc` is zero and
/// `use_z` is set, so chrono writes `Z` in place of an offset). The date and
/// time in it come from the clock, so nothing is claimed of them.
#[verifier::external_body]
pub(crate) fn timestamp_now() -> (s: String)
    ensures
        s@.len() > 0,
        s@.last() == 'Z',
{
    chrono::Utc::now().to_rfc3339_opts(chrono::SecondsFormat::AutoSi, true)
}

/// Whole seconds from the RFC 3339 time `ts` to now
/// (`chrono::DateTime::parse_from_rfc3339`, then `Utc::now()` minus it,
/// `num_seconds`); `None` when `ts` does not parse. It reads the clock, so
/// nothing is claimed of the number.
#[verifier::external_body]
pub(crate) fn seconds_since(ts: &str) -> (r: Option<i64>)
{
    match chrono::DateTime::parse_from_rfc3339(ts) {
        Ok(t) => Some(chrono::Utc::now().signed_duration_since(t).num_seconds()),
        Err(_) => None,
    }
}

} // verus!
