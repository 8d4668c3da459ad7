//! Mountpoint detection from `/proc/self/mountinfo` text.
use vstd::prelude::*;
use crate::text::{chars_of, push_char, string_from_chars};
use vstd::string::StringSliceAdditionalSpecFns;

verus! {

/// Number of spaces in `s`.
pub open spec fn space_count(s: Seq<char>) -> nat
    decreases s.len(),
{
    if s.len() == 0 {
        0
    } else {
        space_count(s.drop_last()) + if s.last() == ' ' {
            1nat
        } else {
            0nat
        }
    }
}

/// The part of field `k` (fields separated by single spaces, as `split(' ')`
/// makes them) that lies within `s`.
pub open spec fn space_field(s: Seq<char>, k: nat) -> Seq<char>
    decreases s.len(),
{
    if s.len() == 0 {
        seq![]
    } else if s.last() != ' ' && space_count(s.drop_last()) == k {
        space_field(s.drop_last(), k).push(s.last())
    } else {
        space_field(s.drop_last(), k)
    }
}

/// Whether `b` is an ASCII octal digit.
pub open spec fn octal_digit(b: u8) -> bool {
    48 <= b <= 55
}

/// What `u8::from_str_radix(_, 8)` gives for the three bytes `a b c`.
pub open spec fn octal3(a: u8, b: u8, c: u8) -> Option<u8> {
    if a == 43 {
        if octal_digit(b) && octal_digit(c) {
            Some(((b - 48) * 8 + (c - 48)) as u8)
        } else {
            None
        }
    } else if octal_digit(a) && octal_digit(b) && octal_digit(c) && (a - 48) * 64 + (b - 48) * 8
        + (c - 48) <= 255 {
        Some(((a - 48) * 64 + (b - 48) * 8 + (c - 48)) as u8)
    } else {
        None
    }
}

/// Decoding of mountinfo octal escapes, byte by byte: `\ooo` becomes the
/// character with that code, every other byte the character with the byte's
/// value.
pub open spec fn unescape_bytes(b: Seq<u8>) -> Seq<char>
    decreases b.len(),
{
    if b.len() == 0 {
        seq![]
    } else if b[0] == 92 && 3 < b.len() && octal3(b[1], b[2], b[3]) is Some {
        seq![(octal3(b[1], b[2], b[3])->0) as char] + unescape_bytes(b.skip(4))
    } else {
        seq![b[0] as char] + unescape_bytes(b.skip(1))
    }
}

/// The text of a mountinfo path field with its escapes decoded; a field
/// without a backslash is returned as it is.
pub open spec fn unescaped(s: Seq<char>) -> Seq<char> {
    if s.contains('\\') {
        unescape_bytes(vstd::utf8::encode_utf8(s))
    } else {
        s
    }
}

/// Each backslash followed by three more bytes has those three bytes end on a
/// character boundary (the decoder slices them out as text).
pub open spec fn escapes_sliceable(b: Seq<u8>) -> bool {
    forall|i: int|
        0 <= i && i + 4 < b.len() && #[trigger] b[i] == 92 ==> !(0x80 <= b[i + 4] && b[i + 4]
            < 0xC0)
}

/// Mount point (fifth space-separated field, escapes decoded) of a mountinfo line.
pub open spec fn mount_point_of(line: Seq<char>) -> Option<Seq<char>> {
    if space_count(line) >= 4 {
        Some(unescaped(space_field(line, 4)))
    } else {
        None
    }
}

/// The line is one whose mount point field the decoder can read.
pub open spec fn line_decodable(line: Seq<char>) -> bool {
    space_count(line) >= 4 ==> escapes_sliceable(vstd::utf8::encode_utf8(space_field(line, 4)))
}

fn octal3_exec(a: u8, b: u8, c: u8) -> (r: Option<u8>)
    ensures
        r == octal3(a, b, c),
{
    if a == 43 {
        if 48 <= b && b <= 55 && 48 <= c && c <= 55 {
            Some((b - 48) * 8 + (c - 48))
        } else {
            None
        }
    } else if 48 <= a && a <= 55 && 48 <= b && b <= 55 && 48 <= c && c <= 55 {
        let v: u16 = (a as u16 - 48) * 64 + (b as u16 - 48) * 8 + (c as u16 - 48);
        if v <= 255 {
            Some(v as u8)
        } else {
            None
        }
    } else {
        None
    }
}

/// Decodes the octal escapes (`\040`, `\011`, `\012`, `\134`) that mountinfo
/// uses for space, tab, newline and backslash.
pub fn unescape_mount_path(s: &str) -> (r: String)
    requires
        escapes_sliceable(s.spec_bytes()),
    ensures
        r@ == unescaped(s@),
{
    let cs = chars_of(s);
    let mut has_backslash = false;
    let mut j: usize = 0;
    while j < cs.len()
        invariant
            j <= cs@.len(),
            cs@ == s@,
            has_backslash == cs@.take(j as int).contains('\\'),
        decreases cs.len() - j,
    {
        proof {
            assert(cs@.take(j + 1) == cs@.take(j as int).push(cs@[j as int]));
            if cs@.take(j as int).contains('\\') {
                let k = choose|k: int| 0 <= k < j && cs@.take(j as int)[k] == '\\';
                assert(cs@.take(j + 1)[k] == '\\');
            }
            if cs@[j as int] == '\\' {
                assert(cs@.take(j + 1)[j as int] == '\\');
            }
        }
        if cs[j] == '\\' {
            has_backslash = true;
        }
        j = j + 1;
    }
    assert(cs@.take(cs@.len() as int) == cs@);
    if !has_backslash {
        return string_from_chars(&cs);
    }
    let bytes = s.as_bytes();
    let ghost bs = bytes@;
    let mut out = String::new();
    let mut i: usize = 0;
    assert(bs.skip(0) == bs);
    while i < bytes.len()
        invariant
            bytes@ == bs,
            i <= bs.len(),
            out@ + unescape_bytes(bs.skip(i as int)) == unescape_bytes(bs),
        decreases bytes.len() - i,
    {
        let b = bytes[i];
        if b == 92 && 3 < bytes.len() - i {
            let v = octal3_exec(bytes[i + 1], bytes[i + 2], bytes[i + 3]);
            if let Some(v) = v {
                proof {
                    let t = bs.skip(i as int);
                    assert(t[0] == b && t[1] == bs[i + 1] && t[2] == bs[i + 2] && t[3] == bs[i + 3]);
                    assert(t.skip(4) =~= bs.skip(i + 4));
                }
                push_char(&mut out, v as char);
                proof {
                    assert(out@ + unescape_bytes(bs.skip(i + 4)) =~= unescape_bytes(bs));
                }
                i = i + 4;
                continue;
            }
        }
        proof {
            let t = bs.skip(i as int);
            assert(t[0] == b);
            assert(t.skip(1) =~= bs.skip(i + 1));
            if b == 92 && i + 3 < bs.len() {
                assert(t[1] == bs[i + 1] && t[2] == bs[i + 2] && t[3] == bs[i + 3]);
            }
        }
        push_char(&mut out, b as char);
        proof {
            assert(out@ + unescape_bytes(bs.skip(i + 1)) =~= unescape_bytes(bs));
        }
        i = i + 1;
    }
    proof {
        assert(bs.skip(bs.len() as int) =~= Seq::<u8>::empty());
        assert(out@ + Seq::<char>::empty() =~= out@);
    }
    out
}

proof fn lemma_space_count_bound(s: Seq<char>)
    ensures
        space_count(s) <= s.len(),
    decreases s.len(),
{
    if s.len() > 0 {
        lemma_space_count_bound(s.drop_last());
    }
}

/// Parses the mount point (field 5) from a `/proc/self/mountinfo` line.
pub fn mountinfo_mount_point(line: &str) -> (r: Option<String>)
    requires
        line_decodable(line@),
    ensures
        r matches Some(mp) ==> mount_point_of(line@) == Some(mp@),
        r is None ==> mount_point_of(line@) is None,
{
    let cs = chars_of(line);
    mount_point_chars(&cs)
}

fn mount_point_chars(cs: &Vec<char>) -> (r: Option<String>)
    requires
        line_decodable(cs@),
    ensures
        r matches Some(mp) ==> mount_point_of(cs@) == Some(mp@),
        r is None ==> mount_point_of(cs@) is None,
{
    let mut spaces: usize = 0;
    let mut field: Vec<char> = Vec::new();
    let mut i: usize = 0;
    while i < cs.len()
        invariant
            i <= cs@.len(),
            spaces as nat == space_count(cs@.take(i as int)),
            field@ == space_field(cs@.take(i as int), 4),
        decreases cs.len() - i,
    {
        let c = cs[i];
        proof {
            assert(cs@.take(i + 1).drop_last() == cs@.take(i as int));
            assert(cs@.take(i + 1).last() == c);
            lemma_space_count_bound(cs@.take(i as int));
        }
        if c != ' ' && spaces == 4 {
            field.push(c);
        }
        if c == ' ' {
            spaces = spaces + 1;
        }
        i = i + 1;
    }
    assert(cs@.take(cs@.len() as int) == cs@);
    if spaces < 4 {
        return None;
    }
    let text = string_from_chars(&field);
    Some(unescape_mount_path(text.as_str()))
}

/// Lines of `s` as `str::lines` yields them: split at `\n`, one `\r` before
/// each `\n` dropped, no empty piece after a final `\n`.
pub open spec fn lines_scan(s: Seq<char>) -> (Seq<Seq<char>>, Seq<char>)
    decreases s.len(),
{
    if s.len() == 0 {
        (seq![], seq![])
    } else {
        let (done, cur) = lines_scan(s.drop_last());
        if s.last() == '\n' {
            let line = if cur.len() > 0 && cur.last() == '\r' {
                cur.drop_last()
            } else {
                cur
            };
            (done.push(line), seq![])
        } else {
            (done, cur.push(s.last()))
        }
    }
}

/// The lines of `s` (see `lines_scan`).
pub open spec fn lines_of(s: Seq<char>) -> Seq<Seq<char>> {
    let (done, cur) = lines_scan(s);
    if cur.len() > 0 {
        done.push(cur)
    } else {
        done
    }
}

/// Every line's mount point can be decoded.
pub open spec fn mountinfo_decodable(info: Seq<char>) -> bool {
    forall|i: int| 0 <= i < lines_of(info).len() ==> line_decodable(#[trigger] lines_of(info)[i])
}

/// `target` is the mount point of some line of `info`.
pub open spec fn listed_as_mount_point(info: Seq<char>, target: Seq<char>) -> bool {
    exists|i: int|
        0 <= i < lines_of(info).len() && mount_point_of(#[trigger] lines_of(info)[i]) == Some(
            target,
        )
}

fn line_matches(line: &Vec<char>, target: &str) -> (b: bool)
    requires
        line_decodable(line@),
    ensures
        b == (mount_point_of(line@) == Some(target@)),
{
    match mount_point_chars(line) {
        Some(mp) => mp == owned_str(target),
        None => false,
    }
}

fn owned_str(s: &str) -> (r: String)
    ensures
        r@ == s@,
{
    crate::text::owned(s)
}

proof fn lemma_scan_prefix(s: Seq<char>, j: int)
    requires
        0 <= j <= s.len(),
    ensures
        lines_scan(s.take(j)).0.len() <= lines_of(s).len(),
        forall|k: int|
            0 <= k < lines_scan(s.take(j)).0.len() ==> #[trigger] lines_scan(s.take(j)).0[k]
                == lines_of(s)[k],
        lines_scan(s.take(j)).0.len() <= lines_scan(s).0.len(),
        forall|k: int|
            0 <= k < lines_scan(s.take(j)).0.len() ==> #[trigger] lines_scan(s.take(j)).0[k]
                == lines_scan(s).0[k],
    decreases s.len(),
{
    if j == s.len() {
        assert(s.take(j) =~= s);
    } else {
        let p = s.drop_last();
        assert(s.take(j) =~= p.take(j));
        lemma_scan_prefix(p, j);
    }
}

/// True if `target` (a canonical path) is itself a mount point according to
/// the mountinfo text `mountinfo`.
pub fn is_mounted(target: &str, mountinfo: &str) -> (b: bool)
    requires
        mountinfo_decodable(mountinfo@),
    ensures
        b == listed_as_mount_point(mountinfo@, target@),
{
    let cs = chars_of(mountinfo);
    let mut found = false;
    let mut cur: Vec<char> = Vec::new();
    let mut i: usize = 0;
    let ghost mut done: Seq<Seq<char>> = seq![];
    let ghost info = mountinfo@;
    assert(cs@.take(0) =~= Seq::<char>::empty());
    while i < cs.len()
        invariant
            i <= cs@.len(),
            cs@ == info,
            info == mountinfo@,
            mountinfo_decodable(info),
            lines_scan(cs@.take(i as int)) == (done, cur@),
            found == exists|k: int|
                0 <= k < done.len() && mount_point_of(#[trigger] done[k]) == Some(target@),
        decreases cs.len() - i,
    {
        let c = cs[i];
        proof {
            assert(cs@.take(i + 1).drop_last() =~= cs@.take(i as int));
            assert(cs@.take(i + 1).last() == c);
        }
        if c == '\n' {
            let mut line = cur.clone();
            if line.len() > 0 && line[line.len() - 1] == '\r' {
                line.pop();
            }
            proof {
                assert(line@ =~= (if cur@.len() > 0 && cur@.last() == '\r' {
                    cur@.drop_last()
                } else {
                    cur@
                }));
                lemma_scan_prefix(info, i + 1);
                assert(lines_scan(info.take(i + 1)).0 == done.push(line@));
                assert(lines_scan(info.take(i + 1)).0[done.len() as int] == line@);
                assert(lines_of(info)[done.len() as int] == line@);
                assert(line_decodable(lines_of(info)[done.len() as int]));
            }
            let m = line_matches(&line, target);
            proof {
                let nd = done.push(line@);
                if found {
                    let k = choose|k: int|
                        0 <= k < done.len() && mount_point_of(#[trigger] done[k]) == Some(target@);
                    assert(nd[k] == done[k]);
                }
                if m {
                    assert(nd[done.len() as int] == line@);
                }
                if exists|k: int| 0 <= k < nd.len() && mount_point_of(#[trigger] nd[k]) == Some(target@) {
                    let k = choose|k: int| 0 <= k < nd.len() && mount_point_of(#[trigger] nd[k]) == Some(target@);
                    if k < done.len() {
                        assert(nd[k] == done[k]);
                    }
                }
                done = nd;
            }
            found = found || m;
            cur = Vec::new();
        } else {
            cur.push(c);
        }
        i = i + 1;
    }
    assert(cs@.take(cs@.len() as int) =~= info);
    if cur.len() > 0 {
        proof {
            assert(lines_of(info) == done.push(cur@));
            assert(lines_of(info)[done.len() as int] == cur@);
            assert(line_decodable(lines_of(info)[done.len() as int]));
        }
        let m = line_matches(&cur, target);
        proof {
            let nd = done.push(cur@);
            if found {
                let k = choose|k: int|
                    0 <= k < done.len() && mount_point_of(#[trigger] done[k]) == Some(target@);
                assert(nd[k] == done[k]);
            }
            if m {
                assert(nd[done.len() as int] == cur@);
            }
            if exists|k: int| 0 <= k < nd.len() && mount_point_of(#[trigger] nd[k]) == Some(target@) {
                let k = choose|k: int| 0 <= k < nd.len() && mount_point_of(#[trigger] nd[k]) == Some(target@);
                if k < done.len() {
                    assert(nd[k] == done[k]);
                }
            }
        }
        found = found || m;
    } else {
        assert(lines_of(info) == done);
    }
    found
}

/// Whether the escapes of the bytes can be sliced as text.
fn bytes_escapes_sliceable(b: &[u8]) -> (r: bool)
    ensures
        r == escapes_sliceable(b@),
{
    let mut i: usize = 0;
    while i < b.len()
        invariant
            i <= b@.len(),
            forall|j: int|
                0 <= j < i && j + 4 < b@.len() && #[trigger] b@[j] == 92 ==> !(0x80 <= b@[j + 4] && b@[j + 4] < 0xC0),
        decreases b.len() - i,
    {
        if b[i] == 92 && 4 < b.len() - i && 0x80 <= b[i + 4] && b[i + 4] < 0xC0 {
            return false;
        }
        i = i + 1;
    }
    true
}

fn line_decodable_exec(cs: &Vec<char>) -> (r: bool)
    ensures
        r == line_decodable(cs@),
{
    let mut spaces: usize = 0;
    let mut field: Vec<char> = Vec::new();
    let mut i: usize = 0;
    while i < cs.len()
        invariant
            i <= cs@.len(),
            spaces as nat == space_count(cs@.take(i as int)),
            field@ == space_field(cs@.take(i as int), 4),
        decreases cs.len() - i,
    {
        let c = cs[i];
        proof {
            assert(cs@.take(i + 1).drop_last() == cs@.take(i as int));
            assert(cs@.take(i + 1).last() == c);
            lemma_space_count_bound(cs@.take(i as int));
        }
        if c != ' ' && spaces == 4 {
            field.push(c);
        }
        if c == ' ' {
            spaces = spaces + 1;
        }
        i = i + 1;
    }
    assert(cs@.take(cs@.len() as int) == cs@);
    if spaces < 4 {
        return true;
    }
    let text = string_from_chars(&field);
    let t = text.as_str();
    let bytes = t.as_bytes();
    assert(bytes@ == t.spec_bytes());
    bytes_escapes_sliceable(bytes)
}

/// Whether every line of the mountinfo text has a mount point field the
/// decoder can read (what `is_mounted` needs).
pub fn mountinfo_is_decodable(mountinfo: &str) -> (b: bool)
    ensures
        b == mountinfo_decodable(mountinfo@),
{
    let cs = chars_of(mountinfo);
    let mut ok = true;
    let mut cur: Vec<char> = Vec::new();
    let mut i: usize = 0;
    let ghost mut done: Seq<Seq<char>> = seq![];
    let ghost info = mountinfo@;
    assert(cs@.take(0) =~= Seq::<char>::empty());
    while i < cs.len()
        invariant
            i <= cs@.len(),
            cs@ == info,
            info == mountinfo@,
            lines_scan(cs@.take(i as int)) == (done, cur@),
            ok == forall|k: int| 0 <= k < done.len() ==> line_decodable(#[trigger] done[k]),
        decreases cs.len() - i,
    {
        let c = cs[i];
        proof {
            assert(cs@.take(i + 1).drop_last() =~= cs@.take(i as int));
            assert(cs@.take(i + 1).last() == c);
        }
        if c == '\n' {
            let mut line = cur.clone();
            if line.len() > 0 && line[line.len() - 1] == '\r' {
                line.pop();
            }
            proof {
                assert(line@ =~= (if cur@.len() > 0 && cur@.last() == '\r' {
                    cur@.drop_last()
                } else {
                    cur@
                }));
            }
            let d = line_decodable_exec(&line);
            proof {
                let nd = done.push(line@);
                assert(nd[done.len() as int] == line@);
                assert forall|k: int| 0 <= k < done.len() implies nd[k] == done[k] by {}
                if !ok {
                    let k = choose|k: int| 0 <= k < done.len() && !line_decodable(#[trigger] done[k]);
                    assert(nd[k] == done[k]);
                }
                done = nd;
            }
            ok = ok && d;
            cur = Vec::new();
        } else {
            cur.push(c);
        }
        i = i + 1;
    }
    assert(cs@.take(cs@.len() as int) =~= info);
    if cur.len() > 0 {
        assert(lines_of(info) == done.push(cur@));
        let d = line_decodable_exec(&cur);
        proof {
            let nd = done.push(cur@);
            assert(nd[done.len() as int] == cur@);
            assert forall|k: int| 0 <= k < done.len() implies nd[k] == done[k] by {}
            if !ok {
                let k = choose|k: int| 0 <= k < done.len() && !line_decodable(#[trigger] done[k]);
                assert(nd[k] == done[k]);
            }
        }
        ok = ok && d;
    } else {
        assert(lines_of(info) == done);
    }
    ok
}

/// How the kernel writes a path into mountinfo: space, tab, newline and
/// backslash become `\040`, `\011`, `\012` and `\134`.
pub open spec fn mountinfo_escape_char(c: char) -> Seq<char> {
    if c == ' ' {
        seq!['\\', '0', '4', '0']
    } else if c == '\t' {
        seq!['\\', '0', '1', '1']
    } else if c == '\n' {
        seq!['\\', '0', '1', '2']
    } else if c == '\\' {
        seq!['\\', '1', '3', '4']
    } else {
        seq![c]
    }
}

/// The mountinfo form of a whole path.
pub open spec fn mountinfo_escape(p: Seq<char>) -> Seq<char>
    decreases p.len(),
{
    if p.len() == 0 {
        seq![]
    } else {
        mountinfo_escape_char(p[0]) + mountinfo_escape(p.drop_first())
    }
}

spec fn ascii_bytes(cs: Seq<char>) -> Seq<u8> {
    Seq::new(cs.len(), |i: int| cs[i] as u8)
}

proof fn lemma_escape_ascii(p: Seq<char>)
    requires
        vstd::utf8::is_ascii_chars(p),
    ensures
        vstd::utf8::is_ascii_chars(mountinfo_escape(p)),
        unescape_bytes(ascii_bytes(mountinfo_escape(p))) == p,
        !mountinfo_escape(p).contains('\\') ==> mountinfo_escape(p) == p,
    decreases p.len(),
{
    if p.len() > 0 {
        let c = p[0];
        let rest = p.drop_first();
        assert(vstd::utf8::is_ascii_chars(rest)) by {
            assert forall|i: int| 0 <= i < rest.len() implies '\0' <= #[trigger] rest[i] <= '\u{7f}' by {
                assert(rest[i] == p[i + 1]);
            }
        }
        lemma_escape_ascii(rest);
        let e = mountinfo_escape_char(c);
        let er = mountinfo_escape(rest);
        assert(mountinfo_escape(p) == e + er);
        assert('\0' <= c <= '\u{7f}') by {
            assert(p[0] == c);
        }
        assert(vstd::utf8::is_ascii_chars(e + er)) by {
            assert forall|i: int| 0 <= i < (e + er).len() implies '\0' <= #[trigger] (e + er)[i] <= '\u{7f}' by {
                if i >= e.len() {
                    assert((e + er)[i] == er[i - e.len()]);
                }
            }
        }
        let b = ascii_bytes(e + er);
        assert(b =~= ascii_bytes(e) + ascii_bytes(er));
        if c == ' ' || c == '\t' || c == '\n' || c == '\\' {
            assert(b.skip(4) =~= ascii_bytes(er));
            assert(b[0] == 92u8);
            if c == ' ' {
                assert(b[1] == 48u8 && b[2] == 52u8 && b[3] == 48u8);
                assert((32u8 as char) == ' ');
            } else if c == '\t' {
                assert(b[1] == 48u8 && b[2] == 49u8 && b[3] == 49u8);
                assert((9u8 as char) == '\t');
            } else if c == '\n' {
                assert(b[1] == 48u8 && b[2] == 49u8 && b[3] == 50u8);
                assert((10u8 as char) == '\n');
            } else {
                assert(b[1] == 49u8 && b[2] == 51u8 && b[3] == 52u8);
                assert((92u8 as char) == '\\');
            }
            assert(unescape_bytes(b) =~= seq![c] + rest);
            assert((e + er).contains('\\')) by {
                assert((e + er)[0] == '\\');
            }
        } else {
            assert(b.skip(1) =~= ascii_bytes(er));
            assert(b[0] == c as u8);
            assert((c as u8) as char == c) by {
                vstd::utf8::char_u32_cast(c, c as u32);
            }
            assert(unescape_bytes(b) =~= seq![c] + rest);
            if !(e + er).contains('\\') {
                assert(!er.contains('\\')) by {
                    if er.contains('\\') {
                        let k = choose|k: int| 0 <= k < er.len() && er[k] == '\\';
                        assert((e + er)[k + 1] == '\\');
                    }
                }
                assert(e + er =~= seq![c] + rest);
                assert(p =~= seq![c] + rest);
            }
        }
    } else {
        assert(ascii_bytes(mountinfo_escape(p)) =~= Seq::<u8>::empty());
    }
}

/// Decoding a mountinfo path field gives back the path the kernel escaped,
/// for every ASCII path; such a field is always decodable.
pub proof fn unescape_inverts_mountinfo_escape(p: Seq<char>)
    requires
        vstd::utf8::is_ascii_chars(p),
    ensures
        escapes_sliceable(vstd::utf8::encode_utf8(mountinfo_escape(p))),
        unescaped(mountinfo_escape(p)) == p,
{
    lemma_escape_ascii(p);
    let e = mountinfo_escape(p);
    vstd::utf8::is_ascii_chars_encode_utf8(e);
    assert(vstd::utf8::encode_utf8(e) =~= ascii_bytes(e));
    assert forall|i: int| 0 <= i < e.len() implies (#[trigger] ascii_bytes(e)[i]) < 128 by {
        assert('\0' <= e[i] <= '\u{7f}');
    }
}

} // verus!
