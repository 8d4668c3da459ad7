//! Git `core.fsmonitor` hook answers computed from a session's upper layer.
//!
//! Real `git status` still runs; the hook only says which paths may have changed.
use vstd::prelude::*;
use crate::text::{chars_of, push_char, push_str, owned, string_from_chars, parse_u64, parse_u64_spec, u64_to_decimal, decimal, seq_lt};
use crate::util::{shell_quote, shell_quoted};
use vstd::string::StringSliceAdditionalSpecFns;

verus! {

/// Prefix of the tokens this hook hands out.
pub open spec fn token_prefix() -> Seq<char> {
    seq!['l', 't', ':']
}

/// The counter a token carries, when it is one of ours.
pub open spec fn token_counter(t: Seq<char>) -> Option<u64> {
    if t.len() >= 3 && t.take(3) == token_prefix() {
        parse_u64_spec(t.skip(3))
    } else {
        None
    }
}

/// The token following `last`: its counter plus one (saturating; an unknown
/// token counts as zero).
pub open spec fn next_token_spec(last: Seq<char>) -> Seq<char> {
    let n: u64 = match token_counter(last) {
        Some(n) => n,
        None => 0,
    };
    let m: u64 = if n == u64::MAX {
        n
    } else {
        (n + 1) as u64
    };
    token_prefix() + decimal(m as nat)
}

/// Next protocol token after `last`.
pub fn next_token(last: &str) -> (t: String)
    ensures
        t@ == next_token_spec(last@),
{
    let cs = chars_of(last);
    let mut n: u64 = 0;
    if cs.len() >= 3 && cs[0] == 'l' && cs[1] == 't' && cs[2] == ':' {
        let mut rest: Vec<char> = Vec::new();
        let mut i: usize = 3;
        while i < cs.len()
            invariant
                3 <= i <= cs@.len(),
                rest@ == cs@.subrange(3, i as int),
            decreases cs.len() - i,
        {
            rest.push(cs[i]);
            i = i + 1;
        }
        assert(cs@.take(3) =~= token_prefix());
        assert(rest@ =~= cs@.skip(3));
        match parse_u64(&rest) {
            Some(v) => { n = v; },
            None => {},
        }
    } else {
        assert(!(cs@.len() >= 3 && cs@.take(3) == token_prefix())) by {
            if cs@.len() >= 3 && cs@.take(3) == token_prefix() {
                assert(cs@.take(3)[0] == 'l' && cs@.take(3)[1] == 't' && cs@.take(3)[2] == ':');
            }
        }
    }
    let m: u64 = if n == u64::MAX { n } else { n + 1 };
    let mut t = String::new();
    push_char(&mut t, 'l');
    push_char(&mut t, 't');
    push_char(&mut t, ':');
    let d = u64_to_decimal(m);
    t.append(d.as_str());
    assert(t@ =~= token_prefix() + decimal(m as nat));
    t
}

proof fn lemma_decimal_digits(n: nat)
    ensures
        crate::text::all_digits(decimal(n)),
        decimal(n).len() > 0,
        crate::text::digits_value(decimal(n)) == n,
        decimal(n)[0] != '+',
    decreases n,
{
    let k = n % 10;
    let cc = crate::text::digit_char(k);
    assert((cc as u32) == 48 + k);
    if n < 10 {
        assert(decimal(n) == seq![cc]);
        assert(seq![cc].drop_last() =~= Seq::<char>::empty());
        assert(seq![cc].last() == cc);
        assert(crate::text::digits_value(seq![cc]) == crate::text::digits_value(Seq::<char>::empty()) * 10 + ((cc as u32) - 48) as nat);
        assert(crate::text::digits_value(decimal(n)) == n);
    }
    if n >= 10 {
        lemma_decimal_digits(n / 10);
        let d = decimal(n / 10);
        let c = crate::text::digit_char(n % 10);
        assert(decimal(n) == d.push(c));
        assert(d.push(c).drop_last() =~= d);
        assert(d.push(c).last() == c);
        assert(crate::text::digits_value(d.push(c)) == crate::text::digits_value(d) * 10 + ((c as u32) - 48) as nat);
        assert(crate::text::digits_value(d.push(c)) == (n / 10) * 10 + k);
        assert((n / 10) * 10 + n % 10 == n) by (nonlinear_arith);
        assert(crate::text::all_digits(d.push(c))) by {
            assert forall|i: int| 0 <= i < d.push(c).len() implies crate::text::is_digit(#[trigger] d.push(c)[i]) by {
                if i < d.len() {
                    assert(d.push(c)[i] == d[i]);
                }
            }
        }
        assert(d.push(c)[0] == d[0]);
    }
}

/// A token handed out reads back as the counter it was made from: the
/// counter goes up by one per query (until it saturates).
pub proof fn next_token_round_trip(last: Seq<char>)
    ensures
        token_counter(next_token_spec(last)) == Some(
            match token_counter(last) {
                Some(n) => if n == u64::MAX { n } else { (n + 1) as u64 },
                None => 1u64,
            },
        ),
{
    let n: u64 = match token_counter(last) {
        Some(n) => n,
        None => 0,
    };
    let m: u64 = if n == u64::MAX { n } else { (n + 1) as u64 };
    lemma_decimal_digits(m as nat);
    let t = next_token_spec(last);
    assert(t.take(3) =~= token_prefix());
    assert(t.skip(3) =~= decimal(m as nat));
    assert(crate::text::unsigned_digits_part(decimal(m as nat)) == decimal(m as nat));
}

/// Kind of a directory entry in the upper layer.
#[derive(Clone, Copy, Debug, PartialEq, Eq, Structural)]
pub enum UpperKind {
    File,
    Symlink,
    /// Character device: an overlayfs whiteout.
    CharDevice,
    Dir,
    /// FIFO, socket or anything else.
    Other,
    /// Its metadata could not be read.
    Unreadable,
}

/// One entry of the upper directory tree (children filled in for directories).
#[derive(Debug)]
pub struct UpperEntry {
    pub name: String,
    pub kind: UpperKind,
    pub children: Vec<UpperEntry>,
}

/// `parent/name`, or `name` at the top.
pub open spec fn rel_join(parent: Seq<char>, name: Seq<char>) -> Seq<char> {
    if parent.len() == 0 {
        name
    } else {
        parent + seq!['/'] + name
    }
}

/// `s` with every backslash turned into `/`.
pub open spec fn slashed(s: Seq<char>) -> Seq<char> {
    s.map_values(|c: char| if c == '\\' { '/' } else { c })
}

/// Overlay's opaque-directory marker.
pub open spec fn opaque_marker() -> Seq<char> {
    ".wh..wh..opq"@
}

/// AUFS-style whiteout prefix.
pub open spec fn whiteout_prefix() -> Seq<char> {
    ".wh."@
}

/// Whether `s` is `.git` or lies under `.git/`.
pub open spec fn is_git_path(s: Seq<char>) -> bool {
    s == ".git"@ || (s.len() >= 5 && s.take(5) == ".git/"@)
}

/// The path reported for an entry named `name` under `parent` (raw relative path).
pub open spec fn reported_rel(parent: Seq<char>, name: Seq<char>) -> Seq<char> {
    if name.len() >= 4 && name.take(4) == whiteout_prefix() {
        rel_join(parent, name.skip(4))
    } else {
        slashed(rel_join(parent, name))
    }
}

/// Paths the walk of `entries` (under the raw relative path `parent`)
/// reports, in walk order.
pub open spec fn walk_paths(entries: Seq<UpperEntry>, parent: Seq<char>) -> Seq<Seq<char>>
    decreases entries, 1int,
{
    if entries.len() == 0 {
        seq![]
    } else {
        entry_paths(entries[0], parent) + walk_paths(entries.drop_first(), parent)
    }
}

/// Paths reported for one entry (and, for a directory, everything below it).
pub open spec fn entry_paths(e: UpperEntry, parent: Seq<char>) -> Seq<Seq<char>>
    decreases e, 0int,
{
    if e.name@ == opaque_marker() {
        if slashed(parent).len() > 0 {
            seq![slashed(parent)]
        } else {
            seq![]
        }
    } else {
        let rel = reported_rel(parent, e.name@);
        if rel.len() == 0 || is_git_path(rel) {
            seq![]
        } else {
            match e.kind {
                UpperKind::File | UpperKind::Symlink | UpperKind::CharDevice => seq![rel],
                UpperKind::Dir => seq![rel] + walk_paths(e.children@, rel_join(parent, e.name@)),
                _ => seq![],
            }
        }
    }
}

/// A whiteout `.wh.<n>` at the top of the upper layer is reported as the
/// deleted path `n` itself (so Git looks at it), unless `n` lies in `.git`.
pub proof fn whiteouts_report_deleted_paths(e: UpperEntry, n: Seq<char>)
    requires
        e.name@ == whiteout_prefix() + n,
        n.len() > 0,
        n != ".wh..opq"@,
        e.kind is File || e.kind is CharDevice || e.kind is Symlink,
    ensures
        entry_paths(e, seq![]) == (if is_git_path(n) { seq![] } else { seq![n] }),
{
    reveal_strlit(".wh.");
    reveal_strlit(".wh..wh..opq");
    reveal_strlit(".wh..opq");
    let name = e.name@;
    assert(name.take(4) =~= whiteout_prefix());
    assert(name.skip(4) =~= n);
    if name == opaque_marker() {
        assert(n =~= name.skip(4));
        assert(opaque_marker().skip(4) =~= ".wh..opq"@);
    }
    assert(reported_rel(seq![], name) == n);
}

/// A path the listing may report: not empty, not in `.git`.
pub open spec fn clean_path(p: Seq<char>) -> bool {
    p.len() > 0 && !is_git_path(p)
}

/// A path that does not start with `/`.
pub open spec fn relative_path(p: Seq<char>) -> bool {
    p.len() > 0 ==> p[0] != '/'
}

/// Top-level names that give relative paths: none starts with a backslash
/// (which the walk turns into `/`) or a slash (which a name cannot hold),
/// and no whiteout names a path starting with a slash.
pub open spec fn top_names_relative(entries: Seq<UpperEntry>) -> bool {
    forall|i: int| #![trigger entries[i]] 0 <= i < entries.len() ==> {
        let n = entries[i].name@;
        &&& n.len() > 0 ==> n[0] != '/' && n[0] != '\\'
        &&& n.len() > 4 && n.take(4) == whiteout_prefix() ==> n[4] != '/'
    }
}

spec fn clean_parent(parent: Seq<char>) -> bool {
    parent.len() == 0 || clean_path(slashed(parent))
}

spec fn relative_parent(parent: Seq<char>, entries: Seq<UpperEntry>) -> bool {
    if parent.len() == 0 {
        top_names_relative(entries)
    } else {
        parent[0] != '/' && parent[0] != '\\'
    }
}

proof fn lemma_slashed_concat(a: Seq<char>, b: Seq<char>)
    ensures
        slashed(a + b) == slashed(a) + slashed(b),
{
    assert(slashed(a + b) =~= slashed(a) + slashed(b));
}

/// Below a clean, non-empty parent every raw child path is clean once slashed.
proof fn lemma_child_parent_clean(parent: Seq<char>, name: Seq<char>)
    requires
        parent.len() > 0,
        clean_path(slashed(parent)),
    ensures
        clean_path(slashed(rel_join(parent, name))),
{
    reveal_strlit(".git");
    reveal_strlit(".git/");
    let sp = slashed(parent);
    lemma_slashed_concat(parent, seq!['/']);
    lemma_slashed_concat(parent + seq!['/'], name);
    assert(slashed(seq!['/']) =~= seq!['/']);
    let full = slashed(rel_join(parent, name));
    assert(full == sp + seq!['/'] + slashed(name));
    assert(full[sp.len() as int] == '/');
    assert(full != ".git"@) by {
        if full == ".git"@ {
            assert(".git"@[sp.len() as int] != '/');
        }
    }
    if full.len() >= 5 && full.take(5) == ".git/"@ {
        if sp.len() >= 5 {
            assert(full.take(5) =~= sp.take(5));
        } else if sp.len() == 4 {
            assert(sp =~= full.take(5).take(4));
            assert(sp =~= ".git"@);
        } else {
            assert(full.take(5)[sp.len() as int] == '/');
            assert(".git/"@[sp.len() as int] != '/');
        }
    }
}

proof fn lemma_walk_clean(entries: Seq<UpperEntry>, parent: Seq<char>)
    requires
        clean_parent(parent),
    ensures
        forall|i: int| 0 <= i < walk_paths(entries, parent).len() ==> clean_path(#[trigger] walk_paths(entries, parent)[i]),
        relative_parent(parent, entries) ==> forall|i: int| 0 <= i < walk_paths(entries, parent).len()
            ==> relative_path(#[trigger] walk_paths(entries, parent)[i]),
    decreases entries, 1int,
{
    if entries.len() > 0 {
        lemma_entry_clean(entries[0], parent, relative_parent(parent, entries));
        lemma_walk_clean(entries.drop_first(), parent);
        let a = entry_paths(entries[0], parent);
        let b = walk_paths(entries.drop_first(), parent);
        assert(walk_paths(entries, parent) == a + b);
        if relative_parent(parent, entries) {
            if parent.len() == 0 {
                assert forall|i: int| #![trigger entries.drop_first()[i]] 0 <= i < entries.drop_first().len()
                    implies {
                        let n = entries.drop_first()[i].name@;
                        &&& n.len() > 0 ==> n[0] != '/' && n[0] != '\\'
                        &&& n.len() > 4 && n.take(4) == whiteout_prefix() ==> n[4] != '/'
                    } by {
                    assert(entries.drop_first()[i] == entries[i + 1]);
                }
                assert(relative_parent(parent, entries.drop_first()));
            }
        }
        assert forall|i: int| 0 <= i < walk_paths(entries, parent).len() implies clean_path(#[trigger] walk_paths(entries, parent)[i]) by {
            if i < a.len() {
                assert(walk_paths(entries, parent)[i] == a[i]);
            } else {
                assert(walk_paths(entries, parent)[i] == b[i - a.len()]);
            }
        }
        if relative_parent(parent, entries) {
            assert forall|i: int| 0 <= i < walk_paths(entries, parent).len() implies relative_path(#[trigger] walk_paths(entries, parent)[i]) by {
                if i < a.len() {
                    assert(walk_paths(entries, parent)[i] == a[i]);
                } else {
                    assert(walk_paths(entries, parent)[i] == b[i - a.len()]);
                }
            }
        }
    }
}

proof fn lemma_entry_clean(e: UpperEntry, parent: Seq<char>, relative: bool)
    requires
        clean_parent(parent),
        relative ==> (if parent.len() == 0 {
            let n = e.name@;
            &&& n.len() > 0 ==> n[0] != '/' && n[0] != '\\'
            &&& n.len() > 4 && n.take(4) == whiteout_prefix() ==> n[4] != '/'
        } else {
            parent[0] != '/' && parent[0] != '\\'
        }),
    ensures
        forall|i: int| 0 <= i < entry_paths(e, parent).len() ==> clean_path(#[trigger] entry_paths(e, parent)[i]),
        relative ==> forall|i: int| 0 <= i < entry_paths(e, parent).len() ==> relative_path(#[trigger] entry_paths(e, parent)[i]),
    decreases e, 0int,
{
    reveal_strlit(".wh.");
    reveal_strlit(".wh..wh..opq");
    reveal_strlit(".git");
    reveal_strlit(".git/");
    let name = e.name@;
    if name == opaque_marker() {
        return;
    }
    let rel = reported_rel(parent, name);
    if rel.len() == 0 || is_git_path(rel) {
        return;
    }
    if parent.len() > 0 {
        lemma_slashed_concat(parent, seq!['/']);
        lemma_slashed_concat(parent + seq!['/'], name);
    }
    if let UpperKind::Dir = e.kind {
        let child = rel_join(parent, name);
        assert(clean_parent(child)) by {
            if parent.len() > 0 {
                lemma_child_parent_clean(parent, name);
            } else {
                assert(child == name);
                if name.len() >= 4 && name.take(4) == whiteout_prefix() {
                    let sn = slashed(name);
                    assert(sn.take(4) =~= name.take(4));
                    assert(whiteout_prefix()[1] == 'w');
                    assert(name[1] == name.take(4)[1]);
                    assert(sn[1] == 'w');
                    assert(sn != ".git"@) by {
                        if sn == ".git"@ {
                            assert(".git"@[1] == 'g');
                        }
                    }
                    if sn.len() >= 5 && sn.take(5) == ".git/"@ {
                        assert(sn.take(5)[1] == sn[1]);
                        assert(".git/"@[1] == 'g');
                    }
                    assert(clean_path(sn));
                } else {
                    assert(rel == slashed(name));
                }
            }
        }
        assert(decreases_to!(e => e.children));
        lemma_walk_clean(e.children@, child);
        let w = walk_paths(e.children@, child);
        assert(entry_paths(e, parent) == seq![rel] + w);
        if relative {
            assert(child.len() > 0);
            assert(relative_parent(child, e.children@));
        }
        assert forall|i: int| 0 <= i < entry_paths(e, parent).len() implies clean_path(#[trigger] entry_paths(e, parent)[i]) by {
            if i > 0 {
                assert(entry_paths(e, parent)[i] == w[i - 1]);
            }
        }
        if relative {
            assert forall|i: int| 0 <= i < entry_paths(e, parent).len() implies relative_path(#[trigger] entry_paths(e, parent)[i]) by {
                if i > 0 {
                    assert(entry_paths(e, parent)[i] == w[i - 1]);
                }
            }
        }
    }
}

/// The listing never reports an empty path, `.git` or a path under `.git/`;
/// and when no top-level name starts with a backslash (or names a path
/// starting with a slash), no reported path starts with `/`.
pub proof fn listed_paths_are_clean(entries: Seq<UpperEntry>)
    ensures
        forall|p: Seq<char>| walk_paths(entries, seq![]).contains(p) ==> clean_path(p),
        top_names_relative(entries) ==> forall|p: Seq<char>| walk_paths(entries, seq![]).contains(p) ==> relative_path(p),
{
    lemma_walk_clean(entries, seq![]);
}

proof fn lemma_walk_has_entry(entries: Seq<UpperEntry>, parent: Seq<char>, i: int)
    requires
        0 <= i < entries.len(),
    ensures
        forall|p: Seq<char>| entry_paths(entries[i], parent).contains(p) ==> walk_paths(entries, parent).contains(p),
    decreases i,
{
    let a = entry_paths(entries[0], parent);
    let b = walk_paths(entries.drop_first(), parent);
    assert(walk_paths(entries, parent) == a + b);
    if i == 0 {
        assert forall|p: Seq<char>| a.contains(p) implies (a + b).contains(p) by {
            let k = choose|k: int| 0 <= k < a.len() && a[k] == p;
            assert((a + b)[k] == p);
        }
    } else {
        lemma_walk_has_entry(entries.drop_first(), parent, i - 1);
        assert(entries.drop_first()[i - 1] == entries[i]);
        assert forall|p: Seq<char>| entry_paths(entries[i], parent).contains(p) implies (a + b).contains(p) by {
            assert(b.contains(p));
            let k = choose|k: int| 0 <= k < b.len() && b[k] == p;
            assert((a + b)[a.len() + k] == p);
        }
    }
}

/// The listing covers every entry it walks: the walk of `entries` under
/// `parent` reports the path of each file, symlink, whiteout and directory
/// among them (unless that path is empty or in `.git`), everything the walk
/// below such a directory reports, and, for an opaque marker, the directory
/// holding it.
pub proof fn listing_covers_entries(entries: Seq<UpperEntry>, parent: Seq<char>, i: int)
    requires
        0 <= i < entries.len(),
    ensures
        ({
            let e = entries[i];
            let rel = reported_rel(parent, e.name@);
            let listed = walk_paths(entries, parent);
            &&& e.name@ != opaque_marker() && clean_path(rel)
                && (e.kind is File || e.kind is Symlink || e.kind is CharDevice || e.kind is Dir)
                ==> listed.contains(rel)
            &&& e.name@ != opaque_marker() && clean_path(rel) && e.kind is Dir
                ==> forall|p: Seq<char>| walk_paths(e.children@, rel_join(parent, e.name@)).contains(p) ==> listed.contains(p)
            &&& e.name@ == opaque_marker() && slashed(parent).len() > 0 ==> listed.contains(slashed(parent))
        }),
{
    lemma_walk_has_entry(entries, parent, i);
    let e = entries[i];
    let ep = entry_paths(e, parent);
    let rel = reported_rel(parent, e.name@);
    if e.name@ == opaque_marker() {
        if slashed(parent).len() > 0 {
            assert(ep[0] == slashed(parent));
            assert(ep.contains(slashed(parent)));
        }
    } else if clean_path(rel) {
        match e.kind {
            UpperKind::File | UpperKind::Symlink | UpperKind::CharDevice => {
                assert(ep[0] == rel);
                assert(ep.contains(rel));
            },
            UpperKind::Dir => {
                let w = walk_paths(e.children@, rel_join(parent, e.name@));
                assert(ep == seq![rel] + w);
                assert(ep[0] == rel);
                assert(ep.contains(rel));
                assert forall|p: Seq<char>| w.contains(p) implies ep.contains(p) by {
                    let k = choose|k: int| 0 <= k < w.len() && w[k] == p;
                    assert(ep[k + 1] == p);
                }
            },
            _ => {},
        }
    }
}

/// The entry reached from `entries` (under the raw relative path `parent`)
/// by following the positions in `route`, one per level, with the raw path
/// of the directory holding it; none when a position is out of range or a
/// directory passed through is not listed (not a directory, an opaque
/// marker, or its path is empty or in `.git`).
pub open spec fn reached(entries: Seq<UpperEntry>, parent: Seq<char>, route: Seq<int>) -> Option<(UpperEntry, Seq<char>)>
    decreases route.len(),
{
    if route.len() == 0 || !(0 <= route[0] < entries.len()) {
        None
    } else {
        let e = entries[route[0]];
        if route.len() == 1 {
            Some((e, parent))
        } else if e.kind is Dir && e.name@ != opaque_marker() && clean_path(reported_rel(parent, e.name@)) {
            reached(e.children@, rel_join(parent, e.name@), route.drop_first())
        } else {
            None
        }
    }
}

/// The path the listing owes for entry `e` under the raw path `parent`: the
/// holding directory for an opaque marker, else the entry's own path for a
/// file, symlink, whiteout or directory, unless that path is empty or in
/// `.git`.
pub open spec fn owed_path(e: UpperEntry, parent: Seq<char>) -> Option<Seq<char>> {
    if e.name@ == opaque_marker() {
        if slashed(parent).len() > 0 { Some(slashed(parent)) } else { None }
    } else {
        let rel = reported_rel(parent, e.name@);
        if clean_path(rel) && (e.kind is File || e.kind is Symlink || e.kind is CharDevice || e.kind is Dir) {
            Some(rel)
        } else {
            None
        }
    }
}

proof fn lemma_listing_covers_route(entries: Seq<UpperEntry>, parent: Seq<char>, route: Seq<int>)
    ensures
        match reached(entries, parent, route) {
            Some((e, p)) => match owed_path(e, p) {
                Some(x) => walk_paths(entries, parent).contains(x),
                None => true,
            },
            None => true,
        },
    decreases route.len(),
{
    if route.len() > 0 && 0 <= route[0] < entries.len() {
        let i = route[0];
        let e = entries[i];
        listing_covers_entries(entries, parent, i);
        if route.len() == 1 {
            assert(reached(entries, parent, route) == Some((e, parent)));
        } else if e.kind is Dir && e.name@ != opaque_marker() && clean_path(reported_rel(parent, e.name@)) {
            let child = rel_join(parent, e.name@);
            lemma_listing_covers_route(e.children@, child, route.drop_first());
            assert(reached(entries, parent, route) == reached(e.children@, child, route.drop_first()));
            match reached(entries, parent, route) {
                Some((e2, p2)) => match owed_path(e2, p2) {
                    Some(x) => {
                        assert(walk_paths(e.children@, child).contains(x));
                    },
                    None => {},
                },
                None => {},
            }
        }
    }
}

/// The listing covers the whole tree: every entry reached through listed
/// directories, at any depth, has the path it is owed in the listing.
pub proof fn listing_covers_the_tree(entries: Seq<UpperEntry>, route: Seq<int>)
    ensures
        match reached(entries, seq![], route) {
            Some((e, p)) => match owed_path(e, p) {
                Some(x) => walk_paths(entries, seq![]).contains(x),
                None => true,
            },
            None => true,
        },
{
    lemma_listing_covers_route(entries, seq![], route);
}

/// The character sequences are equal.
pub fn chars_eq(a: &Vec<char>, b: &Vec<char>) -> (r: bool)
    ensures
        r == (a@ == b@),
{
    if a.len() != b.len() {
        return false;
    }
    let mut i: usize = 0;
    while i < a.len()
        invariant
            a@.len() == b@.len(),
            i <= a@.len(),
            a@.take(i as int) == b@.take(i as int),
        decreases a.len() - i,
    {
        if a[i] != b[i] {
            return false;
        }
        assert(a@.take(i + 1) =~= a@.take(i as int).push(a@[i as int]));
        assert(b@.take(i + 1) =~= b@.take(i as int).push(b@[i as int]));
        i = i + 1;
    }
    assert(a@.take(a@.len() as int) =~= a@);
    assert(b@.take(b@.len() as int) =~= b@);
    true
}

/// `a` begins with `p`.
pub fn starts_with_chars(a: &Vec<char>, p: &Vec<char>) -> (r: bool)
    ensures
        r == (a@.len() >= p@.len() && a@.take(p@.len() as int) == p@),
{
    if a.len() < p.len() {
        return false;
    }
    let mut i: usize = 0;
    while i < p.len()
        invariant
            a@.len() >= p@.len(),
            i <= p@.len(),
            a@.take(i as int) == p@.take(i as int),
        decreases p.len() - i,
    {
        if a[i] != p[i] {
            assert(a@.take(p@.len() as int)[i as int] != p@[i as int]);
            return false;
        }
        assert(a@.take(i + 1) =~= a@.take(i as int).push(a@[i as int]));
        assert(p@.take(i + 1) =~= p@.take(i as int).push(p@[i as int]));
        i = i + 1;
    }
    assert(p@.take(p@.len() as int) =~= p@);
    true
}

fn rel_join_exec(parent: &Vec<char>, name: &Vec<char>) -> (r: Vec<char>)
    ensures
        r@ == rel_join(parent@, name@),
{
    let mut r: Vec<char> = Vec::new();
    let mut i: usize = 0;
    while i < parent.len()
        invariant
            i <= parent@.len(),
            r@ == parent@.take(i as int),
        decreases parent.len() - i,
    {
        r.push(parent[i]);
        i = i + 1;
    }
    if parent.len() > 0 {
        r.push('/');
    }
    let mut j: usize = 0;
    let ghost base = r@;
    while j < name.len()
        invariant
            j <= name@.len(),
            r@ == base + name@.take(j as int),
        decreases name.len() - j,
    {
        r.push(name[j]);
        j = j + 1;
    }
    assert(parent@.take(parent@.len() as int) =~= parent@);
    assert(name@.take(name@.len() as int) =~= name@);
    assert(r@ =~= rel_join(parent@, name@));
    r
}

fn slashed_exec(s: &Vec<char>) -> (r: Vec<char>)
    ensures
        r@ == slashed(s@),
{
    let mut r: Vec<char> = Vec::new();
    let mut i: usize = 0;
    while i < s.len()
        invariant
            i <= s@.len(),
            r@ == slashed(s@.take(i as int)),
        decreases s.len() - i,
    {
        let c = s[i];
        r.push(if c == '\\' { '/' } else { c });
        assert(slashed(s@.take(i + 1)) =~= slashed(s@.take(i as int)).push(if c == '\\' { '/' } else { c }));
        i = i + 1;
    }
    assert(s@.take(s@.len() as int) =~= s@);
    r
}

fn skip_chars(s: &Vec<char>, k: usize) -> (r: Vec<char>)
    requires
        k <= s@.len(),
    ensures
        r@ == s@.skip(k as int),
{
    let mut r: Vec<char> = Vec::new();
    let mut i: usize = k;
    while i < s.len()
        invariant
            k <= i <= s@.len(),
            r@ == s@.subrange(k as int, i as int),
        decreases s.len() - i,
    {
        r.push(s[i]);
        i = i + 1;
    }
    r
}

fn is_git_path_exec(rel: &Vec<char>) -> (b: bool)
    ensures
        b == is_git_path(rel@),
{
    let g = chars_of(".git");
    let gs = chars_of(".git/");
    proof {
        reveal_strlit(".git/");
    }
    chars_eq(rel, &g) || starts_with_chars(rel, &gs)
}

/// Adds the paths the walk reports for `entries` (under `parent`) to `out`.
fn walk_upper(entries: &Vec<UpperEntry>, parent: &Vec<char>, out: &mut Vec<Vec<char>>)
    ensures
        final(out).deep_view() == old(out).deep_view() + walk_paths(entries@, parent@),
    decreases entries, 1int,
{
    let mut i: usize = 0;
    assert(entries@.skip(0) =~= entries@);
    while i < entries.len()
        invariant
            i <= entries@.len(),
            old(out).deep_view() + walk_paths(entries@, parent@) == out.deep_view() + walk_paths(entries@.skip(i as int), parent@),
        decreases entries.len() - i,
    {
        proof {
            assert(entries@.skip(i as int).drop_first() =~= entries@.skip(i + 1));
            assert(entries@.skip(i as int)[0] == entries@[i as int]);
            assert(decreases_to!(entries => entries@[i as int]));
        }
        let ghost before = out.deep_view();
        upper_entry(&entries[i], parent, out);
        assert(out.deep_view() + walk_paths(entries@.skip(i + 1), parent@) =~= before + walk_paths(entries@.skip(i as int), parent@));
        i = i + 1;
    }
    assert(entries@.skip(entries@.len() as int) =~= Seq::<UpperEntry>::empty());
    assert(out.deep_view() + Seq::<Seq<char>>::empty() =~= out.deep_view());
}

fn upper_entry(e: &UpperEntry, parent: &Vec<char>, out: &mut Vec<Vec<char>>)
    ensures
        final(out).deep_view() == old(out).deep_view() + entry_paths(*e, parent@),
    decreases e, 0int,
{
    let name = chars_of(e.name.as_str());
    let marker = chars_of(".wh..wh..opq");
    if chars_eq(&name, &marker) {
        let s = slashed_exec(parent);
        if s.len() > 0 {
            assert(s.deep_view() =~= s@);
            out.push(s);
            assert(out.deep_view() =~= old(out).deep_view() + seq![slashed(parent@)]);
        } else {
            assert(old(out).deep_view() + Seq::<Seq<char>>::empty() =~= old(out).deep_view());
        }
        return;
    }
    let wh = chars_of(".wh.");
    proof {
        reveal_strlit(".wh.");
    }
    let rel = if starts_with_chars(&name, &wh) {
        let logical = skip_chars(&name, 4);
        rel_join_exec(parent, &logical)
    } else {
        let raw = rel_join_exec(parent, &name);
        slashed_exec(&raw)
    };
    assert(rel@ == reported_rel(parent@, name@));
    if rel.len() == 0 || is_git_path_exec(&rel) {
        assert(old(out).deep_view() + Seq::<Seq<char>>::empty() =~= old(out).deep_view());
        return;
    }
    match e.kind {
        UpperKind::File | UpperKind::Symlink | UpperKind::CharDevice => {
            assert(rel.deep_view() =~= rel@);
            out.push(rel);
            assert(out.deep_view() =~= old(out).deep_view() + entry_paths(*e, parent@));
        },
        UpperKind::Dir => {
            let raw = rel_join_exec(parent, &name);
            let ghost rel_v = rel@;
            assert(rel.deep_view() =~= rel@);
            out.push(rel);
            let ghost mid = out.deep_view();
            assert(mid =~= old(out).deep_view() + seq![rel_v]);
            proof {
                assert(decreases_to!(e => e.children));
            }
            walk_upper(&e.children, &raw, out);
            assert(out.deep_view() =~= old(out).deep_view() + entry_paths(*e, parent@));
        },
        _ => {
            assert(old(out).deep_view() + Seq::<Seq<char>>::empty() =~= old(out).deep_view());
        },
    }
}

/// Inclusive, sorted list of worktree-relative paths in the upper layer that
/// may have changed (whiteout names mapped to the paths they delete; `.git`
/// left out). `entries` is the upper directory's tree; an upper layer that is
/// not a directory has no entries.
pub fn list_upper_paths(entries: &Vec<UpperEntry>) -> (r: Vec<String>)
    ensures
        crate::text::strictly_sorted(r.deep_view()),
        r.deep_view().to_set() == walk_paths(entries@, seq![]).to_set(),
        forall|k: int| 0 <= k < r.deep_view().len() ==> clean_path(#[trigger] r.deep_view()[k]),
        top_names_relative(entries@) ==> forall|k: int| 0 <= k < r.deep_view().len() ==> relative_path(#[trigger] r.deep_view()[k]),
{
    let mut raw: Vec<Vec<char>> = Vec::new();
    let top: Vec<char> = Vec::new();
    walk_upper(entries, &top, &mut raw);
    assert(raw.deep_view() =~= walk_paths(entries@, seq![]));
    let mut sorted: Vec<Vec<char>> = Vec::new();
    let mut i: usize = 0;
    while i < raw.len()
        invariant
            i <= raw@.len(),
            raw.deep_view() == walk_paths(entries@, seq![]),
            crate::text::strictly_sorted(sorted.deep_view()),
            sorted.deep_view().to_set() == raw.deep_view().take(i as int).to_set(),
        decreases raw.len() - i,
    {
        let x = raw[i].clone();
        proof {
            assert(x@ == raw.deep_view()[i as int]) by {
                assert(raw@[i as int].deep_view() =~= raw@[i as int]@);
            }
            assert(raw.deep_view().take(i + 1) =~= raw.deep_view().take(i as int).push(x@));
            raw.deep_view().take(i as int).lemma_push_to_set_commute(x@);
        }
        crate::text::insert_sorted_unique(&mut sorted, x);
        i = i + 1;
    }
    assert(raw.deep_view().take(raw@.len() as int) =~= raw.deep_view());
    let mut r: Vec<String> = Vec::new();
    let mut j: usize = 0;
    while j < sorted.len()
        invariant
            j <= sorted@.len(),
            r.deep_view() == sorted.deep_view().take(j as int),
        decreases sorted.len() - j,
    {
        let s = string_from_chars(&sorted[j]);
        let ghost old_r = r.deep_view();
        proof {
            assert(sorted@[j as int].deep_view() =~= sorted@[j as int]@);
            assert(sorted.deep_view()[j as int] == s@);
        }
        r.push(s);
        assert(r.deep_view() =~= old_r.push(sorted.deep_view()[j as int]));
        assert(r.deep_view() =~= sorted.deep_view().take(j + 1));
        j = j + 1;
    }
    assert(sorted.deep_view().take(sorted@.len() as int) =~= sorted.deep_view());
    proof {
        listed_paths_are_clean(entries@);
        let w = walk_paths(entries@, seq![]);
        assert forall|k: int| 0 <= k < r.deep_view().len() implies {
            &&& clean_path(#[trigger] r.deep_view()[k])
            &&& top_names_relative(entries@) ==> relative_path(r.deep_view()[k])
        } by {
            assert(r.deep_view().to_set().contains(r.deep_view()[k]));
            assert(w.to_set().contains(r.deep_view()[k]));
            assert(w.contains(r.deep_view()[k]));
        }
    }
    r
}

/// NUL-terminated UTF-8 items, one after another.
pub open spec fn nul_framed(items: Seq<Seq<char>>) -> Seq<u8>
    decreases items.len(),
{
    if items.len() == 0 {
        seq![]
    } else {
        nul_framed(items.drop_last()) + vstd::utf8::encode_utf8(items.last()) + seq![0u8]
    }
}

fn push_framed(out: &mut Vec<u8>, s: &str)
    ensures
        final(out)@ == old(out)@ + s.spec_bytes() + seq![0u8],
{
    let b = s.as_bytes();
    let mut i: usize = 0;
    while i < b.len()
        invariant
            i <= b@.len(),
            b@ == s.spec_bytes(),
            out@ == old(out)@ + b@.take(i as int),
        decreases b.len() - i,
    {
        out.push(b[i]);
        assert(b@.take(i + 1) =~= b@.take(i as int).push(b@[i as int]));
        i = i + 1;
    }
    assert(b@.take(b@.len() as int) =~= b@);
    out.push(0u8);
}

/// The protocol-v2 answer to a query carrying `last_token`: the next token,
/// then every path, each NUL-terminated.
pub fn query_v2(last_token: &str, paths: &Vec<String>) -> (r: Vec<u8>)
    ensures
        r@ == nul_framed(seq![next_token_spec(last_token@)] + paths.deep_view()),
{
    let token = next_token(last_token);
    let mut out: Vec<u8> = Vec::new();
    let ts = token.as_str();
    assert(ts@ == token@);
    push_framed(&mut out, ts);
    assert(out@ =~= nul_framed(seq![token@])) by {
        assert(seq![token@].drop_last() =~= Seq::<Seq<char>>::empty());
        assert(seq![token@].last() == token@);
        assert(nul_framed(Seq::<Seq<char>>::empty()) =~= Seq::<u8>::empty());
    }
    let ghost items0 = seq![token@];
    let mut i: usize = 0;
    while i < paths.len()
        invariant
            i <= paths@.len(),
            token@ == next_token_spec(last_token@),
            out@ == nul_framed(seq![token@] + paths.deep_view().take(i as int)),
        decreases paths.len() - i,
    {
        let ps = paths[i].as_str();
        assert(ps@ == paths@[i as int]@);
        push_framed(&mut out, ps);
        proof {
            let pre = seq![token@] + paths.deep_view().take(i as int);
            let post = seq![token@] + paths.deep_view().take(i + 1);
            assert(post.drop_last() =~= pre);
            assert(post.last() == paths@[i as int]@);
        }
        i = i + 1;
    }
    assert(paths.deep_view().take(paths@.len() as int) =~= paths.deep_view());
    out
}

/// Whether the hook is installed: not when `LAZYTREE_FSMONITOR` is `0`.
pub fn fsmonitor_enabled(env_value: Option<&str>) -> (b: bool)
    ensures
        b == !(env_value matches Some(v) && v@ == "0"@),
{
    match env_value {
        Some(v) => {
            let cs = chars_of(v);
            let zero = chars_of("0");
            !chars_eq(&cs, &zero)
        },
        None => true,
    }
}

/// Text of the hook script before the quoted upper path.
pub open spec fn hook_head() -> Seq<char> {
    "#!/usr/bin/env bash\n# LazyTree → Git core.fsmonitor (protocol v2). Real git status still runs.\nset -euo pipefail\nUPPER="@
}

/// Text between the quoted upper path and the quoted binary path.
pub open spec fn hook_middle() -> Seq<char> {
    "\nLT_BIN="@
}

/// Text of the hook script after the quoted binary path (its fallback walks
/// the upper layer with `find`).
pub open spec fn hook_tail() -> Seq<char> {
    "\nif [[ -x \"$LT_BIN\" ]]; then\n  exec \"$LT_BIN\" git-fsmonitor --upper \"$UPPER\" \"$@\"\nfi\n# Fallback if the creating binary moved: walk upper with find.\nversion=\"${1:-2}\"\ntoken=\"${2:-}\"\nn=1\nif [[ \"$token\" == lt:* ]]; then\n  n=$((${token#lt:}+1))\nfi\nprintf 'lt:%s\\0' \"$n\"\nif [[ -d \"$UPPER\" ]]; then\n  # Portable walk (GNU find -printf is Linux-only; macOS uses this path if LT_BIN missing).\n  find \"$UPPER\" \\( -type f -o -type l -o -type c -o -type d \\) ! -path \"$UPPER\" 2>/dev/null \\\n    | while IFS= read -r p; do\n        rel=\"${p#\"$UPPER\"/}\"\n        case \"$rel\" in .git|.git/*) continue ;; esac\n        printf '%s\\0' \"$rel\"\n      done\nfi\n"@
}

/// The session's fsmonitor hook script for the absolute upper path and
/// LazyTree binary path.
pub fn fsmonitor_hook_script(abs_upper: &str, abs_exe: &str) -> (s: String)
    ensures
        s@ == hook_head() + shell_quoted(abs_upper@) + hook_middle() + shell_quoted(abs_exe@)
            + hook_tail(),
{
    let mut s = owned("#!/usr/bin/env bash\n# LazyTree → Git core.fsmonitor (protocol v2). Real git status still runs.\nset -euo pipefail\nUPPER=");
    let u = shell_quote(abs_upper);
    s.append(u.as_str());
    s.append("\nLT_BIN=");
    let e = shell_quote(abs_exe);
    s.append(e.as_str());
    s.append("\nif [[ -x \"$LT_BIN\" ]]; then\n  exec \"$LT_BIN\" git-fsmonitor --upper \"$UPPER\" \"$@\"\nfi\n# Fallback if the creating binary moved: walk upper with find.\nversion=\"${1:-2}\"\ntoken=\"${2:-}\"\nn=1\nif [[ \"$token\" == lt:* ]]; then\n  n=$((${token#lt:}+1))\nfi\nprintf 'lt:%s\\0' \"$n\"\nif [[ -d \"$UPPER\" ]]; then\n  # Portable walk (GNU find -printf is Linux-only; macOS uses this path if LT_BIN missing).\n  find \"$UPPER\" \\( -type f -o -type l -o -type c -o -type d \\) ! -path \"$UPPER\" 2>/dev/null \\\n    | while IFS= read -r p; do\n        rel=\"${p#\"$UPPER\"/}\"\n        case \"$rel\" in .git|.git/*) continue ;; esac\n        printf '%s\\0' \"$rel\"\n      done\nfi\n");
    s
}

/// The git configuration that enables the hook at `hook_path`.
pub fn fsmonitor_git_configs(hook_path: &str) -> (v: Vec<(String, String)>)
    ensures
        v@.map_values(|t: (String, String)| (t.0@, t.1@)) == seq![
            ("core.fsmonitor"@, hook_path@),
            ("core.fsmonitorHookVersion"@, "2"@),
            ("fsmonitor.allowRemote"@, "true"@),
        ],
{
    let v = vec![
        (owned("core.fsmonitor"), owned(hook_path)),
        (owned("core.fsmonitorHookVersion"), owned("2")),
        (owned("fsmonitor.allowRemote"), owned("true")),
    ];
    assert(v@.map_values(|t: (String, String)| (t.0@, t.1@)) =~= seq![
        ("core.fsmonitor"@, hook_path@),
        ("core.fsmonitorHookVersion"@, "2"@),
        ("fsmonitor.allowRemote"@, "true"@),
    ]);
    v
}

/// Single-quotes `s` for the hook script.
pub fn shell_single_quote(s: &str) -> (r: String)
    ensures
        r@ == shell_quoted(s@),
{
    shell_quote(s)
}

} // verus!
