//! Extension filter: a path is a candidate image exactly when the lowercased
//! final extension of its file name is one of a configured set; and the
//! file-name rule itself, which extraction shares.

use vstd::prelude::*;

verus! {

/// ASCII lowercasing of one character: `A`..`Z` shift down into `a`..`z`;
/// every other character is unchanged.
pub open spec fn lower_char(c: char) -> char {
    if 65 <= c as u32 && c as u32 <= 90 {
        ((c as u32 + 32) as char)
    } else {
        c
    }
}

/// Character-wise ASCII lowercasing of a sequence.
pub open spec fn lower_seq(s: Seq<char>) -> Seq<char> {
    Seq::new(s.len(), |i: int| lower_char(s[i]))
}

/// The maximal suffix of `s` in which `c` does not occur: everything after
/// the last occurrence of `c`, or `s` itself when `c` does not occur.
pub open spec fn suffix_after_last(s: Seq<char>, c: char) -> Seq<char>
    decreases s.len(),
{
    if s.contains(c) {
        suffix_after_last(s.drop_first(), c)
    } else {
        s
    }
}

/// The file-name component of a path: its last real segment. Trailing `/`
/// and trailing `.` segments are passed over; a path whose last segment is
/// `..`, or that has no segment at all, has no name and resolves to the
/// empty sequence.
pub open spec fn file_name_of(p: Seq<char>) -> Seq<char>
    decreases p.len(),
{
    if p.len() == 0 {
        Seq::empty()
    } else if p.last() == '/' {
        file_name_of(p.drop_last())
    } else {
        let s = suffix_after_last(p, '/');
        if s == seq!['.'] {
            file_name_of(p.take(p.len() - 1))
        } else if s == seq!['.', '.'] {
            Seq::empty()
        } else {
            s
        }
    }
}

/// The final extension of a path: the part of the file name after its last
/// `.`, provided a `.` occurs past the name's first character (so a name
/// that is nothing but a leading dot introduces no extension).
pub open spec fn ext_of(p: Seq<char>) -> Option<Seq<char>> {
    let name = file_name_of(p);
    if name.len() >= 2 && name.skip(1).contains('.') {
        Some(suffix_after_last(name, '.'))
    } else {
        None
    }
}

/// A path is accepted exactly when it has a final extension and that
/// extension, lowercased, is one of the allowed entries verbatim.
pub open spec fn accepted(p: Seq<char>, allowed: Seq<String>) -> bool {
    match ext_of(p) {
        Some(e) => exists|k: int| 0 <= k < allowed.len() && allowed[k]@ == lower_seq(e),
        None => false,
    }
}

/// `suffix_after_last(s, c)` is the suffix of `s` that starts right after the
/// last occurrence of `c`; `i` names that cut point.
proof fn lemma_suffix_after_last(s: Seq<char>, c: char, i: int)
    requires
        0 <= i <= s.len(),
        forall|j: int| i <= j < s.len() ==> s[j] != c,
        i > 0 ==> s[i - 1] == c,
    ensures
        suffix_after_last(s, c) =~= s.skip(i),
    decreases i,
{
    if i == 0 {
        assert(!s.contains(c));
    } else {
        assert(s.contains(c)) by {
            assert(s[i - 1] == c);
        }
        lemma_suffix_after_last(s.drop_first(), c, i - 1);
        assert(s.drop_first().skip(i - 1) =~= s.skip(i));
    }
}

/// ASCII-lowercases one character.
fn to_lower(c: char) -> (r: char)
    ensures
        r == lower_char(c),
{
    let u = c as u32;
    if 65 <= u && u <= 90 {
        proof {
            vstd::utf8::char_u32_cast(c, u);
        }
        ((u + 32) as u8) as char
    } else {
        c
    }
}

/// True exactly when `entry` equals the lowercasing of `s[from..to]`.
fn matches_lowered(s: &str, from: usize, to: usize, entry: &str) -> (r: bool)
    requires
        from <= to <= s@.len(),
    ensures
        r == (entry@ == lower_seq(s@.subrange(from as int, to as int))),
{
    let n = to - from;
    if entry.unicode_len() != n {
        assert(entry@ != lower_seq(s@.subrange(from as int, to as int)));
        return false;
    }
    let mut i: usize = 0;
    while i < n
        invariant
            from <= to <= s@.len(),
            n == to - from,
            entry@.len() == n,
            0 <= i <= n,
            forall|j: int|
                0 <= j < i ==> entry@[j] == lower_char(s@.subrange(from as int, to as int)[j]),
        decreases n - i,
    {
        let sc = to_lower(s.get_char(from + i));
        let ec = entry.get_char(i);
        if sc != ec {
            assert(entry@[i as int] != lower_seq(s@.subrange(from as int, to as int))[i as int]);
            return false;
        }
        i += 1;
    }
    assert(entry@ =~= lower_seq(s@.subrange(from as int, to as int)));
    true
}

/// The position right after the last `/` of `path`, or 0 when it holds none.
fn segment_start(path: &str) -> (bstart: usize)
    ensures
        bstart <= path@.len(),
        bstart > 0 ==> path@[bstart - 1] == '/',
        forall|j: int| bstart <= j < path@.len() ==> path@[j] != '/',
{
    let n = path.unicode_len();
    let mut bstart: usize = 0;
    let mut i: usize = 0;
    while i < n
        invariant
            n == path@.len(),
            0 <= i <= n,
            0 <= bstart <= i,
            bstart > 0 ==> path@[bstart - 1] == '/',
            forall|j: int| bstart <= j < i ==> path@[j] != '/',
        decreases n - i,
    {
        if path.get_char(i) == '/' {
            bstart = i + 1;
        }
        i += 1;
    }
    bstart
}

/// Resolves the file-name component of `path`: its last real segment, with
/// trailing `/` and `.` segments passed over; empty when the path has no
/// name component (it is empty, or its last segment is `..`).
pub fn file_name(path: &str) -> (r: String)
    ensures
        r@ == file_name_of(path@),
    decreases path@.len(),
{
    let n = path.unicode_len();
    if n == 0 {
        return String::new();
    }
    if path.get_char(n - 1) == '/' {
        let head = path.substring_char(0, n - 1);
        assert(head@ =~= path@.drop_last());
        return file_name(head);
    }
    let bstart = segment_start(path);
    proof {
        lemma_suffix_after_last(path@, '/', bstart as int);
    }
    let ghost s = suffix_after_last(path@, '/');
    assert(s =~= path@.subrange(bstart as int, n as int));
    let seg_len = n - bstart;
    if seg_len == 1 && path.get_char(bstart) == '.' {
        assert(s =~= seq!['.']);
        let head = path.substring_char(0, n - 1);
        assert(head@ =~= path@.take(n - 1));
        return file_name(head);
    }
    if seg_len == 2 && path.get_char(bstart) == '.' && path.get_char(bstart + 1) == '.' {
        assert(s =~= seq!['.', '.']);
        return String::new();
    }
    proof {
        if s == seq!['.'] {
            assert(s.len() == 1 && s[0] == '.');
        }
        if s == seq!['.', '.'] {
            assert(s.len() == 2 && s[0] == '.' && s[1] == '.');
        }
    }
    String::from_str(path.substring_char(bstart, n))
}

/// Classifies `path` against the allowed extension set: true exactly when the
/// lowercased final extension of `path` is one of the `allowed` entries.
pub fn accepts(path: &str, allowed: &Vec<String>) -> (r: bool)
    ensures
        r == accepted(path@, allowed@),
{
    let name = file_name(path);
    let ns = name.as_str();
    let n = ns.unicode_len();
    if n < 2 {
        return false;
    }
    // Locate the last `.` strictly past the name's first character.
    let mut dot: usize = 0;
    let mut has_dot: bool = false;
    let mut k: usize = 1;
    while k < n
        invariant
            n == ns@.len(),
            1 <= k <= n,
            has_dot ==> 1 <= dot < k && ns@[dot as int] == '.',
            forall|j: int| (if has_dot { dot + 1 } else { 1 }) <= j < k ==> ns@[j] != '.',
        decreases n - k,
    {
        if ns.get_char(k) == '.' {
            dot = k;
            has_dot = true;
        }
        k += 1;
    }
    if !has_dot {
        assert(ext_of(path@) is None) by {
            if ns@.skip(1).contains('.') {
                let w = choose|w: int| 0 <= w < ns@.skip(1).len() && ns@.skip(1)[w] == '.';
                assert(ns@[1 + w] == '.');
            }
        }
        return false;
    }
    // The extension runs from dot + 1 to the end of the name.
    proof {
        assert(ns@.skip(1)[dot - 1] == '.');
        lemma_suffix_after_last(ns@, '.', dot + 1);
    }
    let ghost e = ext_of(path@)->Some_0;
    assert(e =~= ns@.subrange(dot + 1, n as int));

    // Compare the lowercased extension against each allowed entry.
    let mut m: usize = 0;
    while m < allowed.len()
        invariant
            n == ns@.len(),
            dot < n,
            e =~= ns@.subrange(dot + 1, n as int),
            ext_of(path@) == Some(e),
            0 <= m <= allowed@.len(),
            forall|j: int| 0 <= j < m ==> allowed@[j]@ != lower_seq(e),
        decreases allowed@.len() - m,
    {
        if matches_lowered(ns, dot + 1, n, allowed[m].as_str()) {
            return true;
        }
        m += 1;
    }
    false
}

/// The allowed extensions of the pipeline's standard configuration.
pub fn default_extensions() -> (r: Vec<String>)
    ensures
        r@.len() == 5,
        r@[0]@ == "jpg"@,
        r@[1]@ == "jpeg"@,
        r@[2]@ == "png"@,
        r@[3]@ == "gif"@,
        r@[4]@ == "bmp"@,
{
    let mut v: Vec<String> = Vec::new();
    v.push(String::from_str("jpg"));
    v.push(String::from_str("jpeg"));
    v.push(String::from_str("png"));
    v.push(String::from_str("gif"));
    v.push(String::from_str("bmp"));
    v
}

} // verus!
