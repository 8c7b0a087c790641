//! Verified text helpers: ASCII case folding for the CLI selectors, the
//! file-name and archive-name rules for artefact paths, and the
//! space-joined package strings handed to the container build.

use vstd::prelude::*;

verus! {

use vstd::string::StrSliceExecFns;
use vstd::string::StringExecFns;

/// ASCII lower-casing of a single character; anything outside 'A'..'Z'
/// is left unchanged.
pub open spec fn lower_char(c: char) -> char {
    if c == 'A' { 'a' } else if c == 'B' { 'b' } else if c == 'C' { 'c' }
    else if c == 'D' { 'd' } else if c == 'E' { 'e' } else if c == 'F' { 'f' }
    else if c == 'G' { 'g' } else if c == 'H' { 'h' } else if c == 'I' { 'i' }
    else if c == 'J' { 'j' } else if c == 'K' { 'k' } else if c == 'L' { 'l' }
    else if c == 'M' { 'm' } else if c == 'N' { 'n' } else if c == 'O' { 'o' }
    else if c == 'P' { 'p' } else if c == 'Q' { 'q' } else if c == 'R' { 'r' }
    else if c == 'S' { 's' } else if c == 'T' { 't' } else if c == 'U' { 'u' }
    else if c == 'V' { 'v' } else if c == 'W' { 'w' } else if c == 'X' { 'x' }
    else if c == 'Y' { 'y' } else if c == 'Z' { 'z' } else { c }
}

/// ASCII lower-casing, character by character.
pub open spec fn lower_seq(s: Seq<char>) -> Seq<char> {
    s.map_values(|c: char| lower_char(c))
}

/// ASCII lower-casing of a single character.
pub fn to_lower_char(c: char) -> (r: char)
    ensures
        r == lower_char(c),
{
    if c == 'A' { 'a' } else if c == 'B' { 'b' } else if c == 'C' { 'c' }
    else if c == 'D' { 'd' } else if c == 'E' { 'e' } else if c == 'F' { 'f' }
    else if c == 'G' { 'g' } else if c == 'H' { 'h' } else if c == 'I' { 'i' }
    else if c == 'J' { 'j' } else if c == 'K' { 'k' } else if c == 'L' { 'l' }
    else if c == 'M' { 'm' } else if c == 'N' { 'n' } else if c == 'O' { 'o' }
    else if c == 'P' { 'p' } else if c == 'Q' { 'q' } else if c == 'R' { 'r' }
    else if c == 'S' { 's' } else if c == 'T' { 't' } else if c == 'U' { 'u' }
    else if c == 'V' { 'v' } else if c == 'W' { 'w' } else if c == 'X' { 'x' }
    else if c == 'Y' { 'y' } else if c == 'Z' { 'z' } else { c }
}

/// Whether `s`, lowered ASCII-wise, spells exactly `t`.
pub fn matches_lowered(s: &str, t: &str) -> (r: bool)
    ensures
        r == (lower_seq(s@) == t@),
{
    let n = s.unicode_len();
    let m = t.unicode_len();
    if n != m {
        proof {
            assert(lower_seq(s@).len() == s@.len());
        }
        return false;
    }
    let mut i: usize = 0;
    while i < n
        invariant
            n == s@.len(),
            n == t@.len(),
            0 <= i <= n,
            forall|j: int| 0 <= j < i ==> lower_char(s@[j]) == t@[j],
        decreases n - i,
    {
        let c = s.get_char(i);
        let d = t.get_char(i);
        if to_lower_char(c) != d {
            proof {
                assert(lower_seq(s@)[i as int] == lower_char(s@[i as int]));
            }
            return false;
        }
        i += 1;
    }
    proof {
        assert(lower_seq(s@) =~= t@);
    }
    true
}

/// The part of a path after its last separator.  A path that ends in a
/// separator names no file, so its file name is empty.
pub open spec fn file_name_of(path: Seq<char>) -> Seq<char>
    decreases path.len(),
{
    if path.len() == 0 {
        Seq::empty()
    } else if path.last() == '/' {
        Seq::empty()
    } else {
        file_name_of(path.drop_last()).push(path.last())
    }
}

proof fn lemma_file_name_suffix(path: Seq<char>, cut: int)
    requires
        0 <= cut <= path.len(),
        forall|j: int| cut <= j < path.len() ==> path[j] != '/',
        cut > 0 ==> path[cut - 1] == '/',
    ensures
        file_name_of(path) == path.subrange(cut, path.len() as int),
    decreases path.len(),
{
    if cut == path.len() {
        if cut > 0 {
            assert(path.last() == '/');
        }
        assert(path.subrange(cut, path.len() as int) =~= Seq::<char>::empty());
    } else {
        assert(path.last() != '/');
        lemma_file_name_suffix(path.drop_last(), cut);
        assert(file_name_of(path) =~= path.subrange(cut, path.len() as int)) by {
            assert(path.drop_last().subrange(cut, path.len() - 1) =~= path.subrange(
                cut,
                path.len() - 1,
            ));
        }
    }
}

/// The part of a path after its last separator.
pub fn file_name(path: &str) -> (r: String)
    ensures
        r@ == file_name_of(path@),
{
    let n = path.unicode_len();
    let mut cut: usize = n;
    while cut > 0 && path.get_char(cut - 1) != '/'
        invariant
            n == path@.len(),
            0 <= cut <= n,
            forall|j: int| cut <= j < n ==> path@[j] != '/',
        decreases cut,
    {
        cut = cut - 1;
    }
    proof {
        lemma_file_name_suffix(path@, cut as int);
    }
    let sub = path.substring_char(cut, n);
    String::from_str(sub)
}

/// Whether a file name denotes a gzip-compressed tar archive: it must
/// carry the two-part extension, and there must be a non-empty stem in
/// front of it.
pub open spec fn is_tar_gz_name(name: Seq<char>) -> bool {
    name.len() > 7 && name.subrange(name.len() - 7, name.len() as int) == ".tar.gz"@
}

/// Whether the file a path points to denotes a gzip-compressed tar archive.
pub open spec fn is_tar_gz_path(path: Seq<char>) -> bool {
    is_tar_gz_name(file_name_of(path))
}

/// The archive-format policy check on an artefact path.  It is a pure
/// file-name test; no file content is inspected.
pub fn is_tar_gz(path: &str) -> (r: bool)
    ensures
        r == is_tar_gz_path(path@),
{
    let name = file_name(path);
    let s = name.as_str();
    let n = s.unicode_len();
    if n <= 7 {
        return false;
    }
    proof {
        reveal_strlit(".tar.gz");
    }
    let ok = s.get_char(n - 7) == '.' && s.get_char(n - 6) == 't' && s.get_char(n - 5) == 'a'
        && s.get_char(n - 4) == 'r' && s.get_char(n - 3) == '.' && s.get_char(n - 2) == 'g'
        && s.get_char(n - 1) == 'z';
    proof {
        let tail = name@.subrange(n - 7, n as int);
        if ok {
            assert(tail =~= ".tar.gz"@);
        } else {
            assert(tail.len() == 7);
            assert(tail[0] == name@[n - 7]);
            assert(tail[1] == name@[n - 6]);
            assert(tail[2] == name@[n - 5]);
            assert(tail[3] == name@[n - 4]);
            assert(tail[4] == name@[n - 3]);
            assert(tail[5] == name@[n - 2]);
            assert(tail[6] == name@[n - 1]);
        }
    }
    ok
}

/// The parts joined with single spaces, in order: the build-arg string a
/// package list turns into.
pub open spec fn join_spaced(parts: Seq<Seq<char>>) -> Seq<char>
    decreases parts.len(),
{
    if parts.len() == 0 {
        Seq::empty()
    } else if parts.len() == 1 {
        parts[0]
    } else {
        parts[0] + seq![' '] + join_spaced(parts.drop_first())
    }
}

proof fn lemma_join_snoc(parts: Seq<Seq<char>>, i: int)
    requires
        1 <= i < parts.len(),
    ensures
        join_spaced(parts.take(i + 1)) == join_spaced(parts.take(i)) + seq![' '] + parts[i],
    decreases i,
{
    if i == 1 {
        assert(parts.take(2).drop_first() =~= seq![parts[1]]);
        assert(join_spaced(seq![parts[1]]) == seq![parts[1]][0]);
        assert(seq![parts[1]][0] == parts[1]);
        assert(parts.take(2)[0] == parts[0]);
        assert(parts.take(1).len() == 1);
        assert(parts.take(1)[0] == parts[0]);
        assert(join_spaced(parts.take(2)) == parts[0] + seq![' '] + join_spaced(seq![parts[1]]));
        assert(join_spaced(parts.take(i + 1)) =~= join_spaced(parts.take(i)) + seq![' ']
            + parts[i]);
    } else {
        let rest = parts.drop_first();
        lemma_join_snoc(rest, i - 1);
        assert(parts.take(i + 1).drop_first() =~= rest.take(i));
        assert(parts.take(i).drop_first() =~= rest.take(i - 1));
        assert(parts.take(i + 1)[0] == parts[0]);
        assert(parts.take(i)[0] == parts[0]);
        assert(rest[i - 1] == parts[i]);
        assert(join_spaced(parts.take(i + 1)) == parts[0] + seq![' '] + join_spaced(rest.take(i)));
        assert(join_spaced(parts.take(i)) == parts[0] + seq![' '] + join_spaced(rest.take(i - 1)));
        assert(join_spaced(rest.take(i)) == join_spaced(rest.take(i - 1)) + seq![' '] + rest[i
            - 1]);
        let head = parts[0] + seq![' '];
        let mid = join_spaced(rest.take(i - 1));
        assert(head + (mid + seq![' '] + parts[i]) =~= (head + mid) + seq![' '] + parts[i]);
        assert(join_spaced(parts.take(i + 1)) == head + (mid + seq![' '] + parts[i]));
        assert(join_spaced(parts.take(i)) == head + mid);
        assert(join_spaced(parts.take(i + 1)) == join_spaced(parts.take(i)) + seq![' ']
            + parts[i]);
    }
}

/// The packages joined with single spaces, in order.
pub fn join_packages(parts: &Vec<String>) -> (r: String)
    ensures
        r@ == join_spaced(parts.deep_view()),
{
    if parts.len() == 0 {
        return String::new();
    }
    let mut s: String = parts[0].clone();
    proof {
        assert(parts.deep_view().take(1)[0] == parts.deep_view()[0]);
    }
    let mut i: usize = 1;
    while i < parts.len()
        invariant
            1 <= i <= parts.len(),
            parts.deep_view().len() == parts.len(),
            s@ == join_spaced(parts.deep_view().take(i as int)),
        decreases parts.len() - i,
    {
        s.append(" ");
        s.append(parts[i].as_str());
        proof {
            reveal_strlit(" ");
            assert(" "@ =~= seq![' ']);
            lemma_join_snoc(parts.deep_view(), i as int);
        }
        i += 1;
    }
    proof {
        assert(parts.deep_view().take(parts.len() as int) =~= parts.deep_view());
    }
    s
}

} // verus!
