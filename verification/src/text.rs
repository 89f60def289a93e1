//! Standard string and path operations that the parsers here rely on.

use vstd::prelude::*;

verus! {

/// Whether `c` has the Unicode property White_Space, the set of characters
/// that `char::is_whitespace` accepts and `str::trim` removes: the controls
/// U+0009 to U+000D, the space, U+0085, U+00A0, U+1680, U+2000 to U+200A,
/// U+2028, U+2029, U+202F, U+205F and U+3000.
pub open spec fn white_space(c: char) -> bool {
    let n = c as int;
    ||| 0x9 <= n <= 0xd
    ||| n == 0x20
    ||| n == 0x85
    ||| n == 0xa0
    ||| n == 0x1680
    ||| 0x2000 <= n <= 0x200a
    ||| n == 0x2028
    ||| n == 0x2029
    ||| n == 0x202f
    ||| n == 0x205f
    ||| n == 0x3000
}

/// `s` without its leading white space.
pub open spec fn trim_start(s: Seq<char>) -> Seq<char>
    decreases s.len(),
{
    if s.len() > 0 && white_space(s[0]) {
        trim_start(s.drop_first())
    } else {
        s
    }
}

/// `s` without its trailing white space.
pub open spec fn trim_end(s: Seq<char>) -> Seq<char>
    decreases s.len(),
{
    if s.len() > 0 && white_space(s.last()) {
        trim_end(s.drop_last())
    } else {
        s
    }
}

/// `s` without leading and trailing white space.
pub open spec fn trimmed(s: Seq<char>) -> Seq<char> {
    trim_end(trim_start(s))
}

/// The index of the first occurrence of `c` in `s`.
pub open spec fn first_index(s: Seq<char>, c: char) -> Option<int>
    decreases s.len(),
{
    if s.len() == 0 {
        None
    } else if s[0] == c {
        Some(0)
    } else {
        match first_index(s.drop_first(), c) {
            Some(i) => Some(i + 1),
            None => None,
        }
    }
}

/// The pieces of `s` cut at the first two occurrences of `sep`: one piece
/// when `sep` does not occur, two when it occurs once, and three otherwise,
/// the last of which keeps any further separators.
pub open spec fn split_three(s: Seq<char>, sep: char) -> Seq<Seq<char>> {
    match first_index(s, sep) {
        None => seq![s],
        Some(i) => {
            let rest = s.skip(i + 1);
            match first_index(rest, sep) {
                None => seq![s.take(i), rest],
                Some(j) => seq![s.take(i), rest.take(j), rest.skip(j + 1)],
            }
        },
    }
}

/// The views of a sequence of string slices.
pub open spec fn str_views(parts: Seq<&str>) -> Seq<Seq<char>> {
    parts.map_values(|p: &str| p@)
}

/// The view of an optional string.
pub open spec fn opt_text(s: Option<String>) -> Option<Seq<char>> {
    match s {
        Some(t) => Some(t@),
        None => None,
    }
}

/// The view of an optional string slice.
pub open spec fn opt_str(s: Option<&str>) -> Option<Seq<char>> {
    match s {
        Some(t) => Some(t@),
        None => None,
    }
}

/// The last component of a path, as `Path::file_name` gives it: `None` for a
/// path that ends in `..`, for a root and for the empty path.
pub uninterp spec fn path_file_name(path: Seq<char>) -> Option<Seq<char>>;

/// The path `child` appended to `base`, as `Path::join` gives it.
pub uninterp spec fn path_join(base: Seq<char>, child: Seq<char>) -> Seq<char>;

/// `str::trim`: the slice without leading and trailing white space.
#[verifier::external_body]
pub fn trim_text<'a>(s: &'a str) -> (r: &'a str)
    ensures
        r@ == trimmed(s@),
        r@.len() > 0 ==> !white_space(r@[0]) && !white_space(r@.last()),
{
    s.trim()
}

/// `str::strip_prefix`: the rest of `s` after `prefix`, when `s` starts with it.
#[verifier::external_body]
pub fn strip_prefix_text<'a>(s: &'a str, prefix: &str) -> (r: Option<&'a str>)
    ensures
        match r {
            Some(rest) => prefix@.is_prefix_of(s@) && rest@ == s@.skip(prefix@.len() as int),
            None => !prefix@.is_prefix_of(s@),
        },
{
    s.strip_prefix(prefix)
}

/// `str::splitn` with a limit of three pieces, collected in order.
#[verifier::external_body]
pub fn split_text_three<'a>(s: &'a str, sep: char) -> (parts: Vec<&'a str>)
    ensures
        str_views(parts@) == split_three(s@, sep),
{
    s.splitn(3, sep).collect()
}

/// `Path::file_name` of the path written in `path`, as text.
#[verifier::external_body]
pub fn file_name_text(path: &str) -> (r: Option<String>)
    ensures
        opt_text(r) == path_file_name(path@),
{
    std::path::Path::new(path).file_name().and_then(|n| n.to_str()).map(|n| n.to_string())
}

/// `Path::join` of two paths written as text.
#[verifier::external_body]
pub fn join_path_text(base: &str, child: &str) -> (r: String)
    ensures
        r@ == path_join(base@, child@),
{
    std::path::Path::new(base).join(child).to_string_lossy().into_owned()
}

} // verus!

verus! {

/// The first separator after a piece free of separators is the one that
/// ends the piece.
pub proof fn lemma_first_index_after_piece(piece: Seq<char>, sep: char, rest: Seq<char>)
    requires
        !piece.contains(sep),
    ensures
        first_index(piece + seq![sep] + rest, sep) == Some(piece.len() as int),
    decreases piece.len(),
{
    let s = piece + seq![sep] + rest;
    if piece.len() == 0 {
        assert(s[0] == sep);
    } else {
        assert(s[0] == piece[0]);
        assert(piece[0] != sep) by {
            if piece[0] == sep {
                assert(piece.contains(sep));
            }
        }
        let tail = piece.drop_first();
        assert(!tail.contains(sep)) by {
            if tail.contains(sep) {
                let k = choose|k: int| 0 <= k < tail.len() && tail[k] == sep;
                assert(piece[k + 1] == sep);
            }
        }
        lemma_first_index_after_piece(tail, sep, rest);
        assert(s.drop_first() =~= tail + seq![sep] + rest);
    }
}

/// Three pieces joined by a separator that the first two do not hold split
/// back into those pieces.
pub proof fn lemma_split_three_joined(a: Seq<char>, b: Seq<char>, c: Seq<char>, sep: char)
    requires
        !a.contains(sep),
        !b.contains(sep),
    ensures
        split_three(a + seq![sep] + b + seq![sep] + c, sep) == seq![a, b, c],
{
    let s = a + seq![sep] + b + seq![sep] + c;
    lemma_first_index_after_piece(a, sep, b + seq![sep] + c);
    assert(a + seq![sep] + (b + seq![sep] + c) =~= s);
    let rest = s.skip(a.len() as int + 1);
    assert(rest =~= b + seq![sep] + c);
    lemma_first_index_after_piece(b, sep, c);
    assert(s.take(a.len() as int) =~= a);
    assert(rest.take(b.len() as int) =~= b);
    assert(rest.skip(b.len() as int + 1) =~= c);
    assert(split_three(s, sep) =~= seq![a, b, c]);
}

} // verus!
