//! Verified text utilities: character-vector conversion, substring search
//! and replacement, and joining. All contracts are stated over `Seq<char>`.

use vstd::prelude::*;

verus! {

/// Relies on String::push: appends one character at the end of the string.
#[verifier::external_body]
pub fn push_char(s: &mut String, c: char)
    ensures
        final(s)@ == old(s)@.push(c),
{
    s.push(c);
}

/// Copies the characters of a string slice into a vector.
pub fn chars_vec(s: &str) -> (r: Vec<char>)
    ensures
        r@ == s@,
{
    let n = s.unicode_len();
    let mut out: Vec<char> = Vec::new();
    let mut i: usize = 0;
    while i < n
        invariant
            n == s@.len(),
            i <= n,
            out@ =~= s@.subrange(0, i as int),
        decreases n - i,
    {
        out.push(s.get_char(i));
        i += 1;
    }
    assert(out@ =~= s@);
    out
}

/// Builds a string from a vector of characters.
pub fn string_from_chars(v: &Vec<char>) -> (r: String)
    ensures
        r@ == v@,
{
    let mut out = String::new();
    let mut i: usize = 0;
    while i < v.len()
        invariant
            i <= v@.len(),
            out@ =~= v@.subrange(0, i as int),
        decreases v@.len() - i,
    {
        push_char(&mut out, v[i]);
        i += 1;
    }
    assert(out@ =~= v@);
    out
}

/// Compares two string slices character by character.
pub fn str_eq(a: &str, b: &str) -> (r: bool)
    ensures
        r == (a@ == b@),
{
    let na = a.unicode_len();
    let nb = b.unicode_len();
    if na != nb {
        assert(a@ != b@);
        return false;
    }
    let mut i: usize = 0;
    while i < na
        invariant
            na == a@.len(),
            na == b@.len(),
            i <= na,
            forall|k: int| 0 <= k < i ==> a@[k] == b@[k],
        decreases na - i,
    {
        if a.get_char(i) != b.get_char(i) {
            return false;
        }
        i += 1;
    }
    assert(a@ =~= b@);
    true
}

/// Copies an optional string.
pub fn dup_opt_string(o: &Option<String>) -> (r: Option<String>)
    ensures
        r == *o,
{
    match o {
        Some(s) => Some(s.clone()),
        None => None,
    }
}

/// The needle `n` occurs in `h` at position `i`.
pub open spec fn contains_at(h: Seq<char>, n: Seq<char>, i: int) -> bool {
    0 <= i && i + n.len() <= h.len() && h.subrange(i, i + n.len()) == n
}

/// The needle `n` occurs somewhere in `h`.
pub open spec fn has_sub(h: Seq<char>, n: Seq<char>) -> bool {
    exists|i: int| contains_at(h, n, i)
}

/// `h` starts with the prefix `n`.
pub open spec fn starts_with(h: Seq<char>, n: Seq<char>) -> bool {
    n.len() <= h.len() && h.subrange(0, n.len() as int) == n
}

/// Checks whether `n` occurs in `h` at position `i`.
pub fn match_at(h: &Vec<char>, i: usize, n: &Vec<char>) -> (r: bool)
    requires
        i + n@.len() <= h@.len(),
    ensures
        r == contains_at(h@, n@, i as int),
{
    let hlen = h.len();
    let mut j: usize = 0;
    while j < n.len()
        invariant
            hlen == h@.len(),
            i + n@.len() <= h@.len(),
            j <= n@.len(),
            forall|k: int| 0 <= k < j ==> h@[i + k] == n@[k],
        decreases n@.len() - j,
    {
        if h[i + j] != n[j] {
            assert(h@.subrange(i as int, i + n@.len()) != n@) by {
                assert(h@.subrange(i as int, i + n@.len())[j as int] == h@[i + j]);
            }
            return false;
        }
        j += 1;
    }
    assert(h@.subrange(i as int, i + n@.len()) =~= n@);
    true
}

/// Checks whether `n` occurs anywhere in `h`.
pub fn contains_sub(h: &Vec<char>, n: &Vec<char>) -> (r: bool)
    ensures
        r == has_sub(h@, n@),
{
    if n.len() > h.len() {
        assert(!has_sub(h@, n@)) by {
            assert forall|i: int| !contains_at(h@, n@, i) by {}
        }
        return false;
    }
    let last = h.len() - n.len();
    let mut i: usize = 0;
    loop
        invariant
            n@.len() <= h@.len(),
            last == h@.len() - n@.len(),
            i <= last,
            forall|k: int| 0 <= k < i ==> !contains_at(h@, n@, k),
        decreases last - i,
    {
        if match_at(h, i, n) {
            return true;
        }
        if i == last {
            assert(!has_sub(h@, n@)) by {
                assert forall|k: int| !contains_at(h@, n@, k) by {
                    if 0 <= k < i {
                    } else if k == last {
                    }
                }
            }
            return false;
        }
        i += 1;
    }
}

/// Checks whether the string `h` holds `n` as a substring.
pub fn str_has_sub(h: &str, n: &str) -> (r: bool)
    ensures
        r == has_sub(h@, n@),
{
    let hv = chars_vec(h);
    let nv = chars_vec(n);
    contains_sub(&hv, &nv)
}

/// The result of replacing every left-to-right, non-overlapping occurrence
/// of `n` in `h` with `r`. An empty needle leaves `h` unchanged.
pub open spec fn replace_sub(h: Seq<char>, n: Seq<char>, r: Seq<char>) -> Seq<char>
    decreases h.len(),
{
    if n.len() == 0 || h.len() < n.len() {
        h
    } else if h.subrange(0, n.len() as int) == n {
        r + replace_sub(h.skip(n.len() as int), n, r)
    } else {
        seq![h[0]] + replace_sub(h.skip(1), n, r)
    }
}

/// Copies a character vector.
pub fn copy_chars(h: &Vec<char>) -> (out: Vec<char>)
    ensures
        out@ == h@,
{
    let mut out: Vec<char> = Vec::new();
    let mut i: usize = 0;
    while i < h.len()
        invariant
            i <= h@.len(),
            out@ =~= h@.subrange(0, i as int),
        decreases h@.len() - i,
    {
        out.push(h[i]);
        i += 1;
    }
    assert(out@ =~= h@);
    out
}

/// Copies the characters of `h` between `from` and `to` into a new vector.
pub fn slice_chars(h: &Vec<char>, from: usize, to: usize) -> (out: Vec<char>)
    requires
        from <= to <= h@.len(),
    ensures
        out@ == h@.subrange(from as int, to as int),
{
    let mut out: Vec<char> = Vec::new();
    let mut i: usize = from;
    while i < to
        invariant
            from <= i <= to <= h@.len(),
            out@ =~= h@.subrange(from as int, i as int),
        decreases to - i,
    {
        out.push(h[i]);
        i += 1;
    }
    assert(out@ =~= h@.subrange(from as int, to as int));
    out
}

/// Appends the characters of `src` to `dst`.
pub fn append_chars(dst: &mut Vec<char>, src: &Vec<char>)
    ensures
        final(dst)@ == old(dst)@ + src@,
{
    let mut i: usize = 0;
    while i < src.len()
        invariant
            i <= src@.len(),
            dst@ =~= old(dst)@ + src@.subrange(0, i as int),
        decreases src@.len() - i,
    {
        dst.push(src[i]);
        i += 1;
    }
    assert(dst@ =~= old(dst)@ + src@);
}

/// Replaces every left-to-right, non-overlapping occurrence of `n` in `h`
/// with `r`, as `replace_sub` describes.
pub fn replace_all(h: &Vec<char>, n: &Vec<char>, r: &Vec<char>) -> (out: Vec<char>)
    ensures
        out@ == replace_sub(h@, n@, r@),
{
    if n.len() == 0 {
        return copy_chars(h);
    }
    let mut out: Vec<char> = Vec::new();
    let mut i: usize = 0;
    proof {
        assert(h@.skip(0) =~= h@);
        assert(Seq::<char>::empty() + replace_sub(h@, n@, r@) =~= replace_sub(h@, n@, r@));
    }
    while i < h.len()
        invariant
            n@.len() > 0,
            i <= h@.len(),
            replace_sub(h@, n@, r@) == out@ + replace_sub(h@.skip(i as int), n@, r@),
        decreases h@.len() - i,
    {
        let ghost pre_out = out@;
        if h.len() - i >= n.len() && match_at(h, i, n) {
            append_chars(&mut out, r);
            proof {
                let rest = h@.skip(i as int);
                assert(rest.subrange(0, n@.len() as int) =~= h@.subrange(
                    i as int,
                    i + n@.len(),
                ));
                assert(rest.skip(n@.len() as int) =~= h@.skip(i + n@.len()));
                assert(replace_sub(rest, n@, r@) == r@ + replace_sub(
                    h@.skip(i + n@.len()),
                    n@,
                    r@,
                ));
                assert(pre_out + replace_sub(rest, n@, r@) =~= (pre_out + r@) + replace_sub(
                    h@.skip(i + n@.len()),
                    n@,
                    r@,
                ));
            }
            i += n.len();
        } else {
            out.push(h[i]);
            proof {
                let rest = h@.skip(i as int);
                assert(rest[0] == h@[i as int]);
                assert(rest.skip(1) =~= h@.skip(i + 1));
                if rest.len() < n@.len() {
                    assert(replace_sub(rest, n@, r@) == rest);
                    assert(rest =~= seq![h@[i as int]] + h@.skip(i + 1));
                    assert(h@.skip(i + 1).len() < n@.len());
                    assert(replace_sub(h@.skip(i + 1), n@, r@) == h@.skip(i + 1));
                } else {
                    assert(rest.subrange(0, n@.len() as int) =~= h@.subrange(
                        i as int,
                        i + n@.len(),
                    ));
                    assert(rest.subrange(0, n@.len() as int) != n@);
                    assert(replace_sub(rest, n@, r@) == seq![rest[0]] + replace_sub(
                        rest.skip(1),
                        n@,
                        r@,
                    ));
                }
                assert(pre_out + replace_sub(rest, n@, r@) =~= pre_out.push(h@[i as int])
                    + replace_sub(h@.skip(i + 1), n@, r@));
            }
            i += 1;
        }
    }
    proof {
        assert(h@.skip(h@.len() as int) =~= Seq::<char>::empty());
        assert(replace_sub(Seq::<char>::empty(), n@, r@) =~= Seq::<char>::empty());
        assert(out@ + Seq::<char>::empty() =~= out@);
    }
    out
}

/// The last position of `c` in `s`, or `-1` if `c` does not occur.
pub open spec fn last_index_of(s: Seq<char>, c: char) -> int
    decreases s.len(),
{
    if s.len() == 0 {
        -1
    } else if s[s.len() - 1] == c {
        s.len() - 1
    } else {
        last_index_of(s.drop_last(), c)
    }
}

pub proof fn lemma_last_index_of(s: Seq<char>, c: char)
    ensures
        -1 <= last_index_of(s, c) < s.len(),
        last_index_of(s, c) >= 0 ==> s[last_index_of(s, c)] == c,
    decreases s.len(),
{
    if s.len() > 0 && s[s.len() - 1] != c {
        lemma_last_index_of(s.drop_last(), c);
        if last_index_of(s, c) >= 0 {
            assert(s.drop_last()[last_index_of(s, c)] == s[last_index_of(s, c)]);
        }
    }
}

/// Finds the last position of `c` in `h`, as `last_index_of` describes.
pub fn rfind_char(h: &Vec<char>, c: char) -> (r: Option<usize>)
    ensures
        match r {
            Some(i) => last_index_of(h@, c) == i as int,
            None => last_index_of(h@, c) == -1,
        },
{
    let mut i: usize = h.len();
    proof {
        assert(h@.take(h@.len() as int) =~= h@);
    }
    while i > 0
        invariant
            i <= h@.len(),
            last_index_of(h@, c) == last_index_of(h@.take(i as int), c),
        decreases i,
    {
        proof {
            assert(h@.take(i as int).drop_last() =~= h@.take(i - 1));
            assert(h@.take(i as int)[i - 1] == h@[i - 1]);
        }
        if h[i - 1] == c {
            return Some(i - 1);
        }
        i -= 1;
    }
    assert(h@.take(0) =~= Seq::<char>::empty());
    None
}

/// The strings of `parts` joined with the separator `sep` between them.
pub open spec fn join_with(parts: Seq<Seq<char>>, sep: Seq<char>) -> Seq<char>
    decreases parts.len(),
{
    if parts.len() == 0 {
        Seq::empty()
    } else if parts.len() == 1 {
        parts[0]
    } else {
        parts[0] + sep + join_with(parts.skip(1), sep)
    }
}

#[verifier::rlimit(50)]
proof fn lemma_join_push(parts: Seq<Seq<char>>, sep: Seq<char>, x: Seq<char>)
    ensures
        join_with(parts.push(x), sep) == if parts.len() == 0 {
            x
        } else {
            join_with(parts, sep) + sep + x
        },
    decreases parts.len(),
{
    if parts.len() == 0 {
        assert(parts.push(x).len() == 1);
        assert(join_with(parts.push(x), sep) == parts.push(x)[0]);
        assert(parts.push(x)[0] == x);
    } else if parts.len() == 1 {
        assert(parts.push(x).len() == 2);
        assert(parts.push(x)[0] == parts[0]);
        assert(parts.push(x).skip(1) =~= seq![x]);
        assert(join_with(parts.push(x), sep) == parts[0] + sep + join_with(seq![x], sep));
        assert(join_with(seq![x], sep) == x);
    } else {
        assert(parts.push(x).skip(1) =~= parts.skip(1).push(x));
        lemma_join_push(parts.skip(1), sep, x);
        assert(join_with(parts.push(x), sep) == parts[0] + sep + join_with(
            parts.skip(1).push(x),
            sep,
        ));
        assert(parts[0] + sep + (join_with(parts.skip(1), sep) + sep + x) =~= (parts[0] + sep
            + join_with(parts.skip(1), sep)) + sep + x);
    }
}

/// The views of a vector of strings.
pub open spec fn views_of(parts: Seq<String>) -> Seq<Seq<char>> {
    parts.map_values(|p: String| p@)
}

/// Joins the strings of `parts`, writing `sep` between neighbours.
pub fn join_strings(parts: &Vec<String>, sep: &str) -> (r: String)
    ensures
        r@ == join_with(views_of(parts@), sep@),
{
    let mut out = String::new();
    let mut i: usize = 0;
    while i < parts.len()
        invariant
            i <= parts@.len(),
            out@ == join_with(views_of(parts@).take(i as int), sep@),
        decreases parts@.len() - i,
    {
        let ghost done = views_of(parts@).take(i as int);
        if i > 0 {
            out.append(sep);
        }
        out.append(parts[i].as_str());
        proof {
            lemma_join_push(done, sep@, parts@[i as int]@);
            assert(views_of(parts@).take(i + 1) =~= done.push(parts@[i as int]@));
        }
        i += 1;
    }
    assert(views_of(parts@).take(parts@.len() as int) =~= views_of(parts@));
    out
}

} // verus!
