//! Filename extraction from a `Content-Disposition` header value.
//!
//! The header is split on `';'`; the first segment that begins with
//! `" filename="` names the file, after stripping that prefix and turning
//! every `"%20"` into a space.

use vstd::prelude::*;

use crate::text::{
    chars_vec, contains_at, match_at, replace_all, replace_sub, slice_chars, starts_with,
    string_from_chars,
};

verus! {

/// The position of the first `';'` at or after `pos`, or the length of
/// `cd` if there is none.
pub open spec fn seg_end(cd: Seq<char>, pos: int) -> int
    decreases cd.len() - pos,
{
    if pos < 0 || pos >= cd.len() {
        cd.len() as int
    } else if cd[pos] == ';' {
        pos
    } else {
        seg_end(cd, pos + 1)
    }
}

pub proof fn lemma_seg_end(cd: Seq<char>, pos: int)
    requires
        0 <= pos <= cd.len(),
    ensures
        pos <= seg_end(cd, pos) <= cd.len(),
    decreases cd.len() - pos,
{
    if pos < cd.len() && cd[pos] != ';' {
        lemma_seg_end(cd, pos + 1);
    }
}

/// The prefix that marks the filename segment of the header.
pub open spec fn fname_prefix() -> Seq<char> {
    " filename="@
}

/// The filename carried by the header tail that starts at `pos`: the first
/// segment from there on that begins with `" filename="`, with the prefix
/// stripped and `"%20"` replaced by a space.
pub open spec fn cd_filename_from(cd: Seq<char>, pos: int) -> Option<Seq<char>>
    decreases cd.len() - pos,
    when 0 <= pos <= cd.len()
    via cd_filename_from_dec
{
    let e = seg_end(cd, pos);
    let seg = cd.subrange(pos, e);
    if starts_with(seg, fname_prefix()) {
        Some(replace_sub(seg.skip(fname_prefix().len() as int), "%20"@, " "@))
    } else if e >= cd.len() {
        None
    } else {
        cd_filename_from(cd, e + 1)
    }
}

#[via_fn]
proof fn cd_filename_from_dec(cd: Seq<char>, pos: int) {
    lemma_seg_end(cd, pos);
}

/// The filename carried by a `Content-Disposition` header value.
pub open spec fn cd_filename(cd: Seq<char>) -> Option<Seq<char>> {
    cd_filename_from(cd, 0)
}

/// Extracts the filename from a `Content-Disposition` header value, as
/// `cd_filename` describes.
pub fn extract_filename_from_content_disposition(cd: &str) -> (r: Option<String>)
    ensures
        match r {
            Some(s) => cd_filename(cd@) == Some(s@),
            None => cd_filename(cd@) is None,
        },
{
    let h = chars_vec(cd);
    let prefix = chars_vec(" filename=");
    let pct = chars_vec("%20");
    let sp = chars_vec(" ");
    let hlen = h.len();
    let mut pos: usize = 0;
    loop
        invariant
            h@ == cd@,
            prefix@ == fname_prefix(),
            pct@ == "%20"@,
            sp@ == " "@,
            hlen == h@.len(),
            pos <= hlen,
            cd_filename(cd@) == cd_filename_from(h@, pos as int),
        decreases h@.len() - pos,
    {
        let mut e: usize = pos;
        while e < hlen && h[e] != ';'
            invariant
                hlen == h@.len(),
                pos <= e <= hlen,
                seg_end(h@, pos as int) == seg_end(h@, e as int),
            decreases hlen - e,
        {
            e += 1;
        }
        assert(seg_end(h@, pos as int) == e as int);
        let ghost seg = h@.subrange(pos as int, e as int);
        let seglen = e - pos;
        if seglen >= prefix.len() && match_at(&h, pos, &prefix) {
            proof {
                assert(seg.subrange(0, prefix@.len() as int) =~= h@.subrange(
                    pos as int,
                    pos + prefix@.len(),
                ));
                assert(starts_with(seg, fname_prefix()));
            }
            let tail = slice_chars(&h, pos + prefix.len(), e);
            assert(tail@ =~= seg.skip(fname_prefix().len() as int));
            let rep = replace_all(&tail, &pct, &sp);
            return Some(string_from_chars(&rep));
        }
        proof {
            if seglen >= prefix@.len() {
                assert(!contains_at(h@, prefix@, pos as int));
                assert(seg.subrange(0, prefix@.len() as int) =~= h@.subrange(
                    pos as int,
                    pos + prefix@.len(),
                ));
                assert(!starts_with(seg, fname_prefix()));
            } else {
                assert(seg.len() < fname_prefix().len());
                assert(!starts_with(seg, fname_prefix()));
            }
        }
        if e >= hlen {
            assert(cd_filename_from(h@, pos as int) is None);
            return None;
        }
        pos = e + 1;
    }
}

} // verus!
