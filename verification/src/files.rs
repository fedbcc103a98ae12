//! Filename and file-type logic for saving downloads and renaming files.
//!
//! Saving checks the magic-byte file type of the downloaded bytes against
//! the filename's extension; the sniffing itself is the `infer` crate's,
//! behind a trusted wrapper whose result is named `sniffed_ext`.

use vstd::prelude::*;
use vstd::string::StringExecFns;

use crate::errors::OpdsError;
use crate::text::{
    chars_vec, last_index_of, lemma_last_index_of, rfind_char, slice_chars, str_eq,
    string_from_chars,
};
use crate::urls::{file_path_of, join_url, url_join, url_to_file_path, UrlBuf};

verus! {

/// The extension that the magic bytes of `data` name, when the file type
/// is a known one.
pub uninterp spec fn sniffed_ext(data: Seq<u8>) -> Option<Seq<char>>;

/// Relies on infer::get and Type::extension: the file type sniffed from
/// the magic bytes, given as its usual filename extension. The result
/// depends on the bytes alone.
#[verifier::external_body]
pub(crate) fn sniff_extension(data: &[u8]) -> (r: Option<String>)
    ensures
        match r {
            Some(s) => sniffed_ext(data@) == Some(s@),
            None => sniffed_ext(data@) is None,
        },
{
    infer::get(data).map(|k| k.extension().to_string())
}

/// The extension of a filename: what follows the last `.`, absent when
/// there is no `.` or the name only starts with one.
pub open spec fn file_ext(name: Seq<char>) -> Option<Seq<char>> {
    let i = last_index_of(name, '.');
    if i <= 0 {
        None
    } else {
        Some(name.skip(i + 1))
    }
}

/// The extension of `name`, as `file_ext` describes.
pub fn filename_extension(name: &str) -> (r: Option<String>)
    ensures
        match r {
            Some(s) => file_ext(name@) == Some(s@),
            None => file_ext(name@) is None,
        },
{
    let h = chars_vec(name);
    let hl = h.len();
    proof {
        lemma_last_index_of(h@, '.');
    }
    match rfind_char(&h, '.') {
        None => None,
        Some(i) => {
            if i == 0 {
                None
            } else {
                assert(i < hl);
                let tail = slice_chars(&h, i + 1, hl);
                assert(tail@ =~= name@.skip(i + 1));
                Some(string_from_chars(&tail))
            }
        },
    }
}

/// Decides whether downloaded bytes may be saved under `fname`: accepts
/// exactly when the sniffed file type's extension equals the filename's.
/// Bytes of no known type are refused, as is a name whose extension is
/// missing or different.
pub fn check_file_type(data: &[u8], fname: &str) -> (r: Result<(), OpdsError>)
    ensures
        r is Ok <==> (sniffed_ext(data@) is Some && file_ext(fname@) is Some && sniffed_ext(
            data@,
        )->0 == file_ext(fname@)->0),
        match r {
            Ok(()) => true,
            Err(e) => match e {
                OpdsError::UnknownFileType(f) => sniffed_ext(data@) is None && f@ == fname@,
                OpdsError::WrongFileType(f, x) => sniffed_ext(data@) == Some(x@) && f@ == fname@
                    && (file_ext(fname@) is None || file_ext(fname@)->0 != x@),
                _ => false,
            },
        },
{
    let sniffed = sniff_extension(data);
    match sniffed {
        None => Err(OpdsError::UnknownFileType(fname.to_owned())),
        Some(ext) => {
            match filename_extension(fname) {
                Some(fe) => {
                    if str_eq(fe.as_str(), ext.as_str()) {
                        Ok(())
                    } else {
                        Err(OpdsError::WrongFileType(fname.to_owned(), ext))
                    }
                },
                None => Err(OpdsError::WrongFileType(fname.to_owned(), ext)),
            }
        },
    }
}

/// The full filesystem path at which a download named `fname` lands in
/// the directory `dir`: the filename joined against the directory's URL,
/// converted to a path.
pub fn download_file_path(dir: &UrlBuf, fname: &str) -> (r: Result<String, OpdsError>)
    ensures
        match r {
            Ok(p) => url_join(dir@, fname@) is Some && file_path_of(url_join(dir@, fname@)->0)
                == Some(p@),
            Err(e) => match e {
                OpdsError::BadUrl => url_join(dir@, fname@) is None,
                OpdsError::BadFileUrl => url_join(dir@, fname@) is Some && file_path_of(
                    url_join(dir@, fname@)->0,
                ) is None,
                _ => false,
            },
        },
{
    match join_url(dir, fname) {
        Err(_) => Err(OpdsError::BadUrl),
        Ok(full) => match url_to_file_path(&full) {
            Some(p) => Ok(p),
            None => Err(OpdsError::BadFileUrl),
        },
    }
}

/// The path a rename lands at: the parent of `old_path` (its text up to
/// the last `/`) with `new_name` below it; absent when `old_path` has no
/// separator at all.
pub open spec fn rename_target_spec(old_path: Seq<char>, new_name: Seq<char>) -> Option<
    Seq<char>,
> {
    let i = last_index_of(old_path, '/');
    if i < 0 {
        None
    } else {
        Some(old_path.take(i) + "/"@ + new_name)
    }
}

/// Computes the rename target, as `rename_target_spec` describes. The old
/// path is expected to name a file, so it does not end with a separator.
pub fn rename_target(old_path: &str, new_name: &str) -> (r: Option<String>)
    ensures
        match r {
            Some(p) => rename_target_spec(old_path@, new_name@) == Some(p@),
            None => rename_target_spec(old_path@, new_name@) is None,
        },
{
    let h = chars_vec(old_path);
    proof {
        lemma_last_index_of(h@, '/');
    }
    match rfind_char(&h, '/') {
        None => None,
        Some(i) => {
            let head = slice_chars(&h, 0, i);
            assert(head@ =~= old_path@.take(i as int));
            let mut out = string_from_chars(&head);
            out.append("/");
            out.append(new_name);
            Some(out)
        },
    }
}

} // verus!
