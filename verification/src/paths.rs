use vstd::prelude::*;
use vstd::string::{StrSliceExecFns, StringExecFns};

verus! {

/// The characters after the last '/' of `s`; the whole of `s` when it holds
/// no '/'; empty when `s` ends in '/'.
pub open spec fn suffix_after_last_slash(s: Seq<char>) -> Seq<char>
    decreases s.len(),
{
    if s.len() == 0 {
        Seq::empty()
    } else if s.last() == '/' {
        Seq::empty()
    } else {
        suffix_after_last_slash(s.drop_last()) + seq![s.last()]
    }
}

/// The name an uploaded audio file carries: the final component of its path,
/// or "audio.wav" when the path yields none.
pub open spec fn upload_file_name_spec(path: Seq<char>) -> Seq<char> {
    if suffix_after_last_slash(path).len() == 0 {
        "audio.wav"@
    } else {
        suffix_after_last_slash(path)
    }
}

/// When every character from `i` on differs from '/', and `i` is the start or
/// is preceded by a '/', the suffix after the last slash is exactly the
/// subrange from `i` to the end.
proof fn lemma_suffix_is_subrange(s: Seq<char>, i: int)
    requires
        0 <= i <= s.len(),
        i == 0 || s[i - 1] == '/',
        forall|j: int| i <= j < s.len() ==> s[j] != '/',
    ensures
        suffix_after_last_slash(s) == s.subrange(i, s.len() as int),
    decreases s.len(),
{
    if s.len() == 0 {
        assert(suffix_after_last_slash(s) =~= s.subrange(0, 0));
    } else if i == s.len() {
        assert(s.last() == '/');
        assert(suffix_after_last_slash(s) =~= s.subrange(i, s.len() as int));
    } else {
        assert(s.last() != '/');
        let d = s.drop_last();
        lemma_suffix_is_subrange(d, i);
        assert(d.subrange(i, d.len() as int) =~= s.subrange(i, s.len() as int).drop_last());
        assert(suffix_after_last_slash(s) =~= s.subrange(i, s.len() as int));
    }
}

/// The upload name for a source path: its final path component, with
/// "audio.wav" standing in when the path ends in '/' or is empty.
pub fn infer_file_name(path: &String) -> (r: String)
    ensures
        r@ == upload_file_name_spec(path@),
{
    let pstr = path.as_str();
    let len = pstr.unicode_len();
    let mut j: usize = 0;
    let mut cut: usize = 0;
    while j < len
        invariant
            j <= len,
            cut <= j,
            len == path@.len(),
            pstr@ == path@,
            cut == 0 || path@[cut - 1] == '/',
            forall|k: int| cut <= k < j ==> path@[k] != '/',
        decreases len - j,
    {
        if pstr.get_char(j) == '/' {
            cut = j + 1;
        }
        j += 1;
    }
    proof {
        lemma_suffix_is_subrange(path@, cut as int);
    }
    let name = pstr.substring_char(cut, len);
    if name.unicode_len() == 0 {
        String::from_str("audio.wav")
    } else {
        String::from_str(name)
    }
}

/// A directory and a file name joined with a '/' separator; a trailing '/'
/// on the directory is not doubled.
pub open spec fn joined_path_spec(dir: Seq<char>, name: Seq<char>) -> Seq<char> {
    if dir.len() > 0 && dir.last() == '/' {
        dir + name
    } else {
        dir + "/"@ + name
    }
}

/// The destination of `name` under the directory `dir`.
pub fn join_path(dir: &String, name: &String) -> (r: String)
    ensures
        r@ == joined_path_spec(dir@, name@),
{
    let dstr = dir.as_str();
    let len = dstr.unicode_len();
    let mut p = dir.clone();
    if !(len > 0 && dstr.get_char(len - 1) == '/') {
        p.append("/");
    }
    p.append(name.as_str());
    proof {
        assert(p@ =~= joined_path_spec(dir@, name@));
    }
    p
}

} // verus!
