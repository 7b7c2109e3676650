//! Shared compiler utilities: selecting the auxiliary files whose suffix a
//! language claims, and joining file paths into one argument string.

use vstd::prelude::*;
use vstd::string::StrSliceExecFns;
use vstd::string::StringExecFns;
use crate::language::FileRef;

verus! {

/// `path` ends with `"." + ext`: the dot is required, so `"foo.c"` matches
/// extension `"c"` while `"fooc"` does not.
pub open spec fn has_dot_suffix(path: Seq<char>, ext: Seq<char>) -> bool {
    &&& path.len() > ext.len()
    &&& path[path.len() - ext.len() - 1] == '.'
    &&& path.skip(path.len() - ext.len()) == ext
}

/// The predicate a language with canonical extension `ext` uses to pick its
/// own source files out of the auxiliary set.
pub open spec fn matches_ext(ext: Seq<char>) -> spec_fn(FileRef) -> bool {
    |f: FileRef| has_dot_suffix(f@, ext)
}

/// The files whose path ends with `"." + ext`, in their submitted order.
pub open spec fn filter_matching(files: Seq<FileRef>, ext: Seq<char>) -> Seq<FileRef> {
    files.filter(matches_ext(ext))
}

/// The paths of `files` joined with single spaces; empty for no files.
pub open spec fn joined_paths(files: Seq<FileRef>) -> Seq<char>
    decreases files.len(),
{
    if files.len() == 0 {
        Seq::empty()
    } else if files.len() == 1 {
        files[0]@
    } else {
        joined_paths(files.drop_last()) + " "@ + files.last()@
    }
}

/// `sub` can be obtained from `sup` by deleting elements only: every element
/// of `sub` appears in `sup`, in the same relative order.
pub open spec fn is_subsequence_of(sub: Seq<FileRef>, sup: Seq<FileRef>) -> bool
    decreases sup.len(),
{
    if sub.len() == 0 {
        true
    } else if sup.len() == 0 {
        false
    } else {
        ||| (sub.last() == sup.last() && is_subsequence_of(sub.drop_last(), sup.drop_last()))
        ||| is_subsequence_of(sub, sup.drop_last())
    }
}

/// Filtering by suffix returns a subsequence of the input, preserving the
/// input's relative order, and keeps exactly the files whose path ends with
/// `"." + ext`: nothing else appears in the result.
pub proof fn lemma_filter_matching_correct(files: Seq<FileRef>, ext: Seq<char>)
    ensures
        is_subsequence_of(filter_matching(files, ext), files),
        forall|i: int|
            0 <= i < filter_matching(files, ext).len() ==> has_dot_suffix(
                #[trigger] filter_matching(files, ext)[i]@,
                ext,
            ),
        forall|f: FileRef| #[trigger]
            filter_matching(files, ext).contains(f) <==> files.contains(f) && has_dot_suffix(
                f@,
                ext,
            ),
    decreases files.len(),
{
    reveal(Seq::filter);
    let pred = matches_ext(ext);
    let out = filter_matching(files, ext);
    if files.len() == 0 {
        assert(out.len() == 0);
    } else {
        let d = files.drop_last();
        let last = files.last();
        lemma_filter_matching_correct(d, ext);
        let od = filter_matching(d, ext);
        assert(out == if pred(last) {
            od.push(last)
        } else {
            od
        });
        if pred(last) {
            assert(od.push(last).drop_last() =~= od);
            assert(is_subsequence_of(out, files));
        } else {
            assert(is_subsequence_of(out, files));
        }
        assert forall|i: int| 0 <= i < out.len() implies has_dot_suffix(out[i]@, ext) by {
            if pred(last) && i == out.len() - 1 {
                assert(out[i] == last);
            } else {
                assert(out[i] == od[i]);
            }
        }
        assert forall|f: FileRef| out.contains(f) implies files.contains(f) && has_dot_suffix(
            f@,
            ext,
        ) by {
            let j = choose|j: int| 0 <= j < out.len() && out[j] == f;
            if pred(last) && j == out.len() - 1 {
                assert(files[files.len() - 1] == f);
            } else {
                assert(od[j] == f);
                assert(od.contains(f));
                let k = choose|k: int| 0 <= k < d.len() && d[k] == f;
                assert(files[k] == f);
            }
        }
        assert forall|f: FileRef| files.contains(f) && has_dot_suffix(f@, ext) implies out.contains(
            f,
        ) by {
            let j = choose|j: int| 0 <= j < files.len() && files[j] == f;
            if j == files.len() - 1 {
                assert(pred(last));
                assert(out[out.len() - 1] == f);
            } else {
                assert(d[j] == f);
                assert(d.contains(f));
                assert(od.contains(f));
                let k = choose|k: int| 0 <= k < od.len() && od[k] == f;
                assert(out[k] == f);
            }
        }
    }
}

/// Joining no files yields the empty string, one file its bare path, and
/// two files the two paths separated by a single space.
pub proof fn lemma_joined_paths_small(f: FileRef, f1: FileRef, f2: FileRef)
    ensures
        joined_paths(Seq::<FileRef>::empty()) == Seq::<char>::empty(),
        joined_paths(seq![f]) == f@,
        joined_paths(seq![f1, f2]) == f1@ + " "@ + f2@,
{
    assert(seq![f1, f2].drop_last() =~= seq![f1]);
    assert(seq![f1, f2].last() == f2);
    assert(joined_paths(seq![f1]) == f1@);
    assert(joined_paths(seq![f1, f2]) == joined_paths(seq![f1, f2].drop_last()) + " "@ + f2@);
}

/// Whether `path` ends with `"." + ext`.
pub fn ends_with_extension(path: &str, ext: &str) -> (r: bool)
    ensures
        r == has_dot_suffix(path@, ext@),
{
    let path_len = path.unicode_len();
    let ext_len = ext.unicode_len();
    if path_len <= ext_len {
        return false;
    }
    let dot_pos = path_len - ext_len - 1;
    if path.get_char(dot_pos) != '.' {
        return false;
    }
    let mut i: usize = 0;
    while i < ext_len
        invariant
            path@.len() == path_len,
            ext@.len() == ext_len,
            ext_len < path_len,
            dot_pos == path_len - ext_len - 1,
            i <= ext_len,
            path@[dot_pos as int] == '.',
            forall|j: int| 0 <= j < i ==> path@[path_len - ext_len + j] == ext@[j],
        decreases ext_len - i,
    {
        if path.get_char(dot_pos + 1 + i) != ext.get_char(i) {
            proof {
                let start = path@.len() - ext@.len();
                if path@.skip(start) == ext@ {
                    assert(path@.skip(start)[i as int] == path@[start + i]);
                }
            }
            return false;
        }
        i += 1;
    }
    proof {
        let start = path@.len() - ext@.len();
        assert(path@.skip(start) =~= ext@);
    }
    true
}

/// The files whose path ends with `"." + extension`, kept in input order.
/// An empty result is valid: no match is not an error.
pub fn filter_by_extension(files: Vec<FileRef>, extension: &str) -> (r: Vec<FileRef>)
    ensures
        r@ == filter_matching(files@, extension@),
{
    let mut out: Vec<FileRef> = Vec::new();
    let mut i: usize = 0;
    while i < files.len()
        invariant
            i <= files@.len(),
            out@ == filter_matching(files@.subrange(0, i as int), extension@),
        decreases files@.len() - i,
    {
        let f = &files[i];
        if ends_with_extension(f.path.as_str(), extension) {
            out.push(f.clone());
        }
        proof {
            reveal(Seq::filter);
            let s1 = files@.subrange(0, i as int);
            let s2 = files@.subrange(0, i as int + 1);
            assert(s2.drop_last() =~= s1);
            assert(s2.last() == files@[i as int]);
        }
        i += 1;
    }
    proof {
        assert(files@.subrange(0, files@.len() as int) =~= files@);
    }
    out
}

/// The paths of `files` joined with single spaces; `""` for no files.
/// No quoting is performed: paths are taken to be shell-safe.
pub fn join_files(files: &Vec<FileRef>) -> (r: String)
    ensures
        r@ == joined_paths(files@),
{
    let mut out = String::new();
    let mut i: usize = 0;
    while i < files.len()
        invariant
            i <= files@.len(),
            out@ == joined_paths(files@.subrange(0, i as int)),
        decreases files@.len() - i,
    {
        if i > 0 {
            out.append(" ");
        }
        out.append(files[i].path.as_str());
        proof {
            let s1 = files@.subrange(0, i as int);
            let s2 = files@.subrange(0, i as int + 1);
            assert(s2.drop_last() =~= s1);
            assert(s2.last() == files@[i as int]);
            if i == 0 {
                assert(out@ =~= files@[0]@);
            }
        }
        i += 1;
    }
    proof {
        assert(files@.subrange(0, files@.len() as int) =~= files@);
    }
    out
}

/// Whether the two strings hold the same characters.
pub fn str_eq(a: &str, b: &str) -> (r: bool)
    ensures
        r == (a@ == b@),
{
    let a_len = a.unicode_len();
    let b_len = b.unicode_len();
    if a_len != b_len {
        return false;
    }
    let mut i: usize = 0;
    while i < a_len
        invariant
            a@.len() == a_len,
            b@.len() == b_len,
            a_len == b_len,
            i <= a_len,
            forall|j: int| 0 <= j < i ==> a@[j] == b@[j],
        decreases a_len - i,
    {
        if a.get_char(i) != b.get_char(i) {
            return false;
        }
        i += 1;
    }
    proof {
        assert(a@ =~= b@);
    }
    true
}

} // verus!
