//! File extensions and the image MIME-type table.
//!
//! The extension of a path is what follows the last `.` of its final
//! component, as long as that `.` is not the component's first character
//! (so dot-files have none) and the component is not `..`.  Extensions are
//! matched against the table without regard to ASCII case, and anything the
//! table does not know falls back to `image/png`.

use vstd::prelude::*;
use vstd::string::StrSliceExecFns;
use crate::paths::last_index_before;

verus! {

/// The code point of `c` with an ASCII capital letter folded to lower case.
pub open spec fn lower_cp(c: char) -> u32 {
    if 65 <= c as u32 <= 90 {
        (c as u32 + 32) as u32
    } else {
        c as u32
    }
}

/// Whether `e` spells `lit` when ASCII case in `e` is ignored.
pub open spec fn ext_is(e: Seq<char>, lit: Seq<char>) -> bool {
    e.len() == lit.len() && forall|i: int| 0 <= i < e.len() ==> lower_cp(e[i]) == lit[i] as u32
}

/// The final component of `p`: everything after its last separator.
pub open spec fn file_name_of(p: Seq<char>) -> Seq<char> {
    p.skip(last_index_before(p, '/', p.len() as int) + 1)
}

/// The extension of `p`, per the rules at the head of this module.
pub open spec fn ext_of(p: Seq<char>) -> Option<Seq<char>> {
    let f = file_name_of(p);
    if f == ".."@ {
        None
    } else {
        let d = last_index_before(f, '.', f.len() as int);
        if d <= 0 {
            None
        } else {
            Some(f.skip(d + 1))
        }
    }
}

/// The MIME type the table gives to an extension, `image/png` when there is
/// none or it is unknown.
pub open spec fn mime_of_ext(ext: Option<Seq<char>>) -> Seq<char> {
    match ext {
        Some(e) => if ext_is(e, "png"@) {
            "image/png"@
        } else if ext_is(e, "jpg"@) || ext_is(e, "jpeg"@) {
            "image/jpeg"@
        } else if ext_is(e, "gif"@) {
            "image/gif"@
        } else if ext_is(e, "svg"@) {
            "image/svg+xml"@
        } else if ext_is(e, "webp"@) {
            "image/webp"@
        } else {
            "image/png"@
        },
        None => "image/png"@,
    }
}

/// The MIME type for the file at `p`.
pub open spec fn mime_of_path(p: Seq<char>) -> Seq<char> {
    mime_of_ext(ext_of(p))
}

/// Law: a missing extension, and one the table does not know, both fall
/// back to `image/png`.
pub proof fn lemma_unknown_extension_defaults(p: Seq<char>)
    requires
        match ext_of(p) {
            Some(e) => !ext_is(e, "png"@) && !ext_is(e, "jpg"@) && !ext_is(e, "jpeg"@) && !ext_is(
                e,
                "gif"@,
            ) && !ext_is(e, "svg"@) && !ext_is(e, "webp"@),
            None => true,
        },
    ensures
        mime_of_path(p) == "image/png"@,
{
}

/// Law: the MIME table reads an extension without regard to ASCII case —
/// two extensions whose characters fold to the same code points are given
/// the same MIME type.
pub proof fn lemma_mime_ignores_case(e1: Seq<char>, e2: Seq<char>)
    requires
        e1.len() == e2.len(),
        forall|i: int| 0 <= i < e1.len() ==> lower_cp(e1[i]) == lower_cp(e2[i]),
    ensures
        mime_of_ext(Some(e1)) == mime_of_ext(Some(e2)),
{
    assert forall|lit: Seq<char>| ext_is(e1, lit) implies ext_is(e2, lit) by {
        assert(forall|i: int| 0 <= i < e2.len() ==> lower_cp(e2[i]) == lower_cp(e1[i]));
    }
    assert forall|lit: Seq<char>| ext_is(e2, lit) implies ext_is(e1, lit) by {
    }
}

/// The extension of `path`, or `None` when it has none.
pub fn extension_of(path: &str) -> (r: Option<String>)
    ensures
        match r {
            Some(e) => ext_of(path@) == Some(e@),
            None => ext_of(path@) is None,
        },
{
    let n = path.unicode_len();
    let fs: usize = match crate::paths::rfind_char(path, '/') {
        Some(i) => i + 1,
        None => 0,
    };
    let f = path.substring_char(fs, n);
    proof {
        assert(f@ =~= file_name_of(path@));
    }
    let fl = f.unicode_len();
    if fl == 2 && f.get_char(0) == '.' && f.get_char(1) == '.' {
        proof {
            reveal_strlit("..");
            assert(f@ =~= ".."@);
        }
        return None;
    }
    proof {
        reveal_strlit("..");
        assert(f@ != ".."@);
    }
    match crate::paths::rfind_char(f, '.') {
        Some(d) => {
            if d > 0 {
                proof {
                    assert(f@.subrange(d + 1 as int, fl as int) =~= f@.skip(d + 1));
                }
                Some(f.substring_char(d + 1, fl).to_owned())
            } else {
                None
            }
        },
        None => None,
    }
}

/// Whether `e` spells `lit` up to ASCII case; `lit` is the table's own
/// lower-case spelling.
fn ext_matches(e: &str, lit: &str) -> (b: bool)
    ensures
        b == ext_is(e@, lit@),
{
    let n = e.unicode_len();
    if n != lit.unicode_len() {
        return false;
    }
    let mut i: usize = 0;
    while i < n
        invariant
            i <= n == e@.len() == lit@.len(),
            forall|k: int| 0 <= k < i ==> lower_cp(e@[k]) == lit@[k] as u32,
        decreases n - i,
    {
        let c = e.get_char(i) as u32;
        let lc: u32 = if 65 <= c && c <= 90 {
            c + 32
        } else {
            c
        };
        if lc != lit.get_char(i) as u32 {
            return false;
        }
        i = i + 1;
    }
    true
}

/// The MIME type for the file at `path`, from the fixed table.
pub fn mime_type_for_path(path: &str) -> (m: String)
    ensures
        m@ == mime_of_path(path@),
{
    let lit = match extension_of(path) {
        None => "image/png",
        Some(e) => {
            let ext = e.as_str();
            if ext_matches(ext, "png") {
                "image/png"
            } else if ext_matches(ext, "jpg") || ext_matches(ext, "jpeg") {
                "image/jpeg"
            } else if ext_matches(ext, "gif") {
                "image/gif"
            } else if ext_matches(ext, "svg") {
                "image/svg+xml"
            } else if ext_matches(ext, "webp") {
                "image/webp"
            } else {
                "image/png"
            }
        },
    };
    lit.to_owned()
}

} // verus!
