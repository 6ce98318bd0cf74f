//! Extracting a file's extension from its name and folding it to lower case.
//!
//! A name's extension is the part after the last `.`, provided that dot is not
//! the leading character: a hidden file such as `.profile` has no extension.
//! The extension is folded to lower case before classification; the fold is
//! the platform's Unicode-aware one, behind a trusted wrapper whose result is
//! named `lower_of`.

use vstd::prelude::*;

verus! {

/// What the Unicode-aware case fold returns for `s`: the result depends on
/// the characters of `s` alone.
pub uninterp spec fn lower_of(s: Seq<char>) -> Seq<char>;

/// Relies on `str::to_lowercase`: the result is a function of the characters
/// alone.
#[verifier::external_body]
fn lowercase(s: &str) -> (r: String)
    ensures
        r@ == lower_of(s@),
{
    s.to_lowercase()
}

/// The index of the last `.` in `name` that is not the leading character, or
/// `-1` where there is none. A `.` at index 0 never counts: a name that begins
/// with its only dot has no extension.
pub open spec fn spec_last_dot(name: Seq<char>) -> int
    decreases name.len(),
{
    if name.len() <= 1 {
        -1
    } else if name[name.len() - 1] == '.' {
        name.len() - 1
    } else {
        spec_last_dot(name.drop_last())
    }
}

/// The lower-cased extension of `name`: the part after the last non-leading
/// `.`, folded by `lower_of`, or `None` where no such dot exists.
pub open spec fn spec_extension(name: Seq<char>) -> Option<Seq<char>> {
    let d = spec_last_dot(name);
    if d >= 1 {
        Some(lower_of(name.subrange(d + 1, name.len() as int)))
    } else {
        None
    }
}

/// Where `spec_last_dot` points: at a non-leading `.` with no later dot, or
/// nowhere because every non-leading character is something else.
pub proof fn lemma_last_dot_character(name: Seq<char>)
    ensures
        spec_last_dot(name) == -1 || 1 <= spec_last_dot(name) < name.len(),
        spec_last_dot(name) >= 1 ==> name[spec_last_dot(name)] == '.',
        forall|j: int| spec_last_dot(name) < j < name.len() && j >= 1 ==> name[j] != '.',
    decreases name.len(),
{
    if name.len() > 1 && name[name.len() - 1] != '.' {
        lemma_last_dot_character(name.drop_last());
        assert(forall|j: int| 0 <= j < name.len() - 1 ==> name.drop_last()[j] == name[j]);
    }
}

/// The lower-cased extension of `file_name`, or `None` where the name has no
/// extension (no dot, or only a leading one).
pub fn get_extension(file_name: &str) -> (r: Option<String>)
    ensures
        match r {
            Some(ext) => spec_extension(file_name@) == Some(ext@),
            None => spec_extension(file_name@) is None,
        },
{
    let n = file_name.unicode_len();
    let ghost name = file_name@;
    let mut dot: usize = 0;
    let mut i: usize = 0;
    while i < n
        invariant
            n == name.len(),
            name == file_name@,
            0 <= i <= n,
            dot as int == if spec_last_dot(name.take(i as int)) >= 1 {
                spec_last_dot(name.take(i as int))
            } else {
                0
            },
        decreases n - i,
    {
        proof {
            assert(name.take(i + 1).drop_last() =~= name.take(i as int));
            assert(name.take(i + 1)[i as int] == name[i as int]);
        }
        if i >= 1 && file_name.get_char(i) == '.' {
            dot = i;
        }
        i += 1;
    }
    proof {
        assert(name.take(n as int) =~= name);
        lemma_last_dot_character(name);
    }
    if dot >= 1 {
        let raw = file_name.substring_char(dot + 1, n);
        let ext = lowercase(raw);
        proof {
            assert(name.subrange(dot + 1, n as int) =~= name.subrange(
                spec_last_dot(name) + 1,
                name.len() as int,
            ));
        }
        Some(ext)
    } else {
        None
    }
}

} // verus!
