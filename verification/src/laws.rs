//! What holds of a run as a whole, proved once and for all: which entries
//! move, which stay, and that a second run over what the first left behind
//! has nothing left to do.
//!
//! An entry is modelled as its name and whether it is a directory; a scan is
//! a sequence of entries in the order the directory yields them.

use vstd::prelude::*;

use crate::categories::Category;
use crate::categories::spec_in_category;
use crate::extension::spec_extension;
use crate::organizer::spec_plan_entry;

verus! {

/// The entries a run leaves in the source directory: those it plans no move
/// for, in scan order.
pub open spec fn spec_remaining(entries: Seq<(Seq<char>, bool)>) -> Seq<(Seq<char>, bool)>
    decreases entries.len(),
{
    if entries.len() == 0 {
        Seq::empty()
    } else if spec_plan_entry(entries.first().0, entries.first().1) is None {
        seq![entries.first()] + spec_remaining(entries.drop_first())
    } else {
        spec_remaining(entries.drop_first())
    }
}

/// The entries a run plans to move out of the source directory, in scan
/// order.
pub open spec fn spec_planned(entries: Seq<(Seq<char>, bool)>) -> Seq<(Seq<char>, bool)>
    decreases entries.len(),
{
    if entries.len() == 0 {
        Seq::empty()
    } else if spec_plan_entry(entries.first().0, entries.first().1) is Some {
        seq![entries.first()] + spec_planned(entries.drop_first())
    } else {
        spec_planned(entries.drop_first())
    }
}

/// A file whose extension lies in exactly one category's set is planned into
/// exactly that category's folder.
pub proof fn lemma_unique_extension_is_moved(name: Seq<char>, ext: Seq<char>, c: Category)
    requires
        spec_extension(name) == Some(ext),
        spec_in_category(ext, c),
        forall|other: Category| other != c ==> !spec_in_category(ext, other),
    ensures
        spec_plan_entry(name, false) == Some(c),
{
    match c {
        Category::Images => {
        },
        Category::Documents => {
            assert(!spec_in_category(ext, Category::Images));
        },
        Category::Audio => {
            assert(!spec_in_category(ext, Category::Images));
            assert(!spec_in_category(ext, Category::Documents));
        },
    }
}

/// A file with no extension, or an extension that no category's set holds,
/// is planned to stay where it is.
pub proof fn lemma_unmatched_file_stays(name: Seq<char>)
    requires
        spec_extension(name) matches Some(ext) ==> forall|c: Category| !spec_in_category(ext, c),
    ensures
        spec_plan_entry(name, false) is None,
{
    if spec_extension(name) is Some {
        let ext = spec_extension(name)->0;
        assert(!spec_in_category(ext, Category::Images));
        assert(!spec_in_category(ext, Category::Documents));
        assert(!spec_in_category(ext, Category::Audio));
    }
}

/// An entry that is itself a directory is planned to stay, whatever its name.
pub proof fn lemma_directory_stays(name: Seq<char>)
    ensures
        spec_plan_entry(name, true) is None,
{
}

/// A second run over what a run left behind is a no-op: it plans no move,
/// and it leaves every entry where the first run left it.
pub proof fn lemma_second_run_is_no_op(entries: Seq<(Seq<char>, bool)>)
    ensures
        spec_planned(spec_remaining(entries)) == Seq::<(Seq<char>, bool)>::empty(),
        spec_remaining(spec_remaining(entries)) == spec_remaining(entries),
    decreases entries.len(),
{
    if entries.len() == 0 {
        assert(spec_remaining(entries) =~= Seq::<(Seq<char>, bool)>::empty());
        assert(spec_planned(spec_remaining(entries)) =~= Seq::<(Seq<char>, bool)>::empty());
    } else {
        let e = entries.first();
        let rest = entries.drop_first();
        lemma_second_run_is_no_op(rest);
        if spec_plan_entry(e.0, e.1) is None {
            let r = seq![e] + spec_remaining(rest);
            assert(spec_remaining(entries) == r);
            assert(r.first() == e);
            assert(r.drop_first() =~= spec_remaining(rest));
            assert(spec_planned(r) == spec_planned(spec_remaining(rest)));
            assert(spec_remaining(r) == seq![e] + spec_remaining(spec_remaining(rest)));
        } else {
            assert(spec_remaining(entries) == spec_remaining(rest));
        }
    }
}

} // verus!
