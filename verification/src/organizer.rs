//! The run itself: Init, Scanning, then Done, or Aborted on the first error.
//!
//! The organizer decides; the caller performs. In Init the caller hands in the
//! outcome of resolving the configuration and whether the source directory
//! exists; a failure of either aborts the run before anything is scanned. In
//! Scanning the caller hands in one directory entry at a time and receives
//! either nothing — the entry stays where it is — or a move order naming the
//! destination directory and the destination path.

use vstd::prelude::*;

use crate::categories::Category;
use crate::categories::ExtensionTable;
use crate::categories::get_file_type_mappings;
use crate::categories::spec_category_of;
use crate::config::ConfigError;
use crate::config::DestinationMap;
use crate::extension::spec_extension;
use crate::extension::get_extension;
use crate::paths::join_path;
use crate::paths::spec_join;

verus! {

/// The state a run is in.
#[derive(Clone, Copy, PartialEq, Eq, Structural, Debug)]
pub enum Phase {
    /// Resolving the configuration and checking the source directory.
    Init,
    /// Walking the source directory's entries.
    Scanning,
    /// The scan ran out of entries; the run succeeded.
    Done,
    /// A failure ended the run early.
    Aborted,
}

/// Where one file is to go.
#[derive(Debug, PartialEq, Eq)]
pub struct MoveOrder {
    /// The directory the file is to land in; it may not exist yet.
    pub dest_dir: String,
    /// The destination directory joined with the file's name.
    pub dest_path: String,
}

/// What a run plans for one directory entry: the category whose folder the
/// entry is to move to, or `None` where the entry stays in place — a
/// directory, a name without an extension, or an extension no category holds.
pub open spec fn spec_plan_entry(name: Seq<char>, is_dir: bool) -> Option<Category> {
    if is_dir {
        None
    } else {
        match spec_extension(name) {
            Some(ext) => spec_category_of(ext),
            None => None,
        }
    }
}

/// One run of the organizer, stepped by the caller.
pub struct Organizer {
    /// The extension table, built once in Init.
    pub table: ExtensionTable,
    /// The destination folders, once the configuration is resolved.
    pub dests: Option<DestinationMap>,
    /// The state the run is in.
    pub phase: Phase,
    /// How many move orders the run has issued.
    pub moves: Ghost<nat>,
}

impl Organizer {
    /// The organizer's invariant: the table is the fixed one, no move order
    /// is issued before the scan starts, and a scanning run has its
    /// destinations resolved.
    pub open spec fn wf(&self) -> bool {
        &&& self.table.wf()
        &&& self.phase is Init ==> self.moves@ == 0
        &&& self.phase is Scanning ==> self.dests is Some
    }

    /// A fresh run, in Init, with no move order issued.
    pub fn new() -> (r: Organizer)
        ensures
            r.wf(),
            r.phase is Init,
            r.dests is None,
            r.moves@ == 0,
    {
        Organizer {
            table: get_file_type_mappings(),
            dests: None,
            phase: Phase::Init,
            moves: Ghost(0nat),
        }
    }

    /// Takes the outcome of resolving the configuration. A failure aborts the
    /// run with nothing scanned and nothing moved.
    pub fn on_config(&mut self, config: Result<DestinationMap, ConfigError>)
        requires
            old(self).wf(),
            old(self).phase is Init,
        ensures
            final(self).wf(),
            final(self).moves@ == 0,
            config matches Ok(map) ==> final(self).phase is Init && final(self).dests == Some(
                map,
            ),
            config is Err ==> final(self).phase is Aborted,
    {
        match config {
            Ok(map) => {
                self.dests = Some(map);
            },
            Err(_) => {
                self.phase = Phase::Aborted;
            },
        }
    }

    /// Takes whether the source directory exists. A missing source aborts the
    /// run with nothing scanned and nothing moved; otherwise the scan begins.
    pub fn on_source_checked(&mut self, source_exists: bool)
        requires
            old(self).wf(),
            old(self).phase is Init,
            old(self).dests is Some,
        ensures
            final(self).wf(),
            final(self).dests == old(self).dests,
            final(self).moves@ == 0,
            source_exists ==> final(self).phase is Scanning,
            !source_exists ==> final(self).phase is Aborted,
    {
        if source_exists {
            self.phase = Phase::Scanning;
        } else {
            self.phase = Phase::Aborted;
        }
    }

    /// Takes one directory entry and returns the move order for it, if any:
    /// a file whose extension some category holds is ordered into that
    /// category's folder, under its own name; everything else stays.
    pub fn on_entry(&mut self, name: &str, is_dir: bool) -> (r: Option<MoveOrder>)
        requires
            old(self).wf(),
            old(self).phase is Scanning,
        ensures
            final(self).wf(),
            final(self).phase is Scanning,
            final(self).dests == old(self).dests,
            final(self).table == old(self).table,
            match spec_plan_entry(name@, is_dir) {
                Some(c) => {
                    &&& r matches Some(order) && order.dest_dir@ == old(
                        self,
                    ).dests->0.spec_dir_for(c) && order.dest_path@ == spec_join(
                        order.dest_dir@,
                        name@,
                    )
                    &&& final(self).moves@ == old(self).moves@ + 1
                },
                None => r is None && final(self).moves == old(self).moves,
            },
    {
        if is_dir {
            return None;
        }
        let ext = match get_extension(name) {
            Some(e) => e,
            None => {
                return None;
            },
        };
        let category = match self.table.classify(&ext) {
            Some(c) => c,
            None => {
                return None;
            },
        };
        let map = self.dests.as_ref().unwrap();
        let dest_dir = map.dir_for(category).clone();
        let dest_path = join_path(dest_dir.as_str(), name);
        self.moves = Ghost(self.moves@ + 1);
        Some(MoveOrder { dest_dir, dest_path })
    }

    /// Takes a failure of the scan itself: the run aborts; orders already
    /// issued stand, nothing is rolled back.
    pub fn on_scan_error(&mut self)
        requires
            old(self).wf(),
            old(self).phase is Scanning,
        ensures
            final(self).wf(),
            final(self).phase is Aborted,
            final(self).moves == old(self).moves,
    {
        self.phase = Phase::Aborted;
    }

    /// Takes the end of the scan: the run is done.
    pub fn on_scan_complete(&mut self)
        requires
            old(self).wf(),
            old(self).phase is Scanning,
        ensures
            final(self).wf(),
            final(self).phase is Done,
            final(self).moves == old(self).moves,
    {
        self.phase = Phase::Done;
    }

    /// The process exit code the run calls for: 1 after an abort, 0 otherwise.
    pub fn exit_code(&self) -> (r: i32)
        ensures
            self.phase is Aborted ==> r == 1,
            !(self.phase is Aborted) ==> r == 0,
    {
        match self.phase {
            Phase::Aborted => 1,
            _ => 0,
        }
    }
}

} // verus!
