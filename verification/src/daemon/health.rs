//! Whether the device node is there, followed through file system events.

use vstd::prelude::*;

use crate::collections;
use crate::text;

verus! {

/// What happened to a file.
#[derive(Clone, Copy, Debug, PartialEq, Eq, Structural)]
pub enum FsEventKind {
    Create,
    Remove,
    Modify,
    Other,
}

/// Something that happened to files.
#[derive(Debug, PartialEq)]
pub struct FsEvent {
    pub kind: FsEventKind,
    pub paths: Vec<String>,
}

impl FsEvent {
    /// Whether the event is about the file at `target`.
    pub open spec fn about(self, target: Seq<char>) -> bool {
        collections::views(self.paths@).contains(target)
    }

    /// Whether the event is about the file at `target`.
    pub fn touches(&self, target: &str) -> (r: bool)
        ensures
            r == self.about(target@),
    {
        let mut i: usize = 0;
        while i < self.paths.len()
            invariant
                i <= self.paths.len(),
                forall|k: int| 0 <= k < i ==> (#[trigger] self.paths@[k])@ != target@,
            decreases self.paths.len() - i,
        {
            if text::same(self.paths[i].as_str(), target) {
                assert(collections::views(self.paths@)[i as int] == target@);
                return true;
            }
            i = i + 1;
        }
        assert forall|k: int| 0 <= k < self.paths@.len() implies #[trigger] collections::views(
            self.paths@,
        )[k] != target@ by {
            assert(self.paths@[k]@ != target@);
        }
        false
    }
}

/// Whether an event can change the health of the device at `target`: it is about
/// that file, which was created, removed or changed.
pub fn concerns(event: &FsEvent, target: &str) -> (r: bool)
    ensures
        r == (event.about(target@) && event.kind != FsEventKind::Other),
{
    event.touches(target) && event.kind != FsEventKind::Other
}

/// The health to report once an event that concerns the device came in: whether
/// the file is there, where that differs from what was reported.
pub fn health_change(exists: bool, reported: bool) -> (r: Option<bool>)
    ensures
        r == (if exists != reported {
            Some(exists)
        } else {
            None
        }),
{
    if exists != reported {
        Some(exists)
    } else {
        None
    }
}

/// Whether an event tells that the kubelet restarted: it created its socket anew.
pub fn kubelet_restarted(event: &FsEvent, kubelet_socket: &str) -> (r: bool)
    ensures
        r == (event.kind == FsEventKind::Create && event.about(kubelet_socket@)),
{
    event.kind == FsEventKind::Create && event.touches(kubelet_socket)
}

/// What is reported after a run of observations of the file.
pub open spec fn followed(reported: bool, observed: Seq<bool>) -> bool
    decreases observed.len(),
{
    if observed.len() == 0 {
        reported
    } else {
        followed(
            if observed[0] != reported {
                observed[0]
            } else {
                reported
            },
            observed.drop_first(),
        )
    }
}

/// What is reported is what was last observed.
pub proof fn report_follows_the_file(reported: bool, observed: Seq<bool>)
    requires
        observed.len() > 0,
    ensures
        followed(reported, observed) == observed.last(),
    decreases observed.len(),
{
    reveal_with_fuel(followed, 2);
    if observed.len() > 1 {
        report_follows_the_file(observed[0], observed.drop_first());
        assert(observed.drop_first().last() == observed.last());
    }
}

} // verus!
