//! Classification of raw filesystem events: which events concern the
//! watched file, and whether a batch of them warrants a broadcast.
//!
//! The watch loop itself — a blocking read of events on the target's parent
//! directory — runs outside the library; it hands each batch over as plain
//! values and broadcasts at most once per batch, exactly when the decision
//! here says so.

use vstd::prelude::*;
use vstd::string::StrSliceExecFns;
use crate::text::str_eq;

verus! {

/// Which directory to watch for a file whose parent is as given: the parent
/// itself when it names one, the current directory when it is empty, and
/// the filesystem root when the file has no parent at all.
pub fn watch_directory<'a>(parent: Option<&'a str>) -> (r: &'a str)
    ensures
        match parent {
            Some(p) => r@ == if p@.len() == 0 {
                "."@
            } else {
                p@
            },
            None => r@ == "/"@,
        },
{
    match parent {
        Some(p) => {
            if p.unicode_len() == 0 {
                "."
            } else {
                p
            }
        },
        None => "/",
    }
}

/// The two kinds of event the watch subscribes to; both mean only that the
/// file was touched.
#[derive(Clone, Copy, Debug, PartialEq, Eq, Structural)]
pub enum EventKind {
    Created,
    Modified,
}

/// One raw filesystem notification: the file-name component it carries, if
/// any, and its kind.
#[derive(Debug)]
pub struct ChangeEvent {
    pub name: Option<String>,
    pub kind: EventKind,
}

/// An event is relevant exactly when it carries a file-name component equal
/// to the watched file's name; events without a name are discarded, and no
/// other part of the path takes part in the comparison.
pub open spec fn event_is_relevant(e: ChangeEvent, target_name: Seq<char>) -> bool {
    match e.name {
        Some(n) => n@ == target_name,
        None => false,
    }
}

/// Whether one event concerns the watched file.
pub fn is_relevant(e: &ChangeEvent, target_name: &str) -> (r: bool)
    ensures
        r == event_is_relevant(*e, target_name@),
{
    match &e.name {
        Some(n) => str_eq(n.as_str(), target_name),
        None => false,
    }
}

/// A batch warrants a broadcast exactly when it holds at least one relevant
/// event.
pub open spec fn batch_matches(batch: Seq<ChangeEvent>, target_name: Seq<char>) -> bool {
    exists|i: int| 0 <= i < batch.len() && event_is_relevant(batch[i], target_name)
}

/// Decides, for one processed batch, whether to broadcast: true exactly
/// when some event in the batch concerns the watched file, so that a batch
/// with several matches still causes one broadcast only.
pub fn batch_should_broadcast(batch: &Vec<ChangeEvent>, target_name: &str) -> (r: bool)
    ensures
        r == batch_matches(batch@, target_name@),
{
    let mut i: usize = 0;
    while i < batch.len()
        invariant
            i <= batch@.len(),
            forall|j: int| 0 <= j < i ==> !event_is_relevant(batch@[j], target_name@),
        decreases batch@.len() - i,
    {
        if is_relevant(&batch[i], target_name) {
            return true;
        }
        i += 1;
    }
    false
}

} // verus!
