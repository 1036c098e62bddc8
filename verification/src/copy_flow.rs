//! The decisions of a running copy or move, item by item: what to do with an item whose target
//! already exists, and how the answers of the "File exists" and copy error dialogs go on.
use vstd::prelude::*;

use crate::events::CopyErrorChoice;

verus! {

/// Where a copy or move stands: the next item, and the answers that hold for the rest of it.
#[derive(Clone, Copy, PartialEq, Eq, Structural)]
pub struct CopyFlow {
    /// Index of the next item to copy.
    pub next: usize,
    /// "Rewrite all files" was chosen.
    pub overwrite_all: bool,
    /// "Skip all existing files" was chosen.
    pub skip_existing: bool,
    /// "Ignore all and continue" was chosen.
    pub ignore_errors: bool,
}

/// What to do next.
#[derive(Clone, Copy, PartialEq, Eq, Structural, Debug)]
pub enum CopyStep {
    /// Copy item `.0`, replacing what is at its target.
    Copy(usize),
    /// Skip item `.0`: its target exists and existing files are skipped.
    Skip(usize),
    /// Ask what to do with item `.0`, whose target exists ("File exists" dialog).
    Ask(usize),
    /// Every item has been dealt with.
    Done,
}

/// How the flow goes on after an answer.
#[derive(Clone, Copy, PartialEq, Eq, Structural, Debug)]
pub enum FlowAction {
    /// Copy the current item (replacing its target), then go on.
    CopyCurrent,
    /// Leave the current item, then go on.
    SkipCurrent,
    /// Stop the whole operation.
    Stop,
}

impl CopyFlow {
    /// A flow at the first item with no standing answers.
    pub fn new() -> (r: Self)
        ensures
            r == (CopyFlow { next: 0, overwrite_all: false, skip_existing: false, ignore_errors: false }),
    {
        CopyFlow { next: 0, overwrite_all: false, skip_existing: false, ignore_errors: false }
    }
}

/// The step for the next of `n` items, whose target exists or not: done after the last item; a
/// copy when the target is free or every file is rewritten; a skip when existing files are
/// skipped; else a question.
pub open spec fn step_for(f: CopyFlow, n: int, target_exists: bool) -> CopyStep {
    if f.next >= n {
        CopyStep::Done
    } else if !target_exists || f.overwrite_all {
        CopyStep::Copy(f.next)
    } else if f.skip_existing {
        CopyStep::Skip(f.next)
    } else {
        CopyStep::Ask(f.next)
    }
}

/// The step for the next of `n` items (see `step_for`).
pub fn next_step(f: &CopyFlow, n: usize, target_exists: bool) -> (r: CopyStep)
    ensures
        r == step_for(*f, n as int, target_exists),
{
    if f.next >= n {
        CopyStep::Done
    } else if !target_exists || f.overwrite_all {
        CopyStep::Copy(f.next)
    } else if f.skip_existing {
        CopyStep::Skip(f.next)
    } else {
        CopyStep::Ask(f.next)
    }
}

/// The flow past the current item.
pub fn advance(f: &mut CopyFlow)
    requires
        old(f).next < usize::MAX,
    ensures
        *final(f) == (CopyFlow { next: (old(f).next + 1) as usize, ..*old(f) }),
{
    f.next = f.next + 1;
}

/// The answer `choice` (1 to 5) of the "File exists" dialog: 1 rewrites this file, 2 rewrites
/// it and every later one, 3 skips this file, 4 skips it and every later existing one, and 5
/// (or anything else) cancels the whole operation.
pub open spec fn overwrite_choice(f: CopyFlow, choice: int) -> (CopyFlow, FlowAction) {
    if choice == 1 {
        (f, FlowAction::CopyCurrent)
    } else if choice == 2 {
        (CopyFlow { overwrite_all: true, ..f }, FlowAction::CopyCurrent)
    } else if choice == 3 {
        (f, FlowAction::SkipCurrent)
    } else if choice == 4 {
        (CopyFlow { skip_existing: true, ..f }, FlowAction::SkipCurrent)
    } else {
        (f, FlowAction::Stop)
    }
}

/// Applies an answer of the "File exists" dialog (see `overwrite_choice`).
pub fn apply_overwrite_choice(f: &mut CopyFlow, choice: usize) -> (r: FlowAction)
    ensures
        (*final(f), r) == overwrite_choice(*old(f), choice as int),
{
    if choice == 1 {
        FlowAction::CopyCurrent
    } else if choice == 2 {
        f.overwrite_all = true;
        FlowAction::CopyCurrent
    } else if choice == 3 {
        FlowAction::SkipCurrent
    } else if choice == 4 {
        f.skip_existing = true;
        FlowAction::SkipCurrent
    } else {
        FlowAction::Stop
    }
}

/// The answer of the copy error dialog: Ignore leaves the failed item, Cancel stops, Ignore all
/// leaves it and every later failure without asking.
pub open spec fn error_choice(f: CopyFlow, c: CopyErrorChoice) -> (CopyFlow, FlowAction) {
    match c {
        CopyErrorChoice::Ignore => (f, FlowAction::SkipCurrent),
        CopyErrorChoice::Cancel => (f, FlowAction::Stop),
        CopyErrorChoice::IgnoreAll => (CopyFlow { ignore_errors: true, ..f }, FlowAction::SkipCurrent),
    }
}

/// Applies an answer of the copy error dialog (see `error_choice`).
pub fn apply_error_choice(f: &mut CopyFlow, c: CopyErrorChoice) -> (r: FlowAction)
    ensures
        (*final(f), r) == error_choice(*old(f), c),
{
    match c {
        CopyErrorChoice::Ignore => FlowAction::SkipCurrent,
        CopyErrorChoice::Cancel => FlowAction::Stop,
        CopyErrorChoice::IgnoreAll => {
            f.ignore_errors = true;
            FlowAction::SkipCurrent
        },
    }
}

/// Whether a failed item stops to ask (the error dialog) or is passed over.
pub fn asks_on_error(f: &CopyFlow) -> (r: bool)
    ensures
        r == !f.ignore_errors,
{
    !f.ignore_errors
}

/// Once "Rewrite all files" is chosen, no later item is asked about or skipped: every item whose
/// turn comes is copied.
pub proof fn law_rewrite_all_copies_the_rest(f: CopyFlow, n: int, target_exists: bool)
    requires
        f.next < n,
    ensures
        step_for(overwrite_choice(f, 2).0, n, target_exists) == CopyStep::Copy(f.next),
{
}

/// The answers of the "File exists" dialog, by their labels: "Rewrite this file" (1) and
/// "Rewrite all files" (2) copy the item over its target, "Skip this file" (3) and "Skip all
/// existing files" (4) leave it, anything else cancels the whole operation. Only the two "all"
/// answers change the standing answers, each its own one; the others leave the flow as it was.
pub proof fn law_file_exists_answers(f: CopyFlow, c: int)
    ensures
        (c == 1 || c == 2) ==> overwrite_choice(f, c).1 == FlowAction::CopyCurrent,
        (c == 3 || c == 4) ==> overwrite_choice(f, c).1 == FlowAction::SkipCurrent,
        !(1 <= c <= 4) ==> overwrite_choice(f, c).1 == FlowAction::Stop,
        c != 2 && c != 4 ==> overwrite_choice(f, c).0 == f,
        overwrite_choice(f, 2).0 == (CopyFlow { overwrite_all: true, ..f }),
        overwrite_choice(f, 4).0 == (CopyFlow { skip_existing: true, ..f }),
{
}

/// The answers of the copy error dialog: "Skip this file" and "Ignore all and continue" leave
/// the failed item and go on, "Cancel the whole operation" stops; only "Ignore all" changes the
/// flow, and it makes every later failure be passed over without asking.
pub proof fn law_copy_error_answers(f: CopyFlow)
    ensures
        error_choice(f, CopyErrorChoice::Ignore) == (f, FlowAction::SkipCurrent),
        error_choice(f, CopyErrorChoice::Cancel) == (f, FlowAction::Stop),
        error_choice(f, CopyErrorChoice::IgnoreAll).1 == FlowAction::SkipCurrent,
        error_choice(f, CopyErrorChoice::IgnoreAll).0 == (CopyFlow { ignore_errors: true, ..f }),
        error_choice(f, CopyErrorChoice::IgnoreAll).0.ignore_errors,
{
}

/// Once "Skip all existing files" is chosen, no later existing item is asked about: each is
/// skipped, and items whose target is free are still copied.
pub proof fn law_skip_all_never_asks(f: CopyFlow, n: int, target_exists: bool)
    requires
        f.next < n,
        !f.overwrite_all,
    ensures
        step_for(overwrite_choice(f, 4).0, n, target_exists) == (if target_exists { CopyStep::Skip(f.next) } else { CopyStep::Copy(f.next) }),
{
}

} // verus!
