//! The questions of a package: mapping questions into a package, in one
//! transaction.
use vstd::prelude::*;
use crate::text::{chars_of, push_signed_decimal, push_str, signed_decimal_spec, string_from_chars};

verus! {

/// Where a mapping stands.
#[derive(Debug, Clone, Copy, PartialEq, Eq, Structural)]
pub enum MappingStage {
    AwaitBegin,
    AwaitCheck,
    AwaitInsert,
    AwaitCommit,
    Finished,
}

/// A mapping of questions into a package in progress: the questions, the
/// position of the one being handled and how many were newly mapped.
#[derive(Debug)]
pub struct MappingFlow {
    pub stage: MappingStage,
    pub package_id: i32,
    pub soal_ids: Vec<i32>,
    pub next: usize,
    pub mapped: i32,
}

/// What the application reports back.
#[derive(Debug, Clone, Copy)]
pub enum MappingEvent {
    /// Whether the transaction began.
    Began(bool),
    /// Whether the question is mapped already, or `Err` when the check failed.
    Checked(Result<bool, ()>),
    /// Whether the mapping was inserted.
    Inserted(bool),
    /// Whether the transaction was committed.
    Committed(bool),
}

/// What the application does next.
#[derive(Debug)]
pub enum MappingAction {
    BeginTransaction,
    /// Is question `soal` mapped into the package?
    Check(i32, i32),
    /// Map question `soal` into the package.
    Insert(i32, i32),
    Commit,
    /// Roll back the transaction, then answer with a failure.
    RollbackAndFail(u16, &'static str),
    /// Answer: 200 with the number mapped and its message, or a failure.
    Reply(Result<(i32, String), (u16, &'static str)>),
}

/// Starts a mapping: a request without questions is refused with 400.
pub fn begin_mapping(package_id: i32, soal_ids: Vec<i32>) -> (r: (MappingFlow, MappingAction))
    ensures
        soal_ids@.len() == 0 ==> r.0.stage == MappingStage::Finished,
        soal_ids@.len() == 0 ==> (r.1 matches MappingAction::Reply(Err(f)) && f.0 == 400 && f.1@
            == "No questions provided"@),
        soal_ids@.len() > 0 ==> r.0 == (MappingFlow {
            stage: MappingStage::AwaitBegin,
            package_id,
            soal_ids,
            next: 0,
            mapped: 0,
        }),
        soal_ids@.len() > 0 ==> r.1 is BeginTransaction,
        0 < soal_ids@.len() <= i32::MAX ==> mapping_wf(r.0),
{
    if soal_ids.len() == 0 {
        return (
            MappingFlow { stage: MappingStage::Finished, package_id, soal_ids, next: 0, mapped: 0 },
            MappingAction::Reply(Err((400, "No questions provided"))),
        );
    }
    (
        MappingFlow { stage: MappingStage::AwaitBegin, package_id, soal_ids, next: 0, mapped: 0 },
        MappingAction::BeginTransaction,
    )
}

/// The flow is consistent: the position is within the questions and the
/// count of mapped questions does not exceed it.
pub open spec fn mapping_wf(f: MappingFlow) -> bool {
    &&& f.next <= f.soal_ids@.len()
    &&& 0 <= f.mapped <= f.next
    &&& f.soal_ids@.len() <= i32::MAX
    &&& f.stage == MappingStage::AwaitBegin ==> f.next == 0 && f.mapped == 0
    &&& (f.stage == MappingStage::AwaitCheck || f.stage == MappingStage::AwaitInsert) ==> f.next
        < f.soal_ids@.len()
}

/// The event reports the outcome of the flow's pending action.
pub open spec fn mapping_fits(f: MappingFlow, e: MappingEvent) -> bool {
    match f.stage {
        MappingStage::AwaitBegin => e is Began,
        MappingStage::AwaitCheck => e is Checked,
        MappingStage::AwaitInsert => e is Inserted,
        MappingStage::AwaitCommit => e is Committed,
        MappingStage::Finished => false,
    }
}

/// After question `next` was handled: the next question is checked, or the
/// transaction committed once all are handled.
pub open spec fn mapping_advance(f: MappingFlow, mapped: i32, r: (MappingFlow, MappingAction)) -> bool {
    let n = f.next + 1;
    if n < f.soal_ids@.len() {
        r.0 == (MappingFlow { stage: MappingStage::AwaitCheck, next: n as usize, mapped, ..f })
            && r.1 == MappingAction::Check(f.package_id, f.soal_ids@[n])
    } else {
        r.0 == (MappingFlow { stage: MappingStage::AwaitCommit, next: n as usize, mapped, ..f })
            && r.1 is Commit
    }
}

/// One step of a mapping. Questions mapped already are skipped; each other
/// one is inserted; a failed check or insert rolls the transaction back (500);
/// once the transaction commits, the answer gives the number newly mapped
/// (`<n> questions mapped successfully`).
pub open spec fn mapping_step_ok(f: MappingFlow, e: MappingEvent, r: (MappingFlow, MappingAction)) -> bool {
    match e {
        MappingEvent::Began(ok) => if ok {
            r.0 == (MappingFlow { stage: MappingStage::AwaitCheck, ..f }) && r.1 == MappingAction::Check(
                f.package_id,
                f.soal_ids@[0],
            )
        } else {
            r.0.stage == MappingStage::Finished && (r.1 matches MappingAction::Reply(Err(x)) && x.0
                == 500 && x.1@ == "Database transaction error"@)
        },
        MappingEvent::Checked(res) => match res {
            Err(_) => r.0.stage == MappingStage::Finished && (r.1 matches MappingAction::RollbackAndFail(
                st,
                m,
            ) && st == 500 && m@ == "Database error"@),
            Ok(true) => mapping_advance(f, f.mapped, r),
            Ok(false) => r.0 == (MappingFlow { stage: MappingStage::AwaitInsert, ..f }) && r.1
                == MappingAction::Insert(f.package_id, f.soal_ids@[f.next as int]),
        },
        MappingEvent::Inserted(ok) => if ok {
            mapping_advance(f, (f.mapped + 1) as i32, r)
        } else {
            r.0.stage == MappingStage::Finished && (r.1 matches MappingAction::RollbackAndFail(st, m)
                && st == 500 && m@ == "Failed to create mapping"@)
        },
        MappingEvent::Committed(ok) => if ok {
            r.0.stage == MappingStage::Finished && (r.1 matches MappingAction::Reply(Ok(x)) && x.0
                == f.mapped && x.1@ == signed_decimal_spec(f.mapped as int)
                + " questions mapped successfully"@)
        } else {
            r.0.stage == MappingStage::Finished && (r.1 matches MappingAction::Reply(Err(x)) && x.0
                == 500 && x.1@ == "Failed to commit changes"@)
        },
    }
}

fn advance(f: MappingFlow, mapped: i32) -> (r: (MappingFlow, MappingAction))
    requires
        f.next < f.soal_ids@.len(),
        f.soal_ids@.len() <= i32::MAX,
    ensures
        mapping_advance(f, mapped, r),
{
    let n = f.next + 1;
    if n < f.soal_ids.len() {
        let id = f.soal_ids[n];
        let pid = f.package_id;
        (MappingFlow { stage: MappingStage::AwaitCheck, next: n, mapped, ..f }, MappingAction::Check(pid, id))
    } else {
        (MappingFlow { stage: MappingStage::AwaitCommit, next: n, mapped, ..f }, MappingAction::Commit)
    }
}

/// One step of a mapping.
pub fn mapping_step(f: MappingFlow, e: MappingEvent) -> (r: (MappingFlow, MappingAction))
    requires
        mapping_fits(f, e),
        mapping_wf(f),
        f.soal_ids@.len() > 0,
    ensures
        mapping_step_ok(f, e, r),
        r.0.stage != MappingStage::Finished ==> mapping_wf(r.0) && r.0.soal_ids == f.soal_ids,
{
    match e {
        MappingEvent::Began(ok) => {
            if ok {
                let id = f.soal_ids[0];
                let pid = f.package_id;
                (MappingFlow { stage: MappingStage::AwaitCheck, ..f }, MappingAction::Check(pid, id))
            } else {
                (
                    MappingFlow { stage: MappingStage::Finished, ..f },
                    MappingAction::Reply(Err((500, "Database transaction error"))),
                )
            }
        },
        MappingEvent::Checked(res) => match res {
            Err(_) => (
                MappingFlow { stage: MappingStage::Finished, ..f },
                MappingAction::RollbackAndFail(500, "Database error"),
            ),
            Ok(true) => {
                let m = f.mapped;
                advance(f, m)
            },
            Ok(false) => {
                let id = f.soal_ids[f.next];
                let pid = f.package_id;
                (MappingFlow { stage: MappingStage::AwaitInsert, ..f }, MappingAction::Insert(pid, id))
            },
        },
        MappingEvent::Inserted(ok) => {
            if ok {
                let m = f.mapped + 1;
                advance(f, m)
            } else {
                (
                    MappingFlow { stage: MappingStage::Finished, ..f },
                    MappingAction::RollbackAndFail(500, "Failed to create mapping"),
                )
            }
        },
        MappingEvent::Committed(ok) => {
            if ok {
                let mut v: Vec<char> = Vec::new();
                push_signed_decimal(&mut v, f.mapped as i64);
                push_str(&mut v, " questions mapped successfully");
                assert(v@ =~= signed_decimal_spec(f.mapped as int) + " questions mapped successfully"@);
                let m = f.mapped;
                (
                    MappingFlow { stage: MappingStage::Finished, ..f },
                    MappingAction::Reply(Ok((m, string_from_chars(v.as_slice())))),
                )
            } else {
                (
                    MappingFlow { stage: MappingStage::Finished, ..f },
                    MappingAction::Reply(Err((500, "Failed to commit changes"))),
                )
            }
        },
    }
}

} // verus!
