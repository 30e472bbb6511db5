//! Whole runs of the state machine against a model of the file system, and
//! what holds of them.

use crate::render::{lemma_version_line_injective, version_line};
use crate::sync::{next, started, ActionModel, EventModel, StageModel};
use vstd::prelude::*;

verus! {

/// The part of the file system that a run touches: whether the output
/// directory exists, the generated file's content (absent when there is no
/// file), and how many times the file has been written.
pub struct Disk {
    pub dir_exists: bool,
    pub file: Option<Seq<char>>,
    pub writes: nat,
}

/// How a caller whose actions all succeed answers a request, with
/// `describe` as the describe result. `Finish` and `MissingEnvVar` end a run
/// and are never answered; they leave the disk as it is.
pub open spec fn respond(a: ActionModel, disk: Disk, describe: Option<Seq<char>>) -> (
    Disk,
    EventModel,
) {
    match a {
        ActionModel::CreateDir => (Disk { dir_exists: true, ..disk }, EventModel::DirCreated),
        ActionModel::Describe => (disk, EventModel::Described(describe)),
        ActionModel::ReadExisting => (disk, EventModel::ExistingRead(disk.file)),
        ActionModel::Write(c) => (
            Disk { file: Some(c), writes: disk.writes + 1, ..disk },
            EventModel::Written,
        ),
        _ => (disk, EventModel::Written),
    }
}

/// Runs the machine from stage `s` and request `a` for at most `fuel`
/// requests, until it finishes or fails; gives the last request and the disk.
pub open spec fn drive(
    s: StageModel,
    a: ActionModel,
    disk: Disk,
    describe: Option<Seq<char>>,
    fuel: nat,
) -> (ActionModel, Disk)
    decreases fuel,
{
    if fuel == 0 || a is Finish || a is MissingEnvVar {
        (a, disk)
    } else {
        let (disk2, e) = respond(a, disk, describe);
        let (s2, a2) = next(s, e);
        drive(s2, a2, disk2, describe, (fuel - 1) as nat)
    }
}

/// One whole run of the operation: its last request and the disk after it.
pub open spec fn run(out_dir_given: bool, describe: Option<Seq<char>>, disk: Disk) -> (
    ActionModel,
    Disk,
) {
    let (s, a) = started(out_dir_given);
    drive(s, a, disk, describe, 4)
}

/// A run with the output directory given succeeds, leaves the directory in
/// place and the file holding the rendered describe result; it writes once,
/// or not at all when the file already held that content.
pub proof fn lemma_run_succeeds(describe: Option<Seq<char>>, disk: Disk)
    ensures
        run(true, describe, disk).0 is Finish,
        run(true, describe, disk).1.dir_exists,
        run(true, describe, disk).1.file == Some(version_line(describe)),
        run(true, describe, disk).1.writes == if disk.file == Some(version_line(describe)) {
            disk.writes
        } else {
            disk.writes + 1
        },
{
    reveal_with_fuel(drive, 5);
}

/// Running twice with the same describe result leaves the same content,
/// and the second run writes nothing.
pub proof fn lemma_second_run_writes_nothing(describe: Option<Seq<char>>, disk: Disk)
    ensures
        run(true, describe, run(true, describe, disk).1).1.file == run(true, describe, disk).1.file,
        run(true, describe, run(true, describe, disk).1).1.writes == run(true, describe, disk).1.writes,
{
    lemma_run_succeeds(describe, disk);
    lemma_run_succeeds(describe, run(true, describe, disk).1);
}

/// When the describe result changes between two runs, the second run writes
/// the file again, and it then holds the new result.
pub proof fn lemma_changed_describe_rewrites(
    first: Option<Seq<char>>,
    second: Option<Seq<char>>,
    disk: Disk,
)
    requires
        first != second,
    ensures
        run(true, second, run(true, first, disk).1).1.file == Some(version_line(second)),
        run(true, second, run(true, first, disk).1).1.writes == run(true, first, disk).1.writes + 1,
{
    lemma_run_succeeds(first, disk);
    lemma_run_succeeds(second, run(true, first, disk).1);
    lemma_version_line_injective(first, second);
}

/// A run whose output directory does not exist yet creates it and succeeds.
pub proof fn lemma_creates_missing_dir(describe: Option<Seq<char>>, disk: Disk)
    requires
        !disk.dir_exists,
    ensures
        run(true, describe, disk).0 is Finish,
        run(true, describe, disk).1.dir_exists,
{
    lemma_run_succeeds(describe, disk);
}

/// A run without an output directory fails with a missing variable and
/// leaves the disk as it was.
pub proof fn lemma_missing_out_dir(describe: Option<Seq<char>>, disk: Disk)
    ensures
        run(false, describe, disk) == (ActionModel::MissingEnvVar, disk),
{
    reveal_with_fuel(drive, 1);
}

/// A run whose describe query gave nothing succeeds and leaves the file
/// holding the declaration without a value.
pub proof fn lemma_absent_describe(disk: Disk)
    ensures
        run(true, None, disk).0 is Finish,
        run(true, None, disk).1.file == Some(
            "static GIT_BUILD_VERSION: Option<&'static str> = None;\n"@,
        ),
{
    lemma_run_succeeds(None, disk);
    reveal_strlit("static GIT_BUILD_VERSION: Option<&'static str> = ");
    reveal_strlit("None;\n");
    reveal_strlit("static GIT_BUILD_VERSION: Option<&'static str> = None;\n");
    assert(version_line(None) =~= "static GIT_BUILD_VERSION: Option<&'static str> = None;\n"@);
}

} // verus!
