//! Properties of whole runs of the installer.
use vstd::prelude::*;
use crate::installer::{Action, Event, InstallError, Installer, Stage};
use crate::paths::joined;
use crate::registration::{lemma_registration_idempotent, registered};

verus! {

/// `ms` are the states and `acts` the actions of a run that answers each
/// `events[i]` in state `ms[i]`.
pub open spec fn is_run(events: Seq<Event>, ms: Seq<Installer>, acts: Seq<Action>) -> bool {
    &&& ms.len() == events.len() + 1
    &&& acts.len() == events.len()
    &&& forall|i: int|
        #![trigger events[i]]
        0 <= i < events.len() ==> ms[i].expects(events[i]) && ms[i].step_post(events[i], ms[i + 1], acts[i])
}

/// How far a stage is along the sequence; every step moves strictly forward.
pub open spec fn rank(s: Stage) -> nat {
    match s {
        Stage::ReadingEnvironment => 0,
        Stage::CheckingPreferred { .. } => 1,
        Stage::CheckingFallback { .. } => 2,
        Stage::CreatingFallback { .. } => 3,
        Stage::Downloading { .. } => 4,
        Stage::Writing { .. } => 5,
        Stage::ReadingRegistration { .. } => 6,
        Stage::WritingRegistration { .. } => 7,
        Stage::Broadcasting { .. } => 8,
        Stage::Done => 9,
    }
}

/// The installation directory is decided and is `d`, or the run is over.
pub open spec fn settled(s: Stage, d: String) -> bool {
    match s {
        Stage::Downloading { dir } => dir == d,
        Stage::Writing { dir } => dir == d,
        Stage::ReadingRegistration { dir } => dir == d,
        Stage::WritingRegistration { dir } => dir == d,
        Stage::Broadcasting { dir } => dir == d,
        Stage::Done => true,
        _ => false,
    }
}

/// The run has turned to the fallback directory `d`.
pub open spec fn on_fallback(s: Stage, d: String) -> bool {
    match s {
        Stage::CheckingFallback { fallback } => fallback == d,
        Stage::CreatingFallback { fallback } => fallback == d,
        _ => settled(s, d),
    }
}

proof fn lemma_step(pre: Installer, e: Event, post: Installer, a: Action, d: String)
    requires
        pre.expects(e),
        pre.step_post(e, post, a),
    ensures
        rank(pre.stage) < rank(post.stage),
        post.config == pre.config,
        settled(pre.stage, d) ==> settled(post.stage, d),
        on_fallback(pre.stage, d) ==> on_fallback(post.stage, d),
        settled(pre.stage, d) ==> a !is CreateDirectory && a !is CheckDirectory,
        on_fallback(pre.stage, d) ==> (a matches Action::WriteFile { path, .. } ==> path@ == joined(
            d@,
            pre.config.binary_name@,
        )),
        a is CreateDirectory ==> pre.stage is CheckingFallback && e == Event::DirectoryChecked(false),
        rank(pre.stage) < 4 ==> a !is WriteFile && a !is WriteRegistration,
        post.stage is Done <==> a is Finish,
        pre.stage is CheckingFallback && e == Event::DirectoryChecked(false) ==> a is CreateDirectory,
{
}

proof fn lemma_step_back(pre: Installer, e: Event, post: Installer, a: Action)
    requires
        pre.expects(e),
        pre.step_post(e, post, a),
    ensures
        post.stage matches Stage::WritingRegistration { dir } ==> pre.stage == (Stage::ReadingRegistration { dir }),
        post.stage matches Stage::ReadingRegistration { dir } ==> pre.stage == (Stage::Writing { dir }) && e
            == Event::FileWritten(true),
        post.stage matches Stage::Writing { dir } ==> pre.stage == (Stage::Downloading { dir }) && (
        a matches Action::WriteFile { path, .. } && path@ == joined(dir@, pre.config.binary_name@)),
{
}

proof fn lemma_run_forward(events: Seq<Event>, ms: Seq<Installer>, acts: Seq<Action>, i: int, j: int, d: String)
    requires
        is_run(events, ms, acts),
        0 <= i <= j <= events.len(),
    ensures
        i < j ==> rank(ms[i].stage) < rank(ms[j].stage),
        ms[j].config == ms[i].config,
        settled(ms[i].stage, d) ==> settled(ms[j].stage, d),
        on_fallback(ms[i].stage, d) ==> on_fallback(ms[j].stage, d),
    decreases j - i,
{
    if i < j {
        lemma_run_forward(events, ms, acts, i, j - 1, d);
        lemma_step(ms[j - 1], events[j - 1], ms[j], acts[j - 1], d);
    }
}

/// When the preferred directory exists, the executable is written into it and
/// no directory is created, the fallback directory included.
pub proof fn lemma_preferred_dir_used(events: Seq<Event>, ms: Seq<Installer>, acts: Seq<Action>, k: int)
    requires
        is_run(events, ms, acts),
        0 <= k < events.len(),
        ms[k].stage is CheckingPreferred,
        events[k] == Event::DirectoryChecked(true),
    ensures
        forall|j: int| #![trigger acts[j]] 0 <= j < acts.len() ==> acts[j] !is CreateDirectory,
        forall|j: int|
            #![trigger acts[j]]
                       0 <= j < acts.len() ==> (acts[j] matches Action::WriteFile { path, .. } ==> path@ == joined(
                ms[k].stage->preferred@,
                ms[k].config.binary_name@,
            )),
{
    let d = ms[k].stage->preferred;
    assert(settled(ms[k + 1].stage, d));
    assert forall|j: int| #![trigger acts[j]] 0 <= j < acts.len() implies acts[j] !is CreateDirectory && (
    acts[j] matches Action::WriteFile { path, .. } ==> path@ == joined(d@, ms[k].config.binary_name@)) by {
        assert(events[j] == events[j]);
        lemma_step(ms[j], events[j], ms[j + 1], acts[j], d);
        if j < k {
            lemma_run_forward(events, ms, acts, j, k, d);
        } else if j > k {
            lemma_run_forward(events, ms, acts, k + 1, j, d);
        }
    }
}

/// When the preferred directory does not exist, the run turns to the
/// fallback directory: it creates that directory exactly where it was found
/// absent, creates nothing else, and writes the executable into it.
pub proof fn lemma_fallback_dir_used(events: Seq<Event>, ms: Seq<Installer>, acts: Seq<Action>, k: int)
    requires
        is_run(events, ms, acts),
        0 <= k < events.len(),
        ms[k].stage is CheckingPreferred,
        events[k] == Event::DirectoryChecked(false),
    ensures
        forall|j: int|
            #![trigger acts[j]]
                       0 <= j < acts.len() ==> (acts[j] is CreateDirectory <==> ms[j].stage is CheckingFallback
                && events[j] == Event::DirectoryChecked(false)),
        forall|j: int|
            #![trigger acts[j]]
                       0 <= j < acts.len() ==> (acts[j] matches Action::CreateDirectory { path } ==> path@
                == ms[k].stage->CheckingPreferred_fallback@),
        forall|j: int|
            #![trigger acts[j]]
                       0 <= j < acts.len() ==> (acts[j] matches Action::WriteFile { path, .. } ==> path@ == joined(
                ms[k].stage->CheckingPreferred_fallback@,
                ms[k].config.binary_name@,
            )),
{
    let d = ms[k].stage->CheckingPreferred_fallback;
    assert(on_fallback(ms[k + 1].stage, d));
    assert forall|j: int| #![trigger acts[j]] 0 <= j < acts.len() implies (acts[j] is CreateDirectory <==> ms[j].stage is CheckingFallback
        && events[j] == Event::DirectoryChecked(false)) && (acts[j] matches Action::CreateDirectory { path } ==> path@
        == d@) && (acts[j] matches Action::WriteFile { path, .. } ==> path@ == joined(d@, ms[k].config.binary_name@)) by {
        assert(events[j] == events[j]);
        lemma_step(ms[j], events[j], ms[j + 1], acts[j], d);
        if j < k {
            lemma_run_forward(events, ms, acts, j, k, d);
        } else if j > k {
            lemma_run_forward(events, ms, acts, k + 1, j, d);
        }
    }
}

/// A failed download ends the run with the download error, and no run that
/// meets one writes the executable or the persisted `PATH`, before or after.
pub proof fn lemma_download_failure_writes_nothing(events: Seq<Event>, ms: Seq<Installer>, acts: Seq<Action>, k: int)
    requires
        is_run(events, ms, acts),
        0 <= k < events.len(),
        ms[k].stage is Downloading,
        events[k] == Event::Downloaded(None),
    ensures
        k == events.len() - 1,
        acts[k] == Action::Finish(Err(InstallError::DownloadError)),
        forall|j: int| #![trigger acts[j]] 0 <= j < acts.len() ==> acts[j] !is WriteFile && acts[j] !is WriteRegistration,
{
    assert(events[k] == events[k]);
    let d = ms[k].stage->Downloading_dir;
    lemma_step(ms[k], events[k], ms[k + 1], acts[k], d);
    assert(ms[k].step_post(events[k], ms[k + 1], acts[k]));
    assert(acts[k] is Finish);
    assert(ms[k + 1].stage is Done);
    if k + 1 < events.len() {
        assert(events[k + 1] == events[k + 1]);
        assert(!ms[k + 1].expects(events[k + 1]));
    }
    assert forall|j: int| #![trigger acts[j]] 0 <= j < acts.len() implies acts[j] !is WriteFile && acts[j] !is WriteRegistration by {
        assert(events[j] == events[j]);
        lemma_step(ms[j], events[j], ms[j + 1], acts[j], d);
        if j < k {
            lemma_run_forward(events, ms, acts, j, k, d);
        }
    }
}

/// A failed read or write of the persisted `PATH` ends the run with an error
/// that names the installed executable, which the run wrote before and which
/// is left in place.
pub proof fn lemma_registration_failure_keeps_file(events: Seq<Event>, ms: Seq<Installer>, acts: Seq<Action>, k: int)
    requires
        is_run(events, ms, acts),
        ms[0].stage is ReadingEnvironment,
        0 <= k < events.len(),
        ms[k].stage is ReadingRegistration && events[k] == Event::RegistrationRead(None)
            || ms[k].stage is WritingRegistration && events[k] == Event::RegistrationWritten(false),
    ensures
        k == events.len() - 1,
        acts[k] matches Action::Finish(Err(InstallError::RegistrationReadWriteError(p))) && exists|j: int|
            #![trigger acts[j]]
            0 <= j < k && events[j + 1] == Event::FileWritten(true) && (acts[j] matches Action::WriteFile {
                path,
                ..
            } && path@ == p@),
{
    assert(events[k] == events[k]);
    assert(ms[k].step_post(events[k], ms[k + 1], acts[k]));
    assert(ms[k + 1].stage is Done);
    if k + 1 < events.len() {
        assert(events[k + 1] == events[k + 1]);
        assert(ms[k + 1].expects(events[k + 1]));
    }
    let w: int = if ms[k].stage is ReadingRegistration { k - 1 } else { k - 2 };
    assert(k > 0);
    assert(events[k - 1] == events[k - 1]);
    lemma_step_back(ms[k - 1], events[k - 1], ms[k], acts[k - 1]);
    if ms[k].stage is WritingRegistration {
        assert(k - 1 > 0);
        assert(events[k - 2] == events[k - 2]);
        lemma_step_back(ms[k - 2], events[k - 2], ms[k - 1], acts[k - 2]);
    }
    assert(w > 0);
    assert(events[w - 1] == events[w - 1]);
    lemma_step_back(ms[w - 1], events[w - 1], ms[w], acts[w - 1]);
    assert(events[w] == Event::FileWritten(true));
}

/// Installing again into a directory that an earlier run registered leaves
/// the persisted `PATH` alone: reading back the value that run left, the
/// second run goes straight to the broadcast and writes no new value.
pub proof fn lemma_reinstall_registers_once(earlier: Seq<char>, pre: Installer, value: String, post: Installer, a: Action)
    requires
        pre.stage is ReadingRegistration,
        value@ == registered(earlier, pre.stage->ReadingRegistration_dir@),
        pre.step_post(Event::RegistrationRead(Some(value)), post, a),
    ensures
        a is Broadcast,
        post.stage == (Stage::Broadcasting { dir: pre.stage->ReadingRegistration_dir }),
{
    lemma_registration_idempotent(earlier, pre.stage->ReadingRegistration_dir@);
}

} // verus!
