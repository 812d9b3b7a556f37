//! What holds of every run, whatever the file system answers.
//!
//! A run is [`Pipeline::initial`] followed by a sequence of events. Where
//! each event answers the action that was pending when it came, the sequence
//! is a dialogue: that is what a caller produces who does as it is asked.

use crate::duration::WavHeader;
use crate::error::FilterError;
use crate::path::{is_wav_name, relocated, SpecPath};
use crate::pipeline::{Action, EntryKind, Event, Phase, Pipeline};
use crate::range::LengthRange;
use vstd::prelude::*;

verus! {

/// Whether an event is a possible answer to an action. A report and an
/// abort end the dialogue: nothing answers them.
pub open spec fn answers(event: Event<SpecPath>, action: Action<SpecPath>) -> bool {
    match action {
        Action::ProbeInput { .. } => event is InputProbed,
        Action::CreateDirectories { .. } => event is DirectoriesReady || event is DirectoriesFailed,
        Action::NextEntry => event is Entry || event is EntryUnreadable || event is WalkFinished,
        Action::ReadHeader { .. } => event is HeaderRead || event is OpenFailed,
        Action::CopyFile { .. } => event is Copied || event is CopyFailed,
        Action::Report { .. } => false,
        Action::Abort { .. } => false,
    }
}

/// Whether an event tells of something that the file system refused, or of
/// an input path that cannot be scanned.
pub open spec fn reports_failure(event: Event<SpecPath>) -> bool {
    match event {
        Event::InputProbed { present, is_directory } => !present || !is_directory,
        Event::DirectoriesFailed => true,
        Event::EntryUnreadable => true,
        Event::OpenFailed => true,
        Event::CopyFailed => true,
        _ => false,
    }
}

/// Whether each event of the sequence answers the action that is pending
/// when it comes.
pub open spec fn is_dialogue(start: Pipeline<SpecPath>, events: Seq<Event<SpecPath>>) -> bool {
    forall|i: int|
        0 <= i < events.len() ==> answers(
            #[trigger] events[i],
            start.after_all(events.take(i)).pending_action(),
        )
}

/// What a run may hold in each phase, if it began at the beginning: the file
/// in hand has a name that ends in `.wav`, and a destination is the place of
/// that file under the output root.
pub open spec fn is_sound(run: Pipeline<SpecPath>) -> bool {
    match run.phase {
        Phase::Probing { path } => path.len() > 0 && is_wav_name(path.last()),
        Phase::CreatingParents { source, destination } => {
            &&& source.len() > 0 && is_wav_name(source.last())
            &&& relocated(source, run.input, run.output) == Some(destination)
            &&& destination.len() > 0
        },
        Phase::Copying { source, destination } => {
            &&& source.len() > 0 && is_wav_name(source.last())
            &&& relocated(source, run.input, run.output) == Some(destination)
        },
        _ => true,
    }
}

/// Taking one more event of a sequence is one more step.
pub proof fn lemma_after_all_unfolds(
    start: Pipeline<SpecPath>,
    events: Seq<Event<SpecPath>>,
    k: int,
)
    requires
        0 <= k < events.len(),
    ensures
        start.after_all(events.take(k + 1)) == start.after_all(events.take(k)).after(events[k]),
{
    assert(events.take(k + 1).drop_last() =~= events.take(k));
    assert(events.take(k + 1).last() == events[k]);
}

/// An event that does not answer the pending action changes nothing.
pub proof fn lemma_stray_event_changes_nothing(run: Pipeline<SpecPath>, event: Event<SpecPath>)
    requires
        !answers(event, run.pending_action()),
    ensures
        run.after(event) == run,
{
}

/// The walk passes over every entry that is not a regular file named
/// `*.wav`: a directory, a symbolic link, a file with another extension, in
/// upper case or with none. Such an entry is not opened, not copied and not
/// counted: the run stays as it was and asks for the next entry.
pub proof fn lemma_other_entries_are_passed_over(
    run: Pipeline<SpecPath>,
    path: SpecPath,
    kind: EntryKind,
)
    requires
        run.phase is Scanning,
        !(kind is File) || path.len() == 0 || !is_wav_name(path.last()),
    ensures
        run.after(Event::Entry { path, kind }) == run,
        run.after(Event::Entry { path, kind }).pending_action() is NextEntry,
{
}

/// A step changes neither the roots nor the range, and it raises the count
/// by one where it takes the report of a copy, and at no other time.
pub proof fn lemma_step_counts_copies(run: Pipeline<SpecPath>, event: Event<SpecPath>)
    ensures
        run.after(event).input == run.input,
        run.after(event).output == run.output,
        run.after(event).range == run.range,
        run.after(event).copied == run.copied + 1 <==> run.phase is Copying && event is Copied
            && run.copied < u64::MAX,
        run.after(event).copied == run.copied || run.after(event).copied == run.copied + 1,
{
}

/// Every failure is fatal: a dialogue in which the file system refuses
/// something is given up at that very step.
pub proof fn lemma_failure_is_fatal(run: Pipeline<SpecPath>, event: Event<SpecPath>)
    requires
        answers(event, run.pending_action()),
        reports_failure(event),
    ensures
        run.after(event).phase is Failed,
        run.after(event).pending_action() is Abort,
{
    match run.phase {
        Phase::CheckingInput => {},
        Phase::CreatingOutput => {},
        Phase::Scanning => {},
        Phase::Probing { .. } => {},
        Phase::CreatingParents { .. } => {},
        Phase::Copying { .. } => {},
        Phase::Finished => {},
        Phase::Failed { .. } => {},
    }
}

/// A run that is finished or given up stays as it is, whatever comes.
pub proof fn lemma_end_is_final(run: Pipeline<SpecPath>, events: Seq<Event<SpecPath>>)
    requires
        run.phase is Finished || run.phase is Failed,
    ensures
        run.after_all(events) == run,
    decreases events.len(),
{
    if events.len() > 0 {
        lemma_end_is_final(run, events.drop_last());
    }
}

/// A file that cannot be opened ends the run with that file's name: no
/// playing time is made up for it, it is not copied, and nothing that comes
/// later changes that.
pub proof fn lemma_failed_open_ends_run(
    run: Pipeline<SpecPath>,
    path: SpecPath,
    later: Seq<Event<SpecPath>>,
)
    requires
        run.phase == (Phase::Probing { path }),
    ensures
        run.after(Event::OpenFailed).after_all(later).pending_action()
            == (Action::Abort { error: FilterError::FileOpen { path } }),
        run.after(Event::OpenFailed).after_all(later).copied == run.copied,
{
    lemma_end_is_final(run.after(Event::OpenFailed), later);
}

/// A file is kept exactly where its playing time lies in the range: a time
/// outside sends the run back to the walk with nothing changed, a time
/// inside sends the file on to its place under the output root.
pub proof fn lemma_kept_iff_in_range(run: Pipeline<SpecPath>, path: SpecPath, header: WavHeader)
    requires
        run.phase == (Phase::Probing { path }),
    ensures
        !run.range.admits(header.millis() as int)
            ==> run.after(Event::HeaderRead { header }) == run.moved_to(Phase::Scanning),
        run.range.admits(header.millis() as int)
            ==> !(run.after(Event::HeaderRead { header }).phase is Scanning),
        run.range.admits(header.millis() as int) && run.input.is_prefix_of(path) ==> ({
            let destination = run.output + path.skip(run.input.len() as int);
            let next = run.after(Event::HeaderRead { header });
            &&& next.copied == run.copied
            &&& next.phase == (Phase::CreatingParents { source: path, destination })
                || next.phase == (Phase::Copying { source: path, destination })
        }),
{
}

/// Both bounds belong to the range: a file that plays for exactly
/// `min_length` or exactly `max_length` milliseconds is kept.
pub proof fn lemma_boundary_times_are_kept(
    run: Pipeline<SpecPath>,
    path: SpecPath,
    header: WavHeader,
)
    requires
        run.phase == (Phase::Probing { path }),
        run.range.min_length <= run.range.max_length,
        header.millis() == run.range.min_length || header.millis() == run.range.max_length,
    ensures
        !(run.after(Event::HeaderRead { header }).phase is Scanning),
        run.input.is_prefix_of(path) ==> ({
            let asked = run.after(Event::HeaderRead { header }).pending_action();
            asked is CreateDirectories || asked is CopyFile
        }),
{
    lemma_kept_iff_in_range(run, path, header);
}

/// Soundness is kept by every step.
pub proof fn lemma_step_keeps_soundness(run: Pipeline<SpecPath>, event: Event<SpecPath>)
    requires
        is_sound(run),
    ensures
        is_sound(run.after(event)),
{
}

/// Every run that began at the beginning is sound, whatever came.
pub proof fn lemma_runs_are_sound(
    input: SpecPath,
    output: SpecPath,
    range: LengthRange,
    events: Seq<Event<SpecPath>>,
)
    ensures
        is_sound(Pipeline::initial(input, output, range).after_all(events)),
        Pipeline::initial(input, output, range).after_all(events).input == input,
        Pipeline::initial(input, output, range).after_all(events).output == output,
        Pipeline::initial(input, output, range).after_all(events).range == range,
    decreases events.len(),
{
    if events.len() > 0 {
        let before = Pipeline::initial(input, output, range).after_all(events.drop_last());
        lemma_runs_are_sound(input, output, range, events.drop_last());
        lemma_step_keeps_soundness(before, events.last());
        lemma_step_counts_copies(before, events.last());
    }
}

/// Only files named `*.wav` are ever opened or copied, and a copy goes to
/// the place of its source under the output root: whatever a run asks for
/// after whatever events, a header is asked of such a file only, and a copy
/// of `<input>/rel` is sent to `<output>/rel` and nowhere else.
pub proof fn lemma_requests_are_justified(
    input: SpecPath,
    output: SpecPath,
    range: LengthRange,
    events: Seq<Event<SpecPath>>,
)
    ensures
        match Pipeline::initial(input, output, range).after_all(events).pending_action() {
            Action::ReadHeader { path } => path.len() > 0 && is_wav_name(path.last()),
            Action::CopyFile { source, destination } => {
                &&& source.len() > 0 && is_wav_name(source.last())
                &&& input.is_prefix_of(source)
                &&& destination == output + source.skip(input.len() as int)
            },
            _ => true,
        },
{
    lemma_runs_are_sound(input, output, range, events);
}

/// With no file whose playing time is in the range, a run that meets no
/// failure ends well and reports 0 copies, and it has had the output root
/// created before it looked at the first entry.
pub proof fn lemma_no_match_reports_zero(
    input: SpecPath,
    output: SpecPath,
    range: LengthRange,
    events: Seq<Event<SpecPath>>,
)
    requires
        is_dialogue(Pipeline::initial(input, output, range), events),
        events.len() > 0 && events.last() is WalkFinished,
        forall|i: int| 0 <= i < events.len() ==> !reports_failure(#[trigger] events[i]),
        forall|i: int|
            0 <= i < events.len() ==> (#[trigger] events[i] matches Event::HeaderRead { header }
                ==> !range.admits(header.millis() as int)),
    ensures
        Pipeline::initial(input, output, range).after_all(events).pending_action()
            == (Action::Report { copied: 0, output }),
        events.len() >= 3,
        Pipeline::initial(input, output, range).after_all(events.take(1)).pending_action()
            == (Action::CreateDirectories { path: output }),
        events[1] is DirectoriesReady,
{
    let start = Pipeline::initial(input, output, range);
    let n = events.len() as int;
    lemma_quiet_prefix(start, events, n - 1);
    lemma_after_all_unfolds(start, events, n - 1);
    assert(events.take(n) =~= events);
    let before = start.after_all(events.take(n - 1));
    assert(answers(events[n - 1], before.pending_action()));
    assert(before.phase is Scanning);
    // The walk was reached, so the first two answers were given.
    assert(events.take(0) =~= Seq::empty());
    if n - 1 >= 1 {
        lemma_quiet_prefix(start, events, 1);
        lemma_after_all_unfolds(start, events, 0);
        assert(answers(events[0], start.pending_action()));
    }
    if n - 1 >= 2 {
        lemma_quiet_prefix(start, events, 2);
        lemma_after_all_unfolds(start, events, 1);
        assert(answers(events[1], start.after_all(events.take(1)).pending_action()));
    }
}

/// How many of the events report a copy.
pub open spec fn copies_in(events: Seq<Event<SpecPath>>) -> nat
    decreases events.len(),
{
    if events.len() == 0 {
        0
    } else if events.last() is Copied {
        copies_in(events.drop_last()) + 1
    } else {
        copies_in(events.drop_last())
    }
}

/// The count is the number of copies: in a dialogue the run has counted
/// each copy that was reported to it once, and nothing else.
pub proof fn lemma_count_is_number_of_copies(
    input: SpecPath,
    output: SpecPath,
    range: LengthRange,
    events: Seq<Event<SpecPath>>,
)
    requires
        is_dialogue(Pipeline::initial(input, output, range), events),
        copies_in(events) <= u64::MAX,
    ensures
        Pipeline::initial(input, output, range).after_all(events).copied == copies_in(events),
{
    assert(events.take(events.len() as int) =~= events);
    lemma_counted_up_to(Pipeline::initial(input, output, range), events, events.len() as int);
}

/// The count after the first `k` events of a dialogue, where the copies
/// among them fit the counter.
proof fn lemma_counted_up_to(
    start: Pipeline<SpecPath>,
    events: Seq<Event<SpecPath>>,
    k: int,
)
    requires
        start.copied == 0,
        is_dialogue(start, events),
        0 <= k <= events.len(),
        copies_in(events.take(k)) <= u64::MAX,
    ensures
        start.after_all(events.take(k)).copied == copies_in(events.take(k)),
    decreases k,
{
    if k == 0 {
        assert(events.take(0) =~= Seq::empty());
    } else {
        assert(events.take(k).drop_last() =~= events.take(k - 1));
        assert(events.take(k).last() == events[k - 1]);
        lemma_counted_up_to(start, events, k - 1);
        lemma_after_all_unfolds(start, events, k - 1);
        let before = start.after_all(events.take(k - 1));
        assert(answers(events[k - 1], before.pending_action()));
        lemma_step_counts_copies(before, events[k - 1]);
    }
}

/// In a dialogue without failure and without a file in the range, nothing
/// is copied and the run stays in the phases before a copy; and it reaches
/// the walk only through the creation of the output root.
proof fn lemma_quiet_prefix(
    start: Pipeline<SpecPath>,
    events: Seq<Event<SpecPath>>,
    k: int,
)
    requires
        start.phase is CheckingInput,
        start.copied == 0,
        is_dialogue(start, events),
        0 <= k <= events.len(),
        forall|i: int| 0 <= i < events.len() ==> !reports_failure(#[trigger] events[i]),
        forall|i: int|
            0 <= i < events.len() ==> (#[trigger] events[i] matches Event::HeaderRead { header }
                ==> !start.range.admits(header.millis() as int)),
    ensures
        ({
            let run = start.after_all(events.take(k));
            &&& run.copied == 0
            &&& run.input == start.input
            &&& run.output == start.output
            &&& run.range == start.range
            &&& match run.phase {
                Phase::CheckingInput => k == 0,
                Phase::CreatingOutput => k == 1,
                Phase::Scanning => k >= 2,
                Phase::Probing { .. } => k >= 2,
                Phase::Finished => k >= 2,
                _ => false,
            }
        }),
    decreases k,
{
    if k == 0 {
        assert(events.take(0) =~= Seq::empty());
    } else {
        lemma_quiet_prefix(start, events, k - 1);
        lemma_after_all_unfolds(start, events, k - 1);
        let before = start.after_all(events.take(k - 1));
        assert(answers(events[k - 1], before.pending_action()));
        assert(!reports_failure(events[k - 1]));
    }
}

} // verus!
