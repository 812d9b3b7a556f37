use wavfilter::duration::WavHeader;
use wavfilter::error::FilterError;
use wavfilter::path::ComponentPath;
use wavfilter::pipeline::{wants, Action, EntryKind, Event, Phase, Pipeline};
use wavfilter::range::LengthRange;

type Run = Pipeline<ComponentPath>;

fn path(parts: &[&str]) -> ComponentPath {
    ComponentPath::new(parts.iter().map(|p| p.as_bytes().to_vec()).collect())
}

fn file(parts: &[&str]) -> Event<ComponentPath> {
    Event::Entry { path: path(parts), kind: EntryKind::File }
}

fn header(sample_rate: u32, sample_count: u32) -> Event<ComponentPath> {
    Event::HeaderRead { header: WavHeader::new(sample_rate, sample_count) }
}

/// A run over `input` into `output` that has reached the walk.
fn scanning(min: u64, max: u64) -> Run {
    let run = Pipeline::new(path(&["input"]), path(&["output"]), LengthRange::new(min, max))
        .step(Event::InputProbed { present: true, is_directory: true })
        .step(Event::DirectoriesReady);
    assert_eq!(run.pending(), Action::NextEntry);
    run
}

/// Feeds the events and checks after each that the run asks for the action
/// that is paired with it.
fn feed(mut run: Run, dialogue: Vec<(Event<ComponentPath>, Action<ComponentPath>)>) -> Run {
    for (event, expected) in dialogue {
        run = run.step(event);
        assert_eq!(run.pending(), expected);
    }
    run
}

#[test]
fn a_new_run_asks_for_the_input() {
    let run = Pipeline::new(path(&["input"]), path(&["output"]), LengthRange::new(1, 2));
    assert_eq!(run.pending(), Action::ProbeInput { path: path(&["input"]) });
    assert_eq!(run.copied(), 0);
    assert_eq!(run.phase, Phase::CheckingInput);
    assert_eq!(run.input, path(&["input"]));
    assert_eq!(run.output, path(&["output"]));
    assert_eq!(run.range, LengthRange::new(1, 2));
}

#[test]
fn a_missing_input_ends_the_run() {
    let run = Pipeline::new(path(&["input"]), path(&["output"]), LengthRange::unbounded())
        .step(Event::InputProbed { present: false, is_directory: false });
    assert_eq!(
        run.pending(),
        Action::Abort { error: FilterError::InputMissing { path: path(&["input"]) } }
    );
}

#[test]
fn an_input_that_is_no_directory_ends_the_run() {
    let run = Pipeline::new(path(&["input"]), path(&["output"]), LengthRange::unbounded())
        .step(Event::InputProbed { present: true, is_directory: false });
    assert_eq!(
        run.pending(),
        Action::Abort { error: FilterError::InputNotDirectory { path: path(&["input"]) } }
    );
}

#[test]
fn the_output_root_is_created_before_the_walk() {
    let run = Pipeline::new(path(&["input"]), path(&["output", "deep"]), LengthRange::unbounded())
        .step(Event::InputProbed { present: true, is_directory: true });
    assert_eq!(run.pending(), Action::CreateDirectories { path: path(&["output", "deep"]) });
    let run = run.step(Event::DirectoriesReady);
    assert_eq!(run.pending(), Action::NextEntry);
}

#[test]
fn an_output_root_that_cannot_be_created_ends_the_run() {
    let run = Pipeline::new(path(&["input"]), path(&["output"]), LengthRange::unbounded())
        .step(Event::InputProbed { present: true, is_directory: true })
        .step(Event::DirectoriesFailed);
    assert_eq!(
        run.pending(),
        Action::Abort { error: FilterError::CreateOutputDirectory { path: path(&["output"]) } }
    );
}

#[test]
fn an_empty_tree_reports_zero() {
    let run = scanning(0, u64::MAX).step(Event::WalkFinished);
    assert_eq!(run.pending(), Action::Report { copied: 0, output: path(&["output"]) });
    assert_eq!(run.copied(), 0);
    assert_eq!(run.phase, Phase::Finished);
}

#[test]
fn a_tree_without_matching_files_reports_zero() {
    let run = feed(
        Pipeline::new(path(&["input"]), path(&["output"]), LengthRange::new(400, 600)),
        vec![
            (
                Event::InputProbed { present: true, is_directory: true },
                Action::CreateDirectories { path: path(&["output"]) },
            ),
            (Event::DirectoriesReady, Action::NextEntry),
            (
                Event::Entry { path: path(&["input"]), kind: EntryKind::Directory },
                Action::NextEntry,
            ),
            (file(&["input", "notes.txt"]), Action::NextEntry),
            (file(&["input", "long.wav"]), Action::ReadHeader { path: path(&["input", "long.wav"]) }),
            (header(44100, 44100), Action::NextEntry),
            (
                file(&["input", "short.wav"]),
                Action::ReadHeader { path: path(&["input", "short.wav"]) },
            ),
            (header(44100, 0), Action::NextEntry),
            (Event::WalkFinished, Action::Report { copied: 0, output: path(&["output"]) }),
        ],
    );
    assert_eq!(run.copied(), 0);
}

#[test]
fn a_matching_file_is_copied_to_the_same_place_under_the_output() {
    let source = path(&["input", "a", "b", "c.wav"]);
    let destination = path(&["output", "a", "b", "c.wav"]);
    let run = feed(
        scanning(0, u64::MAX),
        vec![
            (file(&["input", "a", "b", "c.wav"]), Action::ReadHeader { path: source.clone() }),
            (header(44100, 22050), Action::CreateDirectories { path: path(&["output", "a", "b"]) }),
            (
                Event::DirectoriesReady,
                Action::CopyFile { source: source.clone(), destination: destination.clone() },
            ),
            (Event::Copied, Action::NextEntry),
            (Event::WalkFinished, Action::Report { copied: 1, output: path(&["output"]) }),
        ],
    );
    assert_eq!(run.copied(), 1);
}

#[test]
fn every_copy_is_counted() {
    let mut run = scanning(0, u64::MAX);
    for (i, name) in ["a.wav", "b.wav", "c.wav"].iter().enumerate() {
        run = run
            .step(file(&["input", name]))
            .step(header(8000, 8000))
            .step(Event::DirectoriesReady)
            .step(Event::Copied);
        assert_eq!(run.copied(), i as u64 + 1);
    }
    let run = run.step(Event::WalkFinished);
    assert_eq!(run.pending(), Action::Report { copied: 3, output: path(&["output"]) });
}

#[test]
fn only_files_in_the_range_are_counted() {
    let mut run = scanning(500, 1000);
    for count in [22049u32, 22050, 30000, 44100, 44145] {
        run = run.step(file(&["input", "x.wav"])).step(header(44100, count));
        if run.pending() != Action::NextEntry {
            run = run.step(Event::DirectoriesReady).step(Event::Copied);
        }
    }
    assert_eq!(run.copied(), 3);
}

#[test]
fn a_file_of_exactly_the_minimum_is_kept() {
    let run = scanning(500, 1000).step(file(&["input", "c.wav"])).step(header(44100, 22050));
    assert_eq!(run.pending(), Action::CreateDirectories { path: path(&["output"]) });
}

#[test]
fn a_file_of_exactly_the_maximum_is_kept() {
    let run = scanning(500, 1000).step(file(&["input", "c.wav"])).step(header(44100, 44100));
    assert_eq!(run.pending(), Action::CreateDirectories { path: path(&["output"]) });
}

#[test]
fn a_file_just_below_the_minimum_is_skipped() {
    // 22049 samples at 44100 Hz are 499 ms
    let run = scanning(500, 1000).step(file(&["input", "c.wav"])).step(header(44100, 22049));
    assert_eq!(run.pending(), Action::NextEntry);
    assert_eq!(run.copied(), 0);
}

#[test]
fn a_file_just_above_the_maximum_is_skipped() {
    // 44145 samples at 44100 Hz are 1001 ms
    let run = scanning(500, 1000).step(file(&["input", "c.wav"])).step(header(44100, 44145));
    assert_eq!(run.pending(), Action::NextEntry);
    assert_eq!(run.copied(), 0);
}

#[test]
fn a_file_within_a_millisecond_above_the_maximum_is_kept() {
    // 44144 samples at 44100 Hz are 1000.99 ms, which counts as 1000
    let run = scanning(500, 1000).step(file(&["input", "c.wav"])).step(header(44100, 44144));
    assert_eq!(run.pending(), Action::CreateDirectories { path: path(&["output"]) });
}

#[test]
fn bounds_the_wrong_way_round_match_no_file() {
    let mut run = scanning(1000, 500);
    for count in [0u32, 22050, 33000, 44100, 88200] {
        run = run.step(file(&["input", "x.wav"])).step(header(44100, count));
        assert_eq!(run.pending(), Action::NextEntry);
    }
    let run = run.step(Event::WalkFinished);
    assert_eq!(run.pending(), Action::Report { copied: 0, output: path(&["output"]) });
}

#[test]
fn a_file_without_the_extension_is_never_opened() {
    for name in ["c.mp3", "c.WAV", "c.wav.bak", "wav", ".wav", "c", "c.wave"] {
        let run = scanning(0, u64::MAX).step(file(&["input", name]));
        assert_eq!(run.pending(), Action::NextEntry, "{}", name);
        assert_eq!(run.phase, Phase::Scanning);
    }
}

#[test]
fn an_entry_that_is_no_regular_file_is_never_opened() {
    for kind in [EntryKind::Directory, EntryKind::Symlink, EntryKind::Other] {
        let run = scanning(0, u64::MAX).step(Event::Entry { path: path(&["input", "c.wav"]), kind });
        assert_eq!(run.pending(), Action::NextEntry);
    }
}

#[test]
fn a_symbolic_link_is_passed_over() {
    let run = feed(
        scanning(0, u64::MAX),
        vec![
            (
                Event::Entry { path: path(&["input", "loop"]), kind: EntryKind::Symlink },
                Action::NextEntry,
            ),
            (
                Event::Entry { path: path(&["input", "link.wav"]), kind: EntryKind::Symlink },
                Action::NextEntry,
            ),
            (Event::WalkFinished, Action::Report { copied: 0, output: path(&["output"]) }),
        ],
    );
    assert_eq!(run.copied(), 0);
}

#[test]
fn wants_only_regular_wav_files() {
    assert!(wants(&path(&["input", "c.wav"]), EntryKind::File));
    assert!(wants(&path(&["c.wav"]), EntryKind::File));
    assert!(!wants(&path(&["input", "c.wav"]), EntryKind::Directory));
    assert!(!wants(&path(&["input", "c.wav"]), EntryKind::Symlink));
    assert!(!wants(&path(&["input", "c.wav"]), EntryKind::Other));
    assert!(!wants(&path(&["input", "c.txt"]), EntryKind::File));
    assert!(!wants(&path(&["input.wav", "c"]), EntryKind::File));
    assert!(!wants(&path(&[]), EntryKind::File));
}

#[test]
fn an_unreadable_entry_ends_the_run() {
    let run = scanning(0, u64::MAX).step(Event::EntryUnreadable);
    assert_eq!(run.pending(), Action::Abort { error: FilterError::DirectoryRead });
}

#[test]
fn an_unreadable_entry_after_a_copy_ends_the_run_and_keeps_the_count() {
    let run = scanning(0, u64::MAX)
        .step(file(&["input", "c.wav"]))
        .step(header(8000, 8000))
        .step(Event::DirectoriesReady)
        .step(Event::Copied)
        .step(Event::EntryUnreadable);
    assert_eq!(run.pending(), Action::Abort { error: FilterError::DirectoryRead });
    assert_eq!(run.copied(), 1);
}

#[test]
fn a_file_that_cannot_be_opened_ends_the_run() {
    let run = scanning(0, u64::MAX).step(file(&["input", "bad.wav"])).step(Event::OpenFailed);
    assert_eq!(
        run.pending(),
        Action::Abort { error: FilterError::FileOpen { path: path(&["input", "bad.wav"]) } }
    );
    assert_eq!(run.copied(), 0);
}

#[test]
fn a_file_outside_the_input_root_ends_the_run() {
    let run = scanning(0, u64::MAX).step(file(&["elsewhere", "c.wav"])).step(header(8000, 8000));
    assert_eq!(
        run.pending(),
        Action::Abort {
            error: FilterError::PathRelativization { path: path(&["elsewhere", "c.wav"]) }
        }
    );
}

#[test]
fn a_file_outside_the_input_root_is_passed_over_when_out_of_range() {
    let run = scanning(5000, 6000).step(file(&["elsewhere", "c.wav"])).step(header(8000, 8000));
    assert_eq!(run.pending(), Action::NextEntry);
}

#[test]
fn parents_that_cannot_be_created_end_the_run() {
    let run = scanning(0, u64::MAX)
        .step(file(&["input", "a", "c.wav"]))
        .step(header(8000, 8000))
        .step(Event::DirectoriesFailed);
    assert_eq!(
        run.pending(),
        Action::Abort {
            error: FilterError::CreateParentDirectory {
                destination: path(&["output", "a", "c.wav"])
            }
        }
    );
}

#[test]
fn a_copy_that_fails_ends_the_run() {
    let run = scanning(0, u64::MAX)
        .step(file(&["input", "a", "c.wav"]))
        .step(header(8000, 8000))
        .step(Event::DirectoriesReady)
        .step(Event::CopyFailed);
    assert_eq!(
        run.pending(),
        Action::Abort {
            error: FilterError::Copy {
                source: path(&["input", "a", "c.wav"]),
                destination: path(&["output", "a", "c.wav"]),
            }
        }
    );
    assert_eq!(run.copied(), 0);
}

#[test]
fn a_destination_without_parent_is_copied_to_at_once() {
    // the entry is the input root itself and the output root is empty
    let run = Pipeline::new(path(&["c.wav"]), path(&[]), LengthRange::unbounded())
        .step(Event::InputProbed { present: true, is_directory: true })
        .step(Event::DirectoriesReady)
        .step(file(&["c.wav"]))
        .step(header(8000, 8000));
    assert_eq!(run.pending(), Action::CopyFile { source: path(&["c.wav"]), destination: path(&[]) });
}

#[test]
fn a_file_directly_under_an_empty_output_root() {
    let run = Pipeline::new(path(&["in"]), path(&[]), LengthRange::unbounded())
        .step(Event::InputProbed { present: true, is_directory: true })
        .step(Event::DirectoriesReady)
        .step(file(&["in", "c.wav"]))
        .step(header(8000, 8000));
    assert_eq!(run.pending(), Action::CreateDirectories { path: path(&[]) });
    let run = run.step(Event::DirectoriesReady);
    assert_eq!(
        run.pending(),
        Action::CopyFile { source: path(&["in", "c.wav"]), destination: path(&["c.wav"]) }
    );
}

#[test]
fn an_event_that_answers_nothing_is_ignored() {
    let run = Pipeline::new(path(&["input"]), path(&["output"]), LengthRange::unbounded());
    let run = run
        .step(Event::Copied)
        .step(Event::WalkFinished)
        .step(header(1, 1))
        .step(Event::DirectoriesReady)
        .step(file(&["input", "c.wav"]));
    assert_eq!(run.phase, Phase::CheckingInput);
    assert_eq!(run.copied(), 0);

    let run = scanning(0, u64::MAX)
        .step(Event::Copied)
        .step(Event::CopyFailed)
        .step(Event::OpenFailed)
        .step(Event::DirectoriesFailed)
        .step(header(1, 1))
        .step(Event::InputProbed { present: false, is_directory: false });
    assert_eq!(run.phase, Phase::Scanning);
    assert_eq!(run.copied(), 0);

    let run = scanning(0, u64::MAX)
        .step(file(&["input", "c.wav"]))
        .step(file(&["input", "d.wav"]))
        .step(Event::WalkFinished)
        .step(Event::Copied);
    assert_eq!(run.pending(), Action::ReadHeader { path: path(&["input", "c.wav"]) });
}

#[test]
fn a_copy_is_counted_only_when_one_was_asked_for() {
    let run = scanning(0, u64::MAX)
        .step(file(&["input", "c.wav"]))
        .step(Event::Copied)
        .step(header(8000, 8000))
        .step(Event::Copied);
    assert_eq!(run.copied(), 0);
    let run = run.step(Event::DirectoriesReady).step(Event::Copied).step(Event::Copied);
    assert_eq!(run.copied(), 1);
}

#[test]
fn a_finished_run_stays_finished() {
    let run = scanning(0, u64::MAX)
        .step(Event::WalkFinished)
        .step(file(&["input", "c.wav"]))
        .step(Event::EntryUnreadable)
        .step(Event::Copied)
        .step(Event::WalkFinished);
    assert_eq!(run.pending(), Action::Report { copied: 0, output: path(&["output"]) });
}

#[test]
fn a_failed_run_stays_failed() {
    let run = scanning(0, u64::MAX)
        .step(Event::EntryUnreadable)
        .step(file(&["input", "c.wav"]))
        .step(header(8000, 8000))
        .step(Event::DirectoriesReady)
        .step(Event::Copied)
        .step(Event::WalkFinished);
    assert_eq!(run.pending(), Action::Abort { error: FilterError::DirectoryRead });
    assert_eq!(run.copied(), 0);
}

#[test]
fn a_header_with_rate_zero_lasts_for_ever() {
    let run = scanning(0, 1_000_000).step(file(&["input", "c.wav"])).step(header(0, 10));
    assert_eq!(run.pending(), Action::NextEntry);
    let run = scanning(0, u64::MAX).step(file(&["input", "c.wav"])).step(header(0, 10));
    assert_eq!(run.pending(), Action::CreateDirectories { path: path(&["output"]) });
    let run = scanning(0, 0).step(file(&["input", "c.wav"])).step(header(0, 0));
    assert_eq!(run.pending(), Action::CreateDirectories { path: path(&["output"]) });
}

#[test]
fn the_second_run_into_the_same_output_asks_for_the_same() {
    let dialogue = || {
        vec![
            (
                Event::InputProbed { present: true, is_directory: true },
                Action::CreateDirectories { path: path(&["output"]) },
            ),
            (Event::DirectoriesReady, Action::NextEntry),
            (
                file(&["input", "a", "c.wav"]),
                Action::ReadHeader { path: path(&["input", "a", "c.wav"]) },
            ),
            (header(8000, 8000), Action::CreateDirectories { path: path(&["output", "a"]) }),
            (
                Event::DirectoriesReady,
                Action::CopyFile {
                    source: path(&["input", "a", "c.wav"]),
                    destination: path(&["output", "a", "c.wav"]),
                },
            ),
            (Event::Copied, Action::NextEntry),
            (Event::WalkFinished, Action::Report { copied: 1, output: path(&["output"]) }),
        ]
    };
    let new = || Pipeline::new(path(&["input"]), path(&["output"]), LengthRange::unbounded());
    assert_eq!(feed(new(), dialogue()), feed(new(), dialogue()));
}
