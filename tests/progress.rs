use snow::error::SnowError;
use snow::output::{
    capture_result, check_interactive_output, classify, clean_error_message, find_hash,
    handle_build_line, handle_import_line, ErrorTracker, LineKind,
};
use snow::progress::{Glyph, Progress};

fn nix_message(e: SnowError) -> String {
    match e {
        SnowError::Nix(m) => m,
        _ => panic!("expected a tool failure"),
    }
}

fn strings(v: &[&str]) -> Vec<String> {
    v.iter().map(|s| s.to_string()).collect()
}

#[test]
fn derivations_accumulate() {
    let mut p = Progress::new("build", 0);
    p.add_derivations("5 derivations will be built:");
    p.add_derivations("3 derivations will be built:");
    assert_eq!(p.derivations(), 8);
}

#[test]
fn derivations_without_number_add_nothing() {
    let mut p = Progress::new("build", 0);
    p.add_derivations("these derivations will be built:");
    assert_eq!(p.derivations(), 0);
    p.add_derivation_count(Some("99999999999999999999999".to_string()));
    assert_eq!(p.derivations(), 0);
    p.add_derivation_count(Some("12".to_string()));
    assert_eq!(p.derivations(), 12);
}

#[test]
fn fetched_sizes_accumulate() {
    let mut p = Progress::new("build", 0);
    assert!(p.add_fetched("12.5 MiB will be fetched (3.25 MiB)").is_ok());
    assert_eq!(p.mb_download(), 12_500);
    assert_eq!(p.mb_disk_space(), 3_250);
    assert!(p
        .add_fetched("these 2 paths will be fetched (0.5 MiB download, 1 MiB unpacked):")
        .is_ok());
    assert_eq!(p.mb_download(), 13_000);
    assert_eq!(p.mb_disk_space(), 4_250);
}

#[test]
fn fetched_line_with_one_size_fails() {
    let mut p = Progress::new("build", 0);
    let r = p.add_fetched("1 path will be fetched (4.5 MiB)");
    assert_eq!(
        nix_message(r.unwrap_err()),
        "could not read the download and disk sizes"
    );
    assert_eq!(p.mb_download(), 0);
    let r = p.add_fetched_amounts(&strings(&["1.2.3", ".", "7"]));
    assert!(r.is_err());
    assert!(p.add_fetched_amounts(&strings(&["1.2.3", "2.", ".125"])).is_ok());
    assert_eq!(p.mb_download(), 2_000);
    assert_eq!(p.mb_disk_space(), 125);
}

#[test]
fn finishing_an_empty_model() {
    let mut p = Progress::new("build", 0);
    assert_eq!(p.tasks_total(), 0);
    assert_eq!(p.bar_total(), 1);
    p.cleanup(true);
    assert_eq!(p.tasks_total(), 1);
    assert!(p.glyph() == Glyph::Success);
    let mut q = Progress::new("build", 0);
    q.cleanup(false);
    assert_eq!(q.tasks_total(), 1);
    assert!(q.glyph() == Glyph::Failure);
}

#[test]
fn display_catches_up_one_step_per_refresh() {
    let mut p = Progress::new("build", 5);
    for _ in 0..4 {
        p.progress();
    }
    assert_eq!(p.tasks_done(), 3);
    let mut seen = Vec::new();
    for _ in 0..6 {
        let step = p.refresh();
        assert!(step <= 1);
        seen.push(p.counter());
    }
    assert_eq!(seen, vec![1, 2, 3, 3, 3, 3]);
}

#[test]
fn display_does_not_move_before_work_starts() {
    let mut p = Progress::new("build", 3);
    assert_eq!(p.refresh(), 0);
    p.progress();
    assert_eq!(p.tasks_done(), 0);
    assert_eq!(p.refresh(), 0);
    assert_eq!(p.counter(), 0);
}

#[test]
fn new_tasks_raise_the_total() {
    let mut p = Progress::new("build", 0);
    p.add_task();
    p.add_task();
    assert_eq!(p.tasks_total(), 2);
    assert_eq!(p.bar_total(), 2);
    assert_eq!(p.label(), "build");
}

#[test]
fn lines_are_classified_by_precedence() {
    assert!(classify("error: builder failed") == LineKind::Error);
    assert!(classify("error: 3 derivations will be built:") == LineKind::Error);
    assert!(classify("these 3 derivations will be built:") == LineKind::Derivations);
    assert!(classify("these 2 paths will be fetched (1 MiB download, 2 MiB unpacked):") == LineKind::Fetched);
    assert!(classify("building '/nix/store/x.drv'...") == LineKind::TaskStarted);
    assert!(classify("copying path '/nix/store/y'") == LineKind::TaskStarted);
    assert!(classify("   /nix/store/abc-foo.drv") == LineKind::NewTask);
    assert!(classify("evaluating") == LineKind::Other);
    assert!(classify(" building") == LineKind::Other);
}

#[test]
fn error_messages_are_cleaned() {
    assert_eq!(
        clean_error_message("error: Definition values: option is broken  "),
        "option is broken"
    );
    assert_eq!(clean_error_message("  nothing to strip\t"), "nothing to strip");
}

#[test]
fn interactive_tolerates_one_error_line() {
    assert!(check_interactive_output(&strings(&["warning", "error: first"])).is_ok());
    let r = check_interactive_output(&strings(&["error: first", "ok", "error: second", "error: third"]));
    assert_eq!(nix_message(r.unwrap_err()), "second");
    assert!(check_interactive_output(&Vec::new()).is_ok());
}

#[test]
fn capture_fails_on_the_last_error_line() {
    let r = capture_result(&strings(&["error: first", "error: second"]), "out".to_string());
    assert_eq!(nix_message(r.unwrap_err()), "second");
    let r = capture_result(&strings(&["error: only"]), "out".to_string());
    assert_eq!(nix_message(r.unwrap_err()), "only");
    let r = capture_result(&strings(&["fine"]), "out".to_string());
    assert_eq!(r.ok().unwrap(), "out");
}

#[test]
fn hash_is_recovered() {
    let r = find_hash(&strings(&[
        "error: hash mismatch",
        "         specified: sha256-AAAA",
        "            got:    sha256-BBBB",
    ]));
    assert_eq!(r.ok().unwrap(), "sha256-BBBB");
    let r = find_hash(&strings(&["nothing"]));
    assert_eq!(nix_message(r.unwrap_err()), "no missing hash found");
}

#[test]
fn build_stream_end_to_end() {
    let mut p = Progress::new("host", 0);
    let mut t = ErrorTracker::new();
    for line in ["0 derivations will be built:", "building foo", "building bar"] {
        assert!(handle_build_line(&mut p, &mut t, line).is_ok());
    }
    p.refresh();
    p.cleanup(true);
    assert_eq!(p.tasks_done(), 1);
    assert_eq!(p.derivations(), 0);
    assert_eq!(p.tasks_total(), 1);
    assert!(p.glyph() == Glyph::Success);
}

#[test]
fn build_stream_fails_on_second_error() {
    let mut p = Progress::new("host", 0);
    let mut t = ErrorTracker::new();
    assert!(handle_build_line(&mut p, &mut t, "error: noisy").is_ok());
    assert!(handle_build_line(&mut p, &mut t, "  /nix/store/abc.drv").is_ok());
    assert_eq!(p.tasks_total(), 1);
    let r = handle_build_line(&mut p, &mut t, "error: Definition values: real failure");
    assert_eq!(nix_message(r.unwrap_err()), "real failure");
}

#[test]
fn import_stream_counts_progress_lines() {
    let mut p = Progress::new("import vm", 99);
    handle_import_line(&mut p, "progress 1% (read 1 bytes)");
    handle_import_line(&mut p, "error: ignored");
    handle_import_line(&mut p, "progress 2%");
    assert_eq!(p.tasks_done(), 1);
    assert_eq!(p.bar_total(), 100);
}

#[test]
fn failure_messages() {
    assert_eq!(
        SnowError::Nix("x".to_string()).message(),
        "Nix command failed with error: x"
    );
    assert_eq!(SnowError::Env("x".to_string()).message(), "Environment error: x");
    assert_eq!(
        SnowError::SnowConfig("x".to_string()).message(),
        "Error parsing snow config: x"
    );
    assert_eq!(
        SnowError::IO("x".to_string()).message(),
        "Error in interaction with shell: x"
    );
}
