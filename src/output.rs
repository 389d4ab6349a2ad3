use vstd::prelude::*;
use crate::command::texts;
use crate::error::{Failure, SnowError};
use crate::progress::{
    Progress, ProgressView, amounts_of, first_digit_run, mib_amounts, missing_sizes_message,
    ticked, with_derivations, with_fetched, with_task,
};
use crate::text::{
    chars_of, contains, contains_chars, matches_at, replace, replace_chars, starts_with,
    str_contains, str_starts_with, string_of, trim, trim_chars, trim_start, trim_start_chars,
};

verus! {

/// What one line of a tool's output reports.
#[derive(PartialEq, Eq, Structural, Clone, Copy)]
pub enum LineKind {
    /// An error message.
    Error,
    /// A number of derivations that will be built.
    Derivations,
    /// Sizes of paths that will be fetched.
    Fetched,
    /// A unit of work has started.
    TaskStarted,
    /// A further store path to produce.
    NewTask,
    /// Nothing the progress display uses.
    Other,
}

/// What a line reports; the first rule that applies decides.
pub open spec fn line_kind(l: Seq<char>) -> LineKind {
    if contains(l, "error:"@) {
        LineKind::Error
    } else if contains(l, " will be built:"@) {
        LineKind::Derivations
    } else if contains(l, " will be fetched ("@) {
        LineKind::Fetched
    } else if starts_with(l, "building"@) || starts_with(l, "copying"@) {
        LineKind::TaskStarted
    } else if starts_with(trim_start(l), "/nix/store"@) {
        LineKind::NewTask
    } else {
        LineKind::Other
    }
}

/// Decides what a line of output reports.
pub fn classify(line: &str) -> (k: LineKind)
    ensures
        k == line_kind(line@),
{
    let l = chars_of(line);
    if contains_chars(&l, &chars_of("error:")) {
        LineKind::Error
    } else if contains_chars(&l, &chars_of(" will be built:")) {
        LineKind::Derivations
    } else if contains_chars(&l, &chars_of(" will be fetched (")) {
        LineKind::Fetched
    } else if matches_at(&l, &chars_of("building"), 0) || matches_at(&l, &chars_of("copying"), 0) {
        LineKind::TaskStarted
    } else if matches_at(&trim_start_chars(&l), &chars_of("/nix/store"), 0) {
        LineKind::NewTask
    } else {
        LineKind::Other
    }
}

/// The lines of `ls` that hold an error message, in order.
pub open spec fn error_lines(ls: Seq<Seq<char>>) -> Seq<Seq<char>>
    decreases ls.len(),
{
    if ls.len() == 0 {
        Seq::empty()
    } else {
        error_lines(ls.drop_last()) + if contains(ls.last(), "error:"@) {
            seq![ls.last()]
        } else {
            Seq::empty()
        }
    }
}

/// The message of an error line: without the error marker and the noisy
/// "Definition values:", trimmed.
pub open spec fn clean_error(l: Seq<char>) -> Seq<char> {
    trim(replace(replace(l, "error:"@, Seq::empty()), "Definition values:"@, Seq::empty()))
}

/// The message of an error line, cleaned as `clean_error` says.
pub fn clean_error_message(line: &str) -> (r: String)
    ensures
        r@ == clean_error(line@),
{
    let empty: Vec<char> = Vec::new();
    let marker = chars_of("error:");
    let noise = chars_of("Definition values:");
    proof {
        reveal_strlit("error:");
        reveal_strlit("Definition values:");
    }
    assert(empty@ =~= Seq::<char>::empty());
    let step = replace_chars(&chars_of(line), &marker, &empty);
    let step = replace_chars(&step, &noise, &empty);
    string_of(&trim_chars(&step))
}

/// How many error lines a stream may hold before it counts as failed.
pub const ERROR_THRESHOLD: u64 = 2;

/// What an error tracker holds.
pub struct TrackerView {
    pub count: nat,
    pub last: Seq<char>,
}

/// Counts the error lines of a stream and keeps the latest.
pub struct ErrorTracker {
    count: u64,
    last: String,
}

impl View for ErrorTracker {
    type V = TrackerView;

    closed spec fn view(&self) -> TrackerView {
        TrackerView { count: self.count as nat, last: self.last@ }
    }
}

/// The tracker after the error line `l`.
pub open spec fn recorded(t: TrackerView, l: Seq<char>) -> TrackerView {
    TrackerView {
        count: if t.count < u64::MAX {
            t.count + 1
        } else {
            t.count
        },
        last: l,
    }
}

/// The failure that a tracker stands for: the latest error line, once exactly the
/// threshold has been reached.
pub open spec fn tracked_failure(t: TrackerView) -> Option<Seq<char>> {
    if t.count == ERROR_THRESHOLD {
        Some(clean_error(t.last))
    } else {
        None
    }
}

impl ErrorTracker {
    /// A tracker that has seen no error line.
    pub fn new() -> (r: ErrorTracker)
        ensures
            r@ == (TrackerView { count: 0, last: Seq::empty() }),
    {
        ErrorTracker { count: 0, last: String::new() }
    }

    /// Records the error line `line`.
    pub fn record(&mut self, line: &str)
        ensures
            final(self)@ == recorded(old(self)@, line@),
    {
        if self.count < u64::MAX {
            self.count = self.count + 1;
        }
        self.last = String::from_str(line);
    }

    /// The failure to raise, once the threshold is reached.
    pub fn failure(&self) -> (r: Option<SnowError>)
        ensures
            r matches Some(e) ==> tracked_failure(self@) == Some(e@->Nix_0) && e@ is Nix,
            r is None ==> tracked_failure(self@) is None,
    {
        if self.count == ERROR_THRESHOLD {
            Some(SnowError::Nix(clean_error_message(self.last.as_str())))
        } else {
            None
        }
    }
}

/// The model after a line of a build's output, where the line is no error line and
/// does not fail.
pub open spec fn progress_after(p: ProgressView, l: Seq<char>) -> ProgressView {
    match line_kind(l) {
        LineKind::Derivations => with_derivations(p, first_digit_run(l)),
        LineKind::Fetched => with_fetched(p, amounts_of(mib_amounts(l))),
        LineKind::TaskStarted => ticked(p),
        LineKind::NewTask => with_task(p),
        _ => p,
    }
}

/// Feeds one line of a build's output to the progress model and the error tracker.
/// Fails where the line brings the error lines to the threshold, with the cleaned
/// latest error line, or where a report of sizes holds fewer than two amounts.
pub fn handle_build_line(progress: &mut Progress, tracker: &mut ErrorTracker, line: &str) -> (r:
    Result<(), SnowError>)
    requires
        old(progress).wf(),
    ensures
        final(progress).wf(),
        line_kind(line@) == LineKind::Error ==> final(tracker)@ == recorded(old(tracker)@, line@)
            && final(progress)@ == old(progress)@,
        line_kind(line@) != LineKind::Error ==> final(tracker)@ == old(tracker)@,
        line_kind(line@) == LineKind::Fetched && amounts_of(mib_amounts(line@)).len() < 2 ==> (
        r matches Err(e) && e@ == Failure::Nix(missing_sizes_message())) && final(progress)@ == old(
            progress,
        )@,
        !(line_kind(line@) == LineKind::Fetched && amounts_of(mib_amounts(line@)).len() < 2) ==> {
            &&& final(progress)@ == progress_after(old(progress)@, line@)
            &&& tracked_failure(final(tracker)@) is None ==> r is Ok
            &&& tracked_failure(final(tracker)@) matches Some(m) ==> (r matches Err(e) && e@
                == Failure::Nix(m))
        },
{
    match classify(line) {
        LineKind::Error => tracker.record(line),
        LineKind::Derivations => progress.add_derivations(line),
        LineKind::Fetched => {
            let fetched = progress.add_fetched(line);
            if fetched.is_err() {
                return fetched;
            }
        },
        LineKind::TaskStarted => progress.progress(),
        LineKind::NewTask => progress.add_task(),
        LineKind::Other => {},
    }
    match tracker.failure() {
        Some(e) => Err(e),
        None => Ok(()),
    }
}

/// Feeds one line of an image import's output to the progress model: a line that
/// begins with "progress" starts a unit of work; an import's output is not searched
/// for errors.
pub fn handle_import_line(progress: &mut Progress, line: &str)
    requires
        old(progress).wf(),
    ensures
        final(progress).wf(),
        starts_with(line@, "progress"@) ==> final(progress)@ == ticked(old(progress)@),
        !starts_with(line@, "progress"@) ==> final(progress)@ == old(progress)@,
{
    if str_starts_with(line, "progress") {
        progress.progress();
    }
}

/// The failure message of an interactive run's error stream: the cleaned second error
/// line, where there are two or more.
pub open spec fn interactive_outcome(ls: Seq<Seq<char>>) -> Option<Seq<char>> {
    if error_lines(ls).len() >= ERROR_THRESHOLD {
        Some(clean_error(error_lines(ls)[ERROR_THRESHOLD - 1]))
    } else {
        None
    }
}

/// The failure message of a captured run's error stream: the cleaned last error line,
/// where there is one.
pub open spec fn capture_outcome(ls: Seq<Seq<char>>) -> Option<Seq<char>> {
    if error_lines(ls).len() > 0 {
        Some(clean_error(error_lines(ls).last()))
    } else {
        None
    }
}

/// The error lines of a prefix are a prefix of the error lines.
pub proof fn lemma_error_lines_prefix(ls: Seq<Seq<char>>, i: int)
    requires
        0 <= i <= ls.len(),
    ensures
        error_lines(ls.take(i)).len() <= error_lines(ls).len(),
        error_lines(ls).take(error_lines(ls.take(i)).len() as int) == error_lines(ls.take(i)),
    decreases ls.len(),
{
    if i < ls.len() {
        assert(ls.drop_last().take(i) =~= ls.take(i));
        lemma_error_lines_prefix(ls.drop_last(), i);
        let n = error_lines(ls.take(i)).len() as int;
        assert(error_lines(ls).take(n) =~= error_lines(ls.drop_last()).take(n));
    } else {
        assert(ls.take(i) =~= ls);
        assert(error_lines(ls).take(error_lines(ls).len() as int) =~= error_lines(ls));
    }
}

/// Scans the captured error stream of an interactive run: fails once the second
/// error line is seen, with that line cleaned; one error line alone is tolerated.
pub fn check_interactive_output(lines: &Vec<String>) -> (r: Result<(), SnowError>)
    ensures
        interactive_outcome(texts(lines@)) is None ==> r is Ok,
        interactive_outcome(texts(lines@)) matches Some(m) ==> (r matches Err(e) && e@
            == Failure::Nix(m)),
{
    let ghost ls = texts(lines@);
    let mut tracker = ErrorTracker::new();
    let mut i: usize = 0;
    assert(ls.take(0) =~= Seq::<Seq<char>>::empty());
    while i < lines.len()
        invariant
            i <= lines.len(),
            ls == texts(lines@),
            tracker@.count == error_lines(ls.take(i as int)).len(),
            tracker@.count < ERROR_THRESHOLD,
            tracker@.count > 0 ==> tracker@.last == error_lines(ls.take(i as int)).last(),
        decreases lines.len() - i,
    {
        let line = lines[i].as_str();
        assert(ls.take(i + 1).drop_last() =~= ls.take(i as int));
        if str_contains(line, "error:") {
            tracker.record(line);
            if let Some(e) = tracker.failure() {
                proof {
                    lemma_error_lines_prefix(ls, i + 1);
                    let pre = error_lines(ls.take(i + 1));
                    assert(pre.len() == 2);
                    assert(error_lines(ls)[1] == error_lines(ls).take(2)[1]);
                }
                return Err(e);
            }
        }
        i = i + 1;
    }
    assert(ls.take(lines.len() as int) =~= ls);
    Ok(())
}

/// Scans the captured error stream of a run whose output is the result: any error
/// line fails it, with the last one cleaned; otherwise the standard output is returned.
pub fn capture_result(lines: &Vec<String>, stdout: String) -> (r: Result<String, SnowError>)
    ensures
        capture_outcome(texts(lines@)) is None ==> (r matches Ok(s) && s@ == stdout@),
        capture_outcome(texts(lines@)) matches Some(m) ==> (r matches Err(e) && e@ == Failure::Nix(
            m,
        )),
{
    let ghost ls = texts(lines@);
    let mut last: Option<usize> = None;
    let mut i: usize = 0;
    assert(ls.take(0) =~= Seq::<Seq<char>>::empty());
    while i < lines.len()
        invariant
            i <= lines.len(),
            ls == texts(lines@),
            last is None ==> error_lines(ls.take(i as int)).len() == 0,
            last matches Some(j) ==> j < i && error_lines(ls.take(i as int)).len() > 0
                && error_lines(ls.take(i as int)).last() == ls[j as int],
        decreases lines.len() - i,
    {
        assert(ls.take(i + 1).drop_last() =~= ls.take(i as int));
        if str_contains(lines[i].as_str(), "error:") {
            last = Some(i);
        }
        i = i + 1;
    }
    assert(ls.take(lines.len() as int) =~= ls);
    match last {
        Some(j) => Err(SnowError::Nix(clean_error_message(lines[j].as_str()))),
        None => Ok(stdout),
    }
}

/// The marker of the line that reports the hash a content check found.
pub open spec fn hash_marker() -> Seq<char> {
    "   got:   "@
}

/// The hash that a stream reports: the first line holding the marker, without its
/// "got:" label, trimmed.
pub open spec fn reported_hash(ls: Seq<Seq<char>>) -> Option<Seq<char>>
    decreases ls.len(),
{
    if ls.len() == 0 {
        None
    } else if contains(ls[0], hash_marker()) {
        Some(trim(replace(ls[0], "got:"@, Seq::empty())))
    } else {
        reported_hash(ls.drop_first())
    }
}

/// The message given where no hash is reported.
pub open spec fn no_hash_message() -> Seq<char> {
    "no missing hash found"@
}

/// Recovers the hash that a content check reported on its error stream.
pub fn find_hash(lines: &Vec<String>) -> (r: Result<String, SnowError>)
    ensures
        reported_hash(texts(lines@)) matches Some(h) ==> (r matches Ok(s) && s@ == h),
        reported_hash(texts(lines@)) is None ==> (r matches Err(e) && e@ == Failure::Nix(
            no_hash_message(),
        )),
{
    let ghost ls = texts(lines@);
    let got = chars_of("got:");
    proof {
        reveal_strlit("got:");
    }
    let empty: Vec<char> = Vec::new();
    assert(empty@ =~= Seq::<char>::empty());
    let mut i: usize = 0;
    assert(ls.skip(0) =~= ls);
    while i < lines.len()
        invariant
            i <= lines.len(),
            ls == texts(lines@),
            got@ == "got:"@,
            got@.len() > 0,
            empty@ == Seq::<char>::empty(),
            reported_hash(ls) == reported_hash(ls.skip(i as int)),
        decreases lines.len() - i,
    {
        assert(ls.skip(i as int)[0] == lines@[i as int]@);
        assert(ls.skip(i as int).drop_first() =~= ls.skip(i + 1));
        if str_contains(lines[i].as_str(), "   got:   ") {
            let cut = replace_chars(&chars_of(lines[i].as_str()), &got, &empty);
            return Ok(string_of(&trim_chars(&cut)));
        }
        i = i + 1;
    }
    Err(SnowError::Nix(String::from_str("no missing hash found")))
}

/// A stream with one error line does not fail an interactive run; one with two or
/// more fails both an interactive and a captured run, with the cleaned second error
/// line and the cleaned last one; with exactly two, both report the last.
pub proof fn lemma_error_threshold(ls: Seq<Seq<char>>)
    ensures
        error_lines(ls).len() == 1 ==> interactive_outcome(ls) is None,
        error_lines(ls).len() >= 2 ==> interactive_outcome(ls) == Some(
            clean_error(error_lines(ls)[1]),
        ) && capture_outcome(ls) == Some(clean_error(error_lines(ls).last())),
        error_lines(ls).len() == 2 ==> interactive_outcome(ls) == Some(
            clean_error(error_lines(ls).last()),
        ) && capture_outcome(ls) == interactive_outcome(ls),
{
}

} // verus!
