use vstd::prelude::*;
use crate::command::texts;
use crate::error::{Failure, SnowError};
use crate::number::{parse_amount, parse_count, parse_count_exec, amount_ok, amount_thousandths, saturate};
use crate::text::chars_of;

verus! {

/// The leading mark of the progress display.
#[derive(PartialEq, Eq, Structural, Clone, Copy)]
pub enum Glyph {
    /// Still running: an animated spinner.
    Spinner,
    /// Finished successfully.
    Success,
    /// Finished with a failure.
    Failure,
}

/// What a progress model holds.
pub struct ProgressView {
    /// Units of work started; starts at -1, meaning none yet.
    pub tasks_done: int,
    pub tasks_total: nat,
    pub derivations: nat,
    /// Megabytes to download, in thousandths.
    pub mb_download: nat,
    /// Megabytes of disk space needed, in thousandths.
    pub mb_disk_space: nat,
    /// The position that the display shows.
    pub counter: nat,
    /// The total that the display shows.
    pub bar_total: nat,
    pub glyph: Glyph,
    pub label: Seq<char>,
}

/// The position that the display catches up to: the tasks started, never below zero.
pub open spec fn target(p: ProgressView) -> nat {
    if p.tasks_done > 0 {
        p.tasks_done as nat
    } else {
        0
    }
}

/// One redraw: the display moves one step towards the tasks started, if it lags.
pub open spec fn refreshed(p: ProgressView) -> ProgressView {
    if p.counter < target(p) {
        ProgressView { counter: p.counter + 1, ..p }
    } else {
        p
    }
}

/// `k` redraws with nothing else in between.
pub open spec fn refreshed_times(p: ProgressView, k: nat) -> ProgressView
    decreases k,
{
    if k == 0 {
        p
    } else {
        refreshed(refreshed_times(p, (k - 1) as nat))
    }
}

/// Redrawing never moves the display past the tasks started, and each redraw moves
/// it one step until it shows them: after `k` redraws it stands `k` steps further
/// on, or at the tasks started if that comes first.
pub proof fn lemma_refresh_catches_up(p: ProgressView, k: nat)
    requires
        p.counter <= target(p),
    ensures
        refreshed_times(p, k).counter <= target(p),
        refreshed_times(p, k).counter == if p.counter + k <= target(p) {
            p.counter + k
        } else {
            target(p)
        },
        refreshed_times(p, k).tasks_done == p.tasks_done,
        k >= target(p) - p.counter ==> refreshed_times(p, k).counter == target(p),
    decreases k,
{
    if k > 0 {
        lemma_refresh_catches_up(p, (k - 1) as nat);
    }
}

/// The model after one more task has started.
pub open spec fn ticked(p: ProgressView) -> ProgressView {
    ProgressView {
        tasks_done: if p.tasks_done < i64::MAX {
            p.tasks_done + 1
        } else {
            p.tasks_done
        },
        ..p
    }
}

/// The model after the run has ended, successfully or not.
pub open spec fn finished(p: ProgressView, success: bool) -> ProgressView {
    ProgressView {
        tasks_total: if p.tasks_total == 0 {
            1
        } else {
            p.tasks_total
        },
        glyph: if success {
            Glyph::Success
        } else {
            Glyph::Failure
        },
        ..p
    }
}

/// The model after a further task has been discovered.
pub open spec fn with_task(p: ProgressView) -> ProgressView {
    let total = saturate_usize(p.tasks_total + 1);
    ProgressView { tasks_total: total, bar_total: total, ..p }
}

/// `v`, or `usize::MAX` where it is larger.
pub open spec fn saturate_usize(v: nat) -> nat {
    if v <= usize::MAX {
        v
    } else {
        usize::MAX as nat
    }
}

/// The number of derivations that a digit token reports; zero where it does not read
/// as a count.
pub open spec fn count_of(token: Option<Seq<char>>) -> nat {
    match token {
        Some(t) => match parse_count(t) {
            Some(v) => v,
            None => 0,
        },
        None => 0,
    }
}

/// The model after a report of derivations to build, read from `token`.
pub open spec fn with_derivations(p: ProgressView, token: Option<Seq<char>>) -> ProgressView {
    ProgressView { derivations: saturate(p.derivations + count_of(token)), ..p }
}

/// The amounts, in thousandths, of the tokens that read as decimal numbers, in order.
pub open spec fn amounts_of(tokens: Seq<Seq<char>>) -> Seq<nat>
    decreases tokens.len(),
{
    if tokens.len() == 0 {
        Seq::empty()
    } else {
        amounts_of(tokens.drop_last()) + if amount_ok(tokens.last()) {
            seq![saturate(amount_thousandths(tokens.last()))]
        } else {
            Seq::empty()
        }
    }
}

/// The model after a report of sizes to fetch: the first amount is the download,
/// the second the disk space. Needs two amounts.
pub open spec fn with_fetched(p: ProgressView, amounts: Seq<nat>) -> ProgressView {
    ProgressView {
        mb_download: saturate(p.mb_download + amounts[0]),
        mb_disk_space: saturate(p.mb_disk_space + amounts[1]),
        ..p
    }
}

/// The message given for a report of sizes that does not hold two amounts.
pub open spec fn missing_sizes_message() -> Seq<char> {
    "could not read the download and disk sizes"@
}

/// The leftmost run of decimal digits in a line, as `\d+` of the `regex` crate
/// finds it (its `\d` is Unicode-aware).
pub uninterp spec fn first_digit_run(s: Seq<char>) -> Option<Seq<char>>;

/// The numbers written before ` MiB` in a line, as the first group of
/// `([\d\.]+) MiB` of the `regex` crate captures them, left to right.
pub uninterp spec fn mib_amounts(s: Seq<char>) -> Seq<Seq<char>>;

/// Relies on `regex::Regex::find` with the pattern `\d+`: the leftmost match,
/// which is never empty.
#[verifier::external_body]
fn find_digit_run(line: &str) -> (r: Option<String>)
    ensures
        r matches Some(m) ==> first_digit_run(line@) == Some(m@) && m@.len() > 0,
        r is None ==> first_digit_run(line@) is None,
{
    let re = regex::Regex::new(r"\d+").unwrap();
    match re.find(line) {
        Some(m) => Some(m.as_str().to_string()),
        None => None,
    }
}

/// Relies on `regex::Regex::captures_iter` with the pattern `([\d\.]+) MiB`: the
/// text of the first group of each successive match.
#[verifier::external_body]
fn find_mib_amounts(line: &str) -> (r: Vec<String>)
    ensures
        texts(r@) == mib_amounts(line@),
{
    let re = regex::Regex::new(r"([\d\.]+) MiB").unwrap();
    let mut found = Vec::new();
    for caps in re.captures_iter(line) {
        if let Some(m) = caps.get(1) {
            found.push(m.as_str().to_string());
        }
    }
    found
}

/// The state of one long-running external operation and of its progress display.
pub struct Progress {
    tasks_done: i64,
    tasks_total: usize,
    derivations: u64,
    mb_download: u64,
    mb_disk_space: u64,
    counter: u64,
    bar_total: usize,
    glyph: Glyph,
    label: String,
}

impl View for Progress {
    type V = ProgressView;

    closed spec fn view(&self) -> ProgressView {
        ProgressView {
            tasks_done: self.tasks_done as int,
            tasks_total: self.tasks_total as nat,
            derivations: self.derivations as nat,
            mb_download: self.mb_download as nat,
            mb_disk_space: self.mb_disk_space as nat,
            counter: self.counter as nat,
            bar_total: self.bar_total as nat,
            glyph: self.glyph,
            label: self.label@,
        }
    }
}

impl Progress {
    /// The model is consistent: the display never runs ahead of the tasks started.
    pub closed spec fn wf(&self) -> bool {
        self.counter as nat <= target(self@)
    }

    /// A fresh model labelled `name`, expecting `initial_total` tasks; the display
    /// has one more step, for the final tick.
    pub fn new(name: &str, initial_total: usize) -> (r: Progress)
        ensures
            r.wf(),
            r@ == (ProgressView {
                tasks_done: -1,
                tasks_total: initial_total as nat,
                derivations: 0,
                mb_download: 0,
                mb_disk_space: 0,
                counter: 0,
                bar_total: saturate_usize((initial_total + 1) as nat),
                glyph: Glyph::Spinner,
                label: name@,
            }),
    {
        Progress {
            tasks_done: -1,
            tasks_total: initial_total,
            derivations: 0,
            mb_download: 0,
            mb_disk_space: 0,
            counter: 0,
            bar_total: initial_total.saturating_add(1),
            glyph: Glyph::Spinner,
            label: String::from_str(name),
        }
    }

    /// Records that a unit of work has started.
    pub fn progress(&mut self)
        requires
            old(self).wf(),
        ensures
            final(self).wf(),
            final(self)@ == ticked(old(self)@),
    {
        if self.tasks_done < i64::MAX {
            self.tasks_done = self.tasks_done + 1;
        }
    }

    /// Redraw: moves the display one step on where it lags behind the tasks
    /// started. Returns the number of steps moved, which the display is to advance by.
    pub fn refresh(&mut self) -> (step: usize)
        requires
            old(self).wf(),
        ensures
            final(self).wf(),
            final(self)@ == refreshed(old(self)@),
            step == final(self)@.counter - old(self)@.counter,
    {
        if self.tasks_done > 0 && self.counter < self.tasks_done as u64 {
            self.counter = self.counter + 1;
            1
        } else {
            0
        }
    }

    /// The run has ended: makes sure a total of zero is never shown and sets the
    /// leading mark after `success`.
    pub fn cleanup(&mut self, success: bool)
        requires
            old(self).wf(),
        ensures
            final(self).wf(),
            final(self)@ == finished(old(self)@, success),
    {
        if self.tasks_total == 0 {
            self.tasks_total = 1;
        }
        self.glyph = if success {
            Glyph::Success
        } else {
            Glyph::Failure
        };
    }

    /// Records a further task to do; the display shows the new total.
    pub fn add_task(&mut self)
        requires
            old(self).wf(),
        ensures
            final(self).wf(),
            final(self)@ == with_task(old(self)@),
    {
        self.tasks_total = self.tasks_total.saturating_add(1);
        self.bar_total = self.tasks_total;
    }

    /// Adds the derivations that `token`, a run of digits found in a report line,
    /// stands for; a token that does not read as a count adds nothing.
    pub fn add_derivation_count(&mut self, token: Option<String>)
        requires
            old(self).wf(),
        ensures
            final(self).wf(),
            final(self)@ == with_derivations(
                old(self)@,
                match token {
                    Some(t) => Some(t@),
                    None => None,
                },
            ),
    {
        let count: u64 = match token {
            Some(t) => match parse_count_exec(&chars_of(t.as_str())) {
                Some(v) => v,
                None => 0,
            },
            None => 0,
        };
        self.derivations = self.derivations.saturating_add(count);
    }

    /// Adds the derivations that a "will be built" line reports: the first number in it.
    pub fn add_derivations(&mut self, line: &str)
        requires
            old(self).wf(),
        ensures
            final(self).wf(),
            final(self)@ == with_derivations(old(self)@, first_digit_run(line@)),
    {
        let token = find_digit_run(line);
        self.add_derivation_count(token);
    }

    /// Adds the sizes found in a "will be fetched" report, given the numbers that stand
    /// before its size units: the first amount that reads as a number is the download,
    /// the second the disk space. Fails, changing nothing, where fewer than two read.
    pub fn add_fetched_amounts(&mut self, tokens: &Vec<String>) -> (r: Result<(), SnowError>)
        requires
            old(self).wf(),
        ensures
            final(self).wf(),
            amounts_of(texts(tokens@)).len() >= 2 ==> r is Ok && final(self)@ == with_fetched(
                old(self)@,
                amounts_of(texts(tokens@)),
            ),
            amounts_of(texts(tokens@)).len() < 2 ==> (r matches Err(e) && e@ == Failure::Nix(
                missing_sizes_message(),
            )),
            amounts_of(texts(tokens@)).len() < 2 ==> final(self)@ == old(self)@,
    {
        let mut amounts: Vec<u64> = Vec::new();
        let mut i: usize = 0;
        while i < tokens.len()
            invariant
                i <= tokens.len(),
                amounts@.map_values(|a: u64| a as nat) == amounts_of(texts(tokens@).take(i as int)),
            decreases tokens.len() - i,
        {
            let ghost before = amounts@;
            let t = chars_of(tokens[i].as_str());
            assert(texts(tokens@).take(i + 1).drop_last() =~= texts(tokens@).take(i as int));
            match parse_amount(&t) {
                Some(a) => {
                    amounts.push(a);
                    assert(amounts@.map_values(|a: u64| a as nat) =~= before.map_values(
                        |a: u64| a as nat,
                    ).push(a as nat));
                },
                None => {},
            }
            assert(amounts@.map_values(|a: u64| a as nat) =~= amounts_of(
                texts(tokens@).take(i + 1),
            ));
            i = i + 1;
        }
        assert(texts(tokens@).take(tokens.len() as int) =~= texts(tokens@));
        if amounts.len() < 2 {
            return Err(SnowError::Nix(String::from_str("could not read the download and disk sizes")));
        }
        assert(amounts@[0] as nat == amounts_of(texts(tokens@))[0]);
        assert(amounts@[1] as nat == amounts_of(texts(tokens@))[1]);
        self.mb_download = self.mb_download.saturating_add(amounts[0]);
        self.mb_disk_space = self.mb_disk_space.saturating_add(amounts[1]);
        Ok(())
    }

    /// Adds the sizes that a "will be fetched" line reports, as `add_fetched_amounts`
    /// does with the numbers written before ` MiB` in it.
    pub fn add_fetched(&mut self, line: &str) -> (r: Result<(), SnowError>)
        requires
            old(self).wf(),
        ensures
            final(self).wf(),
            amounts_of(mib_amounts(line@)).len() >= 2 ==> r is Ok && final(self)@ == with_fetched(
                old(self)@,
                amounts_of(mib_amounts(line@)),
            ),
            amounts_of(mib_amounts(line@)).len() < 2 ==> (r matches Err(e) && e@ == Failure::Nix(
                missing_sizes_message(),
            )),
            amounts_of(mib_amounts(line@)).len() < 2 ==> final(self)@ == old(self)@,
    {
        let tokens = find_mib_amounts(line);
        self.add_fetched_amounts(&tokens)
    }

    /// Units of work started; -1 before the first.
    pub fn tasks_done(&self) -> (r: i64)
        ensures
            r == self@.tasks_done,
    {
        self.tasks_done
    }

    /// Tasks expected in all.
    pub fn tasks_total(&self) -> (r: usize)
        ensures
            r == self@.tasks_total,
    {
        self.tasks_total
    }

    /// Derivations reported to be built.
    pub fn derivations(&self) -> (r: u64)
        ensures
            r == self@.derivations,
    {
        self.derivations
    }

    /// Megabytes to download, in thousandths.
    pub fn mb_download(&self) -> (r: u64)
        ensures
            r == self@.mb_download,
    {
        self.mb_download
    }

    /// Megabytes of disk space needed, in thousandths.
    pub fn mb_disk_space(&self) -> (r: u64)
        ensures
            r == self@.mb_disk_space,
    {
        self.mb_disk_space
    }

    /// The position the display shows.
    pub fn counter(&self) -> (r: u64)
        ensures
            r == self@.counter,
    {
        self.counter
    }

    /// The total the display shows.
    pub fn bar_total(&self) -> (r: usize)
        ensures
            r == self@.bar_total,
    {
        self.bar_total
    }

    /// The leading mark of the display.
    pub fn glyph(&self) -> (r: Glyph)
        ensures
            r == self@.glyph,
    {
        self.glyph
    }

    /// The label of the display.
    pub fn label(&self) -> (r: String)
        ensures
            r@ == self@.label,
    {
        self.label.clone()
    }
}

} // verus!
