//! Statistics collection

use crate::time::{date_text, fmt_date, Hms, Time};
use vstd::prelude::*;

verus! {

/// How many finished phases the log keeps.
pub const MAX_ENTRIES: usize = 10;

/// One finished phase.
#[derive(Debug, Clone, Copy, PartialEq, Eq, Structural)]
pub struct StatisticEntry {
    /// Date&time in UNIX Timestamp format
    pub date: u64,
    /// Work or freetime?
    pub is_wtime: bool,
    /// The time that has passed during this phase
    pub time: u16,
}

/// The finished phases, oldest first.
#[derive(Debug)]
pub struct Stats {
    pub stats: Vec<StatisticEntry>,
}

impl View for Stats {
    type V = Seq<StatisticEntry>;

    open spec fn view(&self) -> Seq<StatisticEntry> {
        self.stats@
    }
}

/// The last `n` entries of `log` in their order, or all of it where it
/// holds no more than `n`.
pub open spec fn newest(log: Seq<StatisticEntry>, n: nat) -> Seq<StatisticEntry> {
    if log.len() <= n {
        log
    } else {
        log.subrange(log.len() - n, log.len() as int)
    }
}

/// The log after one more finished phase: the entry goes to the end, and
/// the oldest entries leave until no more than [`MAX_ENTRIES`] are left.
pub open spec fn appended(log: Seq<StatisticEntry>, entry: StatisticEntry) -> Seq<StatisticEntry> {
    newest(log.push(entry), MAX_ENTRIES as nat)
}

/// The log after each entry of `entries` was appended in turn.
pub open spec fn appended_all(log: Seq<StatisticEntry>, entries: Seq<StatisticEntry>) -> Seq<
    StatisticEntry,
>
    decreases entries.len(),
{
    if entries.len() == 0 {
        log
    } else {
        appended(appended_all(log, entries.drop_last()), entries.last())
    }
}

/// The first line of the table.
pub open spec fn csv_header() -> Seq<char> {
    "duration;date;type"@
}

/// The word for the kind of a phase.
pub open spec fn phase_word(is_wtime: bool) -> Seq<char> {
    if is_wtime {
        "work"@
    } else {
        "break"@
    }
}

/// One line of the table: how long the phase took, the text of its date
/// and its kind.
pub open spec fn csv_row(entry: StatisticEntry, date: Seq<char>) -> Seq<char> {
    Hms::of_secs(entry.time as nat).text() + seq![';'] + date + seq![';'] + phase_word(
        entry.is_wtime,
    )
}

/// The table of `entries`, the date of each given by the text at the same
/// place in `dates`: the header, then a line feed and a row for each
/// entry, in the order of the log.
pub open spec fn csv_text(entries: Seq<StatisticEntry>, dates: Seq<Seq<char>>) -> Seq<char>
    decreases entries.len(),
{
    if entries.len() == 0 {
        csv_header()
    } else {
        csv_text(entries.drop_last(), dates.drop_last()) + seq!['\n'] + csv_row(
            entries.last(),
            dates.last(),
        )
    }
}

/// The text that [`fmt_date`] gives for each entry's date.
pub open spec fn dates_of(entries: Seq<StatisticEntry>) -> Seq<Seq<char>> {
    Seq::new(entries.len(), |i: int| date_text(entries[i].date))
}

/// The entries that a view of the log shows: the newest first, and no
/// more than [`MAX_ENTRIES`].
pub open spec fn newest_first(log: Seq<StatisticEntry>) -> Seq<StatisticEntry> {
    newest(log, MAX_ENTRIES as nat).reverse()
}

impl Stats {
    /// Records a finished phase: `entry` goes to the end, and the oldest
    /// entries leave until no more than [`MAX_ENTRIES`] are left. On a
    /// full log the oldest entry alone leaves; the others keep their
    /// order.
    pub fn push(&mut self, entry: StatisticEntry)
        ensures
            final(self)@ == appended(old(self)@, entry),
            final(self)@.len() <= MAX_ENTRIES,
            final(self)@.last() == entry,
    {
        self.stats.push(entry);
        self.remove_unneeded();
    }

    pub fn len(&self) -> (n: usize)
        ensures
            n == self@.len(),
    {
        self.stats.len()
    }

    /// Takes the entry at `idx` out and hands it back; the others keep
    /// their order.
    pub fn remove(&mut self, idx: usize) -> (entry: StatisticEntry)
        requires
            idx < old(self)@.len(),
        ensures
            entry == old(self)@[idx as int],
            final(self)@ == old(self)@.remove(idx as int),
    {
        self.stats.remove(idx)
    }

    pub fn is_empty(&self) -> (empty: bool)
        ensures
            empty == (self@.len() == 0),
    {
        self.stats.is_empty()
    }

    /// Evicts the oldest entries until no more than [`MAX_ENTRIES`] are
    /// left. A log that was filled by [`Stats::push`] alone never holds
    /// more; one that was read from a file may.
    pub fn remove_unneeded(&mut self)
        ensures
            final(self)@ == newest(old(self)@, MAX_ENTRIES as nat),
            final(self)@.len() <= MAX_ENTRIES,
    {
        let mut len = self.len();
        while len > MAX_ENTRIES
            invariant
                len == self@.len(),
                self@.len() <= old(self)@.len(),
                self@.len() == old(self)@.len() || self@.len() >= MAX_ENTRIES,
                self@ == old(self)@.subrange(old(self)@.len() - self@.len(), old(self)@.len() as int),
            decreases len,
        {
            self.remove(0);
            len -= 1;
            assert(self@ =~= old(self)@.subrange(
                old(self)@.len() - self@.len(),
                old(self)@.len() as int,
            ));
        }
        assert(self@ =~= newest(old(self)@, MAX_ENTRIES as nat));
    }

    /// The same as [`Stats::push`].
    pub fn append(&mut self, entry: StatisticEntry)
        ensures
            final(self)@ == appended(old(self)@, entry),
            final(self)@.len() <= MAX_ENTRIES,
            final(self)@.last() == entry,
    {
        self.push(entry);
    }

    /// Forgets every entry.
    pub fn clear(&mut self)
        ensures
            final(self)@ == Seq::<StatisticEntry>::empty(),
    {
        self.stats.clear();
    }

    /// The entries to show, the newest first, no more than
    /// [`MAX_ENTRIES`] of them.
    pub fn recent(&self) -> (shown: Vec<StatisticEntry>)
        ensures
            shown@ == newest_first(self@),
    {
        let mut shown: Vec<StatisticEntry> = Vec::new();
        let mut len = self.len();
        let mut count: usize = MAX_ENTRIES;
        while len > 0 && count > 0
            invariant
                len <= self@.len(),
                count <= MAX_ENTRIES,
                shown@.len() == MAX_ENTRIES - count,
                shown@.len() == self@.len() - len,
                forall|i: int| 0 <= i < shown@.len() ==> shown@[i] == self@[self@.len() - 1 - i],
            decreases len,
        {
            shown.push(self.stats[len - 1]);
            len -= 1;
            count -= 1;
        }
        assert(shown@ =~= newest_first(self@));
        shown
    }

    /// The log as a table with `;` between the fields and a line for each
    /// entry, the date of each written by [`fmt_date`].
    pub fn gen_csv(&self) -> (csv: String)
        ensures
            csv@ == csv_text(self@, dates_of(self@)),
    {
        let mut dates: Vec<String> = Vec::new();
        let mut i: usize = 0;
        while i < self.stats.len()
            invariant
                i <= self@.len(),
                dates@.len() == i,
                forall|k: int| 0 <= k < i ==> (#[trigger] dates@[k])@ == date_text(self@[k].date),
            decreases self@.len() - i,
        {
            dates.push(fmt_date(self.stats[i].date));
            i += 1;
        }
        assert(dates.deep_view() =~= dates_of(self@)) by {
            assert forall|k: int| 0 <= k < dates@.len() implies #[trigger] dates.deep_view()[k]
                == dates_of(self@)[k] by {
                assert(dates.deep_view()[k] == dates@[k]@);
            }
        }
        self.gen_csv_with(&dates)
    }

    /// The log as a table with `;` between the fields and a line for each
    /// entry, the date of each entry written as the text at its place in
    /// `dates`.
    pub fn gen_csv_with(&self, dates: &Vec<String>) -> (csv: String)
        requires
            dates@.len() == self@.len(),
        ensures
            csv@ == csv_text(self@, dates.deep_view()),
    {
        let mut csv = String::from_str("duration;date;type");
        let mut i: usize = 0;
        while i < self.stats.len()
            invariant
                i <= self@.len(),
                dates@.len() == self@.len(),
                csv@ == csv_text(self@.take(i as int), dates.deep_view().take(i as int)),
            decreases self@.len() - i,
        {
            let entry = self.stats[i];
            let ghost head = csv@;
            csv.append("\n");
            let duration = Time::from_secs(entry.time).to_string();
            csv.append(duration.as_str());
            csv.append(";");
            csv.append(dates[i].as_str());
            csv.append(";");
            if entry.is_wtime {
                csv.append("work");
            } else {
                csv.append("break");
            }
            proof {
                let n = i + 1;
                assert(self@.take(n).drop_last() =~= self@.take(i as int));
                assert(dates.deep_view().take(n).drop_last() =~= dates.deep_view().take(i as int));
                assert(self@.take(n).last() == entry);
                assert(dates.deep_view().take(n).last() == dates@[i as int]@);
                reveal_strlit(";");
                reveal_strlit("\n");
                assert(";"@ =~= seq![';']);
                assert("\n"@ =~= seq!['\n']);
                assert(duration@ == Hms::of_secs(entry.time as nat).text());
                assert(csv@ =~= head + seq!['\n'] + csv_row(entry, dates@[i as int]@));
            }
            i += 1;
        }
        assert(self@.take(i as int) =~= self@);
        assert(dates.deep_view().take(i as int) =~= dates.deep_view());
        csv
    }
}

/// While there is room, the new entry joins the others and none leaves.
pub proof fn lemma_appended_with_room(log: Seq<StatisticEntry>, entry: StatisticEntry)
    requires
        log.len() < MAX_ENTRIES,
    ensures
        appended(log, entry) == log.push(entry),
{
}

/// On a full log the oldest entry alone leaves: the others move up by one
/// place in their order, and the new entry is the last.
pub proof fn lemma_appended_on_full(log: Seq<StatisticEntry>, entry: StatisticEntry)
    requires
        log.len() == MAX_ENTRIES,
    ensures
        appended(log, entry) == log.subrange(1, MAX_ENTRIES as int).push(entry),
        appended(log, entry).len() == MAX_ENTRIES,
{
    assert(appended(log, entry) =~= log.subrange(1, MAX_ENTRIES as int).push(entry));
}

/// Evicting before an append changes nothing: the newest entries of a log
/// after an append are those of its newest entries after the same append.
pub proof fn lemma_newest_push(log: Seq<StatisticEntry>, entry: StatisticEntry, n: nat)
    requires
        n >= 1,
    ensures
        newest(newest(log, n).push(entry), n) == newest(log.push(entry), n),
{
    assert(newest(newest(log, n).push(entry), n) =~= newest(log.push(entry), n));
}

/// After one append or more, whatever the log held before, it holds the
/// newest [`MAX_ENTRIES`] of everything it was given, in the order in
/// which that came, and never more than [`MAX_ENTRIES`].
pub proof fn lemma_appended_all(log: Seq<StatisticEntry>, entries: Seq<StatisticEntry>)
    requires
        entries.len() >= 1,
    ensures
        appended_all(log, entries) == newest(log + entries, MAX_ENTRIES as nat),
        appended_all(log, entries).len() <= MAX_ENTRIES,
    decreases entries.len(),
{
    let rest = entries.drop_last();
    let last = entries.last();
    assert((log + rest).push(last) =~= log + entries);
    if entries.len() == 1 {
        assert(log + rest =~= log);
    } else {
        lemma_appended_all(log, rest);
        lemma_newest_push(log + rest, last, MAX_ENTRIES as nat);
    }
}

impl Clone for Stats {
    fn clone(&self) -> (copy: Self)
        ensures
            copy@ == self@,
    {
        let mut stats: Vec<StatisticEntry> = Vec::new();
        let mut i: usize = 0;
        while i < self.stats.len()
            invariant
                i <= self@.len(),
                stats@ == self@.take(i as int),
            decreases self@.len() - i,
        {
            stats.push(self.stats[i]);
            i += 1;
            assert(stats@ =~= self@.take(i as int));
        }
        assert(self@.take(i as int) =~= self@);
        Self { stats }
    }
}

impl Default for Stats {
    fn default() -> (stats: Self)
        ensures
            stats@ == Seq::<StatisticEntry>::empty(),
    {
        Self { stats: Vec::new() }
    }
}

} // verus!
