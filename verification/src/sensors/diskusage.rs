//! How full the watched file systems are, as the command `df -h` prints it.

use crate::error::{BarError, BarErrorView};
use crate::message::{Message, MessageView};
use crate::sensors::{output_text, said, text_result_is, Output, PollPhase, Poller};
use crate::text::{
    chars_of, join, join_chars, same_chars, split, split_chars, split_words, string_of,
    string_views, trim, trimmed, views, words,
};
use std::time::Duration;
use vstd::prelude::*;

verus! {

/// The column of a line of `df` that holds the share of the space in use.
pub const DF_USAGE_COL: usize = 4;

/// The column of a line of `df` that holds the place where the file system is
/// mounted.
pub const DF_MOUNT_COL: usize = 5;

/// The probe of the file systems.
#[derive(Debug)]
pub struct DiskUsage {
    /// How long the probe sleeps between two readings.
    pub interval: Duration,
    /// The places whose file systems are watched.
    pub mountpoints: Vec<String>,
}

impl DiskUsage {
    /// A probe that reads the usage of `mountpoints` every `interval`.
    pub fn new(interval: Duration, mountpoints: Vec<String>) -> (probe: DiskUsage)
        ensures
            probe.interval == interval,
            probe.mountpoints == mountpoints,
    {
        DiskUsage { interval, mountpoints }
    }

    /// The rhythm of the probe: without a first reading it does not start.
    pub fn poller(&self) -> (poller: Poller)
        ensures
            poller.phase == PollPhase::Registering,
            poller.interval == self.interval,
            poller.fail_fast,
            poller.label@ == "volume sensor ERROR: "@,
    {
        Poller::new(self.interval, true, "volume sensor ERROR: ".to_owned())
    }

    /// The message of one reading, from what `df -h` left behind.
    pub fn reading(&self, output: &Output) -> (r: Result<Message, BarError>)
        ensures
            match usage_said(*output, string_views(self.mountpoints@)) {
                Ok(text) => r is Ok && r->Ok_0@ == MessageView::DiskUsage(text),
                Err(e) => r is Err && r->Err_0@ == e,
            },
    {
        match get_usage(&self.mountpoints, output) {
            Ok(text) => Ok(Message::DiskUsage(text)),
            Err(e) => Err(e),
        }
    }
}

/// What a line of `df` says of `mount`: where the line has more than five
/// columns and the sixth is `mount`, the mount, a space and the fifth column.
pub open spec fn line_entry(line: Seq<char>, mount: Seq<char>) -> Option<Seq<char>> {
    let columns = words(line);
    if columns.len() > DF_MOUNT_COL && columns[DF_MOUNT_COL as int] == mount {
        Some(mount + seq![' '] + columns[DF_USAGE_COL as int])
    } else {
        None
    }
}

/// What the lines of `df` say of `mount`, in the order of the lines.
pub open spec fn mount_entries(lines: Seq<Seq<char>>, mount: Seq<char>) -> Seq<Seq<char>>
    decreases lines.len(),
{
    if lines.len() == 0 {
        Seq::empty()
    } else {
        match line_entry(lines.last(), mount) {
            Some(entry) => mount_entries(lines.drop_last(), mount).push(entry),
            None => mount_entries(lines.drop_last(), mount),
        }
    }
}

/// What the lines of `df` say of each of `mounts`, in the order of the
/// mounts.
pub open spec fn usage_entries(lines: Seq<Seq<char>>, mounts: Seq<Seq<char>>) -> Seq<Seq<char>>
    decreases mounts.len(),
{
    if mounts.len() == 0 {
        Seq::empty()
    } else {
        usage_entries(lines, mounts.drop_last()) + mount_entries(lines, mounts.last())
    }
}

/// The usage that the bar shows for the output of `df`: what its lines say of
/// each mount, two spaces between each two.
pub open spec fn usage_text(output: Seq<char>, mounts: Seq<Seq<char>>) -> Seq<char> {
    trimmed(join(usage_entries(split(output, '\n'), mounts), seq![' ', ' ']))
}

/// The usage that the command printed, or why there is none.
pub open spec fn usage_said(output: Output, mounts: Seq<Seq<char>>) -> Result<
    Seq<char>,
    BarErrorView,
> {
    match said(output, "'DiskUsage df' ERROR: "@) {
        Ok(text) => Ok(usage_text(text, mounts)),
        Err(e) => Err(e),
    }
}

/// Appends to `entries` what the lines say of `mount`.
fn push_mount_entries(entries: &mut Vec<Vec<char>>, lines: &Vec<Vec<char>>, mount: &Vec<char>)
    ensures
        views(final(entries)@) == views(old(entries)@) + mount_entries(views(lines@), mount@),
{
    let ghost texts = views(lines@);
    let mut i: usize = 0;
    assert(mount_entries(texts.take(0), mount@) =~= Seq::<Seq<char>>::empty());
    assert(views(entries@) + Seq::<Seq<char>>::empty() =~= views(entries@));
    while i < lines.len()
        invariant
            i <= lines@.len(),
            texts == views(lines@),
            views(entries@) == views(old(entries)@) + mount_entries(texts.take(i as int), mount@),
        decreases lines@.len() - i,
    {
        let columns = split_words(&lines[i]);
        proof {
            let upto = texts.take(i + 1);
            assert(upto.drop_last() =~= texts.take(i as int));
            assert(upto.last() == lines@[i as int]@);
            assert(views(columns@).len() == columns@.len());
        }
        if columns.len() > DF_MOUNT_COL && same_chars(&columns[DF_MOUNT_COL], mount) {
            let mut entry: Vec<char> = Vec::new();
            entry.extend_from_slice(mount.as_slice());
            entry.push(' ');
            entry.extend_from_slice(columns[DF_USAGE_COL].as_slice());
            proof {
                assert(views(columns@)[DF_MOUNT_COL as int] == columns@[DF_MOUNT_COL as int]@);
                assert(views(columns@)[DF_USAGE_COL as int] == columns@[DF_USAGE_COL as int]@);
                assert(entry@ =~= mount@ + seq![' '] + columns@[DF_USAGE_COL as int]@);
                assert(views(entries@.push(entry)) =~= views(entries@).push(entry@));
            }
            entries.push(entry);
        } else {
            proof {
                if columns.len() > DF_MOUNT_COL {
                    assert(views(columns@)[DF_MOUNT_COL as int] == columns@[DF_MOUNT_COL as int]@);
                }
            }
        }
        i += 1;
    }
    assert(texts.take(i as int) =~= texts);
}

/// The usage of `mountpoints` that the output of `df` shows.
pub fn extract_mounts(output: &str, mountpoints: &Vec<String>) -> (usage: String)
    ensures
        usage@ == usage_text(output@, string_views(mountpoints@)),
{
    let chars = chars_of(output);
    let lines = split_chars(&chars, '\n');
    let ghost mounts = string_views(mountpoints@);
    let mut entries: Vec<Vec<char>> = Vec::new();
    let mut j: usize = 0;
    assert(views(entries@) =~= usage_entries(views(lines@), mounts.take(0)));
    while j < mountpoints.len()
        invariant
            j <= mountpoints@.len(),
            mounts == string_views(mountpoints@),
            views(entries@) == usage_entries(views(lines@), mounts.take(j as int)),
        decreases mountpoints@.len() - j,
    {
        let mount = chars_of(mountpoints[j].as_str());
        proof {
            let upto = mounts.take(j + 1);
            assert(upto.drop_last() =~= mounts.take(j as int));
            assert(upto.last() == mountpoints@[j as int]@);
        }
        push_mount_entries(&mut entries, &lines, &mount);
        j += 1;
    }
    assert(mounts.take(j as int) =~= mounts);
    let mut separator: Vec<char> = Vec::new();
    separator.push(' ');
    separator.push(' ');
    assert(separator@ =~= seq![' ', ' ']);
    let joined = join_chars(&entries, &separator);
    let kept = trim(&joined);
    string_of(kept.as_slice())
}

/// The usage that `df -h` printed for `mountpoints`.
pub fn get_usage(mountpoints: &Vec<String>, output: &Output) -> (r: Result<String, BarError>)
    ensures
        text_result_is(r, usage_said(*output, string_views(mountpoints@))),
{
    match output_text(output, "'DiskUsage df' ERROR: ") {
        Ok(text) => Ok(extract_mounts(text.as_str(), mountpoints)),
        Err(e) => Err(e),
    }
}

} // verus!
