//! The search for the partition that carries a given GUID.
//!
//! Block devices appear while the system starts, so the search polls: it
//! lists the block devices, opens each disk it has not yet scanned as a GPT
//! disk, and looks for the GUID among the disk's partitions. A disk whose
//! table cannot be read yet is tried again at the next poll; a disk that was
//! scanned is not opened again. The first match ends the search as soon as
//! its device node exists under one of the two naming conventions.
//!
//! By default the search goes on until it succeeds. It can be given a limit
//! on the number of polls, after which it gives up.

use crate::guid::Guid;
use crate::protocol::{spec_texts, PartitionEntry, Reply, ReplyView, Request, RequestView};
use crate::text::{push_decimal, spec_decimal};
use vstd::prelude::*;
use vstd::string::*;

verus! {

/// The pause between two polls, in milliseconds, unless another is chosen.
pub const DEFAULT_POLL_MILLIS: u64 = 100;

/// Whether a directory entry is hidden: its name starts with a dot.
pub open spec fn spec_is_hidden(name: Seq<char>) -> bool {
    name.len() > 0 && name[0] == '.'
}

/// Tells whether a directory entry is hidden.
pub fn is_hidden(name: &String) -> (hidden: bool)
    ensures
        hidden == spec_is_hidden(name@),
{
    let text: &str = name.as_str();
    text.unicode_len() > 0 && text.get_char(0) == '.'
}

/// The directory whose entries are the block devices.
pub fn block_directory() -> (path: String)
    ensures
        path@ == "/sys/block/"@,
{
    String::from_str("/sys/block/")
}

/// The device node of the disk `name`.
pub open spec fn spec_disk_path(name: Seq<char>) -> Seq<char> {
    "/dev/"@ + name
}

/// Builds the path of the device node of the disk `name`.
pub fn disk_path(name: &String) -> (path: String)
    ensures
        path@ == spec_disk_path(name@),
{
    let mut path = String::from_str("/dev/");
    path.append(name.as_str());
    path
}

/// The device node of partition `index` of the disk `name`, under the
/// convention that separates the disk's name from the number by a `p`, or
/// under the one that does not.
pub open spec fn spec_partition_path(name: Seq<char>, index: u32, separated: bool) -> Seq<char> {
    if separated {
        "/dev/"@ + name + "p"@ + spec_decimal(index as nat)
    } else {
        "/dev/"@ + name + spec_decimal(index as nat)
    }
}

/// Builds the path of the device node of a partition under one of the two
/// naming conventions.
pub fn partition_path(name: &String, index: u32, separated: bool) -> (path: String)
    ensures
        path@ == spec_partition_path(name@, index, separated),
{
    let mut path = String::from_str("/dev/");
    path.append(name.as_str());
    if separated {
        path.append("p");
    }
    push_decimal(&mut path, index);
    path
}

/// Tells whether `name` is among `names`.
pub fn contains_name(names: &Vec<String>, name: &String) -> (found: bool)
    ensures
        found == spec_texts(names@).contains(name@),
{
    let mut i: usize = 0;
    while i < names.len()
        invariant
            i <= names@.len(),
            forall|j: int| 0 <= j < i ==> spec_texts(names@)[j] != name@,
        decreases names@.len() - i,
    {
        if names[i] == *name {
            assert(spec_texts(names@)[i as int] == name@);
            return true;
        }
        i += 1;
    }
    false
}

/// The number of the partition that carries `target`: the lowest one, should
/// several partitions carry it.
pub open spec fn spec_lowest_match(entries: Seq<PartitionEntry>, target: Guid) -> Option<u32>
    decreases entries.len(),
{
    if entries.len() == 0 {
        None
    } else {
        let before = spec_lowest_match(entries.drop_last(), target);
        let entry = entries.last();
        if entry.guid != target {
            before
        } else if before is Some && before->0 <= entry.index {
            before
        } else {
            Some(entry.index)
        }
    }
}

/// Looks for the partition that carries `target`.
pub fn lowest_match(entries: &Vec<PartitionEntry>, target: Guid) -> (found: Option<u32>)
    ensures
        found == spec_lowest_match(entries@, target),
{
    let mut found: Option<u32> = None;
    let mut i: usize = 0;
    while i < entries.len()
        invariant
            i <= entries@.len(),
            found == spec_lowest_match(entries@.take(i as int), target),
        decreases entries@.len() - i,
    {
        proof {
            assert(entries@.take(i + 1).drop_last() =~= entries@.take(i as int));
        }
        let entry: PartitionEntry = entries[i];
        if entry.guid.value == target.value {
            found = match found {
                Some(lowest) => if lowest <= entry.index {
                    Some(lowest)
                } else {
                    Some(entry.index)
                },
                None => Some(entry.index),
            };
        }
        i += 1;
    }
    proof {
        assert(entries@.take(entries@.len() as int) =~= entries@);
    }
    found
}

/// Whether the disk `name` is to be opened: it is not hidden and was not
/// scanned before.
pub open spec fn spec_eligible(seen: Seq<Seq<char>>, name: Seq<char>) -> bool {
    !spec_is_hidden(name) && !seen.contains(name)
}

/// The position of the first disk to open at or behind `from`, or the length
/// of the listing where there is none.
pub open spec fn spec_next_eligible(devices: Seq<Seq<char>>, seen: Seq<Seq<char>>, from: int) -> int
    decreases devices.len() - from,
{
    if from < 0 || from >= devices.len() {
        devices.len() as int
    } else if spec_eligible(seen, devices[from]) {
        from
    } else {
        spec_next_eligible(devices, seen, from + 1)
    }
}

/// What the search is waiting for.
#[derive(Clone, Copy, Debug, PartialEq, Eq, Structural)]
pub enum Phase {
    /// The listing of the block devices.
    Listing,
    /// The partition table of the disk under the cursor.
    Opening,
    /// Whether the matched partition's node exists with the `p` separator.
    ProbingSeparated,
    /// Whether the matched partition's node exists without a separator.
    ProbingBare,
    /// The end of the pause before the next poll.
    Sleeping,
    /// Nothing: the partition was found.
    Resolved,
    /// Nothing: the allowed number of polls is used up.
    Exhausted,
}

/// The state of a search, as mathematics.
#[verifier::ext_equal]
pub struct MatcherView {
    /// The GUID that is searched for.
    pub target: Guid,
    /// The pause between two polls.
    pub poll_millis: u64,
    /// The disks that were scanned, in the order in which they were.
    pub seen: Seq<Seq<char>>,
    /// The block devices that the current poll listed.
    pub devices: Seq<Seq<char>>,
    /// The position in `devices` of the disk being examined.
    pub cursor: int,
    /// The number of the partition that matched on that disk.
    pub candidate: u32,
    /// What the search is waiting for.
    pub phase: Phase,
    /// The device node of the partition, once it is found.
    pub resolved: Seq<char>,
    /// How many polls are left, the current one included; `None` where
    /// their number is not limited.
    pub polls_left: Option<u32>,
}

impl MatcherView {
    /// The state of a search that has just begun, with at most `limit`
    /// polls ahead of it. A search that is allowed no poll at all has given
    /// up before it begins.
    pub open spec fn initial(target: Guid, poll_millis: u64, limit: Option<u32>) -> MatcherView {
        MatcherView {
            target,
            poll_millis,
            seen: Seq::empty(),
            devices: Seq::empty(),
            cursor: 0,
            candidate: 0,
            phase: if limit == Some(0u32) {
                Phase::Exhausted
            } else {
                Phase::Listing
            },
            resolved: Seq::empty(),
            polls_left: limit,
        }
    }

    /// While a disk is being examined the cursor points at it.
    pub open spec fn wf(self) -> bool {
        &&& 0 <= self.cursor <= self.devices.len()
        &&& (self.phase is Opening || self.phase is ProbingSeparated || self.phase is ProbingBare)
            ==> self.cursor < self.devices.len()
    }

    /// The name of the disk being examined.
    pub open spec fn disk(self) -> Seq<char> {
        self.devices[self.cursor]
    }

    /// What the driver is asked to do in this state; nothing once the
    /// partition is found.
    pub open spec fn request(self) -> Option<RequestView> {
        match self.phase {
            Phase::Listing => Some(RequestView::ListDirectory { path: "/sys/block/"@ }),
            Phase::Opening => Some(RequestView::OpenDisk { path: spec_disk_path(self.disk()) }),
            Phase::ProbingSeparated => Some(
                RequestView::ProbePath {
                    path: spec_partition_path(self.disk(), self.candidate, true),
                },
            ),
            Phase::ProbingBare => Some(
                RequestView::ProbePath {
                    path: spec_partition_path(self.disk(), self.candidate, false),
                },
            ),
            Phase::Sleeping => Some(RequestView::Sleep { millis: self.poll_millis }),
            Phase::Resolved => None,
            Phase::Exhausted => None,
        }
    }

    /// Ends a poll that did not find the partition: the search pauses before
    /// the next poll, or gives up where this poll was the last one allowed.
    pub open spec fn pause(self) -> MatcherView {
        match self.polls_left {
            Some(left) => if left <= 1 {
                MatcherView { phase: Phase::Exhausted, polls_left: Some(0), ..self }
            } else {
                MatcherView {
                    phase: Phase::Sleeping,
                    polls_left: Some((left - 1) as u32),
                    ..self
                }
            },
            None => MatcherView { phase: Phase::Sleeping, ..self },
        }
    }

    /// Moves on to the first disk to open at or behind `from`, or ends the
    /// poll where the listing holds none.
    pub open spec fn scan_from(self, from: int) -> MatcherView {
        let next = spec_next_eligible(self.devices, self.seen, from);
        if next < self.devices.len() {
            MatcherView { cursor: next, phase: Phase::Opening, ..self }
        } else {
            MatcherView { cursor: next, ..self }.pause()
        }
    }

    /// Records the disk being examined as scanned.
    pub open spec fn mark_seen(self) -> MatcherView {
        MatcherView { seen: self.seen.push(self.disk()), ..self }
    }

    /// Ends the search with the device node of the matched partition.
    pub open spec fn resolve(self, separated: bool) -> MatcherView {
        MatcherView {
            phase: Phase::Resolved,
            resolved: spec_partition_path(self.disk(), self.candidate, separated),
            ..self.mark_seen()
        }
    }

    /// The state after the driver's reply to `self.request()`. A reply of a
    /// kind that does not answer the request counts as a failure of it.
    pub open spec fn step(self, reply: ReplyView) -> MatcherView {
        match self.phase {
            Phase::Listing => match reply {
                ReplyView::Names(names) => MatcherView { devices: names, ..self }.scan_from(0),
                _ => self.pause(),
            },
            Phase::Opening => match reply {
                ReplyView::Partitions(entries) => match spec_lowest_match(entries, self.target) {
                    Some(index) => MatcherView {
                        candidate: index,
                        phase: Phase::ProbingSeparated,
                        ..self
                    },
                    None => self.mark_seen().scan_from(self.cursor + 1),
                },
                _ => self.scan_from(self.cursor + 1),
            },
            Phase::ProbingSeparated => match reply {
                ReplyView::Exists(true) => self.resolve(true),
                _ => MatcherView { phase: Phase::ProbingBare, ..self },
            },
            Phase::ProbingBare => match reply {
                ReplyView::Exists(true) => self.resolve(false),
                _ => self.mark_seen().scan_from(self.cursor + 1),
            },
            Phase::Sleeping => MatcherView { phase: Phase::Listing, ..self },
            Phase::Resolved => self,
            Phase::Exhausted => self,
        }
    }
}

/// A search in progress.
pub struct Matcher {
    target: Guid,
    poll_millis: u64,
    seen: Vec<String>,
    devices: Vec<String>,
    cursor: usize,
    candidate: u32,
    phase: Phase,
    resolved: String,
    polls_left: Option<u32>,
}

impl View for Matcher {
    type V = MatcherView;

    closed spec fn view(&self) -> MatcherView {
        MatcherView {
            target: self.target,
            poll_millis: self.poll_millis,
            seen: spec_texts(self.seen@),
            devices: spec_texts(self.devices@),
            cursor: self.cursor as int,
            candidate: self.candidate,
            phase: self.phase,
            resolved: self.resolved@,
            polls_left: self.polls_left,
        }
    }
}

impl Matcher {
    /// Whether the state is one that a search can be in.
    pub open spec fn wf(&self) -> bool {
        self@.wf()
    }

    /// Begins the search for the partition with GUID `target`, with pauses
    /// of `poll_millis` milliseconds between polls. The search goes on until
    /// the partition is found.
    pub fn new(target: Guid, poll_millis: u64) -> (m: Matcher)
        ensures
            m@ == MatcherView::initial(target, poll_millis, None),
            m.wf(),
    {
        Matcher::with_limit(target, poll_millis, None)
    }

    /// Begins the search for the partition with GUID `target`, with pauses
    /// of `poll_millis` milliseconds between polls. With a `limit` the
    /// search gives up once the block devices were listed that many times
    /// without the partition being found.
    pub fn with_limit(target: Guid, poll_millis: u64, limit: Option<u32>) -> (m: Matcher)
        ensures
            m@ == MatcherView::initial(target, poll_millis, limit),
            m.wf(),
    {
        let phase = match limit {
            Some(0) => Phase::Exhausted,
            _ => Phase::Listing,
        };
        let m = Matcher {
            target,
            poll_millis,
            seen: Vec::new(),
            devices: Vec::new(),
            cursor: 0,
            candidate: 0,
            phase,
            resolved: String::new(),
            polls_left: limit,
        };
        assert(m@ =~= MatcherView::initial(target, poll_millis, limit));
        m
    }

    /// What the driver is to do now; `None` once the partition is found or
    /// the search has given up.
    pub fn request(&self) -> (r: Option<Request>)
        requires
            self.wf(),
        ensures
            match r {
                Some(request) => self@.request() == Some(request@),
                None => self@.request() is None,
            },
    {
        match self.phase {
            Phase::Listing => Some(Request::ListDirectory { path: block_directory() }),
            Phase::Opening => Some(
                Request::OpenDisk { path: disk_path(&self.devices[self.cursor]) },
            ),
            Phase::ProbingSeparated => Some(
                Request::ProbePath {
                    path: partition_path(&self.devices[self.cursor], self.candidate, true),
                },
            ),
            Phase::ProbingBare => Some(
                Request::ProbePath {
                    path: partition_path(&self.devices[self.cursor], self.candidate, false),
                },
            ),
            Phase::Sleeping => Some(Request::Sleep { millis: self.poll_millis }),
            Phase::Resolved => None,
            Phase::Exhausted => None,
        }
    }

    /// The device node of the partition, once it is found.
    pub fn resolved(&self) -> (r: Option<String>)
        ensures
            match r {
                Some(path) => self@.phase is Resolved && path@ == self@.resolved,
                None => !(self@.phase is Resolved),
            },
    {
        match self.phase {
            Phase::Resolved => Some(self.resolved.clone()),
            _ => None,
        }
    }

    /// Whether the search has given up: the allowed number of polls is used
    /// up and the partition was not found.
    pub fn exhausted(&self) -> (given_up: bool)
        ensures
            given_up == (self@.phase is Exhausted),
    {
        match self.phase {
            Phase::Exhausted => true,
            _ => false,
        }
    }

    fn pause(&mut self)
        ensures
            final(self)@ == old(self)@.pause(),
    {
        match self.polls_left {
            Some(left) => {
                if left <= 1 {
                    self.phase = Phase::Exhausted;
                    self.polls_left = Some(0);
                } else {
                    self.phase = Phase::Sleeping;
                    self.polls_left = Some(left - 1);
                }
            },
            None => {
                self.phase = Phase::Sleeping;
            },
        }
        assert(self@ =~= old(self)@.pause());
    }

    fn scan_from(&mut self, from: usize)
        requires
            from <= old(self).devices@.len(),
        ensures
            final(self)@ == old(self)@.scan_from(from as int),
            final(self).wf(),
    {
        let mut i: usize = from;
        let mut found: bool = false;
        while !found && i < self.devices.len()
            invariant
                from <= i <= self.devices@.len(),
                *self == *old(self),
                found ==> i < self.devices@.len() && spec_eligible(
                    self@.seen,
                    self@.devices[i as int],
                ),
                spec_next_eligible(self@.devices, self@.seen, from as int) == spec_next_eligible(
                    self@.devices,
                    self@.seen,
                    i as int,
                ),
            decreases self.devices@.len() - i + if found { 0int } else { 1int },
        {
            if !is_hidden(&self.devices[i]) && !contains_name(&self.seen, &self.devices[i]) {
                found = true;
            } else {
                i += 1;
            }
        }
        self.cursor = i;
        if i < self.devices.len() {
            self.phase = Phase::Opening;
        } else {
            self.pause();
        }
        assert(self@ =~= old(self)@.scan_from(from as int));
    }

    fn behind_cursor(&self) -> (next: usize)
        requires
            self.cursor < self.devices@.len(),
        ensures
            next == self.cursor + 1,
            next <= self.devices@.len(),
    {
        let len: usize = self.devices.len();
        self.cursor + 1
    }

    fn mark_seen(&mut self)
        requires
            old(self).cursor < old(self).devices@.len(),
        ensures
            final(self)@ == old(self)@.mark_seen(),
    {
        let name = self.devices[self.cursor].clone();
        self.seen.push(name);
        assert(self@.seen =~= old(self)@.seen.push(old(self)@.disk()));
        assert(self@ =~= old(self)@.mark_seen());
    }

    fn resolve(&mut self, separated: bool)
        requires
            old(self).cursor < old(self).devices@.len(),
        ensures
            final(self)@ == old(self)@.resolve(separated),
            final(self).wf(),
    {
        self.resolved = partition_path(&self.devices[self.cursor], self.candidate, separated);
        self.mark_seen();
        self.phase = Phase::Resolved;
        assert(self@ =~= old(self)@.resolve(separated));
    }

    /// Takes the driver's reply to the pending request and moves to the next
    /// state.
    pub fn advance(&mut self, reply: Reply)
        requires
            old(self).wf(),
        ensures
            final(self).wf(),
            final(self)@ == old(self)@.step(reply@),
    {
        match self.phase {
            Phase::Listing => match reply {
                Reply::Names(names) => {
                    self.devices = names;
                    self.scan_from(0);
                },
                _ => {
                    self.pause();
                },
            },
            Phase::Opening => match reply {
                Reply::Partitions(entries) => match lowest_match(&entries, self.target) {
                    Some(index) => {
                        self.candidate = index;
                        self.phase = Phase::ProbingSeparated;
                    },
                    None => {
                        let next: usize = self.behind_cursor();
                        self.mark_seen();
                        self.scan_from(next);
                    },
                },
                _ => {
                    let next: usize = self.behind_cursor();
                    self.scan_from(next);
                },
            },
            Phase::ProbingSeparated => match reply {
                Reply::Exists(true) => {
                    self.resolve(true);
                },
                _ => {
                    self.phase = Phase::ProbingBare;
                },
            },
            Phase::ProbingBare => match reply {
                Reply::Exists(true) => {
                    self.resolve(false);
                },
                _ => {
                    let next: usize = self.behind_cursor();
                    self.mark_seen();
                    self.scan_from(next);
                },
            },
            Phase::Sleeping => {
                self.phase = Phase::Listing;
            },
            Phase::Resolved => {},
            Phase::Exhausted => {},
        }
        assert(self@ =~= old(self)@.step(reply@));
    }

    /// Takes the driver's reply to the pending request, moves to the next
    /// state, and returns what the driver is to do next; `None` once the
    /// partition is found or the search has given up.
    pub fn step(&mut self, reply: Reply) -> (r: Option<Request>)
        requires
            old(self).wf(),
        ensures
            final(self).wf(),
            final(self)@ == old(self)@.step(reply@),
            match r {
                Some(request) => final(self)@.request() == Some(request@),
                None => final(self)@.request() is None,
            },
    {
        self.advance(reply);
        self.request()
    }
}

} // verus!
