use early_init::guid::Guid;
use early_init::matcher::{
    block_directory, contains_name, disk_path, is_hidden, lowest_match, partition_path, Matcher,
    DEFAULT_POLL_MILLIS,
};
use early_init::protocol::{PartitionEntry, Reply, Request};

fn target() -> Guid {
    Guid::from_bytes([0xa5; 16])
}

fn stranger(seed: u8) -> Guid {
    Guid::from_bytes([seed; 16])
}

fn entry(index: u32, guid: Guid) -> PartitionEntry {
    PartitionEntry { index, guid }
}

fn names(list: &[&str]) -> Vec<String> {
    list.iter().map(|name| name.to_string()).collect()
}

/// A device filesystem that answers a search and counts what it is asked.
struct Machine {
    listing: Option<Vec<String>>,
    disks: Vec<(String, Vec<PartitionEntry>)>,
    nodes: Vec<String>,
    opened: Vec<String>,
    probed: Vec<String>,
    listed: usize,
    slept: Vec<u64>,
}

fn machine(listing: &[&str]) -> Machine {
    Machine {
        listing: Some(names(listing)),
        disks: Vec::new(),
        nodes: Vec::new(),
        opened: Vec::new(),
        probed: Vec::new(),
        listed: 0,
        slept: Vec::new(),
    }
}

fn answer(machine: &mut Machine, request: &Request) -> Reply {
    match request {
        Request::ListDirectory { path } => {
            assert_eq!(path, "/sys/block/");
            machine.listed += 1;
            match &machine.listing {
                Some(listing) => Reply::Names(listing.clone()),
                None => Reply::Failed,
            }
        }
        Request::OpenDisk { path } => {
            machine.opened.push(path.clone());
            match machine.disks.iter().find(|(disk, _)| disk == path) {
                Some((_, entries)) => Reply::Partitions(entries.clone()),
                None => Reply::Failed,
            }
        }
        Request::ProbePath { path } => {
            machine.probed.push(path.clone());
            Reply::Exists(machine.nodes.contains(path))
        }
        Request::Sleep { millis } => {
            machine.slept.push(*millis);
            Reply::Done
        }
        other => panic!("a search does not ask for {:?}", other),
    }
}

/// Drives the search until it ends or has paused `polls` times.
fn poll(search: &mut Matcher, machine: &mut Machine, polls: usize) -> Option<String> {
    let until = machine.slept.len() + polls;
    while machine.slept.len() < until {
        match search.request() {
            Some(request) => {
                let reply = answer(machine, &request);
                search.advance(reply);
            }
            None => break,
        }
    }
    search.resolved()
}

fn times_opened(machine: &Machine, path: &str) -> usize {
    machine.opened.iter().filter(|opened| opened.as_str() == path).count()
}

#[test]
fn paths_follow_both_naming_conventions() {
    assert_eq!(block_directory(), "/sys/block/");
    assert_eq!(disk_path(&"sda".to_string()), "/dev/sda");
    assert_eq!(partition_path(&"sda".to_string(), 2, false), "/dev/sda2");
    assert_eq!(partition_path(&"sda".to_string(), 2, true), "/dev/sdap2");
    assert_eq!(partition_path(&"nvme0n1".to_string(), 1, true), "/dev/nvme0n1p1");
    assert_eq!(partition_path(&"mmcblk0".to_string(), 128, true), "/dev/mmcblk0p128");
    assert_eq!(partition_path(&"vdb".to_string(), 10, false), "/dev/vdb10");
    assert_eq!(partition_path(&"".to_string(), 0, false), "/dev/0");
}

#[test]
fn hidden_entries_start_with_a_dot() {
    assert!(is_hidden(&".".to_string()));
    assert!(is_hidden(&"..".to_string()));
    assert!(is_hidden(&".sda".to_string()));
    assert!(!is_hidden(&"sda".to_string()));
    assert!(!is_hidden(&"s.da".to_string()));
    assert!(!is_hidden(&"".to_string()));
}

#[test]
fn names_are_found_by_their_whole_text() {
    let seen = names(&["sda", "nvme0n1"]);
    assert!(contains_name(&seen, &"sda".to_string()));
    assert!(contains_name(&seen, &"nvme0n1".to_string()));
    assert!(!contains_name(&seen, &"sd".to_string()));
    assert!(!contains_name(&seen, &"sdab".to_string()));
    assert!(!contains_name(&Vec::new(), &"sda".to_string()));
}

#[test]
fn lowest_matching_partition_is_taken() {
    let table = vec![entry(1, stranger(1)), entry(2, target()), entry(3, target())];
    assert_eq!(lowest_match(&table, target()), Some(2));
    let unordered = vec![entry(9, target()), entry(4, stranger(2)), entry(5, target())];
    assert_eq!(lowest_match(&unordered, target()), Some(5));
    assert_eq!(lowest_match(&unordered, stranger(2)), Some(4));
    assert_eq!(lowest_match(&unordered, stranger(3)), None);
    assert_eq!(lowest_match(&Vec::new(), target()), None);
    assert_eq!(lowest_match(&vec![entry(0, target())], target()), Some(0));
}

#[test]
fn search_begins_by_listing_the_block_devices() {
    let search = Matcher::new(target(), DEFAULT_POLL_MILLIS);
    assert_eq!(
        search.request(),
        Some(Request::ListDirectory { path: "/sys/block/".to_string() })
    );
    assert_eq!(search.resolved(), None);
    assert_eq!(DEFAULT_POLL_MILLIS, 100);
}

#[test]
fn each_step_returns_the_next_request() {
    let mut search = Matcher::new(target(), 250);
    assert_eq!(
        search.step(Reply::Names(names(&["vda"]))),
        Some(Request::OpenDisk { path: "/dev/vda".to_string() })
    );
    assert_eq!(
        search.step(Reply::Partitions(vec![entry(1, target())])),
        Some(Request::ProbePath { path: "/dev/vdap1".to_string() })
    );
    assert_eq!(
        search.step(Reply::Exists(false)),
        Some(Request::ProbePath { path: "/dev/vda1".to_string() })
    );
    assert_eq!(search.step(Reply::Exists(false)), Some(Request::Sleep { millis: 250 }));
    assert_eq!(
        search.step(Reply::Done),
        Some(Request::ListDirectory { path: "/sys/block/".to_string() })
    );
}

#[test]
fn scanned_disks_are_not_opened_again() {
    let mut machine = machine(&[".", "..", "sda", "sdb"]);
    machine.disks.push(("/dev/sda".to_string(), vec![entry(1, stranger(1))]));
    machine.disks.push(("/dev/sdb".to_string(), vec![entry(1, stranger(2)), entry(2, stranger(3))]));
    let mut search = Matcher::new(target(), 100);
    assert_eq!(poll(&mut search, &mut machine, 1), None);
    assert_eq!(machine.opened, names(&["/dev/sda", "/dev/sdb"]));
    assert_eq!(poll(&mut search, &mut machine, 1), None);
    assert_eq!(poll(&mut search, &mut machine, 3), None);
    assert_eq!(machine.listed, 5);
    assert_eq!(times_opened(&machine, "/dev/sda"), 1);
    assert_eq!(times_opened(&machine, "/dev/sdb"), 1);
    assert_eq!(machine.opened.len(), 2);
}

#[test]
fn hidden_entries_are_never_opened() {
    let mut machine = machine(&[".", "..", ".hidden"]);
    let mut search = Matcher::new(target(), 100);
    assert_eq!(poll(&mut search, &mut machine, 3), None);
    assert!(machine.opened.is_empty());
    assert_eq!(machine.slept, vec![100, 100, 100]);
}

#[test]
fn unreadable_disk_is_tried_again_at_the_next_poll() {
    let mut machine = machine(&["sda"]);
    machine.nodes.push("/dev/sda1".to_string());
    let mut search = Matcher::new(target(), 100);
    assert_eq!(poll(&mut search, &mut machine, 2), None);
    assert_eq!(times_opened(&machine, "/dev/sda"), 2);
    machine.disks.push(("/dev/sda".to_string(), vec![entry(1, target())]));
    assert_eq!(poll(&mut search, &mut machine, 1), Some("/dev/sda1".to_string()));
    assert_eq!(times_opened(&machine, "/dev/sda"), 3);
    assert_eq!(machine.slept.len(), 2);
}

#[test]
fn disk_that_appears_late_is_found() {
    let mut machine = machine(&["sda"]);
    machine.disks.push(("/dev/sda".to_string(), vec![entry(1, stranger(1))]));
    machine.disks.push(("/dev/sdb".to_string(), vec![entry(3, target())]));
    machine.nodes.push("/dev/sdb3".to_string());
    let mut search = Matcher::new(target(), 100);
    assert_eq!(poll(&mut search, &mut machine, 2), None);
    machine.listing = Some(names(&["sda", "sdb"]));
    assert_eq!(poll(&mut search, &mut machine, 1), Some("/dev/sdb3".to_string()));
    assert_eq!(machine.opened, names(&["/dev/sda", "/dev/sdb"]));
}

#[test]
fn failed_listing_counts_as_no_devices() {
    let mut machine = machine(&[]);
    machine.listing = None;
    let mut search = Matcher::new(target(), 40);
    assert_eq!(poll(&mut search, &mut machine, 2), None);
    assert_eq!(machine.listed, 2);
    assert_eq!(machine.slept, vec![40, 40]);
    assert!(machine.opened.is_empty());
    machine.listing = Some(names(&["sda"]));
    machine.disks.push(("/dev/sda".to_string(), vec![entry(1, target())]));
    machine.nodes.push("/dev/sdap1".to_string());
    assert_eq!(poll(&mut search, &mut machine, 1), Some("/dev/sdap1".to_string()));
}

#[test]
fn shared_guid_resolves_to_the_lower_partition() {
    let mut machine = machine(&["sda"]);
    machine.disks.push(("/dev/sda".to_string(), vec![entry(1, target()), entry(2, target())]));
    machine.nodes.push("/dev/sda1".to_string());
    machine.nodes.push("/dev/sda2".to_string());
    let mut search = Matcher::new(target(), 100);
    assert_eq!(poll(&mut search, &mut machine, 1), Some("/dev/sda1".to_string()));
    assert_eq!(machine.probed, names(&["/dev/sdap1", "/dev/sda1"]));
}

#[test]
fn first_disk_with_the_guid_wins() {
    let mut machine = machine(&["sda", "sdb", "sdc"]);
    machine.disks.push(("/dev/sda".to_string(), vec![entry(1, stranger(1))]));
    machine.disks.push(("/dev/sdb".to_string(), vec![entry(4, target())]));
    machine.disks.push(("/dev/sdc".to_string(), vec![entry(1, target())]));
    machine.nodes.push("/dev/sdb4".to_string());
    machine.nodes.push("/dev/sdc1".to_string());
    let mut search = Matcher::new(target(), 100);
    assert_eq!(poll(&mut search, &mut machine, 1), Some("/dev/sdb4".to_string()));
    assert_eq!(machine.opened, names(&["/dev/sda", "/dev/sdb"]));
    assert!(machine.slept.is_empty());
}

#[test]
fn separated_name_is_preferred() {
    let mut machine = machine(&["nvme0n1"]);
    machine.disks.push(("/dev/nvme0n1".to_string(), vec![entry(1, target())]));
    machine.nodes.push("/dev/nvme0n11".to_string());
    machine.nodes.push("/dev/nvme0n1p1".to_string());
    let mut search = Matcher::new(target(), 100);
    assert_eq!(poll(&mut search, &mut machine, 1), Some("/dev/nvme0n1p1".to_string()));
    assert_eq!(machine.probed, names(&["/dev/nvme0n1p1"]));
}

#[test]
fn bare_name_is_the_fallback() {
    let mut machine = machine(&["sda"]);
    machine.disks.push(("/dev/sda".to_string(), vec![entry(2, target())]));
    machine.nodes.push("/dev/sda2".to_string());
    let mut search = Matcher::new(target(), 100);
    assert_eq!(poll(&mut search, &mut machine, 1), Some("/dev/sda2".to_string()));
    assert_eq!(machine.probed, names(&["/dev/sdap2", "/dev/sda2"]));
}

#[test]
fn match_without_a_device_node_does_not_end_the_search() {
    let mut machine = machine(&["sda"]);
    machine.disks.push(("/dev/sda".to_string(), vec![entry(2, target())]));
    let mut search = Matcher::new(target(), 100);
    assert_eq!(poll(&mut search, &mut machine, 1), None);
    assert_eq!(machine.probed, names(&["/dev/sdap2", "/dev/sda2"]));
    assert_eq!(search.request(), Some(Request::ListDirectory { path: "/sys/block/".to_string() }));
    assert_eq!(poll(&mut search, &mut machine, 2), None);
    assert_eq!(machine.slept.len(), 3);
}

#[test]
fn search_that_ended_asks_for_nothing_more() {
    let mut search = Matcher::new(target(), 100);
    search.advance(Reply::Names(names(&["sda"])));
    search.advance(Reply::Partitions(vec![entry(1, target())]));
    assert_eq!(search.step(Reply::Exists(true)), None);
    assert_eq!(search.resolved(), Some("/dev/sdap1".to_string()));
    assert_eq!(search.step(Reply::Names(names(&["sdb"]))), None);
    assert_eq!(search.step(Reply::Exists(true)), None);
    assert_eq!(search.resolved(), Some("/dev/sdap1".to_string()));
    assert_eq!(search.request(), None);
}

#[test]
fn reply_of_another_kind_counts_as_a_failure() {
    let mut search = Matcher::new(target(), 100);
    assert_eq!(search.step(Reply::Exists(true)), Some(Request::Sleep { millis: 100 }));
    search.advance(Reply::Failed);
    search.advance(Reply::Names(names(&["sda", "sdb"])));
    assert_eq!(
        search.step(Reply::Names(names(&["sdz"]))),
        Some(Request::OpenDisk { path: "/dev/sdb".to_string() })
    );
    search.advance(Reply::Partitions(vec![entry(1, target())]));
    assert_eq!(
        search.step(Reply::Done),
        Some(Request::ProbePath { path: "/dev/sdb1".to_string() })
    );
    assert_eq!(search.step(Reply::Bytes(vec![1])), Some(Request::Sleep { millis: 100 }));
}

#[test]
fn repeated_names_in_one_listing_are_opened_once() {
    let mut machine = machine(&["sda", "sda"]);
    machine.disks.push(("/dev/sda".to_string(), vec![entry(1, stranger(1))]));
    let mut search = Matcher::new(target(), 100);
    assert_eq!(poll(&mut search, &mut machine, 2), None);
    assert_eq!(machine.opened, names(&["/dev/sda"]));
}

#[test]
fn unlimited_search_never_gives_up() {
    let mut machine = machine(&["sda"]);
    machine.disks.push(("/dev/sda".to_string(), vec![entry(1, stranger(1))]));
    let mut search = Matcher::new(target(), 100);
    assert_eq!(poll(&mut search, &mut machine, 50), None);
    assert!(!search.exhausted());
    assert_eq!(machine.listed, 50);
    assert_eq!(machine.slept.len(), 50);
}

#[test]
fn limited_search_gives_up_after_its_last_poll() {
    let mut machine = machine(&["sda"]);
    machine.disks.push(("/dev/sda".to_string(), vec![entry(1, stranger(1))]));
    let mut search = Matcher::with_limit(target(), 100, Some(3));
    assert_eq!(poll(&mut search, &mut machine, 50), None);
    assert!(search.exhausted());
    assert_eq!(search.request(), None);
    assert_eq!(machine.listed, 3);
    assert_eq!(machine.slept, vec![100, 100]);
    assert_eq!(machine.opened, names(&["/dev/sda"]));
    assert_eq!(search.step(Reply::Names(names(&["sdb"]))), None);
    assert!(search.exhausted());
}

#[test]
fn search_with_one_poll_does_not_pause() {
    let mut search = Matcher::with_limit(target(), 100, Some(1));
    assert!(!search.exhausted());
    assert_eq!(
        search.request(),
        Some(Request::ListDirectory { path: "/sys/block/".to_string() })
    );
    assert_eq!(search.step(Reply::Failed), None);
    assert!(search.exhausted());
    assert_eq!(search.resolved(), None);
}

#[test]
fn search_without_any_poll_has_given_up_at_once() {
    let search = Matcher::with_limit(target(), 100, Some(0));
    assert!(search.exhausted());
    assert_eq!(search.request(), None);
    assert_eq!(search.resolved(), None);
}

#[test]
fn limited_search_finds_what_appears_in_time() {
    let mut machine = machine(&[]);
    machine.disks.push(("/dev/sda".to_string(), vec![entry(7, target())]));
    machine.nodes.push("/dev/sda7".to_string());
    let mut search = Matcher::with_limit(target(), 100, Some(3));
    assert_eq!(poll(&mut search, &mut machine, 2), None);
    machine.listing = Some(names(&["sda"]));
    assert_eq!(poll(&mut search, &mut machine, 1), Some("/dev/sda7".to_string()));
    assert!(!search.exhausted());
    assert_eq!(machine.listed, 3);
}

#[test]
fn without_limit_is_the_same_as_new() {
    let mut plain = Matcher::new(target(), 100);
    let mut unlimited = Matcher::with_limit(target(), 100, None);
    for reply in [Reply::Failed, Reply::Done, Reply::Names(names(&["sda"])), Reply::Failed] {
        assert_eq!(plain.step(reply.clone()), unlimited.step(reply));
    }
}
