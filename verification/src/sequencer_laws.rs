//! What holds of every boot sequence, whatever the driver replies.

use crate::boot_entry::{spec_boot_current_index, spec_boot_partition_guid};
use crate::config::Config;
use crate::error::ResolveError;
use crate::matcher_laws::lemma_step_keeps_wf;
use crate::protocol::{ReplyView, RequestView};
use crate::sequencer::{spec_mount, spec_rank, SequencerView, Stage};
use vstd::prelude::*;

verus! {

/// A well-formed state stays well formed, whatever the driver replies.
pub proof fn lemma_step_keeps_sequence_wf(s: SequencerView, reply: ReplyView)
    requires
        s.wf(),
    ensures
        s.step(reply).wf(),
{
    if s.stage is Searching {
        lemma_step_keeps_wf(s.search->0, reply);
    }
}

/// The sequence never goes back: every step leads to a stage that comes
/// later in the fixed order, except that the search for the boot partition
/// may go on, and that a sequence which has ended stays as it is.
pub proof fn lemma_stages_only_advance(s: SequencerView, reply: ReplyView)
    ensures
        spec_rank(s.stage) <= spec_rank(s.step(reply).stage),
        spec_rank(s.stage) == spec_rank(s.step(reply).stage) ==> s.stage is Searching
            || s.stage is Finished || s.stage is Failed,
        s.stage is Finished || s.stage is Failed ==> s.step(reply) == s,
{
}

/// The switches that the sequence was prepared with never change.
pub proof fn lemma_step_keeps_options(s: SequencerView, reply: ReplyView)
    ensures
        s.step(reply).wire_stdio == s.wire_stdio,
        s.step(reply).mount_boot == s.mount_boot,
        s.step(reply).mount_sys == s.mount_sys,
        s.step(reply).poll_limit == s.poll_limit,
{
}

/// A process that is not the system's first is asked for nothing but to
/// finish.
pub proof fn lemma_outsider_finishes_at_once(config: Config)
    ensures
        SequencerView::initial(config, false).request() == RequestView::Finish,
{
}

/// Whether the operation of a stage is one that the sequence cannot do
/// without: a mount, a mount point, or a step of wiring the console.
pub open spec fn spec_is_required(stage: Stage) -> bool {
    !(stage is ProbeFirmware || stage is ReadBootCurrent || stage is ReadBootEntry
        || stage is Searching || stage is Finished || stage is Failed)
}

/// The failure of a required operation ends the sequence: the driver is
/// told to abort, and nothing more is asked of it afterwards.
pub proof fn lemma_required_failure_is_fatal(s: SequencerView)
    requires
        spec_is_required(s.stage),
    ensures
        s.step(ReplyView::Failed).stage is Failed,
        s.step(ReplyView::Failed).request() == RequestView::Abort,
{
}

/// Whether the stage is one that the switches allow: the console stages
/// only where the console is to be wired, the system mounts only where they
/// are to be made, the stages of the boot partition only where it is to be
/// mounted, and the probe for the firmware only where one of the latter two
/// needs it.
pub open spec fn spec_stage_is_enabled(s: SequencerView) -> bool {
    let rank = spec_rank(s.stage);
    &&& !s.wire_stdio ==> !(spec_rank(Stage::OpenConsoleIn) <= rank <= spec_rank(
        Stage::CloseConsoleOut,
    ))
    &&& !s.mount_sys ==> !(s.stage is MakeSysDir || s.stage is MountSys || s.stage is MountEfiVars)
    &&& !s.mount_boot ==> !(spec_rank(Stage::ReadBootCurrent) <= rank <= spec_rank(
        Stage::MountBoot,
    ))
    &&& !s.mount_sys && !s.mount_boot ==> !(s.stage is ProbeFirmware)
}

/// A switch that is off keeps its stages out of the sequence: a step from
/// an allowed stage leads to an allowed stage.
pub proof fn lemma_step_keeps_to_enabled_stages(s: SequencerView, reply: ReplyView)
    requires
        spec_stage_is_enabled(s),
    ensures
        spec_stage_is_enabled(s.step(reply)),
{
}

/// Without the firmware's directory neither the firmware variables are
/// mounted nor the boot partition is looked for; with it, each is exactly
/// where its switch is on.
pub proof fn lemma_firmware_gates_the_rest(s: SequencerView, reply: ReplyView)
    requires
        s.stage is ProbeFirmware,
    ensures
        reply != ReplyView::Exists(true) ==> s.step(reply).stage is Finished,
        reply == ReplyView::Exists(true) && s.mount_sys ==> s.step(reply).stage is MountEfiVars,
        reply == ReplyView::Exists(true) && !s.mount_sys && s.mount_boot ==> s.step(
            reply,
        ).stage is ReadBootCurrent,
{
}

/// Where the variable naming the active boot entry cannot be read, the boot
/// partition is left unmounted and the sequence finishes in good order.
pub proof fn lemma_missing_boot_current_is_skipped(s: SequencerView, reply: ReplyView)
    requires
        s.stage is ReadBootCurrent,
        !(reply is Bytes),
    ensures
        s.step(reply).stage is Finished,
        s.step(reply).request() == RequestView::Finish,
        s.step(reply).skipped == Some(ResolveError::NoActiveBootEntry),
{
}

/// Where the active boot entry names no GPT partition, for whatever reason,
/// the boot partition is left unmounted and the sequence finishes in good
/// order, recording the reason. Where it names one, the search for it
/// begins, unless no poll at all is allowed.
pub proof fn lemma_boot_entry_decides_the_search(s: SequencerView, raw: Seq<u8>)
    requires
        s.stage is ReadBootEntry,
        s.poll_limit != Some(0u32),
    ensures
        match spec_boot_partition_guid(raw) {
            Ok(guid) => {
                &&& s.step(ReplyView::Bytes(raw)).stage is Searching
                &&& s.step(ReplyView::Bytes(raw)).search is Some
                &&& s.step(ReplyView::Bytes(raw)).search->0.target == guid
                &&& s.step(ReplyView::Bytes(raw)).search->0.polls_left == s.poll_limit
            },
            Err(reason) => {
                &&& s.step(ReplyView::Bytes(raw)).stage is Finished
                &&& s.step(ReplyView::Bytes(raw)).request() == RequestView::Finish
                &&& s.step(ReplyView::Bytes(raw)).skipped == Some(reason)
            },
        },
{
}

/// Where the search gives up, the boot partition is left unmounted and the
/// sequence finishes in good order, recording that the partition was not
/// found.
pub proof fn lemma_abandoned_search_is_skipped(s: SequencerView, reply: ReplyView)
    requires
        s.wf(),
        s.stage is Searching,
        s.search->0.step(reply).phase is Exhausted,
    ensures
        s.step(reply).stage is Finished,
        s.step(reply).request() == RequestView::Finish,
        s.step(reply).skipped == Some(ResolveError::PartitionNotFound),
{
}

/// What is mounted as the boot partition is the device node that the search
/// ended with, at `/boot`, as a FAT filesystem.
pub proof fn lemma_boot_mount_is_the_found_device(s: SequencerView)
    requires
        s.wf(),
        s.stage is MountBoot,
    ensures
        s.search is Some,
        s.search->0.phase is Resolved,
        s.request() == spec_mount(s.search->0.resolved, "/boot"@, "vfat"@),
{
}

/// The state that the sequence is in after the driver's replies, one by one.
pub open spec fn spec_run(start: SequencerView, replies: Seq<ReplyView>) -> SequencerView
    decreases replies.len(),
{
    if replies.len() == 0 {
        start
    } else {
        spec_run(start, replies.drop_last()).step(replies.last())
    }
}

/// Through any run of replies the state stays well formed and the stage
/// never goes back.
pub proof fn lemma_run_is_ordered(start: SequencerView, replies: Seq<ReplyView>)
    requires
        start.wf(),
    ensures
        spec_run(start, replies).wf(),
        spec_rank(start.stage) <= spec_rank(spec_run(start, replies).stage),
    decreases replies.len(),
{
    if replies.len() > 0 {
        lemma_run_is_ordered(start, replies.drop_last());
        let before = spec_run(start, replies.drop_last());
        lemma_step_keeps_sequence_wf(before, replies.last());
        lemma_stages_only_advance(before, replies.last());
    }
}

/// Whatever the driver replies, a sequence reaches only well-formed states
/// and only the stages that its switches allow.
pub proof fn lemma_sequence_keeps_to_its_options(
    config: Config,
    is_init: bool,
    replies: Seq<ReplyView>,
)
    ensures
        spec_run(SequencerView::initial(config, is_init), replies).wf(),
        spec_stage_is_enabled(spec_run(SequencerView::initial(config, is_init), replies)),
    decreases replies.len(),
{
    let start = SequencerView::initial(config, is_init);
    lemma_run_is_ordered(start, replies);
    if replies.len() > 0 {
        lemma_sequence_keeps_to_its_options(config, is_init, replies.drop_last());
        lemma_step_keeps_to_enabled_stages(spec_run(start, replies.drop_last()), replies.last());
    }
}

} // verus!
