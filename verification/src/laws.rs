//! What holds of every session, whatever keys are pressed and however the
//! outside work ends.

use crate::action::Outcome;
use crate::app::{Key, Pending, Screen};
use crate::data::valid_user;
use crate::model::{network_stage, remedy_spec, start, AppView};
use crate::network::{lemma_device_has_a_name, reachable};
use crate::plan::{
    groups_of, lemma_plan_holds_the_wanted, lemma_plan_is_short, plan_kinds, GroupKind,
};
use crate::provision::{install_next_spec, install_spec, step_at, FinalizeStep, FINALIZE_STEPS};
use crate::storage::{device_path, root_steps, run_spec};
use vstd::prelude::*;

verus! {

/// The session waits for outside work, not for a key and not for nothing.
pub open spec fn at_work(pending: Pending) -> bool {
    pending != Pending::Key && pending != Pending::Finished && pending != Pending::Failed
}

/// What a session may wait for while it is in the network stage and offline.
pub open spec fn network_pending(pending: Pending) -> bool {
    pending == Pending::Key || pending == Pending::Devices || pending == Pending::Networks
        || pending == Pending::Connect || pending == Pending::Failed
}

/// An offline session is in the network stage and waits for nothing that
/// belongs to a later stage, nor for a probe.
pub open spec fn held_back(a: AppView) -> bool {
    a.offline ==> network_stage(a.screen) && network_pending(a.pending)
}

/// The screen of a session fits what the session waits for: every piece of
/// outside work is awaited on the screen of the stage that it belongs to, and
/// where the work is a step of a sequence, the cursor stands on a step.
pub open spec fn in_step(a: AppView) -> bool {
    &&& a.install_list.len() <= usize::MAX
    &&& match a.pending {
        Pending::Key | Pending::Failed => true,
        Pending::Probe => network_stage(a.screen),
        Pending::Devices | Pending::Networks | Pending::Connect => a.screen
            == Screen::WifiSelection,
        Pending::Clock | Pending::Disks => a.screen == Screen::DiskSelection,
        Pending::Remedy => a.screen == Screen::DiskSelection && a.cursor < remedy_spec().len(),
        Pending::Firmware => a.screen == Screen::Partitioning,
        Pending::Storage => a.screen == Screen::Installing && a.cursor < a.storage_steps().len(),
        Pending::Pci | Pending::Cpu | Pending::Finished => a.screen == Screen::Installing,
        Pending::Install => a.screen == Screen::Installing && a.select_num
            < a.install_list.len(),
        Pending::Finalize => a.screen == Screen::Installing && a.cursor
            < a.finalize_steps().len(),
    }
}

/// The session as it is after `calls` installations in a row that all
/// succeeded.
pub open spec fn installed(a: AppView, calls: nat) -> AppView
    decreases calls,
{
    if calls == 0 {
        a
    } else {
        installed(a, (calls - 1) as nat).install(Outcome::Done)
    }
}

/// The session as it is after `calls` steps of the final configuration in a
/// row that all succeeded.
pub open spec fn finalized(a: AppView, calls: nat) -> AppView
    decreases calls,
{
    if calls == 0 {
        a
    } else {
        finalized(a, (calls - 1) as nat).complite(Outcome::Done)
    }
}

/// A session starts out well-formed, in step, with an empty log, and not
/// held back by anything.
pub proof fn lemma_start()
    ensures
        start().wf(),
        in_step(start()),
        held_back(start()),
        stamped(start()),
        !start().offline,
{
}

/// A session never holds an EFI partition on a machine without EFI: no key
/// and no end of outside work breaks that rule.
pub proof fn lemma_efi_rule_kept(a: AppView, key: Key, outcome: Outcome, output: Seq<char>)
    requires
        a.wf(),
    ensures
        a.press(key).wf(),
        a.complete(outcome, output).wf(),
{
}

/// The screen of a session always fits what the session waits for.
pub proof fn lemma_in_step_kept(a: AppView, key: Key, outcome: Outcome, output: Seq<char>)
    requires
        in_step(a),
    ensures
        in_step(a.press(key)),
        in_step(a.complete(outcome, output)),
{
    if a.pending == Pending::Cpu {
        let next = a.complete(outcome, output);
        lemma_plan_is_short(next.cpu, a.gpu, a.intel_audio, a.disk_tom_efi is Some);
    }
}

/// On a machine without EFI nothing is done for EFI. The partitions are
/// prepared by the steps for the root partition alone, the plan that the
/// session makes holds no bootloader manager, and the bootloader is installed
/// to the disk itself.
pub proof fn lemma_no_efi_work(a: AppView, outcome: Outcome, output: Seq<char>)
    requires
        a.wf(),
        !a.efi_present,
    ensures
        a.storage_steps() == root_steps(a.disk_tom),
        a.pending == Pending::Cpu ==> exists|kinds: Seq<GroupKind>|
            a.complete(outcome, output).install_list == groups_of(kinds) && !kinds.contains(
                GroupKind::EfiBoot,
            ),
        a.finalize_steps()[FinalizeStep::InstallBootloader.index() as int] == run_spec(
            "grub-install"@,
            seq![device_path(a.disk_name())],
        ),
{
    let cpu = a.complete(outcome, output).cpu;
    lemma_plan_holds_the_wanted(cpu, a.gpu, a.intel_audio, false, GroupKind::EfiBoot);
    if a.pending == Pending::Cpu {
        let kinds = plan_kinds(cpu, a.gpu, a.intel_audio, false);
        assert(a.complete(outcome, output).install_list == groups_of(kinds));
    }
}

/// A probe that got no answer leaves the session offline, in the network
/// stage, and not waiting for another probe.
pub proof fn lemma_unreachable(a: AppView, outcome: Outcome, output: Seq<char>)
    requires
        a.pending == Pending::Probe,
        !reachable(outcome),
    ensures
        a.complete(outcome, output).offline,
        held_back(a.complete(outcome, output)),
{
}

/// An offline session stays in the network stage until a network is joined
/// anew: whatever key is pressed and however outside work ends, it stays held
/// back, and it stays offline unless that work was the association call and
/// the call could be made.
pub proof fn lemma_offline_held_back(a: AppView, key: Key, outcome: Outcome, output: Seq<char>)
    requires
        held_back(a),
    ensures
        held_back(a.press(key)),
        held_back(a.complete(outcome, output)),
        a.offline ==> a.press(key).offline,
        a.offline && !(a.pending == Pending::Connect && outcome != Outcome::NotStarted)
            ==> a.complete(outcome, output).offline,
{
}

/// Nothing but a probe that reached the outside takes a session out of the
/// network stage.
pub proof fn lemma_leaving_network_stage(a: AppView, key: Key, outcome: Outcome, output: Seq<char>)
    requires
        in_step(a),
        network_stage(a.screen),
    ensures
        network_stage(a.press(key).screen),
        !network_stage(a.complete(outcome, output).screen) ==> a.pending == Pending::Probe
            && reachable(outcome),
{
}

/// The network device is looked up once: a session that has a device does
/// not come to ask for the device listing again, and a device that was taken
/// from a listing has a name.
pub proof fn lemma_device_looked_up_once(a: AppView, key: Key, outcome: Outcome, output: Seq<char>)
    requires
        a.wifi_device.len() > 0,
        a.pending != Pending::Devices,
    ensures
        a.press(key).pending != Pending::Devices,
        a.complete(outcome, output).pending != Pending::Devices,
        a.press(key).wifi_device == a.wifi_device,
        a.complete(outcome, output).wifi_device == a.wifi_device,
{
}

/// A device that a session takes from a listing has a name, so the session
/// counts as having a device from then on.
pub proof fn lemma_device_taken(a: AppView, outcome: Outcome, output: Seq<char>)
    requires
        a.pending == Pending::Devices,
        a.complete(outcome, output).pending != Pending::Failed,
    ensures
        a.complete(outcome, output).wifi_device.len() > 0,
        a.complete(outcome, output).pending == Pending::Networks,
{
    lemma_device_has_a_name(output);
}

/// A session that has ended, well or not, stays as it is.
pub proof fn lemma_the_end_is_final(a: AppView, key: Key, outcome: Outcome, output: Seq<char>)
    requires
        a.pending == Pending::Finished || a.pending == Pending::Failed,
    ensures
        a.press(key) == a,
        a.complete(outcome, output) == a,
        a.request() is None,
{
}

/// The log only grows: what was logged stays as it is, at its place.
pub proof fn lemma_log_only_grows(a: AppView, key: Key, outcome: Outcome, output: Seq<char>)
    ensures
        a.logs.is_prefix_of(a.press(key).logs),
        a.logs.is_prefix_of(a.complete(outcome, output).logs),
{
    assert(a.logs.is_prefix_of(a.logs));
    assert forall|lines: Seq<Seq<char>>| a.logs.is_prefix_of(#[trigger] (a.logs + lines)) by {
        assert((a.logs + lines).subrange(0, a.logs.len() as int) =~= a.logs);
    }
    assert forall|line: Seq<char>| a.logs.is_prefix_of(#[trigger] a.logs.push(line)) by {
        assert(a.logs.push(line) =~= a.logs + seq![line]);
    }
    assert forall|line: Seq<char>, lines: Seq<Seq<char>>|
        a.logs.is_prefix_of(#[trigger] (a.logs.push(line) + lines)) by {
        assert(a.logs.push(line) + lines =~= a.logs + (seq![line] + lines));
    }
    assert forall|line: Seq<char>, lines: Seq<Seq<char>>|
        a.logs.is_prefix_of(#[trigger] (a.logs + lines).push(line)) by {
        assert((a.logs + lines).push(line) =~= a.logs + lines.push(line));
    }
}

/// Every line of the log has its time.
pub open spec fn stamped(a: AppView) -> bool {
    a.log_times.len() == a.logs.len()
}

/// The lines that `next` has logged since `a` carry the time of `a`, and the
/// times of the lines before are as they were.
pub open spec fn stamped_since(a: AppView, next: AppView) -> bool {
    &&& next.now == a.now
    &&& stamped(next)
    &&& a.log_times.is_prefix_of(next.log_times)
    &&& forall|i: int| a.logs.len() <= i < next.logs.len() ==> next.log_times[i] == a.now
}

/// The log is time-stamped: every line is logged with the time that the
/// session was given for the event, and no event changes a time that was
/// logged before.
pub proof fn lemma_log_is_stamped(a: AppView, key: Key, outcome: Outcome, output: Seq<char>)
    requires
        stamped(a),
    ensures
        stamped_since(a, a.press(key)),
        stamped_since(a, a.complete(outcome, output)),
{
    assert(a.log_times.is_prefix_of(a.log_times));
    assert forall|lines: Seq<Seq<char>>| stamped_since(a, #[trigger] a.log_all(lines)) by {
        assert(a.log_all(lines).log_times.subrange(0, a.log_times.len() as int) =~= a.log_times);
    }
    assert forall|line: Seq<char>| stamped_since(a, #[trigger] a.log(line)) by {
        assert(a.log(line).log_times.subrange(0, a.log_times.len() as int) =~= a.log_times);
    }
    assert forall|line: Seq<char>, lines: Seq<Seq<char>>|
        stamped_since(a, #[trigger] a.log(line).log_all(lines)) by {
        assert(a.log(line).log_all(lines).log_times.subrange(0, a.log_times.len() as int)
            =~= a.log_times);
    }
    assert forall|line: Seq<char>, lines: Seq<Seq<char>>|
        stamped_since(a, #[trigger] a.log_all(lines).log(line)) by {
        assert(a.log_all(lines).log(line).log_times.subrange(0, a.log_times.len() as int)
            =~= a.log_times);
    }
}

/// Every piece of outside work that ends leaves at least one line in the log,
/// whether it succeeded or not.
pub proof fn lemma_every_step_is_logged(a: AppView, outcome: Outcome, output: Seq<char>)
    requires
        in_step(a),
        at_work(a.pending),
    ensures
        a.complete(outcome, output).logs.len() > a.logs.len(),
{
}

/// The installation begins with the enter key on the account screen, and only
/// with a name and a password that the installed system accepts.
pub proof fn lemma_installation_needs_account(
    a: AppView,
    key: Key,
    outcome: Outcome,
    output: Seq<char>,
)
    requires
        in_step(a),
        a.screen != Screen::Installing,
    ensures
        a.complete(outcome, output).screen != Screen::Installing,
        a.press(key).screen == Screen::Installing ==> key == Key::Enter && a.screen
            == Screen::UserSetup && valid_user(a.user.name, a.user.password),
{
}

/// An installation ends well only by the reboot: the session comes to its
/// good end from the last step of the final configuration, which is the
/// reboot, and only if that step succeeded.
pub proof fn lemma_ends_with_reboot(a: AppView, outcome: Outcome, output: Seq<char>)
    requires
        in_step(a),
        a.pending != Pending::Finished,
        a.complete(outcome, output).pending == Pending::Finished,
    ensures
        a.pending == Pending::Finalize,
        outcome == Outcome::Done,
        a.cursor == FinalizeStep::Reboot.index(),
        a.request() == Some(
            FinalizeStep::Reboot.action(
                a.user.name,
                a.user.password,
                a.language.locale,
                a.disk_name(),
                a.disk_tom_efi is Some,
            ),
        ),
{
}

/// A session that begins to install a plan of `n` groups uses the plan up with
/// exactly `n` installations: before each it asks for the group at the place
/// of the cursor, after the last it turns to the final configuration, and a
/// further call changes nothing.
pub proof fn lemma_session_installs_all(a: AppView, calls: nat)
    requires
        a.pending == Pending::Install,
        a.select_num == 0,
        a.install_list.len() > 0,
        a.install_list.len() <= usize::MAX,
        calls <= a.install_list.len(),
    ensures
        installed(a, calls).select_num == calls,
        installed(a, calls).install_list == a.install_list,
        calls < a.install_list.len() ==> installed(a, calls).pending == Pending::Install
            && installed(a, calls).request() == Some(install_spec(a.install_list[calls as int])),
        calls == a.install_list.len() ==> installed(a, calls).pending == Pending::Finalize
            && installed(a, calls).install(Outcome::Done) == installed(a, calls)
            && install_next_spec(a.install_list, installed(a, calls).select_num as nat) is None,
    decreases calls,
{
    if calls > 0 {
        lemma_session_installs_all(a, (calls - 1) as nat);
    }
}

/// A session runs the final configuration step by step in the order of the
/// steps: after `k` steps that succeeded it asks for the step at place `k`,
/// and after all of them it has come to its good end.
pub proof fn lemma_session_finalizes_in_order(a: AppView, calls: nat)
    requires
        a.pending == Pending::Finalize,
        a.cursor == 0,
        calls <= FINALIZE_STEPS,
    ensures
        installed_same_inputs(a, finalized(a, calls)),
        calls < FINALIZE_STEPS ==> finalized(a, calls).pending == Pending::Finalize && finalized(
            a,
            calls,
        ).cursor == calls && finalized(a, calls).request() == Some(
            step_at(calls).action(
                a.user.name,
                a.user.password,
                a.language.locale,
                a.disk_name(),
                a.disk_tom_efi is Some,
            ),
        ),
        calls == FINALIZE_STEPS ==> finalized(a, calls).pending == Pending::Finished,
    decreases calls,
{
    if calls > 0 {
        lemma_session_finalizes_in_order(a, (calls - 1) as nat);
    }
}

/// Two sessions hold the same account, language, disks and partitions: what
/// the final configuration is made from.
pub open spec fn installed_same_inputs(a: AppView, b: AppView) -> bool {
    &&& a.user == b.user
    &&& a.language == b.language
    &&& a.disk_list == b.disk_list
    &&& a.disk == b.disk
    &&& a.disk_tom == b.disk_tom
    &&& a.disk_tom_efi == b.disk_tom_efi
}

} // verus!
