//! The provisioner: installing the package groups of a plan one by one, and
//! the steps that turn the installed packages into a system that boots.

use crate::action::{advance_spec, join, owned, run, Action, ActionView, Outcome};
use crate::data::Data;
use crate::plan::{GroupView, InstallPlan};
use crate::storage::{device_file, device_path, run_spec, target_root, StorageSelection};
use vstd::prelude::*;

verus! {

/// The call that installs one package group into the target root.
pub open spec fn install_spec(group: GroupView) -> ActionView {
    run_spec("pacstrap"@, seq![target_root()] + group.1)
}

/// What is to be installed when the cursor stands at `cursor`: the group at
/// that place of the plan, or nothing once the cursor is past the last group.
pub open spec fn install_next_spec(plan: Seq<GroupView>, cursor: nat) -> Option<ActionView> {
    if cursor < plan.len() {
        Some(install_spec(plan[cursor as int]))
    } else {
        None
    }
}

/// Where the cursor stands after `calls` installations that all succeeded,
/// starting from `cursor`. An installation with nothing left to install leaves
/// the cursor where it is.
pub open spec fn cursor_after(groups: nat, cursor: nat, calls: nat) -> nat
    decreases calls,
{
    if calls == 0 {
        cursor
    } else {
        let before = cursor_after(groups, cursor, (calls - 1) as nat);
        if before < groups {
            before + 1
        } else {
            before
        }
    }
}

/// The steps of the final configuration, in the order in which they are run.
#[derive(Clone, Copy, PartialEq, Eq, Structural, Debug)]
pub enum FinalizeStep {
    WriteFstab,
    EnterRoot,
    EnableNetwork,
    EnableDisplay,
    CreateUser,
    UserPassword,
    RootPassword,
    GrantPrivileges,
    LocaleList,
    LocaleConf,
    GenerateLocales,
    InstallBootloader,
    ConfigureBootloader,
    LeaveRoot,
    Unmount,
    Reboot,
}

/// How many steps the final configuration has.
pub const FINALIZE_STEPS: usize = 16;

impl FinalizeStep {
    /// The place of a step in the sequence, starting at 0.
    pub open spec fn index(self) -> nat {
        match self {
            FinalizeStep::WriteFstab => 0,
            FinalizeStep::EnterRoot => 1,
            FinalizeStep::EnableNetwork => 2,
            FinalizeStep::EnableDisplay => 3,
            FinalizeStep::CreateUser => 4,
            FinalizeStep::UserPassword => 5,
            FinalizeStep::RootPassword => 6,
            FinalizeStep::GrantPrivileges => 7,
            FinalizeStep::LocaleList => 8,
            FinalizeStep::LocaleConf => 9,
            FinalizeStep::GenerateLocales => 10,
            FinalizeStep::InstallBootloader => 11,
            FinalizeStep::ConfigureBootloader => 12,
            FinalizeStep::LeaveRoot => 13,
            FinalizeStep::Unmount => 14,
            FinalizeStep::Reboot => 15,
        }
    }

    /// What the step does, for the given account, locale, disk and boot mode.
    /// The passwords are handed to the password tool as lines of account and
    /// password, and the root account gets the password of the user. Without
    /// EFI the bootloader goes to the disk itself, not to a partition; with
    /// EFI it is registered as a boot entry of the firmware.
    pub open spec fn action(
        self,
        name: Seq<char>,
        password: Seq<char>,
        locale: Seq<char>,
        disk: Seq<char>,
        efi: bool,
    ) -> ActionView {
        match self {
            FinalizeStep::WriteFstab => ActionView::Capture {
                program: "genfstab"@,
                args: seq![target_root()],
                path: "/mnt/etc/fstab"@,
            },
            FinalizeStep::EnterRoot => run_spec("arch-chroot"@, seq![target_root()]),
            FinalizeStep::EnableNetwork => run_spec(
                "systemctl"@,
                seq!["enable"@, "NetworkManager"@],
            ),
            FinalizeStep::EnableDisplay => run_spec("systemctl"@, seq!["enable"@, "sddm"@]),
            FinalizeStep::CreateUser => run_spec("useradd"@, seq!["-m"@, name]),
            FinalizeStep::UserPassword => ActionView::Feed {
                program: "chpasswd"@,
                args: Seq::empty(),
                input: name + ":"@ + password + "\n"@,
            },
            FinalizeStep::RootPassword => ActionView::Feed {
                program: "chpasswd"@,
                args: Seq::empty(),
                input: "root:"@ + password + "\n"@,
            },
            FinalizeStep::GrantPrivileges => ActionView::Append {
                path: "/etc/sudoers"@,
                line: name + " ALL=(ALL:ALL) ALL"@,
            },
            FinalizeStep::LocaleList => ActionView::Write {
                path: "/etc/locale.gen"@,
                contents: "\nen_US.UTF-8 UTF-8\n"@ + locale + "\n"@,
            },
            FinalizeStep::LocaleConf => ActionView::Write {
                path: "/etc/locale.conf"@,
                contents: "LANG=\"en_US.UTF-8\""@,
            },
            FinalizeStep::GenerateLocales => run_spec("locale-gen"@, Seq::empty()),
            FinalizeStep::InstallBootloader => if efi {
                run_spec(
                    "grub-install"@,
                    seq![
                        "--target=x86_64-efi"@,
                        "--efi-directory=/boot/efi"@,
                        "--bootloader-id=GRUB"@,
                    ],
                )
            } else {
                run_spec("grub-install"@, seq![device_path(disk)])
            },
            FinalizeStep::ConfigureBootloader => run_spec(
                "grub-mkconfig"@,
                seq!["-o"@, "/boot/grub/grub.cfg"@],
            ),
            FinalizeStep::LeaveRoot => run_spec("exit"@, Seq::empty()),
            FinalizeStep::Unmount => run_spec("umount"@, seq!["-R"@, target_root()]),
            FinalizeStep::Reboot => run_spec("reboot"@, Seq::empty()),
        }
    }
}

/// The step that stands at a given place of the sequence.
pub open spec fn step_at(index: nat) -> FinalizeStep {
    if index == 0 {
        FinalizeStep::WriteFstab
    } else if index == 1 {
        FinalizeStep::EnterRoot
    } else if index == 2 {
        FinalizeStep::EnableNetwork
    } else if index == 3 {
        FinalizeStep::EnableDisplay
    } else if index == 4 {
        FinalizeStep::CreateUser
    } else if index == 5 {
        FinalizeStep::UserPassword
    } else if index == 6 {
        FinalizeStep::RootPassword
    } else if index == 7 {
        FinalizeStep::GrantPrivileges
    } else if index == 8 {
        FinalizeStep::LocaleList
    } else if index == 9 {
        FinalizeStep::LocaleConf
    } else if index == 10 {
        FinalizeStep::GenerateLocales
    } else if index == 11 {
        FinalizeStep::InstallBootloader
    } else if index == 12 {
        FinalizeStep::ConfigureBootloader
    } else if index == 13 {
        FinalizeStep::LeaveRoot
    } else if index == 14 {
        FinalizeStep::Unmount
    } else {
        FinalizeStep::Reboot
    }
}

/// The whole final configuration: every step once, in the order of the steps.
pub open spec fn finalize_spec(
    name: Seq<char>,
    password: Seq<char>,
    locale: Seq<char>,
    disk: Seq<char>,
    efi: bool,
) -> Seq<ActionView> {
    Seq::new(
        FINALIZE_STEPS as nat,
        |i: int| step_at(i as nat).action(name, password, locale, disk, efi),
    )
}

/// How far a sequence of steps has come after the outcomes of the steps that
/// were run, in the order in which they were run: the place of the next step,
/// or `None` once a step has not succeeded.
pub open spec fn progress(outcomes: Seq<Outcome>) -> Option<usize>
    decreases outcomes.len(),
{
    if outcomes.len() == 0 {
        Some(0)
    } else {
        match progress(outcomes.drop_last()) {
            Some(cursor) => match advance_spec(cursor, outcomes.last()) {
                Ok(next) => Some(next),
                Err(_) => None,
            },
            None => None,
        }
    }
}

/// A plan of `groups` groups is used up by exactly `groups` installations: the
/// call number `k` installs the group at place `k`, and after the last of
/// them nothing is left to install, which is an answer and no error.
pub proof fn lemma_install_exhausts(plan: Seq<GroupView>, calls: nat)
    requires
        calls <= plan.len(),
    ensures
        cursor_after(plan.len(), 0, calls) == calls,
        calls < plan.len() ==> install_next_spec(plan, cursor_after(plan.len(), 0, calls)) == Some(
            install_spec(plan[calls as int]),
        ),
        install_next_spec(plan, cursor_after(plan.len(), 0, plan.len())) is None,
        cursor_after(plan.len(), 0, plan.len() + 1) == plan.len(),
    decreases calls,
{
    if calls > 0 {
        lemma_install_exhausts(plan, (calls - 1) as nat);
    }
    lemma_cursor_counts(plan.len(), plan.len());
    assert(cursor_after(plan.len(), 0, plan.len() + 1) == plan.len());
}

/// From the start the cursor counts the installations, up to the number of
/// groups.
pub proof fn lemma_cursor_counts(groups: nat, calls: nat)
    requires
        calls <= groups,
    ensures
        cursor_after(groups, 0, calls) == calls,
    decreases calls,
{
    if calls > 0 {
        lemma_cursor_counts(groups, (calls - 1) as nat);
    }
}

/// A step is reached only after every step before it has succeeded: the place
/// that a sequence has come to is the number of outcomes, and all of them are
/// successes. One step that fails ends the sequence for good.
pub proof fn lemma_progress(outcomes: Seq<Outcome>)
    requires
        outcomes.len() <= usize::MAX,
    ensures
        progress(outcomes) matches Some(cursor) ==> cursor == outcomes.len() && forall|i: int|
            0 <= i < outcomes.len() ==> outcomes[i] == Outcome::Done,
        progress(outcomes) is None ==> exists|i: int|
            0 <= i < outcomes.len() && outcomes[i] != Outcome::Done,
    decreases outcomes.len(),
{
    if outcomes.len() > 0 {
        let before = outcomes.drop_last();
        lemma_progress(before);
        if progress(before) is None {
            let i = choose|i: int| 0 <= i < before.len() && before[i] != Outcome::Done;
            assert(outcomes[i] != Outcome::Done);
        } else if outcomes.last() != Outcome::Done {
            assert(outcomes[outcomes.len() - 1] != Outcome::Done);
        } else {
            assert forall|i: int| 0 <= i < outcomes.len() implies outcomes[i] == Outcome::Done by {
                if i < before.len() {
                    assert(before[i] == outcomes[i]);
                }
            }
        }
    }
}

/// In every final configuration the file-system table is written before the
/// account is created, the account is created before the bootloader is
/// installed, the bootloader is installed before the target is unmounted, and
/// the reboot comes after the unmount, as the very last step.
pub proof fn lemma_finalize_order(
    name: Seq<char>,
    password: Seq<char>,
    locale: Seq<char>,
    disk: Seq<char>,
    efi: bool,
)
    ensures
        FinalizeStep::WriteFstab.index() < FinalizeStep::CreateUser.index()
            < FinalizeStep::InstallBootloader.index() < FinalizeStep::Unmount.index()
            < FinalizeStep::Reboot.index(),
        FinalizeStep::Reboot.index() + 1 == finalize_spec(name, password, locale, disk, efi).len(),
        forall|step: FinalizeStep|
            (#[trigger] finalize_spec(name, password, locale, disk, efi)[step.index() as int])
                == step.action(name, password, locale, disk, efi),
{
    assert forall|step: FinalizeStep|
        (#[trigger] finalize_spec(name, password, locale, disk, efi)[step.index() as int])
            == step.action(name, password, locale, disk, efi) by {
        assert(step_at(step.index()) == step);
    }
}

/// The call that installs the group at `cursor`, or `None` when no group is
/// left. Moving the cursor on after a success is the caller's part.
pub fn install_next(plan: &InstallPlan, cursor: usize) -> (action: Option<Action>)
    ensures
        action.deep_view() == install_next_spec(plan.deep_view(), cursor as nat),
{
    assert(plan.deep_view().len() == plan.len());
    if cursor < plan.len() {
        assert(plan.deep_view()[cursor as int] == plan[cursor as int].deep_view());
        let packages = &plan[cursor].1;
        let mut args: Vec<String> = vec![owned("/mnt")];
        let mut i: usize = 0;
        assert(args.deep_view() =~= seq![target_root()] + packages.deep_view().take(0));
        while i < packages.len()
            invariant
                i <= packages.len(),
                args.deep_view() == seq![target_root()] + packages.deep_view().take(i as int),
            decreases packages.len() - i,
        {
            let ghost before = args.deep_view();
            args.push(packages[i].clone());
            assert(args.deep_view() =~= before.push(packages[i as int]@));
            assert(packages.deep_view()[i as int] == packages[i as int]@);
            assert(seq![target_root()] + packages.deep_view().take(i + 1) =~= before.push(
                packages[i as int]@,
            ));
            i += 1;
        }
        assert(packages.deep_view().take(packages.len() as int) =~= packages.deep_view());
        Some(Action::Run { program: owned("pacstrap"), args })
    } else {
        None
    }
}

/// The place of a step in the sequence.
pub fn index_of(step: FinalizeStep) -> (index: usize)
    ensures
        index == step.index(),
        index < FINALIZE_STEPS,
{
    match step {
        FinalizeStep::WriteFstab => 0,
        FinalizeStep::EnterRoot => 1,
        FinalizeStep::EnableNetwork => 2,
        FinalizeStep::EnableDisplay => 3,
        FinalizeStep::CreateUser => 4,
        FinalizeStep::UserPassword => 5,
        FinalizeStep::RootPassword => 6,
        FinalizeStep::GrantPrivileges => 7,
        FinalizeStep::LocaleList => 8,
        FinalizeStep::LocaleConf => 9,
        FinalizeStep::GenerateLocales => 10,
        FinalizeStep::InstallBootloader => 11,
        FinalizeStep::ConfigureBootloader => 12,
        FinalizeStep::LeaveRoot => 13,
        FinalizeStep::Unmount => 14,
        FinalizeStep::Reboot => 15,
    }
}

/// The step at a place of the sequence, or `None` for a place past the end.
pub fn step_of(index: usize) -> (step: Option<FinalizeStep>)
    ensures
        index < FINALIZE_STEPS ==> step == Some(step_at(index as nat)),
        index >= FINALIZE_STEPS ==> step is None,
{
    match index {
        0 => Some(FinalizeStep::WriteFstab),
        1 => Some(FinalizeStep::EnterRoot),
        2 => Some(FinalizeStep::EnableNetwork),
        3 => Some(FinalizeStep::EnableDisplay),
        4 => Some(FinalizeStep::CreateUser),
        5 => Some(FinalizeStep::UserPassword),
        6 => Some(FinalizeStep::RootPassword),
        7 => Some(FinalizeStep::GrantPrivileges),
        8 => Some(FinalizeStep::LocaleList),
        9 => Some(FinalizeStep::LocaleConf),
        10 => Some(FinalizeStep::GenerateLocales),
        11 => Some(FinalizeStep::InstallBootloader),
        12 => Some(FinalizeStep::ConfigureBootloader),
        13 => Some(FinalizeStep::LeaveRoot),
        14 => Some(FinalizeStep::Unmount),
        15 => Some(FinalizeStep::Reboot),
        _ => None,
    }
}

/// What one step of the final configuration does.
pub fn finalize_step(step: FinalizeStep, user: &Data, locale: &str, disk: &str, efi: bool) -> (action:
    Action)
    ensures
        action@ == step.action(user.name@, user.password@, locale@, disk@, efi),
{
    let name = user.name.as_str();
    let password = user.password.as_str();
    match step {
        FinalizeStep::WriteFstab => {
            let args = vec![owned("/mnt")];
            assert(args.deep_view() =~= seq![target_root()]);
            Action::Capture { program: owned("genfstab"), args, path: owned("/mnt/etc/fstab") }
        },
        FinalizeStep::EnterRoot => {
            let args = vec![owned("/mnt")];
            assert(args.deep_view() =~= seq![target_root()]);
            run("arch-chroot", args)
        },
        FinalizeStep::EnableNetwork => {
            let args = vec![owned("enable"), owned("NetworkManager")];
            assert(args.deep_view() =~= seq!["enable"@, "NetworkManager"@]);
            run("systemctl", args)
        },
        FinalizeStep::EnableDisplay => {
            let args = vec![owned("enable"), owned("sddm")];
            assert(args.deep_view() =~= seq!["enable"@, "sddm"@]);
            run("systemctl", args)
        },
        FinalizeStep::CreateUser => {
            let args = vec![owned("-m"), owned(name)];
            assert(args.deep_view() =~= seq!["-m"@, name@]);
            run("useradd", args)
        },
        FinalizeStep::UserPassword => {
            let args: Vec<String> = Vec::new();
            assert(args.deep_view() =~= Seq::<Seq<char>>::empty());
            let input = join(join(join(name, ":").as_str(), password).as_str(), "\n");
            Action::Feed { program: owned("chpasswd"), args, input }
        },
        FinalizeStep::RootPassword => {
            let args: Vec<String> = Vec::new();
            assert(args.deep_view() =~= Seq::<Seq<char>>::empty());
            let input = join(join("root:", password).as_str(), "\n");
            Action::Feed { program: owned("chpasswd"), args, input }
        },
        FinalizeStep::GrantPrivileges => Action::Append {
            path: owned("/etc/sudoers"),
            line: join(name, " ALL=(ALL:ALL) ALL"),
        },
        FinalizeStep::LocaleList => Action::Write {
            path: owned("/etc/locale.gen"),
            contents: join(join("\nen_US.UTF-8 UTF-8\n", locale).as_str(), "\n"),
        },
        FinalizeStep::LocaleConf => Action::Write {
            path: owned("/etc/locale.conf"),
            contents: owned("LANG=\"en_US.UTF-8\""),
        },
        FinalizeStep::GenerateLocales => {
            let args: Vec<String> = Vec::new();
            assert(args.deep_view() =~= Seq::<Seq<char>>::empty());
            run("locale-gen", args)
        },
        FinalizeStep::InstallBootloader => {
            if efi {
                let args = vec![
                    owned("--target=x86_64-efi"),
                    owned("--efi-directory=/boot/efi"),
                    owned("--bootloader-id=GRUB"),
                ];
                assert(args.deep_view() =~= seq![
                    "--target=x86_64-efi"@,
                    "--efi-directory=/boot/efi"@,
                    "--bootloader-id=GRUB"@,
                ]);
                run("grub-install", args)
            } else {
                let args = vec![device_file(disk)];
                assert(args.deep_view() =~= seq![device_path(disk@)]);
                run("grub-install", args)
            }
        },
        FinalizeStep::ConfigureBootloader => {
            let args = vec![owned("-o"), owned("/boot/grub/grub.cfg")];
            assert(args.deep_view() =~= seq!["-o"@, "/boot/grub/grub.cfg"@]);
            run("grub-mkconfig", args)
        },
        FinalizeStep::LeaveRoot => {
            let args: Vec<String> = Vec::new();
            assert(args.deep_view() =~= Seq::<Seq<char>>::empty());
            run("exit", args)
        },
        FinalizeStep::Unmount => {
            let args = vec![owned("-R"), owned("/mnt")];
            assert(args.deep_view() =~= seq!["-R"@, target_root()]);
            run("umount", args)
        },
        FinalizeStep::Reboot => {
            let args: Vec<String> = Vec::new();
            assert(args.deep_view() =~= Seq::<Seq<char>>::empty());
            run("reboot", args)
        },
    }
}

/// The steps of the final configuration, in the order in which they have to
/// be run. The boot mode is EFI exactly when an EFI partition was chosen. The
/// first step that fails ends the sequence; the reboot is the last step, so it
/// is run only after all the others have succeeded.
pub fn finalize(selection: &StorageSelection, user: &Data, locale: &str, disk: &str) -> (steps: Vec<
    Action,
>)
    ensures
        steps.deep_view() == finalize_spec(
            user.name@,
            user.password@,
            locale@,
            disk@,
            selection.efi_partition is Some,
        ),
{
    let efi = selection.efi_partition.is_some();
    let mut steps: Vec<Action> = Vec::new();
    let mut i: usize = 0;
    while i < FINALIZE_STEPS
        invariant
            i <= FINALIZE_STEPS,
            efi == (selection.efi_partition is Some),
            steps.len() == i,
            forall|k: int|
                0 <= k < i ==> (#[trigger] steps[k])@ == step_at(k as nat).action(
                    user.name@,
                    user.password@,
                    locale@,
                    disk@,
                    efi,
                ),
        decreases FINALIZE_STEPS - i,
    {
        match step_of(i) {
            Some(step) => {
                steps.push(finalize_step(step, user, locale, disk, efi));
            },
            None => {},
        }
        i += 1;
    }
    assert(steps.deep_view() =~= finalize_spec(user.name@, user.password@, locale@, disk@, efi));
    steps
}

} // verus!
