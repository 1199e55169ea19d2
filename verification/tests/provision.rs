use santana::action::{advance, copy_action, copy_texts, join, owned, run, Action, Outcome, StepError};
use santana::data::Data;
use santana::plan::{plan_groups, CpuVendor, GpuVendors, InstallPlan};
use santana::provision::{
    finalize, finalize_step, index_of, install_next, step_of, FinalizeStep, FINALIZE_STEPS,
};
use santana::storage::StorageSelection;

fn texts(items: &[&str]) -> Vec<String> {
    items.iter().map(|item| item.to_string()).collect()
}

fn run_of(program: &str, args: &[&str]) -> Action {
    Action::Run { program: program.to_string(), args: texts(args) }
}

fn user() -> Data {
    Data { name: "ada".to_string(), password: "s3cret".to_string() }
}

fn small_plan() -> InstallPlan {
    plan_groups(CpuVendor::Unknown, GpuVendors { nvidia: false, amd: false, intel: false }, false, false)
}

fn bios() -> StorageSelection {
    StorageSelection { root_partition: "sda2".to_string(), efi_partition: None }
}

fn efi() -> StorageSelection {
    StorageSelection { root_partition: "sda2".to_string(), efi_partition: Some("sda1".to_string()) }
}

#[test]
fn the_group_at_the_cursor_is_installed() {
    let plan = small_plan();
    assert_eq!(
        install_next(&plan, 0),
        Some(run_of("pacstrap", &["/mnt", "base", "base-devel", "linux", "linux-firmware"]))
    );
    assert_eq!(
        install_next(&plan, 3),
        Some(run_of("pacstrap", &["/mnt", "hyprland", "sddm", "grub"]))
    );
    assert_eq!(
        install_next(&vec![("empty".to_string(), Vec::new())], 0),
        Some(run_of("pacstrap", &["/mnt"]))
    );
}

#[test]
fn as_many_installations_as_groups_use_the_plan_up() {
    let plan = small_plan();
    let mut cursor = 0;
    let mut calls = 0;
    while let Some(action) = install_next(&plan, cursor) {
        match action {
            Action::Run { program, args } => {
                assert_eq!(program, "pacstrap");
                assert_eq!(args[0], "/mnt");
                assert_eq!(args[1..], plan[cursor].1[..]);
            },
            other => panic!("{:?}", other),
        }
        cursor = advance(cursor, Outcome::Done).unwrap();
        calls += 1;
    }
    assert_eq!(calls, plan.len());
    assert_eq!(cursor, plan.len());
    assert_eq!(install_next(&plan, cursor), None);
    assert_eq!(install_next(&plan, cursor + 1), None);
    assert_eq!(install_next(&plan, usize::MAX), None);
    assert_eq!(install_next(&Vec::new(), 0), None);
}

#[test]
fn a_step_that_did_not_succeed_ends_the_sequence() {
    assert_eq!(advance(0, Outcome::Done), Ok(1));
    assert_eq!(advance(41, Outcome::Done), Ok(42));
    assert_eq!(advance(usize::MAX, Outcome::Done), Ok(usize::MAX));
    assert_eq!(advance(3, Outcome::Failed), Err(StepError { step: 3, started: true }));
    assert_eq!(advance(3, Outcome::NotStarted), Err(StepError { step: 3, started: false }));
}

#[test]
fn final_configuration_without_efi() {
    let steps = finalize(&bios(), &user(), "ru_RU.UTF-8 UTF-8", "sda");
    let feed = |input: &str| Action::Feed {
        program: "chpasswd".to_string(),
        args: Vec::new(),
        input: input.to_string(),
    };
    assert_eq!(
        steps,
        vec![
            Action::Capture {
                program: "genfstab".to_string(),
                args: texts(&["/mnt"]),
                path: "/mnt/etc/fstab".to_string(),
            },
            run_of("arch-chroot", &["/mnt"]),
            run_of("systemctl", &["enable", "NetworkManager"]),
            run_of("systemctl", &["enable", "sddm"]),
            run_of("useradd", &["-m", "ada"]),
            feed("ada:s3cret\n"),
            feed("root:s3cret\n"),
            Action::Append {
                path: "/etc/sudoers".to_string(),
                line: "ada ALL=(ALL:ALL) ALL".to_string(),
            },
            Action::Write {
                path: "/etc/locale.gen".to_string(),
                contents: "\nen_US.UTF-8 UTF-8\nru_RU.UTF-8 UTF-8\n".to_string(),
            },
            Action::Write {
                path: "/etc/locale.conf".to_string(),
                contents: "LANG=\"en_US.UTF-8\"".to_string(),
            },
            run_of("locale-gen", &[]),
            run_of("grub-install", &["/dev/sda"]),
            run_of("grub-mkconfig", &["-o", "/boot/grub/grub.cfg"]),
            run_of("exit", &[]),
            run_of("umount", &["-R", "/mnt"]),
            run_of("reboot", &[]),
        ]
    );
}

#[test]
fn final_configuration_with_efi_registers_a_boot_entry() {
    let steps = finalize(&efi(), &user(), "en_US.UTF-8 UTF-8", "sda");
    assert_eq!(steps.len(), FINALIZE_STEPS);
    assert_eq!(
        steps[11],
        run_of(
            "grub-install",
            &["--target=x86_64-efi", "--efi-directory=/boot/efi", "--bootloader-id=GRUB"]
        )
    );
    let without = finalize(&bios(), &user(), "en_US.UTF-8 UTF-8", "sda");
    for i in 0..FINALIZE_STEPS {
        if i != 11 {
            assert_eq!(steps[i], without[i]);
        }
    }
}

#[test]
fn final_configuration_keeps_its_order() {
    for selection in [bios(), efi()] {
        let steps = finalize(&selection, &user(), "en_US.UTF-8 UTF-8", "vda");
        let place = |wanted: &str| {
            steps
                .iter()
                .position(|step| match step {
                    Action::Run { program, .. } => program == wanted,
                    Action::Capture { program, .. } => program == wanted,
                    _ => false,
                })
                .unwrap()
        };
        let fstab = place("genfstab");
        let account = place("useradd");
        let bootloader = place("grub-install");
        let unmount = place("umount");
        let reboot = place("reboot");
        assert!(fstab < account);
        assert!(account < bootloader);
        assert!(bootloader < unmount);
        assert!(unmount < reboot);
        assert_eq!(reboot, steps.len() - 1);
        assert_eq!(fstab, 0);
    }
}

#[test]
fn steps_and_their_places() {
    for index in 0..FINALIZE_STEPS {
        assert_eq!(index_of(step_of(index).unwrap()), index);
    }
    assert_eq!(step_of(0), Some(FinalizeStep::WriteFstab));
    assert_eq!(step_of(15), Some(FinalizeStep::Reboot));
    assert_eq!(step_of(16), None);
    assert_eq!(step_of(usize::MAX), None);
    assert_eq!(index_of(FinalizeStep::CreateUser), 4);
    assert_eq!(index_of(FinalizeStep::InstallBootloader), 11);
    assert_eq!(index_of(FinalizeStep::Unmount), 14);
    let steps = finalize(&efi(), &user(), "x", "sdb");
    for index in 0..FINALIZE_STEPS {
        assert_eq!(steps[index], finalize_step(step_of(index).unwrap(), &user(), "x", "sdb", true));
    }
}

#[test]
fn both_accounts_get_the_same_password() {
    let user = Data { name: "bob".to_string(), password: "p:w d".to_string() };
    assert_eq!(
        finalize_step(FinalizeStep::UserPassword, &user, "", "", false),
        Action::Feed { program: "chpasswd".to_string(), args: Vec::new(), input: "bob:p:w d\n".to_string() }
    );
    assert_eq!(
        finalize_step(FinalizeStep::RootPassword, &user, "", "", false),
        Action::Feed { program: "chpasswd".to_string(), args: Vec::new(), input: "root:p:w d\n".to_string() }
    );
}

#[test]
fn texts_and_actions_are_copied_whole() {
    assert_eq!(owned("abc"), "abc");
    assert_eq!(owned(""), "");
    assert_eq!(join("ab", "cd"), "abcd");
    assert_eq!(join("", "cd"), "cd");
    assert_eq!(join("ab", ""), "ab");
    assert_eq!(copy_texts(&texts(&["a", "", "b"])), texts(&["a", "", "b"]));
    assert_eq!(run("ls", texts(&["-l"])), run_of("ls", &["-l"]));
    let actions = vec![
        run_of("a", &["b"]),
        Action::Feed { program: "p".to_string(), args: texts(&["q"]), input: "i".to_string() },
        Action::Capture { program: "p".to_string(), args: texts(&["q"]), path: "f".to_string() },
        Action::Write { path: "f".to_string(), contents: "c".to_string() },
        Action::Append { path: "f".to_string(), line: "l".to_string() },
        Action::Exists { path: "f".to_string() },
        Action::Read { path: "f".to_string() },
    ];
    for action in &actions {
        assert_eq!(copy_action(action), *action);
    }
}
