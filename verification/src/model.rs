//! The installer's session as a state machine over mathematical values.
//!
//! A session waits either for a key or for the end of one piece of outside
//! work. `press` says what a key does to it, `complete` what the end of the
//! outside work does, and `request` which work it waits for. The executable
//! session in `app` does exactly what is written here.

use crate::action::{advance_spec, ActionView, Outcome, StepError};
use crate::app::{Editing, Fatal, Key, Pending, Screen};
use crate::data::{valid_user, DataView};
use crate::detect::{clock_synced, cpu_vendor_of, found, gpu_vendors_of, DetectError, Mark};
use crate::lang::{en_view, langs_view, LangView};
use crate::network::{connect_result_spec, connect_spec, device_of, networks_of, reachable};
use crate::plan::{plan_spec, CpuVendor, GpuVendors, GroupView};
use crate::provision::{finalize_spec, install_next_spec};
use crate::storage::{format_and_mount_spec, run_spec, storage_of, DiskView};
use vstd::prelude::*;

verus! {

/// A session as a mathematical value.
#[verifier::ext_equal]
pub struct AppView {
    pub install_list: Seq<GroupView>,
    pub user: DataView,
    pub disk_list: Seq<DiskView>,
    pub disk_tom_efi: Option<Seq<char>>,
    pub disk_tom: Seq<char>,
    pub disk: usize,
    pub wifi_device: Seq<char>,
    pub wifi_list: Seq<Seq<char>>,
    pub wifi: DataView,
    pub language_list: Seq<LangView>,
    pub language: LangView,
    pub screen: Screen,
    pub editing: Option<Editing>,
    pub select_num: usize,
    pub debug_mode: bool,
    pub logs: Seq<Seq<char>>,
    pub log_times: Seq<u64>,
    pub now: u64,
    pub offline: bool,
    pub efi_present: bool,
    pub clock_synced: bool,
    pub cpu: CpuVendor,
    pub gpu: GpuVendors,
    pub intel_audio: bool,
    pub pending: Pending,
    pub cursor: usize,
    pub error: Option<Fatal>,
}

/// One place up in a list: the place before, or the first.
pub open spec fn up(i: usize) -> usize {
    if i > 0 {
        (i - 1) as usize
    } else {
        0
    }
}

/// One place down in a list of `len` items: the place after, or the last.
pub open spec fn down(i: usize, len: nat) -> usize {
    if len == 0 {
        0
    } else if i < len - 1 {
        (i + 1) as usize
    } else {
        (len - 1) as usize
    }
}

/// A text without its last character; the empty text stays empty.
pub open spec fn without_last(s: Seq<char>) -> Seq<char> {
    if s.len() > 0 {
        s.drop_last()
    } else {
        s
    }
}

/// A text after a key was typed into it: a character is appended, the
/// backspace key takes the last character away, other keys change nothing.
pub open spec fn typed(s: Seq<char>, key: Key) -> Seq<char> {
    match key {
        Key::Char(c) => s.push(c),
        Key::Backspace => without_last(s),
        _ => s,
    }
}

/// The same time, `n` times.
pub open spec fn stamps(n: nat, time: u64) -> Seq<u64> {
    Seq::new(n, |i: int| time)
}

/// Logging no lines changes nothing; logging lines and then one more, or
/// then some more, is logging them all at once.
pub proof fn lemma_log_all(a: AppView, lines: Seq<Seq<char>>, line: Seq<char>, more: Seq<Seq<char>>)
    ensures
        a.log_all(Seq::empty()) == a,
        a.log_all(lines).log(line) == a.log_all(lines.push(line)),
        a.log_all(lines).log_all(more) == a.log_all(lines + more),
{
    assert(a.log_all(Seq::empty()) =~= a);
    assert(a.log_all(lines).log(line) =~= a.log_all(lines.push(line)));
    assert(a.log_all(lines).log_all(more) =~= a.log_all(lines + more));
}

/// The log line for a tool that could not be run.
pub open spec fn not_run_line(tool: Seq<char>) -> Seq<char> {
    "Failed to run "@ + tool
}

/// The log line for a step that succeeded.
pub open spec fn done_line(step: ActionView) -> Seq<char> {
    "Done: "@ + step.subject()
}

/// The log line for a step that did not succeed.
pub open spec fn failed_line(step: ActionView) -> Seq<char> {
    "Failed: "@ + step.subject()
}

/// Every item of a list behind the same opening words.
pub open spec fn prefixed(opening: Seq<char>, items: Seq<Seq<char>>) -> Seq<Seq<char>> {
    Seq::new(items.len(), |i: int| opening + items[i])
}

/// The log lines for a list of disks: one for each disk, followed by one for
/// each of its partitions.
pub open spec fn disk_lines(disks: Seq<DiskView>) -> Seq<Seq<char>>
    decreases disks.len(),
{
    if disks.len() == 0 {
        Seq::empty()
    } else {
        disk_lines(disks.drop_last()).push("Disk detect: "@ + disks.last().0) + prefixed(
            "Part detect: "@,
            disks.last().1,
        )
    }
}

/// The log lines for what a PCI listing showed.
pub open spec fn hardware_lines(gpu: GpuVendors, intel_audio: bool) -> Seq<Seq<char>> {
    (if gpu.nvidia {
        seq!["Nvidia gpu detect"@]
    } else {
        Seq::empty()
    }) + (if gpu.amd {
        seq!["Amd gpu detect"@]
    } else {
        Seq::empty()
    }) + (if gpu.intel {
        seq!["Intel gpu detect"@]
    } else {
        Seq::empty()
    }) + (if intel_audio {
        seq!["Intel audio detect"@]
    } else {
        Seq::empty()
    })
}

/// The log lines for the processor maker and the boot mode.
pub open spec fn cpu_lines(cpu: CpuVendor, efi: bool) -> Seq<Seq<char>> {
    (match cpu {
        CpuVendor::Amd => seq!["Amd cpu detect"@],
        CpuVendor::Intel => seq!["Intel cpu detect"@],
        CpuVendor::Unknown => Seq::empty(),
    }) + (if efi {
        seq!["Efi detect"@]
    } else {
        Seq::empty()
    })
}

/// The connectivity probe: one echo request to a well-known address, with a
/// bounded wait for the answer.
pub open spec fn probe_spec() -> ActionView {
    run_spec("ping"@, seq!["-c"@, "1"@, "-W"@, "5"@, "8.8.8.8"@])
}

/// The steps that set up time synchronization where the clock is not
/// synchronized: write the fallback configuration, restart the service.
pub open spec fn remedy_spec() -> Seq<ActionView> {
    seq![
        ActionView::Write {
            path: "/etc/systemd/timesyncd.conf"@,
            contents: "\n[Time]\nNTP=time.cloudflare.com time.google.com\nFallbackNTP=time.cloudflare.com time.google.com 0.arch.pool.ntp.org 1.arch.pool.ntp.org 2.arch.pool.ntp.org 3.arch.pool.ntp.org\n"@,
        },
        run_spec("systemctl"@, seq!["restart"@, "systemd-timesyncd.service"@]),
    ]
}

/// The session at its start: on the language screen, in English, with
/// nothing detected, chosen or logged yet.
pub open spec fn start() -> AppView {
    AppView {
        install_list: Seq::empty(),
        user: DataView { name: Seq::empty(), password: Seq::empty() },
        disk_list: Seq::empty(),
        disk_tom_efi: None,
        disk_tom: Seq::empty(),
        disk: 0,
        wifi_device: Seq::empty(),
        wifi_list: Seq::empty(),
        wifi: DataView { name: Seq::empty(), password: Seq::empty() },
        language_list: langs_view(),
        language: en_view(),
        screen: Screen::LanguageSelection,
        editing: None,
        select_num: 0,
        debug_mode: false,
        logs: Seq::empty(),
        log_times: Seq::empty(),
        now: 0,
        offline: false,
        efi_present: false,
        clock_synced: false,
        cpu: CpuVendor::Unknown,
        gpu: GpuVendors { nvidia: false, amd: false, intel: false },
        intel_audio: false,
        pending: Pending::Key,
        cursor: 0,
        error: None,
    }
}

/// The fatal error for a step that did not succeed, by the sequence that the
/// session was running.
pub open spec fn step_fatal(pending: Pending, error: StepError) -> Fatal {
    match pending {
        Pending::Remedy => Fatal::ClockSync(error),
        Pending::Storage => Fatal::Storage(error),
        Pending::Install => Fatal::Install(error),
        _ => Fatal::Finalize(error),
    }
}

/// The screens of the network stage: those before any disk is looked at.
pub open spec fn network_stage(screen: Screen) -> bool {
    screen == Screen::LanguageSelection || screen == Screen::WifiSelection
}

impl AppView {
    /// The session with one more line in its log, stamped with the time of the
    /// session.
    pub open spec fn log(self, line: Seq<char>) -> AppView {
        AppView {
            logs: self.logs.push(line),
            log_times: self.log_times.push(self.now),
            ..self
        }
    }

    /// The session with more lines in its log, all stamped with the time of
    /// the session.
    pub open spec fn log_all(self, lines: Seq<Seq<char>>) -> AppView {
        AppView {
            logs: self.logs + lines,
            log_times: self.log_times + stamps(lines.len(), self.now),
            ..self
        }
    }

    /// The session after a fatal error: it waits for nothing any more.
    pub open spec fn fail(self, error: Fatal, line: Seq<char>) -> AppView {
        AppView { pending: Pending::Failed, error: Some(error), ..self.log(line) }
    }

    /// The partitions of the selected disk.
    pub open spec fn partitions(self) -> Seq<Seq<char>> {
        if self.disk < self.disk_list.len() {
            self.disk_list[self.disk as int].1
        } else {
            Seq::empty()
        }
    }

    /// The name of the selected disk.
    pub open spec fn disk_name(self) -> Seq<char> {
        if self.disk < self.disk_list.len() {
            self.disk_list[self.disk as int].0
        } else {
            Seq::empty()
        }
    }

    /// The steps that prepare the chosen partitions.
    pub open spec fn storage_steps(self) -> Seq<ActionView> {
        format_and_mount_spec(self.disk_tom, self.disk_tom_efi)
    }

    /// The steps of the final configuration.
    pub open spec fn finalize_steps(self) -> Seq<ActionView> {
        finalize_spec(
            self.user.name,
            self.user.password,
            self.language.locale,
            self.disk_name(),
            self.disk_tom_efi is Some,
        )
    }

    /// No EFI partition is chosen on a machine without EFI.
    pub open spec fn wf(self) -> bool {
        !self.efi_present ==> self.disk_tom_efi is None
    }

    /// What the session waits for once the clock is dealt with: the list of
    /// disks if it has none yet, else the next key.
    pub open spec fn after_clock(self) -> AppView {
        AppView {
            pending: if self.disk_list.len() == 0 {
                Pending::Disks
            } else {
                Pending::Key
            },
            cursor: 0,
            ..self
        }
    }

    /// The session after the step at its cursor ended: a success is logged and
    /// the cursor moves on, or the session goes over to `then` after the last
    /// step; anything else is fatal.
    pub open spec fn step_done(self, steps: Seq<ActionView>, outcome: Outcome, then: Pending)
        -> AppView {
        if self.cursor >= steps.len() {
            AppView { pending: then, cursor: 0, ..self }
        } else {
            match advance_spec(self.cursor, outcome) {
                Ok(next) => {
                    let logged = self.log(done_line(steps[self.cursor as int]));
                    if next >= steps.len() {
                        AppView { pending: then, cursor: 0, ..logged }
                    } else {
                        AppView { cursor: next, ..logged }
                    }
                },
                Err(error) => self.fail(
                    step_fatal(self.pending, error),
                    failed_line(steps[self.cursor as int]),
                ),
            }
        }
    }

    /// The session on its way to the network screen: it lists the networks,
    /// after finding the device if it has none yet.
    pub open spec fn to_networks(self) -> AppView {
        AppView {
            screen: Screen::WifiSelection,
            editing: None,
            select_num: 0,
            pending: if self.wifi_device.len() == 0 {
                Pending::Devices
            } else {
                Pending::Networks
            },
            ..self
        }
    }

    /// The connectivity probe has ended. A probe that reached the outside opens
    /// the storage stage. One that did not leaves the session offline and in
    /// the network stage: coming from the language screen it goes on to list
    /// the networks, on the network screen it hands control back to the user.
    pub open spec fn wifi_check(self, outcome: Outcome) -> AppView {
        if self.pending != Pending::Probe {
            self
        } else if reachable(outcome) {
            AppView {
                offline: false,
                screen: Screen::DiskSelection,
                editing: None,
                disk: 0,
                select_num: 0,
                pending: Pending::Clock,
                ..self.log("Network is reachable"@)
            }
        } else if self.screen == Screen::WifiSelection {
            AppView { offline: true, pending: Pending::Key, ..self.log("Network is unreachable"@) }
        } else {
            (AppView { offline: true, ..self.log("Network is unreachable"@) }).to_networks()
        }
    }

    /// The device listing has arrived. The device is taken from it once and
    /// kept; a listing that names none is fatal.
    pub open spec fn set_wifi_device(self, outcome: Outcome, listing: Seq<char>) -> AppView {
        if self.pending != Pending::Devices {
            self
        } else if outcome == Outcome::NotStarted {
            self.fail(Fatal::ToolInvocation, not_run_line("iwctl"@))
        } else {
            match device_of(listing) {
                None => self.fail(
                    Fatal::Detection(DetectError::EmptyResult),
                    "Failed to get network device"@,
                ),
                Some(device) => AppView {
                    wifi_device: device,
                    pending: Pending::Networks,
                    ..self.log("Network device detect: "@ + device)
                },
            }
        }
    }

    /// The scan listing has arrived. Its networks replace the list; an empty
    /// list is as good as any other.
    pub open spec fn set_wifi_list(self, outcome: Outcome, listing: Seq<char>) -> AppView {
        if self.pending != Pending::Networks {
            self
        } else if outcome == Outcome::NotStarted {
            self.fail(Fatal::ToolInvocation, not_run_line("iwctl"@))
        } else {
            AppView {
                wifi_list: networks_of(listing),
                select_num: 0,
                pending: Pending::Key,
                ..self.log("WiFi scan done"@).log_all(
                    prefixed("WiFi detect: "@, networks_of(listing)),
                )
            }
        }
    }

    /// The association call has ended. Whether the network was joined is for
    /// the probe to find out, which comes next: the session counts as offline
    /// no longer.
    pub open spec fn wifi_connect(self, outcome: Outcome) -> AppView {
        if self.pending != Pending::Connect {
            self
        } else {
            match connect_result_spec(outcome) {
                Err(error) => self.fail(Fatal::Connect(error), not_run_line("iwctl"@)),
                Ok(_) => AppView {
                    offline: false,
                    pending: Pending::Probe,
                    ..self.log("Wifi connect to "@ + self.wifi.name)
                },
            }
        }
    }

    /// The time-sync status has arrived. An unsynchronized clock is set right
    /// before anything else happens.
    pub open spec fn time_sync(self, outcome: Outcome, status: Seq<char>) -> AppView {
        if self.pending != Pending::Clock {
            self
        } else if outcome == Outcome::NotStarted {
            self.fail(Fatal::ToolInvocation, not_run_line("timedatectl"@))
        } else if clock_synced(status) {
            (AppView { clock_synced: true, ..self.log("Clock is synchronized"@) }).after_clock()
        } else {
            AppView {
                clock_synced: false,
                pending: Pending::Remedy,
                cursor: 0,
                ..self.log("Clock is not synchronized"@)
            }
        }
    }

    /// A step of setting up time synchronization has ended.
    pub open spec fn sync_step(self, outcome: Outcome) -> AppView {
        if self.pending != Pending::Remedy {
            self
        } else {
            self.step_done(remedy_spec(), outcome, self.after_clock().pending)
        }
    }

    /// The report on the block devices has arrived. A report that cannot be
    /// read, or one without a disk, is fatal.
    pub open spec fn set_disk_list(self, outcome: Outcome, report: Seq<char>) -> AppView {
        if self.pending != Pending::Disks {
            self
        } else if outcome == Outcome::NotStarted {
            self.fail(Fatal::ToolInvocation, not_run_line("lsblk"@))
        } else {
            match storage_of(report) {
                Err(error) => self.fail(Fatal::Detection(error), "Failed to get disk list"@),
                Ok(disks) => AppView {
                    disk_list: disks,
                    pending: Pending::Key,
                    ..self.log_all(disk_lines(disks))
                },
            }
        }
    }

    /// The firmware has been looked at. With EFI the user goes on to choose
    /// the EFI partition; without it no EFI partition is kept and the user
    /// goes on to the account.
    pub open spec fn efi_check(self, outcome: Outcome) -> AppView {
        if self.pending != Pending::Firmware {
            self
        } else if outcome == Outcome::Done {
            AppView {
                efi_present: true,
                screen: Screen::Efipart,
                select_num: 0,
                pending: Pending::Key,
                ..self.log("Efi is true"@)
            }
        } else {
            AppView {
                efi_present: false,
                disk_tom_efi: None,
                screen: Screen::UserSetup,
                user: DataView { name: Seq::empty(), password: Seq::empty() },
                editing: Some(Editing::Name),
                pending: Pending::Key,
                ..self.log("Efi is false"@)
            }
        }
    }

    /// A step of preparing the partitions has ended.
    pub open spec fn mount_and_format(self, outcome: Outcome) -> AppView {
        if self.pending != Pending::Storage {
            self
        } else {
            self.step_done(self.storage_steps(), outcome, Pending::Pci)
        }
    }

    /// The PCI listing has arrived.
    pub open spec fn set_hardware(self, outcome: Outcome, listing: Seq<char>) -> AppView {
        if self.pending != Pending::Pci {
            self
        } else if outcome == Outcome::NotStarted {
            self.fail(Fatal::ToolInvocation, not_run_line("lspci"@))
        } else {
            let gpu = gpu_vendors_of(listing);
            let intel_audio = found(listing, Mark::IntelAudio);
            AppView {
                gpu,
                intel_audio,
                pending: Pending::Cpu,
                ..self.log("PCI scan done"@).log_all(hardware_lines(gpu, intel_audio))
            }
        }
    }

    /// The processor description has arrived, which completes the facts: the
    /// plan is made. A description that could not be read counts as empty.
    pub open spec fn set_install_list(self, outcome: Outcome, description: Seq<char>) -> AppView {
        if self.pending != Pending::Cpu {
            self
        } else {
            let cpu = cpu_vendor_of(
                if outcome == Outcome::Done {
                    description
                } else {
                    Seq::empty()
                },
            );
            let efi = self.disk_tom_efi is Some;
            AppView {
                cpu,
                install_list: plan_spec(cpu, self.gpu, self.intel_audio, efi),
                select_num: 0,
                pending: Pending::Install,
                ..self.log_all(cpu_lines(cpu, efi)).log("Install list set"@)
            }
        }
    }

    /// The installation of the group at the cursor has ended. A success moves
    /// the cursor on, and past the last group the final configuration begins.
    /// With no group left there is nothing to record, which is no error.
    pub open spec fn install(self, outcome: Outcome) -> AppView {
        if self.pending != Pending::Install {
            self
        } else if self.select_num >= self.install_list.len() {
            AppView { pending: Pending::Finalize, cursor: 0, ..self }
        } else {
            let label = self.install_list[self.select_num as int].0;
            match advance_spec(self.select_num, outcome) {
                Ok(next) => {
                    let logged = self.log("Install: "@ + label);
                    if next >= self.install_list.len() {
                        AppView { select_num: next, pending: Pending::Finalize, cursor: 0, ..logged }
                    } else {
                        AppView { select_num: next, ..logged }
                    }
                },
                Err(error) => self.fail(Fatal::Install(error), "Failed install: "@ + label),
            }
        }
    }

    /// A step of the final configuration has ended.
    pub open spec fn complite(self, outcome: Outcome) -> AppView {
        if self.pending != Pending::Finalize {
            self
        } else {
            self.step_done(self.finalize_steps(), outcome, Pending::Finished)
        }
    }

    /// The outside work that the session waits for has ended with `outcome`
    /// and printed `output`.
    pub open spec fn complete(self, outcome: Outcome, output: Seq<char>) -> AppView {
        match self.pending {
            Pending::Key | Pending::Finished | Pending::Failed => self,
            Pending::Probe => self.wifi_check(outcome),
            Pending::Devices => self.set_wifi_device(outcome, output),
            Pending::Networks => self.set_wifi_list(outcome, output),
            Pending::Connect => self.wifi_connect(outcome),
            Pending::Clock => self.time_sync(outcome, output),
            Pending::Remedy => self.sync_step(outcome),
            Pending::Disks => self.set_disk_list(outcome, output),
            Pending::Firmware => self.efi_check(outcome),
            Pending::Storage => self.mount_and_format(outcome),
            Pending::Pci => self.set_hardware(outcome, output),
            Pending::Cpu => self.set_install_list(outcome, output),
            Pending::Install => self.install(outcome),
            Pending::Finalize => self.complite(outcome),
        }
    }

    /// The outside work that the session waits for, or `None` where it waits
    /// for a key or for nothing at all.
    pub open spec fn request(self) -> Option<ActionView> {
        match self.pending {
            Pending::Key | Pending::Finished | Pending::Failed => None,
            Pending::Probe => Some(probe_spec()),
            Pending::Devices => Some(run_spec("iwctl"@, seq!["station"@, "list"@])),
            Pending::Networks => Some(
                run_spec("iwctl"@, seq!["station"@, self.wifi_device, "get-networks"@]),
            ),
            Pending::Connect => Some(
                connect_spec(self.wifi_device, self.wifi.name, self.wifi.password),
            ),
            Pending::Clock => Some(run_spec("timedatectl"@, Seq::empty())),
            Pending::Remedy => if self.cursor < remedy_spec().len() {
                Some(remedy_spec()[self.cursor as int])
            } else {
                None
            },
            Pending::Disks => Some(run_spec("lsblk"@, seq!["-J"@])),
            Pending::Firmware => Some(
                ActionView::Exists { path: "/sys/firmware/efi/fw_platform_size"@ },
            ),
            Pending::Storage => if self.cursor < self.storage_steps().len() {
                Some(self.storage_steps()[self.cursor as int])
            } else {
                None
            },
            Pending::Pci => Some(run_spec("lspci"@, seq!["-mm"@])),
            Pending::Cpu => Some(ActionView::Read { path: "/proc/cpuinfo"@ }),
            Pending::Install => install_next_spec(self.install_list, self.select_num as nat),
            Pending::Finalize => if self.cursor < self.finalize_steps().len() {
                Some(self.finalize_steps()[self.cursor as int])
            } else {
                None
            },
        }
    }

    /// A key on the language screen. The enter key asks for the connectivity
    /// probe, unless the last probe got no answer and no network was joined
    /// since: then it leads to the network screen.
    pub open spec fn press_language(self, key: Key) -> AppView {
        match key {
            Key::Char(c) => if c == 'd' {
                AppView { debug_mode: !self.debug_mode, ..self }
            } else {
                self
            },
            Key::Up => self.choose_language(up(self.select_num)).log("Up"@),
            Key::Down => self.choose_language(down(self.select_num, self.language_list.len())).log(
                "Down"@,
            ),
            Key::Enter => if self.offline {
                self.to_networks()
            } else {
                AppView { pending: Pending::Probe, ..self }
            },
            _ => self,
        }
    }

    /// The session with the language at place `i` of the list chosen.
    pub open spec fn choose_language(self, i: usize) -> AppView {
        AppView {
            select_num: i,
            language: if i < self.language_list.len() {
                self.language_list[i as int]
            } else {
                self.language
            },
            ..self
        }
    }

    /// A key on the network screen while the list of networks is shown.
    pub open spec fn press_wifi_list(self, key: Key) -> AppView {
        match key {
            Key::Esc => AppView { screen: Screen::LanguageSelection, ..self.choose_language(0) },
            Key::Up => AppView { select_num: up(self.select_num), ..self },
            Key::Down => AppView {
                select_num: down(self.select_num, self.wifi_list.len()),
                ..self
            },
            Key::Enter => if self.select_num < self.wifi_list.len() {
                let name = self.wifi_list[self.select_num as int];
                AppView {
                    wifi: DataView { name, password: Seq::empty() },
                    editing: Some(Editing::Password),
                    ..self.log("Network select: "@ + name)
                }
            } else {
                self
            },
            _ => self,
        }
    }

    /// A key on the network screen while the password is typed. The enter key
    /// asks for the network to be joined.
    pub open spec fn press_wifi_password(self, key: Key) -> AppView {
        match key {
            Key::Esc => AppView { editing: None, ..self },
            Key::Enter => AppView { pending: Pending::Connect, ..self },
            Key::Char(_) | Key::Backspace => AppView {
                wifi: DataView { password: typed(self.wifi.password, key), ..self.wifi },
                ..self
            },
            _ => self,
        }
    }

    /// A key on the network screen.
    pub open spec fn press_wifi(self, key: Key) -> AppView {
        match self.editing {
            None => self.press_wifi_list(key),
            Some(_) => self.press_wifi_password(key),
        }
    }

    /// A key on the disk screen.
    pub open spec fn press_disk(self, key: Key) -> AppView {
        match key {
            Key::Esc => AppView { screen: Screen::WifiSelection, select_num: 0, ..self },
            Key::Up => AppView { disk: up(self.disk), ..self },
            Key::Down => AppView { disk: down(self.disk, self.disk_list.len()), ..self },
            Key::Enter => AppView { screen: Screen::Partitioning, select_num: 0, ..self },
            _ => self,
        }
    }

    /// A key on the partition screen.
    pub open spec fn press_partition(self, key: Key) -> AppView {
        match key {
            Key::Esc => AppView { screen: Screen::DiskSelection, disk: 0, ..self },
            Key::Up => AppView { select_num: up(self.select_num), ..self },
            Key::Down => AppView {
                select_num: down(self.select_num, self.partitions().len()),
                ..self
            },
            Key::Enter => if self.select_num < self.partitions().len() {
                let name = self.partitions()[self.select_num as int];
                AppView {
                    disk_tom: name,
                    pending: Pending::Firmware,
                    ..self.log("Select disk tom: "@ + name)
                }
            } else {
                self
            },
            _ => self,
        }
    }

    /// A key on the screen of the EFI partition. A partition is taken only on
    /// a machine with EFI.
    pub open spec fn press_efi(self, key: Key) -> AppView {
        match key {
            Key::Esc => AppView { screen: Screen::Partitioning, select_num: 0, ..self },
            Key::Up => AppView { select_num: up(self.select_num), ..self },
            Key::Down => AppView {
                select_num: down(self.select_num, self.partitions().len()),
                ..self
            },
            Key::Enter => if self.efi_present && self.select_num < self.partitions().len() {
                let name = self.partitions()[self.select_num as int];
                AppView {
                    disk_tom_efi: Some(name),
                    screen: Screen::UserSetup,
                    user: DataView { name: Seq::empty(), password: Seq::empty() },
                    editing: Some(Editing::Name),
                    ..self.log("Select disk tom for efi: "@ + name)
                }
            } else {
                self
            },
            _ => self,
        }
    }

    /// A key on the account screen. The installation begins only with a name
    /// and a password that the installed system accepts.
    pub open spec fn press_user(self, key: Key) -> AppView {
        match key {
            Key::Esc => AppView { screen: Screen::Partitioning, select_num: 0, ..self },
            Key::Up => AppView { editing: Some(Editing::Name), ..self },
            Key::Down => AppView { editing: Some(Editing::Password), ..self },
            Key::Enter => match self.editing {
                Some(Editing::Password) => if valid_user(self.user.name, self.user.password) {
                    AppView {
                        screen: Screen::Installing,
                        editing: None,
                        pending: Pending::Storage,
                        cursor: 0,
                        ..self.log("User create: "@ + self.user.name)
                    }
                } else {
                    self
                },
                Some(Editing::Name) => AppView { editing: Some(Editing::Password), ..self },
                None => AppView { editing: Some(Editing::Name), ..self },
            },
            Key::Char(_) | Key::Backspace => match self.editing {
                Some(Editing::Name) => AppView {
                    user: DataView { name: typed(self.user.name, key), ..self.user },
                    ..self
                },
                Some(Editing::Password) => AppView {
                    user: DataView { password: typed(self.user.password, key), ..self.user },
                    ..self
                },
                None => self,
            },
            _ => self,
        }
    }

    /// What a key does to the session. While outside work is awaited, and
    /// once the installation has begun, keys change nothing.
    pub open spec fn press(self, key: Key) -> AppView {
        if self.pending != Pending::Key {
            self
        } else {
            match self.screen {
                Screen::LanguageSelection => self.press_language(key),
                Screen::WifiSelection => self.press_wifi(key),
                Screen::DiskSelection => self.press_disk(key),
                Screen::Partitioning => self.press_partition(key),
                Screen::Efipart => self.press_efi(key),
                Screen::UserSetup => self.press_user(key),
                Screen::Installing => self,
            }
        }
    }

    /// Whether a key asks to leave the installer: `q` or escape on the
    /// language screen, and once the installation has ended or failed.
    pub open spec fn quits(self, key: Key) -> bool {
        (key == Key::Esc || key == Key::Char('q')) && (self.pending == Pending::Finished
            || self.pending == Pending::Failed || (self.pending == Pending::Key && self.screen
            == Screen::LanguageSelection))
    }
}

} // verus!
