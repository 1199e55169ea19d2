//! The installer's session: what the user has chosen, what was detected, what
//! was logged, and what the installer waits for.
//!
//! The session never touches the machine. It says which outside work it
//! needs (`request`), and is told how that work ended (`complete`) and which
//! keys were pressed (`press`).

use crate::action::{advance, join, owned, Action, Outcome, StepError};
use crate::data::Data;
use crate::detect::{detect_clock_sync, detect_cpu_vendor, scan_pci, DetectError};
use crate::lang::{get_langs, Lang};
use crate::model::{
    cpu_lines, disk_lines, down, hardware_lines, lemma_log_all, prefixed, probe_spec, remedy_spec,
    start, step_fatal, up, AppView,
};
use crate::network::{
    check_connectivity, connect_result, detect_network_device, detect_networks, reachable,
    ConnectError,
};
use crate::plan::{plan_groups, CpuVendor, Disk, GpuVendors, InstallPlan};
use crate::provision::finalize;
use crate::storage::{detect_storage, format_and_mount, StorageSelection};
use vstd::prelude::*;

verus! {

/// The screens of the installer, in the order in which the user passes them.
#[derive(Clone, Copy, PartialEq, Eq, Structural, Debug)]
pub enum Screen {
    LanguageSelection,
    WifiSelection,
    DiskSelection,
    Partitioning,
    Efipart,
    UserSetup,
    Installing,
}

/// The field that the keys go to.
#[derive(Clone, Copy, PartialEq, Eq, Structural, Debug)]
pub enum Editing {
    Name,
    Password,
}

/// A key as the session sees it.
#[derive(Clone, Copy, PartialEq, Eq, Structural, Debug)]
pub enum Key {
    Char(char),
    Esc,
    Up,
    Down,
    Enter,
    Backspace,
    Other,
}

/// What the session waits for: a key, the end of one piece of outside work,
/// or nothing any more.
#[derive(Clone, Copy, PartialEq, Eq, Structural, Debug)]
pub enum Pending {
    Key,
    Probe,
    Devices,
    Networks,
    Connect,
    Clock,
    Remedy,
    Disks,
    Firmware,
    Storage,
    Pci,
    Cpu,
    Install,
    Finalize,
    Finished,
    Failed,
}

/// An error that ends the installation.
#[derive(Clone, Copy, PartialEq, Eq, Structural, Debug)]
pub enum Fatal {
    /// A probing tool could not be run.
    ToolInvocation,
    /// A fact that the installation needs could not be had.
    Detection(DetectError),
    /// The association tool could not be run.
    Connect(ConnectError),
    /// Time synchronization could not be set up.
    ClockSync(StepError),
    /// A partition could not be formatted or mounted.
    Storage(StepError),
    /// A package group could not be installed.
    Install(StepError),
    /// A step of the final configuration failed.
    Finalize(StepError),
}

/// The session of one installation.
#[derive(Debug)]
pub struct App {
    pub install_list: InstallPlan,
    pub user: Data,
    pub disk_list: Vec<Disk>,
    pub disk_tom_efi: Option<String>,
    pub disk_tom: String,
    pub disk: usize,
    pub wifi_device: String,
    pub wifi_list: Vec<String>,
    pub wifi: Data,
    pub language_list: Vec<Lang>,
    pub language: Lang,
    pub screen: Screen,
    pub editing: Option<Editing>,
    pub select_num: usize,
    pub debug_mode: bool,
    pub logs: Vec<String>,
    /// For each line of the log, the time at which it was logged.
    pub log_times: Vec<u64>,
    /// The time of the event that the session is told of next, as whoever
    /// drives the session reads it from a clock.
    pub now: u64,
    pub offline: bool,
    pub efi_present: bool,
    pub clock_synced: bool,
    pub cpu: CpuVendor,
    pub gpu: GpuVendors,
    pub intel_audio: bool,
    pub pending: Pending,
    pub cursor: usize,
    pub error: Option<Fatal>,
}

impl View for App {
    type V = AppView;

    open spec fn view(&self) -> AppView {
        AppView {
            install_list: self.install_list.deep_view(),
            user: self.user@,
            disk_list: self.disk_list.deep_view(),
            disk_tom_efi: self.disk_tom_efi.deep_view(),
            disk_tom: self.disk_tom@,
            disk: self.disk,
            wifi_device: self.wifi_device@,
            wifi_list: self.wifi_list.deep_view(),
            wifi: self.wifi@,
            language_list: self.language_list.deep_view(),
            language: self.language@,
            screen: self.screen,
            editing: self.editing,
            select_num: self.select_num,
            debug_mode: self.debug_mode,
            logs: self.logs.deep_view(),
            log_times: self.log_times@,
            now: self.now,
            offline: self.offline,
            efi_present: self.efi_present,
            clock_synced: self.clock_synced,
            cpu: self.cpu,
            gpu: self.gpu,
            intel_audio: self.intel_audio,
            pending: self.pending,
            cursor: self.cursor,
            error: self.error,
        }
    }
}

/// The program that an action runs, or the file that it touches.
pub fn subject_of(action: &Action) -> (subject: &String)
    ensures
        subject@ == action@.subject(),
{
    match action {
        Action::Run { program, .. } => program,
        Action::Feed { program, .. } => program,
        Action::Capture { program, .. } => program,
        Action::Write { path, .. } => path,
        Action::Append { path, .. } => path,
        Action::Exists { path } => path,
        Action::Read { path } => path,
    }
}

/// One place up in a list.
pub fn step_up(i: usize) -> (r: usize)
    ensures
        r == up(i),
{
    if i > 0 {
        i - 1
    } else {
        0
    }
}

/// One place down in a list of `len` items.
pub fn step_down(i: usize, len: usize) -> (r: usize)
    ensures
        r == down(i, len as nat),
{
    if len == 0 {
        0
    } else if i < len - 1 {
        i + 1
    } else {
        len - 1
    }
}

impl App {
    /// A session at its start: on the language screen, in English, waiting for
    /// a key.
    pub fn new() -> (app: Self)
        ensures
            app@ == start(),
            app@.wf(),
    {
        let app = Self {
            install_list: Vec::new(),
            user: Data::new(),
            disk_list: Vec::new(),
            disk_tom_efi: None,
            disk_tom: String::new(),
            disk: 0,
            wifi_device: String::new(),
            wifi_list: Vec::new(),
            wifi: Data::new(),
            language_list: get_langs(),
            language: Lang::en(),
            screen: Screen::LanguageSelection,
            editing: None,
            select_num: 0,
            debug_mode: false,
            logs: Vec::new(),
            log_times: Vec::new(),
            now: 0,
            offline: false,
            efi_present: false,
            clock_synced: false,
            cpu: CpuVendor::Unknown,
            gpu: GpuVendors { nvidia: false, amd: false, intel: false },
            intel_audio: false,
            pending: Pending::Key,
            cursor: 0,
            error: None,
        };
        assert(app@ =~= start());
        app
    }

    /// Appends a line to the log.
    pub(crate) fn log(&mut self, line: String)
        ensures
            final(self)@ == old(self)@.log(line@),
    {
        self.logs.push(line);
        self.log_times.push(self.now);
        assert(self@ =~= old(self)@.log(line@));
    }

    /// Ends the installation with a fatal error and a last line in the log.
    pub(crate) fn fail(&mut self, error: Fatal, line: String)
        ensures
            final(self)@ == old(self)@.fail(error, line@),
    {
        self.log(line);
        self.pending = Pending::Failed;
        self.error = Some(error);
        assert(self@ =~= old(self)@.fail(error, line@));
    }

    /// Records the end of the step at the cursor of a sequence of steps.
    #[verifier::rlimit(60)]
    pub(crate) fn step_done(&mut self, steps: &Vec<Action>, outcome: Outcome, then: Pending)
        ensures
            final(self)@ == old(self)@.step_done(steps.deep_view(), outcome, then),
    {
        assert(steps.deep_view().len() == steps.len());
        if self.cursor >= steps.len() {
            self.pending = then;
            self.cursor = 0;
        } else {
            assert(steps.deep_view()[self.cursor as int] == steps[self.cursor as int]@);
            let subject = subject_of(&steps[self.cursor]);
            match advance(self.cursor, outcome) {
                Ok(next) => {
                    self.log(join("Done: ", subject.as_str()));
                    if next >= steps.len() {
                        self.pending = then;
                        self.cursor = 0;
                    } else {
                        self.cursor = next;
                    }
                },
                Err(error) => {
                    let fatal = fatal_of(self.pending, error);
                    self.fail(fatal, join("Failed: ", subject.as_str()));
                },
            }
        }
        assert(self@ =~= old(self)@.step_done(steps.deep_view(), outcome, then));
    }
}

/// The fatal error for a step that did not succeed, by the sequence that the
/// session was running.
pub fn fatal_of(pending: Pending, error: StepError) -> (fatal: Fatal)
    ensures
        fatal == step_fatal(pending, error),
{
    match pending {
        Pending::Remedy => Fatal::ClockSync(error),
        Pending::Storage => Fatal::Storage(error),
        Pending::Install => Fatal::Install(error),
        _ => Fatal::Finalize(error),
    }
}

impl App {
    /// Appends to the log one line for each item: the opening words, then the
    /// item.
    pub(crate) fn log_prefixed(&mut self, opening: &str, items: &Vec<String>)
        ensures
            final(self)@ == old(self)@.log_all(prefixed(opening@, items.deep_view())),
    {
        let ghost lines = prefixed(opening@, items.deep_view());
        let mut i: usize = 0;
        proof {
            assert(lines.take(0) =~= Seq::<Seq<char>>::empty());
            lemma_log_all(old(self)@, Seq::empty(), Seq::empty(), Seq::empty());
        }
        while i < items.len()
            invariant
                i <= items.len(),
                lines == prefixed(opening@, items.deep_view()),
                self@ == old(self)@.log_all(lines.take(i as int)),
            decreases items.len() - i,
        {
            assert(items.deep_view()[i as int] == items[i as int]@);
            self.log(join(opening, items[i].as_str()));
            proof {
                lemma_log_all(old(self)@, lines.take(i as int), lines[i as int], Seq::empty());
                assert(lines.take(i + 1) =~= lines.take(i as int).push(lines[i as int]));
            }
            i += 1;
        }
        assert(lines.take(items.len() as int) =~= lines);
    }

    /// Appends to the log the lines for what a PCI listing showed.
    pub(crate) fn log_hardware(&mut self, gpu: GpuVendors, intel_audio: bool)
        ensures
            final(self)@ == old(self)@.log_all(hardware_lines(gpu, intel_audio)),
    {
        let ghost mut lines: Seq<Seq<char>> = Seq::empty();
        proof {
            lemma_log_all(old(self)@, Seq::empty(), Seq::empty(), Seq::empty());
        }
        if gpu.nvidia {
            self.log(owned("Nvidia gpu detect"));
            proof {
                lemma_log_all(old(self)@, lines, "Nvidia gpu detect"@, Seq::empty());
                lines = lines.push("Nvidia gpu detect"@);
            }
        }
        if gpu.amd {
            self.log(owned("Amd gpu detect"));
            proof {
                lemma_log_all(old(self)@, lines, "Amd gpu detect"@, Seq::empty());
                lines = lines.push("Amd gpu detect"@);
            }
        }
        if gpu.intel {
            self.log(owned("Intel gpu detect"));
            proof {
                lemma_log_all(old(self)@, lines, "Intel gpu detect"@, Seq::empty());
                lines = lines.push("Intel gpu detect"@);
            }
        }
        if intel_audio {
            self.log(owned("Intel audio detect"));
            proof {
                lemma_log_all(old(self)@, lines, "Intel audio detect"@, Seq::empty());
                lines = lines.push("Intel audio detect"@);
            }
        }
        assert(lines =~= hardware_lines(gpu, intel_audio));
    }

    /// Appends to the log the lines for the processor maker and the boot mode.
    pub(crate) fn log_cpu(&mut self, cpu: CpuVendor, efi: bool)
        ensures
            final(self)@ == old(self)@.log_all(cpu_lines(cpu, efi)),
    {
        let ghost mut lines: Seq<Seq<char>> = Seq::empty();
        proof {
            lemma_log_all(old(self)@, Seq::empty(), Seq::empty(), Seq::empty());
        }
        match cpu {
            CpuVendor::Amd => {
                self.log(owned("Amd cpu detect"));
                proof {
                    lemma_log_all(old(self)@, lines, "Amd cpu detect"@, Seq::empty());
                    lines = lines.push("Amd cpu detect"@);
                }
            },
            CpuVendor::Intel => {
                self.log(owned("Intel cpu detect"));
                proof {
                    lemma_log_all(old(self)@, lines, "Intel cpu detect"@, Seq::empty());
                    lines = lines.push("Intel cpu detect"@);
                }
            },
            CpuVendor::Unknown => {},
        }
        if efi {
            self.log(owned("Efi detect"));
            proof {
                lemma_log_all(old(self)@, lines, "Efi detect"@, Seq::empty());
                lines = lines.push("Efi detect"@);
            }
        }
        assert(lines =~= cpu_lines(cpu, efi));
    }

    /// Appends to the log the lines for a list of disks.
    pub(crate) fn log_disks(&mut self, disks: &Vec<Disk>)
        ensures
            final(self)@ == old(self)@.log_all(disk_lines(disks.deep_view())),
    {
        let ghost all = disks.deep_view();
        let mut i: usize = 0;
        proof {
            assert(all.take(0) =~= Seq::<crate::storage::DiskView>::empty());
            lemma_log_all(old(self)@, Seq::empty(), Seq::empty(), Seq::empty());
        }
        while i < disks.len()
            invariant
                i <= disks.len(),
                all == disks.deep_view(),
                self@ == old(self)@.log_all(disk_lines(all.take(i as int))),
            decreases disks.len() - i,
        {
            assert(all[i as int] == disks[i as int].deep_view());
            assert(all.take(i + 1).drop_last() =~= all.take(i as int));
            assert(all.take(i + 1).last() == all[i as int]);
            self.log(join("Disk detect: ", disks[i].0.as_str()));
            self.log_prefixed("Part detect: ", &disks[i].1);
            proof {
                let so_far = disk_lines(all.take(i as int));
                let line = "Disk detect: "@ + all[i as int].0;
                let parts = prefixed("Part detect: "@, all[i as int].1);
                lemma_log_all(old(self)@, so_far, line, Seq::empty());
                lemma_log_all(old(self)@, so_far.push(line), line, parts);
            }
            i += 1;
        }
        assert(all.take(disks.len() as int) =~= all);
    }

    /// The chosen partitions.
    pub fn selection(&self) -> (selection: StorageSelection)
        ensures
            selection.root_partition@ == self@.disk_tom,
            selection.efi_partition.deep_view() == self@.disk_tom_efi,
    {
        StorageSelection {
            root_partition: self.disk_tom.clone(),
            efi_partition: match &self.disk_tom_efi {
                Some(partition) => Some(partition.clone()),
                None => None,
            },
        }
    }

    /// The steps of the final configuration for this session.
    pub fn finalize_actions(&self) -> (steps: Vec<Action>)
        ensures
            steps.deep_view() == self@.finalize_steps(),
    {
        let selection = self.selection();
        assert(self.disk_list.deep_view().len() == self.disk_list.len());
        if self.disk < self.disk_list.len() {
            assert(self.disk_list.deep_view()[self.disk as int] == self.disk_list[self.disk as int].deep_view());
            finalize(
                &selection,
                &self.user,
                self.language.locale.as_str(),
                self.disk_list[self.disk].0.as_str(),
            )
        } else {
            proof {
                reveal_strlit("");
            }
            assert(""@ =~= Seq::<char>::empty());
            finalize(&selection, &self.user, self.language.locale.as_str(), "")
        }
    }

    /// Turns to the network screen and asks for the list of networks, after
    /// the device if the session has none yet.
    pub(crate) fn to_networks(&mut self)
        ensures
            final(self)@ == old(self)@.to_networks(),
    {
        self.screen = Screen::WifiSelection;
        self.editing = None;
        self.select_num = 0;
        self.pending = if self.wifi_device.as_str().is_empty() {
            Pending::Devices
        } else {
            Pending::Networks
        };
        assert(self@ =~= old(self)@.to_networks());
    }

    /// Records how the connectivity probe ended, and says whether it reached
    /// the outside. A probe that could not be run counts as one without an
    /// answer; neither is fatal.
    #[verifier::rlimit(60)]
    pub fn wifi_check(&mut self, outcome: Outcome) -> (up: bool)
        ensures
            final(self)@ == old(self)@.wifi_check(outcome),
            up == reachable(outcome),
    {
        let up = check_connectivity(outcome);
        if self.pending == Pending::Probe {
            if up {
                self.log(owned("Network is reachable"));
                self.offline = false;
                self.screen = Screen::DiskSelection;
                self.editing = None;
                self.disk = 0;
                self.select_num = 0;
                self.pending = Pending::Clock;
            } else if self.screen == Screen::WifiSelection {
                self.log(owned("Network is unreachable"));
                self.offline = true;
                self.pending = Pending::Key;
            } else {
                self.log(owned("Network is unreachable"));
                self.offline = true;
                self.to_networks();
            }
        }
        assert(self@ =~= old(self)@.wifi_check(outcome));
        up
    }

    /// Takes the network device from the device listing. The device is looked
    /// up once and then kept.
    pub fn set_wifi_device(&mut self, outcome: Outcome, listing: &str)
        ensures
            final(self)@ == old(self)@.set_wifi_device(outcome, listing@),
    {
        if self.pending == Pending::Devices {
            if outcome == Outcome::NotStarted {
                self.fail(Fatal::ToolInvocation, join("Failed to run ", "iwctl"));
            } else {
                match detect_network_device(listing) {
                    None => {
                        self.fail(
                            Fatal::Detection(DetectError::EmptyResult),
                            owned("Failed to get network device"),
                        );
                    },
                    Some(device) => {
                        self.log(join("Network device detect: ", device.as_str()));
                        self.wifi_device = device;
                        self.pending = Pending::Networks;
                    },
                }
            }
        }
        assert(self@ =~= old(self)@.set_wifi_device(outcome, listing@));
    }

    /// Takes the list of networks from the scan listing.
    pub fn set_wifi_list(&mut self, outcome: Outcome, listing: &str)
        ensures
            final(self)@ == old(self)@.set_wifi_list(outcome, listing@),
    {
        if self.pending == Pending::Networks {
            if outcome == Outcome::NotStarted {
                self.fail(Fatal::ToolInvocation, join("Failed to run ", "iwctl"));
            } else {
                let networks = detect_networks(listing);
                self.log(owned("WiFi scan done"));
                self.log_prefixed("WiFi detect: ", &networks);
                self.wifi_list = networks;
                self.select_num = 0;
                self.pending = Pending::Key;
            }
        }
        assert(self@ =~= old(self)@.set_wifi_list(outcome, listing@));
    }

    /// Records the end of the association call.
    pub fn wifi_connect(&mut self, outcome: Outcome)
        ensures
            final(self)@ == old(self)@.wifi_connect(outcome),
    {
        if self.pending == Pending::Connect {
            match connect_result(outcome) {
                Err(error) => {
                    self.fail(Fatal::Connect(error), join("Failed to run ", "iwctl"));
                },
                Ok(_) => {
                    let line = join("Wifi connect to ", self.wifi.name.as_str());
                    self.log(line);
                    self.offline = false;
                    self.pending = Pending::Probe;
                },
            }
        }
        assert(self@ =~= old(self)@.wifi_connect(outcome));
    }

    /// Reads the time-sync status. Where the clock is not synchronized, time
    /// synchronization is set up next.
    pub fn time_sync(&mut self, outcome: Outcome, status: &str)
        ensures
            final(self)@ == old(self)@.time_sync(outcome, status@),
    {
        if self.pending == Pending::Clock {
            if outcome == Outcome::NotStarted {
                self.fail(Fatal::ToolInvocation, join("Failed to run ", "timedatectl"));
            } else if detect_clock_sync(status) {
                self.log(owned("Clock is synchronized"));
                self.clock_synced = true;
                self.pending = self.after_clock();
                self.cursor = 0;
            } else {
                self.log(owned("Clock is not synchronized"));
                self.clock_synced = false;
                self.pending = Pending::Remedy;
                self.cursor = 0;
            }
        }
        assert(self@ =~= old(self)@.time_sync(outcome, status@));
    }

    /// What the session waits for once the clock is dealt with.
    pub(crate) fn after_clock(&self) -> (pending: Pending)
        ensures
            pending == self@.after_clock().pending,
    {
        assert(self.disk_list.deep_view().len() == self.disk_list.len());
        if self.disk_list.len() == 0 {
            Pending::Disks
        } else {
            Pending::Key
        }
    }

    /// Records the end of a step of setting up time synchronization.
    pub fn sync_step(&mut self, outcome: Outcome)
        ensures
            final(self)@ == old(self)@.sync_step(outcome),
    {
        if self.pending == Pending::Remedy {
            let steps = clock_remedy();
            let then = self.after_clock();
            self.step_done(&steps, outcome, then);
        }
    }

    /// Takes the disks and partitions from the report of the block-device tool.
    pub fn set_disk_list(&mut self, outcome: Outcome, report: &str)
        ensures
            final(self)@ == old(self)@.set_disk_list(outcome, report@),
    {
        if self.pending == Pending::Disks {
            if outcome == Outcome::NotStarted {
                self.fail(Fatal::ToolInvocation, join("Failed to run ", "lsblk"));
            } else {
                match detect_storage(report) {
                    Err(error) => {
                        self.fail(Fatal::Detection(error), owned("Failed to get disk list"));
                    },
                    Ok(disks) => {
                        self.log_disks(&disks);
                        self.disk_list = disks;
                        self.pending = Pending::Key;
                    },
                }
            }
        }
        assert(self@ =~= old(self)@.set_disk_list(outcome, report@));
    }

    /// Records whether the firmware offers EFI, and says so.
    #[verifier::rlimit(60)]
    pub fn efi_check(&mut self, outcome: Outcome) -> (efi: bool)
        ensures
            final(self)@ == old(self)@.efi_check(outcome),
            efi == (outcome == Outcome::Done),
    {
        let efi = outcome == Outcome::Done;
        if self.pending == Pending::Firmware {
            if efi {
                self.log(owned("Efi is true"));
                self.efi_present = true;
                self.screen = Screen::Efipart;
                self.select_num = 0;
                self.pending = Pending::Key;
            } else {
                self.log(owned("Efi is false"));
                self.efi_present = false;
                self.disk_tom_efi = None;
                self.screen = Screen::UserSetup;
                self.user = Data::new();
                self.editing = Some(Editing::Name);
                self.pending = Pending::Key;
            }
        }
        assert(self@ =~= old(self)@.efi_check(outcome));
        efi
    }

    /// Records the end of a step of preparing the partitions.
    pub fn mount_and_format(&mut self, outcome: Outcome)
        ensures
            final(self)@ == old(self)@.mount_and_format(outcome),
    {
        if self.pending == Pending::Storage {
            let steps = format_and_mount(&self.selection());
            self.step_done(&steps, outcome, Pending::Pci);
        }
    }

    /// Takes the graphics makers and the audio chipset from the PCI listing.
    #[verifier::rlimit(60)]
    pub fn set_hardware(&mut self, outcome: Outcome, listing: &str)
        ensures
            final(self)@ == old(self)@.set_hardware(outcome, listing@),
    {
        if self.pending == Pending::Pci {
            if outcome == Outcome::NotStarted {
                self.fail(Fatal::ToolInvocation, join("Failed to run ", "lspci"));
            } else {
                let (gpu, intel_audio) = scan_pci(listing);
                self.log(owned("PCI scan done"));
                self.log_hardware(gpu, intel_audio);
                self.gpu = gpu;
                self.intel_audio = intel_audio;
                self.pending = Pending::Cpu;
            }
        }
        assert(self@ =~= old(self)@.set_hardware(outcome, listing@));
    }

    /// Takes the processor maker from the processor description and makes the
    /// installation plan from the facts that are now complete.
    #[verifier::rlimit(60)]
    pub fn set_install_list(&mut self, outcome: Outcome, description: &str)
        ensures
            final(self)@ == old(self)@.set_install_list(outcome, description@),
    {
        if self.pending == Pending::Cpu {
            proof {
                reveal_strlit("");
            }
            assert(""@ =~= Seq::<char>::empty());
            let cpu = detect_cpu_vendor(
                if outcome == Outcome::Done {
                    description
                } else {
                    ""
                },
            );
            let efi = self.disk_tom_efi.is_some();
            self.log_cpu(cpu, efi);
            self.log(owned("Install list set"));
            self.cpu = cpu;
            self.install_list = plan_groups(cpu, self.gpu, self.intel_audio, efi);
            self.select_num = 0;
            self.pending = Pending::Install;
        }
        assert(self@ =~= old(self)@.set_install_list(outcome, description@));
    }

    /// Records the end of the installation of the group at the cursor.
    #[verifier::rlimit(60)]
    pub fn install(&mut self, outcome: Outcome)
        ensures
            final(self)@ == old(self)@.install(outcome),
    {
        if self.pending != Pending::Install {
            return;
        }
        assert(self.install_list.deep_view().len() == self.install_list.len());
        if self.select_num >= self.install_list.len() {
            self.pending = Pending::Finalize;
            self.cursor = 0;
            assert(self@ =~= old(self)@.install(outcome));
            return;
        }
        assert(self.install_list.deep_view()[self.select_num as int]
            == self.install_list[self.select_num as int].deep_view());
        let label = self.install_list[self.select_num].0.clone();
        assert(label@ == old(self)@.install_list[old(self)@.select_num as int].0);
        match advance(self.select_num, outcome) {
            Ok(next) => {
                self.log(join("Install: ", label.as_str()));
                self.select_num = next;
                if next >= self.install_list.len() {
                    self.pending = Pending::Finalize;
                    self.cursor = 0;
                }
                assert(self@ =~= old(self)@.install(outcome));
            },
            Err(error) => {
                self.fail(Fatal::Install(error), join("Failed install: ", label.as_str()));
                assert(self@ =~= old(self)@.install(outcome));
            },
        }
    }

    /// Records the end of a step of the final configuration.
    pub fn complite(&mut self, outcome: Outcome)
        ensures
            final(self)@ == old(self)@.complite(outcome),
    {
        if self.pending == Pending::Finalize {
            let steps = self.finalize_actions();
            self.step_done(&steps, outcome, Pending::Finished);
        }
    }

    /// Tells the session that the outside work it waited for has ended with
    /// `outcome` and printed `output`.
    pub fn complete(&mut self, outcome: Outcome, output: &str)
        ensures
            final(self)@ == old(self)@.complete(outcome, output@),
    {
        match self.pending {
            Pending::Key | Pending::Finished | Pending::Failed => {},
            Pending::Probe => {
                self.wifi_check(outcome);
            },
            Pending::Devices => self.set_wifi_device(outcome, output),
            Pending::Networks => self.set_wifi_list(outcome, output),
            Pending::Connect => self.wifi_connect(outcome),
            Pending::Clock => self.time_sync(outcome, output),
            Pending::Remedy => self.sync_step(outcome),
            Pending::Disks => self.set_disk_list(outcome, output),
            Pending::Firmware => {
                self.efi_check(outcome);
            },
            Pending::Storage => self.mount_and_format(outcome),
            Pending::Pci => self.set_hardware(outcome, output),
            Pending::Cpu => self.set_install_list(outcome, output),
            Pending::Install => self.install(outcome),
            Pending::Finalize => self.complite(outcome),
        }
    }
}

/// The connectivity probe.
pub fn probe() -> (action: Action)
    ensures
        action@ == probe_spec(),
{
    let args = vec![owned("-c"), owned("1"), owned("-W"), owned("5"), owned("8.8.8.8")];
    assert(args.deep_view() =~= seq!["-c"@, "1"@, "-W"@, "5"@, "8.8.8.8"@]);
    Action::Run { program: owned("ping"), args }
}

/// The steps that set up time synchronization.
pub fn clock_remedy() -> (steps: Vec<Action>)
    ensures
        steps.deep_view() == remedy_spec(),
{
    let args = vec![owned("restart"), owned("systemd-timesyncd.service")];
    assert(args.deep_view() =~= seq!["restart"@, "systemd-timesyncd.service"@]);
    let steps = vec![
        Action::Write {
            path: owned("/etc/systemd/timesyncd.conf"),
            contents: owned(
                "\n[Time]\nNTP=time.cloudflare.com time.google.com\nFallbackNTP=time.cloudflare.com time.google.com 0.arch.pool.ntp.org 1.arch.pool.ntp.org 2.arch.pool.ntp.org 3.arch.pool.ntp.org\n",
            ),
        },
        Action::Run { program: owned("systemctl"), args },
    ];
    assert(steps.deep_view() =~= remedy_spec());
    steps
}

} // verus!
