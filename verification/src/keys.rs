//! What the session does with the keys, and which outside work it asks for.

use crate::action::{copy_action, copy_texts, join, owned, Action};
use crate::app::{clock_remedy, probe, step_down, step_up, App, Editing, Key, Pending, Screen};
use crate::data::Data;
use crate::model::typed;
use crate::network::connect;
use crate::plan::{Disk, HardwareFacts};
use crate::provision::install_next;
use crate::storage::format_and_mount;
use vstd::prelude::*;

verus! {

/// Types a key into a text.
pub fn type_into(text: &mut String, key: Key)
    ensures
        final(text)@ == typed(old(text)@, key),
{
    match key {
        Key::Char(c) => {
            text.push(c);
        },
        Key::Backspace => {
            text.pop();
        },
        _ => {},
    }
}

/// A copy of a list of disks.
pub fn copy_disks(disks: &Vec<Disk>) -> (copy: Vec<Disk>)
    ensures
        copy.deep_view() == disks.deep_view(),
{
    let mut copy: Vec<Disk> = Vec::new();
    let mut i: usize = 0;
    assert(copy.deep_view() =~= disks.deep_view().take(0));
    while i < disks.len()
        invariant
            i <= disks.len(),
            copy.deep_view() == disks.deep_view().take(i as int),
        decreases disks.len() - i,
    {
        let ghost before = copy.deep_view();
        let disk = (disks[i].0.clone(), copy_texts(&disks[i].1));
        assert(disk.deep_view() == disks[i as int].deep_view());
        copy.push(disk);
        assert(copy.deep_view() =~= before.push(disks[i as int].deep_view()));
        assert(disks.deep_view()[i as int] == disks[i as int].deep_view());
        assert(disks.deep_view().take(i + 1) =~= before.push(disks[i as int].deep_view()));
        i += 1;
    }
    assert(disks.deep_view().len() == disks.len());
    assert(disks.deep_view().take(disks.len() as int) =~= disks.deep_view());
    copy
}

impl App {
    /// What the session has found out about the machine so far. The network
    /// device is the one that was looked up, if any was.
    pub fn facts(&self) -> (facts: HardwareFacts)
        ensures
            facts.disk_topology.deep_view() == self@.disk_list,
            facts.efi_present == self@.efi_present,
            facts.cpu_vendor == self@.cpu,
            facts.gpu_vendors == self@.gpu,
            facts.has_intel_audio == self@.intel_audio,
            facts.network_device.deep_view() == (if self@.wifi_device.len() == 0 {
                None
            } else {
                Some(self@.wifi_device)
            }),
            facts.available_networks.deep_view() == self@.wifi_list,
            facts.clock_synced == self@.clock_synced,
    {
        HardwareFacts {
            disk_topology: copy_disks(&self.disk_list),
            efi_present: self.efi_present,
            cpu_vendor: self.cpu,
            gpu_vendors: self.gpu,
            has_intel_audio: self.intel_audio,
            network_device: if self.wifi_device.as_str().is_empty() {
                None
            } else {
                Some(self.wifi_device.clone())
            },
            available_networks: copy_texts(&self.wifi_list),
            clock_synced: self.clock_synced,
        }
    }

    /// Chooses the language at place `i` of the list; a place past the end
    /// leaves the language as it is.
    pub(crate) fn choose_language(&mut self, i: usize)
        ensures
            final(self)@ == old(self)@.choose_language(i),
    {
        self.select_num = i;
        assert(self.language_list.deep_view().len() == self.language_list.len());
        if i < self.language_list.len() {
            assert(self.language_list.deep_view()[i as int] == self.language_list[i as int]@);
            self.language = self.language_list[i].copy();
        }
        assert(self@ =~= old(self)@.choose_language(i));
    }

    /// The number of partitions of the selected disk.
    pub fn partition_count(&self) -> (count: usize)
        ensures
            count == self@.partitions().len(),
    {
        assert(self.disk_list.deep_view().len() == self.disk_list.len());
        if self.disk < self.disk_list.len() {
            assert(self.disk_list.deep_view()[self.disk as int]
                == self.disk_list[self.disk as int].deep_view());
            assert(self.disk_list[self.disk as int].1.deep_view().len()
                == self.disk_list[self.disk as int].1.len());
            self.disk_list[self.disk].1.len()
        } else {
            0
        }
    }

    /// The partition at the cursor of the selected disk, if there is one.
    pub fn partition(&self) -> (name: Option<String>)
        ensures
            self@.select_num < self@.partitions().len() ==> name.deep_view() == Some(
                self@.partitions()[self@.select_num as int],
            ),
            self@.select_num >= self@.partitions().len() ==> name is None,
    {
        if self.select_num < self.partition_count() {
            assert(self.disk_list.deep_view()[self.disk as int]
                == self.disk_list[self.disk as int].deep_view());
            assert(self.disk_list[self.disk as int].1.deep_view()[self.select_num as int]
                == self.disk_list[self.disk as int].1[self.select_num as int]@);
            Some(self.disk_list[self.disk].1[self.select_num].clone())
        } else {
            None
        }
    }

    /// A key on the language screen.
    #[verifier::rlimit(60)]
    pub(crate) fn press_language(&mut self, key: Key)
        ensures
            final(self)@ == old(self)@.press_language(key),
    {
        match key {
            Key::Char(c) => {
                if c == 'd' {
                    self.debug_mode = !self.debug_mode;
                }
            },
            Key::Up => {
                self.choose_language(step_up(self.select_num));
                self.log(owned("Up"));
            },
            Key::Down => {
                assert(self.language_list.deep_view().len() == self.language_list.len());
                self.choose_language(step_down(self.select_num, self.language_list.len()));
                self.log(owned("Down"));
            },
            Key::Enter => {
                if self.offline {
                    self.to_networks();
                } else {
                    self.pending = Pending::Probe;
                }
            },
            _ => {},
        }
        assert(self@ =~= old(self)@.press_language(key));
    }

    /// A key on the network screen while the list of networks is shown.
    #[verifier::rlimit(60)]
    pub(crate) fn press_wifi_list(&mut self, key: Key)
        ensures
            final(self)@ == old(self)@.press_wifi_list(key),
    {
        assert(self.wifi_list.deep_view().len() == self.wifi_list.len());
        match key {
            Key::Esc => {
                self.choose_language(0);
                self.screen = Screen::LanguageSelection;
            },
            Key::Up => {
                self.select_num = step_up(self.select_num);
            },
            Key::Down => {
                self.select_num = step_down(self.select_num, self.wifi_list.len());
            },
            Key::Enter => {
                if self.select_num < self.wifi_list.len() {
                    assert(self.wifi_list.deep_view()[self.select_num as int]
                        == self.wifi_list[self.select_num as int]@);
                    let name = self.wifi_list[self.select_num].clone();
                    self.log(join("Network select: ", name.as_str()));
                    self.wifi = Data { name, password: String::new() };
                    self.editing = Some(Editing::Password);
                }
            },
            _ => {},
        }
        assert(self@ =~= old(self)@.press_wifi_list(key));
    }

    /// A key on the network screen while the password is typed.
    pub(crate) fn press_wifi_password(&mut self, key: Key)
        ensures
            final(self)@ == old(self)@.press_wifi_password(key),
    {
        match key {
            Key::Esc => {
                self.editing = None;
            },
            Key::Enter => {
                self.pending = Pending::Connect;
            },
            Key::Char(_) | Key::Backspace => {
                type_into(&mut self.wifi.password, key);
            },
            _ => {},
        }
        assert(self@ =~= old(self)@.press_wifi_password(key));
    }

    /// A key on the network screen.
    pub(crate) fn press_wifi(&mut self, key: Key)
        ensures
            final(self)@ == old(self)@.press_wifi(key),
    {
        match self.editing {
            None => self.press_wifi_list(key),
            Some(_) => self.press_wifi_password(key),
        }
    }

    /// A key on the disk screen.
    pub(crate) fn press_disk(&mut self, key: Key)
        ensures
            final(self)@ == old(self)@.press_disk(key),
    {
        assert(self.disk_list.deep_view().len() == self.disk_list.len());
        match key {
            Key::Esc => {
                self.screen = Screen::WifiSelection;
                self.select_num = 0;
            },
            Key::Up => {
                self.disk = step_up(self.disk);
            },
            Key::Down => {
                self.disk = step_down(self.disk, self.disk_list.len());
            },
            Key::Enter => {
                self.screen = Screen::Partitioning;
                self.select_num = 0;
            },
            _ => {},
        }
        assert(self@ =~= old(self)@.press_disk(key));
    }

    /// A key on the partition screen.
    #[verifier::rlimit(60)]
    pub(crate) fn press_partition(&mut self, key: Key)
        ensures
            final(self)@ == old(self)@.press_partition(key),
    {
        match key {
            Key::Esc => {
                self.screen = Screen::DiskSelection;
                self.disk = 0;
            },
            Key::Up => {
                self.select_num = step_up(self.select_num);
            },
            Key::Down => {
                self.select_num = step_down(self.select_num, self.partition_count());
            },
            Key::Enter => {
                match self.partition() {
                    Some(name) => {
                        self.log(join("Select disk tom: ", name.as_str()));
                        self.disk_tom = name;
                        self.pending = Pending::Firmware;
                    },
                    None => {},
                }
            },
            _ => {},
        }
        assert(self@ =~= old(self)@.press_partition(key));
    }

    /// A key on the screen of the EFI partition.
    #[verifier::rlimit(60)]
    pub(crate) fn press_efi(&mut self, key: Key)
        ensures
            final(self)@ == old(self)@.press_efi(key),
    {
        match key {
            Key::Esc => {
                self.screen = Screen::Partitioning;
                self.select_num = 0;
            },
            Key::Up => {
                self.select_num = step_up(self.select_num);
            },
            Key::Down => {
                self.select_num = step_down(self.select_num, self.partition_count());
            },
            Key::Enter => {
                if self.efi_present {
                    match self.partition() {
                        Some(name) => {
                            self.log(join("Select disk tom for efi: ", name.as_str()));
                            self.disk_tom_efi = Some(name);
                            self.screen = Screen::UserSetup;
                            self.user = Data::new();
                            self.editing = Some(Editing::Name);
                        },
                        None => {},
                    }
                }
            },
            _ => {},
        }
        assert(self@ =~= old(self)@.press_efi(key));
    }

    /// A key on the account screen.
    #[verifier::rlimit(60)]
    pub(crate) fn press_user(&mut self, key: Key)
        ensures
            final(self)@ == old(self)@.press_user(key),
    {
        match key {
            Key::Esc => {
                self.screen = Screen::Partitioning;
                self.select_num = 0;
            },
            Key::Up => {
                self.editing = Some(Editing::Name);
            },
            Key::Down => {
                self.editing = Some(Editing::Password);
            },
            Key::Enter => {
                match self.editing {
                    Some(Editing::Password) => {
                        if self.user.is_user() {
                            let line = join("User create: ", self.user.name.as_str());
                            self.log(line);
                            self.screen = Screen::Installing;
                            self.editing = None;
                            self.pending = Pending::Storage;
                            self.cursor = 0;
                        }
                    },
                    Some(Editing::Name) => {
                        self.editing = Some(Editing::Password);
                    },
                    None => {
                        self.editing = Some(Editing::Name);
                    },
                }
            },
            Key::Char(_) | Key::Backspace => {
                match self.editing {
                    Some(Editing::Name) => {
                        type_into(&mut self.user.name, key);
                    },
                    Some(Editing::Password) => {
                        type_into(&mut self.user.password, key);
                    },
                    None => {},
                }
            },
            _ => {},
        }
        assert(self@ =~= old(self)@.press_user(key));
    }

    /// Hands a key to the session, and says whether the key asks to leave the
    /// installer.
    pub fn press(&mut self, key: Key) -> (quit: bool)
        ensures
            final(self)@ == old(self)@.press(key),
            quit == old(self)@.quits(key),
    {
        let leave = match key {
            Key::Esc => true,
            Key::Char(c) => c == 'q',
            _ => false,
        };
        let quit = leave && (self.pending == Pending::Finished || self.pending == Pending::Failed
            || (self.pending == Pending::Key && self.screen == Screen::LanguageSelection));
        if self.pending == Pending::Key {
            match self.screen {
                Screen::LanguageSelection => self.press_language(key),
                Screen::WifiSelection => self.press_wifi(key),
                Screen::DiskSelection => self.press_disk(key),
                Screen::Partitioning => self.press_partition(key),
                Screen::Efipart => self.press_efi(key),
                Screen::UserSetup => self.press_user(key),
                Screen::Installing => {},
            }
        }
        quit
    }

    /// The step at the cursor of a sequence of steps, if the cursor is inside.
    fn step_at(steps: &Vec<Action>, cursor: usize) -> (action: Option<Action>)
        ensures
            cursor < steps.deep_view().len() ==> action.deep_view() == Some(
                steps.deep_view()[cursor as int],
            ),
            cursor >= steps.deep_view().len() ==> action is None,
    {
        assert(steps.deep_view().len() == steps.len());
        if cursor < steps.len() {
            assert(steps.deep_view()[cursor as int] == steps[cursor as int]@);
            Some(copy_action(&steps[cursor]))
        } else {
            None
        }
    }

    /// The outside work that the session waits for: the action to carry out
    /// and to report on with `complete`. `None` while the session waits for a
    /// key, and once the installation has ended or failed.
    pub fn request(&self) -> (action: Option<Action>)
        ensures
            action.deep_view() == self@.request(),
    {
        match self.pending {
            Pending::Key | Pending::Finished | Pending::Failed => None,
            Pending::Probe => Some(probe()),
            Pending::Devices => {
                let args = vec![owned("station"), owned("list")];
                assert(args.deep_view() =~= seq!["station"@, "list"@]);
                Some(Action::Run { program: owned("iwctl"), args })
            },
            Pending::Networks => {
                let args = vec![owned("station"), self.wifi_device.clone(), owned("get-networks")];
                assert(args.deep_view() =~= seq!["station"@, self.wifi_device@, "get-networks"@]);
                Some(Action::Run { program: owned("iwctl"), args })
            },
            Pending::Connect => Some(connect(self.wifi_device.as_str(), &self.wifi)),
            Pending::Clock => {
                let args: Vec<String> = Vec::new();
                assert(args.deep_view() =~= Seq::<Seq<char>>::empty());
                Some(Action::Run { program: owned("timedatectl"), args })
            },
            Pending::Remedy => Self::step_at(&clock_remedy(), self.cursor),
            Pending::Disks => {
                let args = vec![owned("-J")];
                assert(args.deep_view() =~= seq!["-J"@]);
                Some(Action::Run { program: owned("lsblk"), args })
            },
            Pending::Firmware => Some(
                Action::Exists { path: owned("/sys/firmware/efi/fw_platform_size") },
            ),
            Pending::Storage => Self::step_at(&format_and_mount(&self.selection()), self.cursor),
            Pending::Pci => {
                let args = vec![owned("-mm")];
                assert(args.deep_view() =~= seq!["-mm"@]);
                Some(Action::Run { program: owned("lspci"), args })
            },
            Pending::Cpu => Some(Action::Read { path: owned("/proc/cpuinfo") }),
            Pending::Install => install_next(&self.install_list, self.select_num),
            Pending::Finalize => Self::step_at(&self.finalize_actions(), self.cursor),
        }
    }
}

} // verus!
