//! The planner: from hardware facts to the ordered list of package groups.
//!
//! Every group has a kind, and the kinds have a fixed priority. A plan holds
//! the groups of the wanted kinds, each once, in priority order.

use crate::action::owned;
use vstd::prelude::*;

verus! {

/// The maker of the processor.
#[derive(Clone, Copy, PartialEq, Eq, Structural, Debug)]
pub enum CpuVendor {
    Amd,
    Intel,
    Unknown,
}

/// The makers of the graphics adapters that were found.
#[derive(Clone, Copy, PartialEq, Eq, Structural, Debug)]
pub struct GpuVendors {
    pub nvidia: bool,
    pub amd: bool,
    pub intel: bool,
}

/// A disk and its partitions, in the order in which they were reported.
pub type Disk = (String, Vec<String>);

/// A label and the packages that are installed together under it, in
/// installation order.
pub type PackageGroup = (String, Vec<String>);

/// The package groups of an installation, in installation order.
pub type InstallPlan = Vec<PackageGroup>;

/// What the detector found out about the machine.
#[derive(Clone, Debug, PartialEq, Eq)]
pub struct HardwareFacts {
    pub disk_topology: Vec<Disk>,
    pub efi_present: bool,
    pub cpu_vendor: CpuVendor,
    pub gpu_vendors: GpuVendors,
    pub has_intel_audio: bool,
    pub network_device: Option<String>,
    pub available_networks: Vec<String>,
    pub clock_synced: bool,
}

/// The kinds of package group, listed in their priority order.
#[derive(Clone, Copy, PartialEq, Eq, Structural, Debug)]
pub enum GroupKind {
    Base,
    Display,
    Audio,
    NvidiaGpu,
    AmdGpu,
    IntelGpu,
    Mesa,
    IntelAudio,
    AmdMicrocode,
    IntelMicrocode,
    Desktop,
    EfiBoot,
    Apps,
    Fonts,
}

/// How many kinds of package group there are.
pub const GROUP_KINDS: usize = 14;

/// A package group as a mathematical value: its label and its packages.
pub type GroupView = (Seq<char>, Seq<Seq<char>>);

impl GroupKind {
    /// The place of a kind in the priority order, starting at 0.
    pub open spec fn rank(self) -> nat {
        match self {
            GroupKind::Base => 0,
            GroupKind::Display => 1,
            GroupKind::Audio => 2,
            GroupKind::NvidiaGpu => 3,
            GroupKind::AmdGpu => 4,
            GroupKind::IntelGpu => 5,
            GroupKind::Mesa => 6,
            GroupKind::IntelAudio => 7,
            GroupKind::AmdMicrocode => 8,
            GroupKind::IntelMicrocode => 9,
            GroupKind::Desktop => 10,
            GroupKind::EfiBoot => 11,
            GroupKind::Apps => 12,
            GroupKind::Fonts => 13,
        }
    }

    /// The label under which a group of this kind is shown and logged.
    pub open spec fn label(self) -> Seq<char> {
        match self {
            GroupKind::Base => "Linux"@,
            GroupKind::Display => "Display drivers"@,
            GroupKind::Audio => "Audio drivers"@,
            GroupKind::NvidiaGpu => "Nvidia gpu drivers"@,
            GroupKind::AmdGpu => "Amd gpu drivers"@,
            GroupKind::IntelGpu => "Intel gpu drivers"@,
            GroupKind::Mesa => "Mesa drivers"@,
            GroupKind::IntelAudio => "Intel audio drivers"@,
            GroupKind::AmdMicrocode => "Amd cpu drivers"@,
            GroupKind::IntelMicrocode => "Intel cpu drivers"@,
            GroupKind::Desktop => "Working environment"@,
            GroupKind::EfiBoot => "Efi boot loader"@,
            GroupKind::Apps => "Default apps"@,
            GroupKind::Fonts => "Fonts"@,
        }
    }

    /// The packages of a group of this kind, in installation order.
    pub open spec fn packages(self) -> Seq<Seq<char>> {
        match self {
            GroupKind::Base => seq!["base"@, "base-devel"@, "linux"@, "linux-firmware"@],
            GroupKind::Display => seq!["wayland"@, "xorg-xwayland"@, "brightnessctl"@],
            GroupKind::Audio => seq![
                "pipewire"@,
                "pipewire-alsa"@,
                "pipewire-jack"@,
                "pipewire-pulse"@,
                "gst-plugin-pipewire"@,
                "libpulse"@,
                "wireplumber"@,
            ],
            GroupKind::NvidiaGpu => seq!["nvidia"@, "nvidia-utils"@, "nvidia-setting"@],
            GroupKind::AmdGpu => seq!["vulkan-radeon"@],
            GroupKind::IntelGpu => seq!["vulkan-intel"@],
            GroupKind::Mesa => seq!["mesa"@],
            GroupKind::IntelAudio => seq!["sof-firmware"@],
            GroupKind::AmdMicrocode => seq!["amd-ucode"@],
            GroupKind::IntelMicrocode => seq!["intel-ucode"@],
            GroupKind::Desktop => seq!["hyprland"@, "sddm"@, "grub"@],
            GroupKind::EfiBoot => seq!["efibootmgr"@],
            GroupKind::Apps => seq!["nano"@, "wget"@, "sudo"@, "networkmanager"@],
            GroupKind::Fonts => seq![
                "ttf-ubuntu-font-family"@,
                "ttf-hack"@,
                "ttf-dejavu"@,
                "ttf-opensans"@,
            ],
        }
    }

    /// Whether a plan for the given facts holds a group of this kind. An unknown
    /// processor maker asks for no microcode, and the bootloader manager comes
    /// only with an EFI installation.
    pub open spec fn wanted(
        self,
        cpu: CpuVendor,
        gpu: GpuVendors,
        intel_audio: bool,
        efi: bool,
    ) -> bool {
        match self {
            GroupKind::Base | GroupKind::Display | GroupKind::Audio => true,
            GroupKind::NvidiaGpu => gpu.nvidia,
            GroupKind::AmdGpu => gpu.amd,
            GroupKind::IntelGpu => gpu.intel,
            GroupKind::Mesa => gpu.amd || gpu.intel,
            GroupKind::IntelAudio => intel_audio,
            GroupKind::AmdMicrocode => cpu == CpuVendor::Amd,
            GroupKind::IntelMicrocode => cpu == CpuVendor::Intel,
            GroupKind::Desktop => true,
            GroupKind::EfiBoot => efi,
            GroupKind::Apps | GroupKind::Fonts => true,
        }
    }

    /// The group of this kind as a mathematical value.
    pub open spec fn group(self) -> GroupView {
        (self.label(), self.packages())
    }
}

/// The kind that stands at a given place of the priority order.
pub open spec fn kind_at(rank: nat) -> GroupKind {
    if rank == 0 {
        GroupKind::Base
    } else if rank == 1 {
        GroupKind::Display
    } else if rank == 2 {
        GroupKind::Audio
    } else if rank == 3 {
        GroupKind::NvidiaGpu
    } else if rank == 4 {
        GroupKind::AmdGpu
    } else if rank == 5 {
        GroupKind::IntelGpu
    } else if rank == 6 {
        GroupKind::Mesa
    } else if rank == 7 {
        GroupKind::IntelAudio
    } else if rank == 8 {
        GroupKind::AmdMicrocode
    } else if rank == 9 {
        GroupKind::IntelMicrocode
    } else if rank == 10 {
        GroupKind::Desktop
    } else if rank == 11 {
        GroupKind::EfiBoot
    } else if rank == 12 {
        GroupKind::Apps
    } else {
        GroupKind::Fonts
    }
}

/// The wanted kinds among the first `n` of the priority order, in that order.
pub open spec fn kinds_below(
    n: nat,
    cpu: CpuVendor,
    gpu: GpuVendors,
    intel_audio: bool,
    efi: bool,
) -> Seq<GroupKind>
    decreases n,
{
    if n == 0 {
        Seq::empty()
    } else {
        let before = kinds_below((n - 1) as nat, cpu, gpu, intel_audio, efi);
        let kind = kind_at((n - 1) as nat);
        if kind.wanted(cpu, gpu, intel_audio, efi) {
            before.push(kind)
        } else {
            before
        }
    }
}

/// The kinds of the groups of a plan, in installation order.
pub open spec fn plan_kinds(cpu: CpuVendor, gpu: GpuVendors, intel_audio: bool, efi: bool) -> Seq<
    GroupKind,
> {
    kinds_below(GROUP_KINDS as nat, cpu, gpu, intel_audio, efi)
}

/// The groups of the given kinds.
pub open spec fn groups_of(kinds: Seq<GroupKind>) -> Seq<GroupView> {
    Seq::new(kinds.len(), |i: int| kinds[i].group())
}

/// The plan for the given facts, as a mathematical value.
pub open spec fn plan_spec(cpu: CpuVendor, gpu: GpuVendors, intel_audio: bool, efi: bool) -> Seq<
    GroupView,
> {
    groups_of(plan_kinds(cpu, gpu, intel_audio, efi))
}

/// The place of a kind in the priority order.
pub fn rank_of(kind: GroupKind) -> (r: usize)
    ensures
        r == kind.rank(),
        r < GROUP_KINDS,
        kind_at(r as nat) == kind,
{
    match kind {
        GroupKind::Base => 0,
        GroupKind::Display => 1,
        GroupKind::Audio => 2,
        GroupKind::NvidiaGpu => 3,
        GroupKind::AmdGpu => 4,
        GroupKind::IntelGpu => 5,
        GroupKind::Mesa => 6,
        GroupKind::IntelAudio => 7,
        GroupKind::AmdMicrocode => 8,
        GroupKind::IntelMicrocode => 9,
        GroupKind::Desktop => 10,
        GroupKind::EfiBoot => 11,
        GroupKind::Apps => 12,
        GroupKind::Fonts => 13,
    }
}

/// The kind at a place of the priority order, or `None` for a place past the
/// end.
pub fn kind_of(rank: usize) -> (kind: Option<GroupKind>)
    ensures
        rank < GROUP_KINDS ==> kind == Some(kind_at(rank as nat)) && kind_at(rank as nat).rank()
            == rank,
        rank >= GROUP_KINDS ==> kind is None,
{
    match rank {
        0 => Some(GroupKind::Base),
        1 => Some(GroupKind::Display),
        2 => Some(GroupKind::Audio),
        3 => Some(GroupKind::NvidiaGpu),
        4 => Some(GroupKind::AmdGpu),
        5 => Some(GroupKind::IntelGpu),
        6 => Some(GroupKind::Mesa),
        7 => Some(GroupKind::IntelAudio),
        8 => Some(GroupKind::AmdMicrocode),
        9 => Some(GroupKind::IntelMicrocode),
        10 => Some(GroupKind::Desktop),
        11 => Some(GroupKind::EfiBoot),
        12 => Some(GroupKind::Apps),
        13 => Some(GroupKind::Fonts),
        _ => None,
    }
}

/// Decides whether a plan for the given facts holds a group of a kind.
pub fn is_wanted(
    kind: GroupKind,
    cpu: CpuVendor,
    gpu: GpuVendors,
    intel_audio: bool,
    efi: bool,
) -> (r: bool)
    ensures
        r == kind.wanted(cpu, gpu, intel_audio, efi),
{
    match kind {
        GroupKind::Base | GroupKind::Display | GroupKind::Audio => true,
        GroupKind::NvidiaGpu => gpu.nvidia,
        GroupKind::AmdGpu => gpu.amd,
        GroupKind::IntelGpu => gpu.intel,
        GroupKind::Mesa => gpu.amd || gpu.intel,
        GroupKind::IntelAudio => intel_audio,
        GroupKind::AmdMicrocode => cpu == CpuVendor::Amd,
        GroupKind::IntelMicrocode => cpu == CpuVendor::Intel,
        GroupKind::Desktop => true,
        GroupKind::EfiBoot => efi,
        GroupKind::Apps | GroupKind::Fonts => true,
    }
}

/// The label of a kind of group.
pub fn label_of(kind: GroupKind) -> (label: String)
    ensures
        label@ == kind.label(),
{
    match kind {
        GroupKind::Base => owned("Linux"),
        GroupKind::Display => owned("Display drivers"),
        GroupKind::Audio => owned("Audio drivers"),
        GroupKind::NvidiaGpu => owned("Nvidia gpu drivers"),
        GroupKind::AmdGpu => owned("Amd gpu drivers"),
        GroupKind::IntelGpu => owned("Intel gpu drivers"),
        GroupKind::Mesa => owned("Mesa drivers"),
        GroupKind::IntelAudio => owned("Intel audio drivers"),
        GroupKind::AmdMicrocode => owned("Amd cpu drivers"),
        GroupKind::IntelMicrocode => owned("Intel cpu drivers"),
        GroupKind::Desktop => owned("Working environment"),
        GroupKind::EfiBoot => owned("Efi boot loader"),
        GroupKind::Apps => owned("Default apps"),
        GroupKind::Fonts => owned("Fonts"),
    }
}

/// The packages of a kind of group, in installation order.
pub fn packages_of(kind: GroupKind) -> (packages: Vec<String>)
    ensures
        packages.deep_view() == kind.packages(),
{
    let packages = match kind {
        GroupKind::Base => vec![
            owned("base"),
            owned("base-devel"),
            owned("linux"),
            owned("linux-firmware"),
        ],
        GroupKind::Display => vec![owned("wayland"), owned("xorg-xwayland"), owned("brightnessctl")],
        GroupKind::Audio => vec![
            owned("pipewire"),
            owned("pipewire-alsa"),
            owned("pipewire-jack"),
            owned("pipewire-pulse"),
            owned("gst-plugin-pipewire"),
            owned("libpulse"),
            owned("wireplumber"),
        ],
        GroupKind::NvidiaGpu => vec![owned("nvidia"), owned("nvidia-utils"), owned("nvidia-setting")],
        GroupKind::AmdGpu => vec![owned("vulkan-radeon")],
        GroupKind::IntelGpu => vec![owned("vulkan-intel")],
        GroupKind::Mesa => vec![owned("mesa")],
        GroupKind::IntelAudio => vec![owned("sof-firmware")],
        GroupKind::AmdMicrocode => vec![owned("amd-ucode")],
        GroupKind::IntelMicrocode => vec![owned("intel-ucode")],
        GroupKind::Desktop => vec![owned("hyprland"), owned("sddm"), owned("grub")],
        GroupKind::EfiBoot => vec![owned("efibootmgr")],
        GroupKind::Apps => vec![owned("nano"), owned("wget"), owned("sudo"), owned("networkmanager")],
        GroupKind::Fonts => vec![
            owned("ttf-ubuntu-font-family"),
            owned("ttf-hack"),
            owned("ttf-dejavu"),
            owned("ttf-opensans"),
        ],
    };
    assert(packages.deep_view() =~= kind.packages());
    packages
}

/// The group of a kind: its label and its packages.
pub fn group_of(kind: GroupKind) -> (group: PackageGroup)
    ensures
        group.deep_view() == kind.group(),
{
    (label_of(kind), packages_of(kind))
}

/// Builds the plan from the facts that decide it.
pub fn plan_groups(cpu: CpuVendor, gpu: GpuVendors, intel_audio: bool, efi: bool) -> (plan:
    InstallPlan)
    ensures
        plan.deep_view() == plan_spec(cpu, gpu, intel_audio, efi),
{
    let mut plan: InstallPlan = Vec::new();
    let mut rank: usize = 0;
    while rank < GROUP_KINDS
        invariant
            rank <= GROUP_KINDS,
            plan.deep_view() == groups_of(kinds_below(rank as nat, cpu, gpu, intel_audio, efi)),
        decreases GROUP_KINDS - rank,
    {
        match kind_of(rank) {
            Some(kind) => {
                if is_wanted(kind, cpu, gpu, intel_audio, efi) {
                    let group = group_of(kind);
                    let ghost before = plan.deep_view();
                    plan.push(group);
                    assert(plan.deep_view() =~= before.push(kind.group()));
                    assert(groups_of(
                        kinds_below(rank as nat, cpu, gpu, intel_audio, efi).push(kind),
                    ) =~= before.push(kind.group()));
                }
            },
            None => {},
        }
        rank += 1;
    }
    plan
}

/// The installation plan for a machine: the groups that are always installed
/// and those that the detected hardware and the boot mode ask for, each once,
/// in priority order. The plan depends on nothing but the processor maker, the
/// graphics makers, the audio chipset and the boot mode.
pub fn plan(facts: &HardwareFacts, efi_selected: bool) -> (plan: InstallPlan)
    ensures
        plan.deep_view() == plan_of(*facts, efi_selected),
{
    plan_groups(facts.cpu_vendor, facts.gpu_vendors, facts.has_intel_audio, efi_selected)
}

/// The plan for a machine, as a mathematical value.
pub open spec fn plan_of(facts: HardwareFacts, efi_selected: bool) -> Seq<GroupView> {
    plan_spec(facts.cpu_vendor, facts.gpu_vendors, facts.has_intel_audio, efi_selected)
}

/// The same facts give the same plan: two machines with the same processor
/// maker, the same graphics makers and the same audio chipset get the same
/// groups in the same order for the same boot mode, whatever else differs
/// between them.
pub proof fn lemma_same_facts_same_plan(a: HardwareFacts, b: HardwareFacts, efi_selected: bool)
    requires
        a.cpu_vendor == b.cpu_vendor,
        a.gpu_vendors == b.gpu_vendors,
        a.has_intel_audio == b.has_intel_audio,
    ensures
        plan_of(a, efi_selected) == plan_of(b, efi_selected),
{
}

/// What `kinds_below` holds: kinds of a rank below `n`, in strictly rising
/// rank, and every wanted kind of such a rank.
pub proof fn lemma_kinds_below(n: nat, cpu: CpuVendor, gpu: GpuVendors, intel_audio: bool, efi: bool)
    requires
        n <= GROUP_KINDS,
    ensures
        forall|i: int|
            0 <= i < kinds_below(n, cpu, gpu, intel_audio, efi).len() ==> {
                let kind = #[trigger] kinds_below(n, cpu, gpu, intel_audio, efi)[i];
                kind.rank() < n && kind.wanted(cpu, gpu, intel_audio, efi)
            },
        forall|i: int, j: int|
            0 <= i < j < kinds_below(n, cpu, gpu, intel_audio, efi).len() ==> (#[trigger] kinds_below(
                n,
                cpu,
                gpu,
                intel_audio,
                efi,
            )[i]).rank() < (#[trigger] kinds_below(n, cpu, gpu, intel_audio, efi)[j]).rank(),
        forall|kind: GroupKind|
            kind.rank() < n && kind.wanted(cpu, gpu, intel_audio, efi) ==> kinds_below(
                n,
                cpu,
                gpu,
                intel_audio,
                efi,
            ).contains(kind),
    decreases n,
{
    if n > 0 {
        let m = (n - 1) as nat;
        lemma_kinds_below(m, cpu, gpu, intel_audio, efi);
        let before = kinds_below(m, cpu, gpu, intel_audio, efi);
        let now = kinds_below(n, cpu, gpu, intel_audio, efi);
        let last = kind_at(m);
        assert(last.rank() == m);
        assert forall|kind: GroupKind|
            kind.rank() < n && kind.wanted(cpu, gpu, intel_audio, efi) implies now.contains(
            kind,
        ) by {
            if kind.rank() < m {
                let i = choose|i: int| 0 <= i < before.len() && before[i] == kind;
                assert(now[i] == kind);
            } else {
                assert(kind == last);
                assert(now[now.len() - 1] == kind);
            }
        }
    }
}

/// Among the first `n` kinds no more than `n` are wanted.
pub proof fn lemma_kinds_are_few(
    n: nat,
    cpu: CpuVendor,
    gpu: GpuVendors,
    intel_audio: bool,
    efi: bool,
)
    ensures
        kinds_below(n, cpu, gpu, intel_audio, efi).len() <= n,
    decreases n,
{
    if n > 0 {
        lemma_kinds_are_few((n - 1) as nat, cpu, gpu, intel_audio, efi);
    }
}

/// No plan has more groups than there are kinds of group, and every plan has
/// at least the groups that are always installed.
pub proof fn lemma_plan_is_short(cpu: CpuVendor, gpu: GpuVendors, intel_audio: bool, efi: bool)
    ensures
        0 < plan_kinds(cpu, gpu, intel_audio, efi).len() <= GROUP_KINDS,
{
    lemma_kinds_are_few(GROUP_KINDS as nat, cpu, gpu, intel_audio, efi);
    lemma_plan_holds_the_wanted(cpu, gpu, intel_audio, efi, GroupKind::Base);
    assert(plan_kinds(cpu, gpu, intel_audio, efi).contains(GroupKind::Base));
}

/// A plan holds its groups in the fixed priority order, and none twice: the
/// ranks of the kinds rise strictly along the plan.
pub proof fn lemma_plan_in_priority_order(
    cpu: CpuVendor,
    gpu: GpuVendors,
    intel_audio: bool,
    efi: bool,
)
    ensures
        forall|i: int, j: int|
            0 <= i < j < plan_kinds(cpu, gpu, intel_audio, efi).len() ==> (#[trigger] plan_kinds(
                cpu,
                gpu,
                intel_audio,
                efi,
            )[i]).rank() < (#[trigger] plan_kinds(cpu, gpu, intel_audio, efi)[j]).rank(),
{
    lemma_kinds_below(GROUP_KINDS as nat, cpu, gpu, intel_audio, efi);
}

/// A plan holds a group of a kind exactly when the facts ask for that kind. So
/// no group is dropped, and none is there without a reason.
pub proof fn lemma_plan_holds_the_wanted(
    cpu: CpuVendor,
    gpu: GpuVendors,
    intel_audio: bool,
    efi: bool,
    kind: GroupKind,
)
    ensures
        plan_kinds(cpu, gpu, intel_audio, efi).contains(kind) <==> kind.wanted(
            cpu,
            gpu,
            intel_audio,
            efi,
        ),
{
    lemma_kinds_below(GROUP_KINDS as nat, cpu, gpu, intel_audio, efi);
    let kinds = plan_kinds(cpu, gpu, intel_audio, efi);
    if kinds.contains(kind) {
        let i = choose|i: int| 0 <= i < kinds.len() && kinds[i] == kind;
        assert(kinds[i].wanted(cpu, gpu, intel_audio, efi));
    }
}

/// Groups of different kinds carry different labels, so no label occurs twice
/// in a plan.
pub proof fn lemma_labels_differ(a: GroupKind, b: GroupKind)
    requires
        a != b,
    ensures
        a.label() != b.label(),
{
    reveal_strlit("Linux");
    reveal_strlit("Display drivers");
    reveal_strlit("Audio drivers");
    reveal_strlit("Nvidia gpu drivers");
    reveal_strlit("Amd gpu drivers");
    reveal_strlit("Intel gpu drivers");
    reveal_strlit("Mesa drivers");
    reveal_strlit("Intel audio drivers");
    reveal_strlit("Amd cpu drivers");
    reveal_strlit("Intel cpu drivers");
    reveal_strlit("Working environment");
    reveal_strlit("Efi boot loader");
    reveal_strlit("Default apps");
    reveal_strlit("Fonts");
    let x = a.label();
    let y = b.label();
    if x.len() == y.len() {
        assert(x[0] != y[0] || x[4] != y[4] || x[6] != y[6]);
    }
}

} // verus!
