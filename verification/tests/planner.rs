use santana::plan::{
    group_of, is_wanted, kind_of, label_of, packages_of, plan, plan_groups, rank_of, CpuVendor,
    GpuVendors, GroupKind, HardwareFacts, InstallPlan, GROUP_KINDS,
};

fn facts(cpu: CpuVendor, gpu: GpuVendors, audio: bool) -> HardwareFacts {
    HardwareFacts {
        disk_topology: vec![("sda".to_string(), vec!["sda1".to_string()])],
        efi_present: true,
        cpu_vendor: cpu,
        gpu_vendors: gpu,
        has_intel_audio: audio,
        network_device: Some("wlan0".to_string()),
        available_networks: vec!["home".to_string()],
        clock_synced: true,
    }
}

fn gpu(nvidia: bool, amd: bool, intel: bool) -> GpuVendors {
    GpuVendors { nvidia, amd, intel }
}

fn labels(plan: &InstallPlan) -> Vec<String> {
    plan.iter().map(|group| group.0.clone()).collect()
}

fn texts(items: &[&str]) -> Vec<String> {
    items.iter().map(|item| item.to_string()).collect()
}

fn all_kinds() -> Vec<GroupKind> {
    (0..GROUP_KINDS).map(|rank| kind_of(rank).unwrap()).collect()
}

#[test]
fn plan_for_amd_processor_nvidia_graphics_and_efi() {
    let plan = plan(&facts(CpuVendor::Amd, gpu(true, false, false), false), true);
    assert_eq!(
        labels(&plan),
        texts(&[
            "Linux",
            "Display drivers",
            "Audio drivers",
            "Nvidia gpu drivers",
            "Amd cpu drivers",
            "Working environment",
            "Efi boot loader",
            "Default apps",
            "Fonts",
        ])
    );
    assert!(!labels(&plan).contains(&"Mesa drivers".to_string()));
    assert!(!labels(&plan).contains(&"Intel audio drivers".to_string()));
}

#[test]
fn plan_is_the_same_for_the_same_facts() {
    let first = plan(&facts(CpuVendor::Intel, gpu(false, true, true), true), false);
    let second = plan(&facts(CpuVendor::Intel, gpu(false, true, true), true), false);
    assert_eq!(first, second);
}

#[test]
fn plan_depends_on_the_planning_facts_alone() {
    let mut other = facts(CpuVendor::Amd, gpu(true, false, false), true);
    other.disk_topology = Vec::new();
    other.efi_present = false;
    other.network_device = None;
    other.available_networks = Vec::new();
    other.clock_synced = false;
    assert_eq!(
        plan(&other, true),
        plan(&facts(CpuVendor::Amd, gpu(true, false, false), true), true)
    );
    assert_eq!(plan(&other, true), plan_groups(CpuVendor::Amd, gpu(true, false, false), true, true));
}

#[test]
fn plan_for_unknown_hardware_holds_the_fixed_groups() {
    let plan = plan(&facts(CpuVendor::Unknown, gpu(false, false, false), false), false);
    assert_eq!(
        labels(&plan),
        texts(&[
            "Linux",
            "Display drivers",
            "Audio drivers",
            "Working environment",
            "Default apps",
            "Fonts",
        ])
    );
}

#[test]
fn plan_for_every_kind_of_hardware() {
    let plan = plan(&facts(CpuVendor::Intel, gpu(true, true, true), true), true);
    assert_eq!(
        labels(&plan),
        texts(&[
            "Linux",
            "Display drivers",
            "Audio drivers",
            "Nvidia gpu drivers",
            "Amd gpu drivers",
            "Intel gpu drivers",
            "Mesa drivers",
            "Intel audio drivers",
            "Intel cpu drivers",
            "Working environment",
            "Efi boot loader",
            "Default apps",
            "Fonts",
        ])
    );
}

#[test]
fn mesa_comes_with_amd_or_intel_graphics_only() {
    let mesa = "Mesa drivers".to_string();
    assert!(labels(&plan_groups(CpuVendor::Unknown, gpu(false, true, false), false, false))
        .contains(&mesa));
    assert!(labels(&plan_groups(CpuVendor::Unknown, gpu(false, false, true), false, false))
        .contains(&mesa));
    assert!(!labels(&plan_groups(CpuVendor::Unknown, gpu(true, false, false), false, false))
        .contains(&mesa));
    let both = plan_groups(CpuVendor::Unknown, gpu(false, true, true), false, false);
    assert_eq!(labels(&both).iter().filter(|label| **label == mesa).count(), 1);
}

#[test]
fn plans_keep_the_priority_order_and_repeat_no_label() {
    let cpus = [CpuVendor::Amd, CpuVendor::Intel, CpuVendor::Unknown];
    let order: Vec<String> = all_kinds().into_iter().map(label_of).collect();
    for cpu in cpus {
        for bits in 0..32u32 {
            let vendors = gpu(bits & 1 != 0, bits & 2 != 0, bits & 4 != 0);
            let audio = bits & 8 != 0;
            let efi = bits & 16 != 0;
            let plan = plan_groups(cpu, vendors, audio, efi);
            let places: Vec<usize> = labels(&plan)
                .iter()
                .map(|label| order.iter().position(|known| known == label).unwrap())
                .collect();
            for pair in places.windows(2) {
                assert!(pair[0] < pair[1]);
            }
            for kind in all_kinds() {
                let held = labels(&plan).contains(&label_of(kind));
                assert_eq!(held, is_wanted(kind, cpu, vendors, audio, efi));
            }
            for group in &plan {
                let place = order.iter().position(|known| *known == group.0).unwrap();
                assert_eq!(*group, group_of(kind_of(place).unwrap()));
            }
        }
    }
}

#[test]
fn no_plan_without_efi_holds_the_bootloader_manager() {
    let cpus = [CpuVendor::Amd, CpuVendor::Intel, CpuVendor::Unknown];
    for cpu in cpus {
        for bits in 0..16u32 {
            let vendors = gpu(bits & 1 != 0, bits & 2 != 0, bits & 4 != 0);
            let plan = plan_groups(cpu, vendors, bits & 8 != 0, false);
            assert!(!labels(&plan).contains(&"Efi boot loader".to_string()));
            for group in &plan {
                assert!(!group.1.contains(&"efibootmgr".to_string()));
            }
        }
    }
}

#[test]
fn the_labels_of_the_kinds_differ() {
    let labels: Vec<String> = all_kinds().into_iter().map(label_of).collect();
    assert_eq!(labels.len(), 14);
    for i in 0..labels.len() {
        for j in 0..i {
            assert_ne!(labels[i], labels[j]);
        }
    }
}

#[test]
fn ranks_and_kinds_go_together() {
    for rank in 0..GROUP_KINDS {
        assert_eq!(rank_of(kind_of(rank).unwrap()), rank);
    }
    assert_eq!(kind_of(0), Some(GroupKind::Base));
    assert_eq!(kind_of(13), Some(GroupKind::Fonts));
    assert_eq!(kind_of(14), None);
    assert_eq!(kind_of(usize::MAX), None);
    assert_eq!(rank_of(GroupKind::Mesa), 6);
    assert_eq!(rank_of(GroupKind::EfiBoot), 11);
}

#[test]
fn the_packages_of_each_kind() {
    assert_eq!(
        packages_of(GroupKind::Base),
        texts(&["base", "base-devel", "linux", "linux-firmware"])
    );
    assert_eq!(
        packages_of(GroupKind::Display),
        texts(&["wayland", "xorg-xwayland", "brightnessctl"])
    );
    assert_eq!(
        packages_of(GroupKind::Audio),
        texts(&[
            "pipewire",
            "pipewire-alsa",
            "pipewire-jack",
            "pipewire-pulse",
            "gst-plugin-pipewire",
            "libpulse",
            "wireplumber",
        ])
    );
    assert_eq!(
        packages_of(GroupKind::NvidiaGpu),
        texts(&["nvidia", "nvidia-utils", "nvidia-setting"])
    );
    assert_eq!(packages_of(GroupKind::AmdGpu), texts(&["vulkan-radeon"]));
    assert_eq!(packages_of(GroupKind::IntelGpu), texts(&["vulkan-intel"]));
    assert_eq!(packages_of(GroupKind::Mesa), texts(&["mesa"]));
    assert_eq!(packages_of(GroupKind::IntelAudio), texts(&["sof-firmware"]));
    assert_eq!(packages_of(GroupKind::AmdMicrocode), texts(&["amd-ucode"]));
    assert_eq!(packages_of(GroupKind::IntelMicrocode), texts(&["intel-ucode"]));
    assert_eq!(packages_of(GroupKind::Desktop), texts(&["hyprland", "sddm", "grub"]));
    assert_eq!(packages_of(GroupKind::EfiBoot), texts(&["efibootmgr"]));
    assert_eq!(
        packages_of(GroupKind::Apps),
        texts(&["nano", "wget", "sudo", "networkmanager"])
    );
    assert_eq!(
        packages_of(GroupKind::Fonts),
        texts(&["ttf-ubuntu-font-family", "ttf-hack", "ttf-dejavu", "ttf-opensans"])
    );
}

#[test]
fn an_unknown_processor_asks_for_no_microcode() {
    let plan = plan_groups(CpuVendor::Unknown, gpu(false, false, false), false, true);
    assert!(!labels(&plan).contains(&"Amd cpu drivers".to_string()));
    assert!(!labels(&plan).contains(&"Intel cpu drivers".to_string()));
    assert!(is_wanted(GroupKind::AmdMicrocode, CpuVendor::Amd, gpu(false, false, false), false, false));
    assert!(!is_wanted(GroupKind::AmdMicrocode, CpuVendor::Intel, gpu(false, false, false), false, false));
    assert!(is_wanted(GroupKind::IntelMicrocode, CpuVendor::Intel, gpu(false, false, false), false, false));
}
