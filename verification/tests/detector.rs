use santana::action::Outcome;
use santana::detect::{
    classify, detect_clock_sync, detect_cpu_vendor, detect_gpu_vendors, detect_intel_audio,
    scan_pci, Mark,
};
use santana::network::{
    check_connectivity, connect, connect_result, detect_network_device, detect_networks,
    ConnectError,
};
use santana::action::Action;
use santana::data::Data;
use santana::plan::{CpuVendor, GpuVendors};
use santana::table::{parse_table, split_fields};
use santana::text::{
    chars_of, find, find_text, occurs_here, same_char, split_lines, to_lower,
};

fn chars(text: &str) -> Vec<char> {
    text.chars().collect()
}

fn texts(items: &[&str]) -> Vec<String> {
    items.iter().map(|item| item.to_string()).collect()
}

#[test]
fn device_listing_with_three_header_lines_and_one_row() {
    let listing = "Devices in Station Mode\n-----------------------\nName   State   Scanning\nwlan0   station0   connected";
    assert_eq!(detect_network_device(listing), Some("wlan0".to_string()));
}

#[test]
fn device_listing_as_the_network_tool_prints_it() {
    let listing = "                            Devices in Station Mode\n--------------------------------------------------------------------------------\n  Name                  State            Scanning\n--------------------------------------------------------------------------------\n  wlan0                 disconnected     \n  wlan1                 connected        \n";
    let rows = parse_table(listing, 3, 2, 2);
    assert_eq!(rows, vec![texts(&["wlan0", "disconnected"]), texts(&["wlan1", "connected"])]);
    assert_eq!(detect_network_device(listing), Some("wlan0".to_string()));
    let with_rule = parse_table(listing, 3, 2, 1);
    assert_eq!(with_rule.len(), 3);
    assert_eq!(with_rule[0].len(), 1);
}

#[test]
fn device_listing_takes_the_first_row() {
    let listing = "a\nb\nc\n\n   \n------\n  lonely\n  wlan7   connected\n  wlan8   connected\n";
    assert_eq!(detect_network_device(listing), Some("wlan7".to_string()));
}

#[test]
fn device_listing_without_rows_names_no_device() {
    assert_eq!(detect_network_device(""), None);
    assert_eq!(detect_network_device("one\ntwo\nthree"), None);
    assert_eq!(detect_network_device("one\ntwo\nthree\n"), None);
    assert_eq!(detect_network_device("one\ntwo\nthree\n\n    \n"), None);
    assert_eq!(detect_network_device("wlan0   station0   connected"), None);
}

#[test]
fn scan_listing_gives_the_networks_in_order() {
    let listing = "Available networks\n------\nNetwork name   Security   Signal\n      Home Net        psk       ****\n      cafe            open      **\n\n      lab-5g          8021x     *\n";
    assert_eq!(detect_networks(listing), texts(&["Home Net", "cafe", "lab-5g"]));
}

#[test]
fn scan_listing_without_networks_is_an_empty_list() {
    assert_eq!(detect_networks(""), Vec::<String>::new());
    assert_eq!(detect_networks("Available networks\n------\nNetwork name   Security\n"), Vec::<String>::new());
    assert_eq!(detect_networks("a\nb\nc\n   \n\n"), Vec::<String>::new());
}

#[test]
fn table_rows_and_fields() {
    assert_eq!(
        parse_table("h\nab  cd   ef\n  x y  z  \n", 1, 2, 1),
        vec![texts(&["ab", "cd", "ef"]), texts(&["x y", "z"])]
    );
    assert_eq!(
        parse_table("h\nab  cd   ef\n  x y  z  \n", 1, 2, 3),
        vec![texts(&["ab", "cd", "ef"])]
    );
    assert_eq!(
        parse_table("ab  cd   e f\n", 0, 1, 0),
        vec![texts(&["ab", "cd", "e", "f"])]
    );
    assert_eq!(parse_table("ab  cd   e f\n", 0, 0, 4), vec![texts(&["ab", "cd", "e", "f"])]);
    assert_eq!(parse_table("ab  cd   e f\n", 0, 0, 5), Vec::<Vec<String>>::new());
    assert_eq!(parse_table("ab  cd   e f", 0, 3, 1), vec![texts(&["ab  cd", "e f"])]);
    assert_eq!(parse_table("ab  cd\n", 1, 2, 1), Vec::<Vec<String>>::new());
    assert_eq!(parse_table("ab  cd\n", 7, 2, 1), Vec::<Vec<String>>::new());
    assert_eq!(parse_table("ab  cd\n", usize::MAX, 2, 1), Vec::<Vec<String>>::new());
    assert_eq!(parse_table("a b", 0, usize::MAX, 0), vec![texts(&["a b"])]);
    assert_eq!(parse_table("\n  \na", 0, 2, 0), vec![texts(&["a"])]);
    assert_eq!(parse_table("a b", 0, 1, usize::MAX), Vec::<Vec<String>>::new());
}

#[test]
fn fields_of_a_line() {
    assert_eq!(split_fields(&chars(""), 2), Vec::<String>::new());
    assert_eq!(split_fields(&chars("     "), 2), Vec::<String>::new());
    assert_eq!(split_fields(&chars("a"), 2), texts(&["a"]));
    assert_eq!(split_fields(&chars(" a "), 2), texts(&["a"]));
    assert_eq!(split_fields(&chars("a b"), 2), texts(&["a b"]));
    assert_eq!(split_fields(&chars("a  b"), 2), texts(&["a", "b"]));
    assert_eq!(split_fields(&chars("a b  "), 2), texts(&["a b"]));
    assert_eq!(split_fields(&chars("a\tb  c"), 2), texts(&["a\tb", "c"]));
    assert_eq!(split_fields(&chars("ab cd  ef"), 2), texts(&["ab cd", "ef"]));
    assert_eq!(split_fields(&chars("ab cd  ef"), 1), texts(&["ab", "cd", "ef"]));
    assert_eq!(split_fields(&chars("   ab   "), 9), texts(&["ab"]));
}

#[test]
fn lines_of_a_text() {
    let lines = |text: &str| -> Vec<String> {
        split_lines(&chars(text)).into_iter().map(|line| line.into_iter().collect()).collect()
    };
    assert_eq!(lines(""), Vec::<String>::new());
    assert_eq!(lines("a"), texts(&["a"]));
    assert_eq!(lines("a\n"), texts(&["a"]));
    assert_eq!(lines("\n"), texts(&[""]));
    assert_eq!(lines("a\n\nb"), texts(&["a", "", "b"]));
    assert_eq!(lines("a\nb\n\n"), texts(&["a", "b", ""]));
    assert_eq!(lines("ab\ncd"), texts(&["ab", "cd"]));
    assert_eq!(lines("\n\n"), texts(&["", ""]));
}

#[test]
fn characters_and_texts() {
    assert_eq!(chars_of("día"), vec!['d', 'í', 'a']);
    assert_eq!(chars_of(""), Vec::<char>::new());
    assert_eq!(to_lower('A'), 'a');
    assert_eq!(to_lower('Z'), 'z');
    assert_eq!(to_lower('m'), 'm');
    assert_eq!(to_lower('@'), '@');
    assert_eq!(to_lower('['), '[');
    assert_eq!(to_lower('É'), 'É');
    assert!(same_char('a', 'A', true));
    assert!(!same_char('a', 'A', false));
    assert!(same_char('a', 'a', false));
    assert!(!same_char('a', 'b', true));
}

#[test]
fn searching_a_text() {
    assert!(find_text(&chars("VGA compatible"), "vga", true));
    assert!(!find_text(&chars("VGA compatible"), "vga", false));
    assert!(find_text(&chars("abc"), "", false));
    assert!(find_text(&chars(""), "", false));
    assert!(!find_text(&chars(""), "a", true));
    assert!(!find_text(&chars("ab"), "abc", true));
    assert!(find_text(&chars("xxabc"), "abc", false));
    assert!(find(&chars("xxabc"), &chars("ABC"), true));
    assert!(occurs_here(&chars("xxabc"), &chars("abc"), 2, false));
    assert!(!occurs_here(&chars("xxabc"), &chars("abc"), 1, false));
    assert!(!occurs_here(&chars("xxabc"), &chars("abc"), 3, false));
    assert!(!occurs_here(&chars("xxabc"), &chars("abc"), usize::MAX, false));
    assert!(occurs_here(&chars("abc"), &chars(""), 3, false));
    assert!(!occurs_here(&chars("abc"), &chars(""), 4, false));
}

#[test]
fn connectivity_probe() {
    assert!(check_connectivity(Outcome::Done));
    assert!(!check_connectivity(Outcome::Failed));
    assert!(!check_connectivity(Outcome::NotStarted));
}

#[test]
fn association_call() {
    let credential = Data { name: "Home Net".to_string(), password: "secret word".to_string() };
    assert_eq!(
        connect("wlan0", &credential),
        Action::Run {
            program: "iwctl".to_string(),
            args: texts(&["station", "wlan0", "connect", "Home Net", "secret word"]),
        }
    );
    assert_eq!(connect_result(Outcome::Done), Ok(()));
    assert_eq!(connect_result(Outcome::Failed), Ok(()));
    assert_eq!(connect_result(Outcome::NotStarted), Err(ConnectError::NotStarted));
}

#[test]
fn graphics_makers_of_a_pci_listing() {
    let listing = "00:00.0 \"Host bridge\" \"Intel Corp.\" \"Device 1234\"\n01:00.0 \"VGA compatible controller\" \"NVIDIA Corp.\" \"GA106\"\n02:00.0 \"3D controller\" \"Intel Corp.\" \"Xe\"\n";
    assert_eq!(detect_gpu_vendors(listing), GpuVendors { nvidia: true, amd: false, intel: true });
    let radeon = "03:00.0 \"VGA compatible controller\" \"Advanced Micro Devices, Inc. [AMD]\" \"Navi\"";
    assert_eq!(detect_gpu_vendors(radeon), GpuVendors { nvidia: false, amd: true, intel: false });
    assert_eq!(detect_gpu_vendors(""), GpuVendors { nvidia: false, amd: false, intel: false });
    assert_eq!(
        detect_gpu_vendors("00:1f.3 \"Audio device\" \"Intel Corp.\" \"HDA\"\n00:14.0 \"USB controller\" \"NVIDIA\""),
        GpuVendors { nvidia: false, amd: false, intel: false }
    );
}

#[test]
fn the_first_maker_of_a_display_line_counts() {
    assert_eq!(classify(&chars("vga nvidia amd intel")), Some(Mark::Nvidia));
    assert_eq!(classify(&chars("VGA AMD INTEL")), Some(Mark::Amd));
    assert_eq!(classify(&chars("3D Controller: ATI Rage")), Some(Mark::Amd));
    assert_eq!(classify(&chars("Vga Intel")), Some(Mark::Intel));
    assert_eq!(classify(&chars("vga matrox")), None);
    assert_eq!(classify(&chars("Audio device Intel")), Some(Mark::IntelAudio));
    assert_eq!(classify(&chars("Audio device Realtek")), None);
    assert_eq!(classify(&chars("vga audio intel")), Some(Mark::Intel));
    assert_eq!(classify(&chars("nvidia")), None);
    assert_eq!(classify(&chars("")), None);
    assert_eq!(classify(&chars("VGA compatible controller Intel Corporation")), Some(Mark::Amd));
}

#[test]
fn audio_chipset_of_a_pci_listing() {
    assert!(detect_intel_audio("00:1f.3 \"Audio device\" \"Intel Corp.\" \"HDA\""));
    assert!(detect_intel_audio("x\n00:1f.3 \"AUDIO DEVICE\" \"INTEL\"\ny"));
    assert!(!detect_intel_audio("00:1f.3 \"Audio device\" \"Realtek\""));
    assert!(!detect_intel_audio("01:00.0 \"VGA compatible controller\" \"Intel Corp.\" \"with audio\""));
    assert!(!detect_intel_audio("audio\nintel"));
    assert!(!detect_intel_audio(""));
    assert_eq!(
        scan_pci("vga nvidia\nvga amd\nvga intel\naudio intel"),
        (GpuVendors { nvidia: true, amd: true, intel: true }, true)
    );
}

#[test]
fn processor_maker() {
    assert_eq!(detect_cpu_vendor("vendor_id\t: AuthenticAMD\nmodel name\t: Ryzen"), CpuVendor::Amd);
    assert_eq!(detect_cpu_vendor("vendor_id\t: GenuineIntel\n"), CpuVendor::Intel);
    assert_eq!(detect_cpu_vendor("vendor_id : GENUINEINTEL"), CpuVendor::Intel);
    assert_eq!(detect_cpu_vendor("genuineintel authenticamd"), CpuVendor::Amd);
    assert_eq!(detect_cpu_vendor("vendor_id\t: ARM"), CpuVendor::Unknown);
    assert_eq!(detect_cpu_vendor(""), CpuVendor::Unknown);
}

#[test]
fn clock_synchronization() {
    assert!(detect_clock_sync("   Local time: now\nSystem clock synchronized: yes\n  NTP service: active\n"));
    assert!(!detect_clock_sync("System clock synchronized: no\n"));
    assert!(!detect_clock_sync("system clock synchronized: yes"));
    assert!(!detect_clock_sync(""));
}
