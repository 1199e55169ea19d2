//! The detector: structured facts from the output of the probing tools.
//!
//! Every function here takes the text that a tool printed and says what it
//! means. None of them touches the machine.

use crate::plan::{CpuVendor, GpuVendors};
use crate::text::{chars_of, contains, find_text, lines, split_lines};
use vstd::prelude::*;

verus! {

/// Why a required fact could not be had.
#[derive(Clone, Copy, PartialEq, Eq, Structural, Debug)]
pub enum DetectError {
    /// The tool's answer could not be understood at all.
    DetectionFailure,
    /// The tool answered, and its answer holds nothing of what is needed.
    EmptyResult,
}

/// What one line of the PCI listing can give away.
#[derive(Clone, Copy, PartialEq, Eq, Structural, Debug)]
pub enum Mark {
    Nvidia,
    Amd,
    Intel,
    IntelAudio,
}

/// The line describes a display adapter or a 3-D controller.
pub open spec fn is_display(line: Seq<char>) -> bool {
    contains(line, "vga"@, true) || contains(line, "3d controller"@, true)
}

/// What a line of the PCI listing gives away, if anything. Letter case does not
/// matter. On a display line the first maker that matches counts, in the order
/// Nvidia, AMD (by either of its names), Intel; any other line counts only as
/// an Intel audio device.
pub open spec fn mark_of(line: Seq<char>) -> Option<Mark> {
    if is_display(line) {
        if contains(line, "nvidia"@, true) {
            Some(Mark::Nvidia)
        } else if contains(line, "amd"@, true) || contains(line, "ati"@, true) {
            Some(Mark::Amd)
        } else if contains(line, "intel"@, true) {
            Some(Mark::Intel)
        } else {
            None
        }
    } else if contains(line, "audio"@, true) && contains(line, "intel"@, true) {
        Some(Mark::IntelAudio)
    } else {
        None
    }
}

/// One of the first `n` lines carries the mark.
pub open spec fn seen(ls: Seq<Seq<char>>, n: int, mark: Mark) -> bool {
    exists|i: int| 0 <= i < n && i < ls.len() && #[trigger] mark_of(ls[i]) == Some(mark)
}

/// Some line of the listing carries the mark.
pub open spec fn found(listing: Seq<char>, mark: Mark) -> bool {
    seen(lines(listing), lines(listing).len() as int, mark)
}

/// The graphics makers that a PCI listing shows.
pub open spec fn gpu_vendors_of(listing: Seq<char>) -> GpuVendors {
    GpuVendors {
        nvidia: found(listing, Mark::Nvidia),
        amd: found(listing, Mark::Amd),
        intel: found(listing, Mark::Intel),
    }
}

/// The processor maker that a processor description names: AMD or Intel by
/// their identification strings, in any letter case, AMD first; otherwise unknown.
pub open spec fn cpu_vendor_of(description: Seq<char>) -> CpuVendor {
    if contains(description, "authenticamd"@, true) {
        CpuVendor::Amd
    } else if contains(description, "genuineintel"@, true) {
        CpuVendor::Intel
    } else {
        CpuVendor::Unknown
    }
}

/// The time-sync status report says that the clock is synchronized.
pub open spec fn clock_synced(status: Seq<char>) -> bool {
    contains(status, "System clock synchronized: yes"@, false)
}

/// Looking at one more line adds exactly what that line carries.
pub proof fn lemma_seen_step(ls: Seq<Seq<char>>, n: int, mark: Mark)
    requires
        0 <= n < ls.len(),
    ensures
        seen(ls, n + 1, mark) == (seen(ls, n, mark) || mark_of(ls[n]) == Some(mark)),
{
    if seen(ls, n + 1, mark) {
        let i = choose|i: int| 0 <= i < n + 1 && i < ls.len() && #[trigger] mark_of(ls[i]) == Some(mark);
        if i < n {
            assert(seen(ls, n, mark));
        }
    }
    if seen(ls, n, mark) {
        let i = choose|i: int| 0 <= i < n && i < ls.len() && #[trigger] mark_of(ls[i]) == Some(mark);
        assert(0 <= i < n + 1 && mark_of(ls[i]) == Some(mark));
    }
    if mark_of(ls[n]) == Some(mark) {
        assert(0 <= n < n + 1 && mark_of(ls[n]) == Some(mark));
    }
}

/// What a line of the PCI listing gives away.
pub fn classify(line: &Vec<char>) -> (mark: Option<Mark>)
    ensures
        mark == mark_of(line@),
{
    if find_text(line, "vga", true) || find_text(line, "3d controller", true) {
        if find_text(line, "nvidia", true) {
            Some(Mark::Nvidia)
        } else if find_text(line, "amd", true) || find_text(line, "ati", true) {
            Some(Mark::Amd)
        } else if find_text(line, "intel", true) {
            Some(Mark::Intel)
        } else {
            None
        }
    } else if find_text(line, "audio", true) && find_text(line, "intel", true) {
        Some(Mark::IntelAudio)
    } else {
        None
    }
}

/// The graphics makers and the audio chipset that a PCI listing shows.
pub fn scan_pci(listing: &str) -> (r: (GpuVendors, bool))
    ensures
        r.0 == gpu_vendors_of(listing@),
        r.1 == found(listing@, Mark::IntelAudio),
{
    let cs = chars_of(listing);
    let ls = split_lines(&cs);
    let mut gpu = GpuVendors { nvidia: false, amd: false, intel: false };
    let mut audio = false;
    let ghost all = lines(listing@);
    let mut i: usize = 0;
    while i < ls.len()
        invariant
            i <= ls.len(),
            ls.deep_view() == all,
            gpu.nvidia == seen(all, i as int, Mark::Nvidia),
            gpu.amd == seen(all, i as int, Mark::Amd),
            gpu.intel == seen(all, i as int, Mark::Intel),
            audio == seen(all, i as int, Mark::IntelAudio),
        decreases ls.len() - i,
    {
        proof {
            assert(ls.deep_view().len() == ls.len());
            assert(all[i as int] == ls[i as int].deep_view());
            assert(ls[i as int].deep_view() =~= ls[i as int]@);
            lemma_seen_step(all, i as int, Mark::Nvidia);
            lemma_seen_step(all, i as int, Mark::Amd);
            lemma_seen_step(all, i as int, Mark::Intel);
            lemma_seen_step(all, i as int, Mark::IntelAudio);
        }
        match classify(&ls[i]) {
            Some(Mark::Nvidia) => {
                gpu.nvidia = true;
            },
            Some(Mark::Amd) => {
                gpu.amd = true;
            },
            Some(Mark::Intel) => {
                gpu.intel = true;
            },
            Some(Mark::IntelAudio) => {
                audio = true;
            },
            None => {},
        }
        i += 1;
    }
    assert(ls.deep_view().len() == ls.len());
    (gpu, audio)
}

/// The makers of the display adapters and 3-D controllers of a PCI listing. No
/// match gives the empty set, never an error.
pub fn detect_gpu_vendors(listing: &str) -> (gpu: GpuVendors)
    ensures
        gpu == gpu_vendors_of(listing@),
{
    scan_pci(listing).0
}

/// Whether a PCI listing shows an Intel audio device.
pub fn detect_intel_audio(listing: &str) -> (audio: bool)
    ensures
        audio == found(listing@, Mark::IntelAudio),
{
    scan_pci(listing).1
}

/// The maker of the processor that a processor description names. No match
/// gives `Unknown`, never an error.
pub fn detect_cpu_vendor(description: &str) -> (cpu: CpuVendor)
    ensures
        cpu == cpu_vendor_of(description@),
{
    let cs = chars_of(description);
    if find_text(&cs, "authenticamd", true) {
        CpuVendor::Amd
    } else if find_text(&cs, "genuineintel", true) {
        CpuVendor::Intel
    } else {
        CpuVendor::Unknown
    }
}

/// Whether the time-sync status report says that the clock is synchronized.
pub fn detect_clock_sync(status: &str) -> (synced: bool)
    ensures
        synced == clock_synced(status@),
{
    let cs = chars_of(status);
    find_text(&cs, "System clock synchronized: yes", false)
}

} // verus!
