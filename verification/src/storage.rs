//! Disks and partitions: the topology that the block-device tool reports, and
//! the steps that prepare the chosen partitions for the installation.

use crate::action::{join, owned, Action, ActionView};
use crate::detect::DetectError;
use crate::json::{json_text, lookup, member, parse_json, Json};
use crate::plan::Disk;
use vstd::prelude::*;

verus! {

/// A disk as a mathematical value: its name and the names of its partitions.
pub type DiskView = (Seq<char>, Seq<Seq<char>>);

/// The partitions that the installation uses. An EFI partition is chosen only
/// on a machine that boots through EFI.
#[derive(Clone, Debug, PartialEq, Eq)]
pub struct StorageSelection {
    pub root_partition: String,
    pub efi_partition: Option<String>,
}

/// Where the installed system is mounted while it is set up.
pub open spec fn target_root() -> Seq<char> {
    "/mnt"@
}

/// Where the EFI partition is mounted.
pub open spec fn efi_mount_point() -> Seq<char> {
    "/mnt/boot/efi"@
}

/// The device file of a disk or partition.
pub open spec fn device_path(name: Seq<char>) -> Seq<char> {
    "/dev/"@ + name
}

/// The name of a block device: the text under `name` in its description.
pub open spec fn name_of(device: Json) -> Option<Seq<char>> {
    match device {
        Json::Record(members) => match member(members@, "name"@) {
            Some(Json::Text(name)) => Some(name@),
            _ => None,
        },
        _ => None,
    }
}

/// The names of the devices of a list, or `None` if one of them has none.
pub open spec fn names_of(devices: Seq<Json>) -> Option<Seq<Seq<char>>>
    decreases devices.len(),
{
    if devices.len() == 0 {
        Some(Seq::empty())
    } else {
        match (names_of(devices.drop_last()), name_of(devices.last())) {
            (Some(names), Some(name)) => Some(names.push(name)),
            _ => None,
        }
    }
}

/// The partitions of a disk: the names of the devices under `children`, none
/// where the description has no such member. `None` if `children` is no list
/// or holds a device without a name.
pub open spec fn partitions_of(device: Json) -> Option<Seq<Seq<char>>> {
    match device {
        Json::Record(members) => match member(members@, "children"@) {
            None => Some(Seq::empty()),
            Some(Json::List(children)) => names_of(children@),
            Some(_) => None,
        },
        _ => None,
    }
}

/// A disk with its partitions, or `None` if its description is malformed.
pub open spec fn disk_of(device: Json) -> Option<DiskView> {
    match (name_of(device), partitions_of(device)) {
        (Some(name), Some(partitions)) => Some((name, partitions)),
        _ => None,
    }
}

/// The disks of a list of descriptions, in its order, or `None` if one of the
/// descriptions is malformed.
pub open spec fn disks_of(devices: Seq<Json>) -> Option<Seq<DiskView>>
    decreases devices.len(),
{
    if devices.len() == 0 {
        Some(Seq::empty())
    } else {
        match (disks_of(devices.drop_last()), disk_of(devices.last())) {
            (Some(disks), Some(disk)) => Some(disks.push(disk)),
            _ => None,
        }
    }
}

/// The topology that a report of the block-device tool describes: the disks
/// under `blockdevices`, in the order of the report. A report of another shape
/// is a detection failure; a well-formed report without a disk is an empty
/// result.
pub open spec fn topology_of(document: Json) -> Result<Seq<DiskView>, DetectError> {
    match document {
        Json::Record(members) => match member(members@, "blockdevices"@) {
            Some(Json::List(devices)) => match disks_of(devices@) {
                Some(disks) => if disks.len() == 0 {
                    Err(DetectError::EmptyResult)
                } else {
                    Ok(disks)
                },
                None => Err(DetectError::DetectionFailure),
            },
            _ => Err(DetectError::DetectionFailure),
        },
        _ => Err(DetectError::DetectionFailure),
    }
}

/// The topology that the text of a report describes. A text that is no JSON is
/// a detection failure.
pub open spec fn storage_of(report: Seq<char>) -> Result<Seq<DiskView>, DetectError> {
    match json_text(report) {
        Some(document) => topology_of(document),
        None => Err(DetectError::DetectionFailure),
    }
}

/// The action that runs `program` with the given arguments.
pub open spec fn run_spec(program: Seq<char>, args: Seq<Seq<char>>) -> ActionView {
    ActionView::Run { program, args }
}

/// The steps that make and mount the root file system.
pub open spec fn root_steps(root: Seq<char>) -> Seq<ActionView> {
    seq![
        run_spec("mkfs.ext4"@, seq![device_path(root)]),
        run_spec("mount"@, seq![device_path(root), target_root()]),
    ]
}

/// The steps that make and mount the EFI file system.
pub open spec fn efi_steps(efi: Seq<char>) -> Seq<ActionView> {
    seq![
        run_spec("mkfs.vfat"@, seq![device_path(efi)]),
        run_spec("mkdir"@, seq!["-p"@, efi_mount_point()]),
        run_spec("mount"@, seq![device_path(efi), efi_mount_point()]),
    ]
}

/// The steps that prepare the chosen partitions, in the order in which they
/// are run: format the root partition, mount it, and with an EFI partition go
/// on to format that, make its mount point under the mounted root and mount it.
pub open spec fn format_and_mount_spec(root: Seq<char>, efi: Option<Seq<char>>) -> Seq<
    ActionView,
> {
    match efi {
        None => root_steps(root),
        Some(partition) => root_steps(root) + efi_steps(partition),
    }
}

/// Without an EFI partition nothing is formatted or mounted for EFI: the
/// steps are those of the root partition and no others.
pub proof fn lemma_no_efi_steps(root: Seq<char>)
    ensures
        format_and_mount_spec(root, None) == root_steps(root),
        format_and_mount_spec(root, None).len() == 2,
{
}

/// The name of a block device.
pub fn device_name(device: &Json) -> (name: Option<String>)
    ensures
        name.deep_view() == name_of(*device),
{
    match device {
        Json::Record(members) => match lookup(members, "name") {
            Some(Json::Text(name)) => Some(name.clone()),
            _ => None,
        },
        _ => None,
    }
}

/// The names of the devices of a list, or `None` if one of them has none.
pub fn device_names(devices: &Vec<Json>) -> (names: Option<Vec<String>>)
    ensures
        names.deep_view() == names_of(devices@),
{
    let mut names: Vec<String> = Vec::new();
    let mut i: usize = 0;
    assert(devices@.take(0) =~= Seq::<Json>::empty());
    assert(names.deep_view() =~= Seq::<Seq<char>>::empty());
    while i < devices.len()
        invariant
            i <= devices.len(),
            names_of(devices@.take(i as int)) == Some(names.deep_view()),
        decreases devices.len() - i,
    {
        let ghost next = devices@.take(i + 1);
        assert(next.drop_last() =~= devices@.take(i as int));
        assert(next.last() == devices@[i as int]);
        match device_name(&devices[i]) {
            Some(name) => {
                let ghost before = names.deep_view();
                names.push(name);
                assert(names.deep_view() =~= before.push(name@));
            },
            None => {
                proof {
                    lemma_names_stay_none(devices@, i + 1);
                }
                return None;
            },
        }
        i += 1;
    }
    assert(devices@.take(devices.len() as int) =~= devices@);
    Some(names)
}

/// Once a device without a name is among the first `n`, the whole list has no
/// list of names.
pub proof fn lemma_names_stay_none(devices: Seq<Json>, n: int)
    requires
        0 <= n <= devices.len(),
        names_of(devices.take(n)) is None,
    ensures
        names_of(devices) is None,
    decreases devices.len() - n,
{
    if n < devices.len() {
        assert(devices.take(n + 1).drop_last() =~= devices.take(n));
        lemma_names_stay_none(devices, n + 1);
    } else {
        assert(devices.take(n) =~= devices);
    }
}

/// Once a malformed description is among the first `n`, the whole list has no
/// list of disks.
pub proof fn lemma_disks_stay_none(devices: Seq<Json>, n: int)
    requires
        0 <= n <= devices.len(),
        disks_of(devices.take(n)) is None,
    ensures
        disks_of(devices) is None,
    decreases devices.len() - n,
{
    if n < devices.len() {
        assert(devices.take(n + 1).drop_last() =~= devices.take(n));
        lemma_disks_stay_none(devices, n + 1);
    } else {
        assert(devices.take(n) =~= devices);
    }
}

/// The partitions of a disk.
pub fn device_partitions(device: &Json) -> (partitions: Option<Vec<String>>)
    ensures
        partitions.deep_view() == partitions_of(*device),
{
    match device {
        Json::Record(members) => match lookup(members, "children") {
            None => {
                let none: Vec<String> = Vec::new();
                assert(none.deep_view() =~= Seq::<Seq<char>>::empty());
                Some(none)
            },
            Some(Json::List(children)) => device_names(children),
            Some(_) => None,
        },
        _ => None,
    }
}

/// The disks of a list of descriptions, in its order.
pub fn read_disks(devices: &Vec<Json>) -> (disks: Option<Vec<Disk>>)
    ensures
        disks.deep_view() == disks_of(devices@),
{
    let mut disks: Vec<Disk> = Vec::new();
    let mut i: usize = 0;
    assert(devices@.take(0) =~= Seq::<Json>::empty());
    assert(disks.deep_view() =~= Seq::<DiskView>::empty());
    while i < devices.len()
        invariant
            i <= devices.len(),
            disks_of(devices@.take(i as int)) == Some(disks.deep_view()),
        decreases devices.len() - i,
    {
        let ghost next = devices@.take(i + 1);
        assert(next.drop_last() =~= devices@.take(i as int));
        assert(next.last() == devices@[i as int]);
        let name = device_name(&devices[i]);
        let partitions = device_partitions(&devices[i]);
        match (name, partitions) {
            (Some(name), Some(partitions)) => {
                let ghost before = disks.deep_view();
                let ghost disk = (name@, partitions.deep_view());
                disks.push((name, partitions));
                assert(disks.deep_view() =~= before.push(disk));
            },
            _ => {
                proof {
                    lemma_disks_stay_none(devices@, i + 1);
                }
                return None;
            },
        }
        i += 1;
    }
    assert(devices@.take(devices.len() as int) =~= devices@);
    Some(disks)
}

/// The disks and partitions that a report of the block-device tool describes.
/// Disks come in the order of the report, partitions in the order in which
/// they stand under their disk.
pub fn detect_storage_topology(document: &Json) -> (r: Result<Vec<Disk>, DetectError>)
    ensures
        match r {
            Ok(disks) => topology_of(*document) == Ok::<Seq<DiskView>, DetectError>(
                disks.deep_view(),
            ),
            Err(error) => topology_of(*document) == Err::<Seq<DiskView>, DetectError>(error),
        },
{
    match document {
        Json::Record(members) => match lookup(members, "blockdevices") {
            Some(Json::List(devices)) => match read_disks(devices) {
                Some(disks) => {
                    assert(disks.deep_view().len() == disks.len());
                    if disks.len() == 0 {
                        Err(DetectError::EmptyResult)
                    } else {
                        Ok(disks)
                    }
                },
                None => Err(DetectError::DetectionFailure),
            },
            _ => Err(DetectError::DetectionFailure),
        },
        _ => Err(DetectError::DetectionFailure),
    }
}

/// Reads the text of a report of the block-device tool and gives the disks and
/// partitions that it describes.
pub fn detect_storage(report: &str) -> (r: Result<Vec<Disk>, DetectError>)
    ensures
        match r {
            Ok(disks) => storage_of(report@) == Ok::<Seq<DiskView>, DetectError>(
                disks.deep_view(),
            ),
            Err(error) => storage_of(report@) == Err::<Seq<DiskView>, DetectError>(error),
        },
{
    match parse_json(report) {
        Some(document) => detect_storage_topology(&document),
        None => Err(DetectError::DetectionFailure),
    }
}

/// The device file of a disk or partition.
pub fn device_file(name: &str) -> (path: String)
    ensures
        path@ == device_path(name@),
{
    join("/dev/", name)
}

/// The steps that prepare the chosen partitions for the installation, in the
/// order in which they have to be run. Each step needs the one before it; the
/// first that fails ends the sequence.
pub fn format_and_mount(selection: &StorageSelection) -> (steps: Vec<Action>)
    ensures
        steps.deep_view() == format_and_mount_spec(
            selection.root_partition@,
            selection.efi_partition.deep_view(),
        ),
{
    let root = selection.root_partition.as_str();
    let format = vec![device_file(root)];
    assert(format.deep_view() =~= seq![device_path(root@)]);
    let mount = vec![device_file(root), owned("/mnt")];
    assert(mount.deep_view() =~= seq![device_path(root@), target_root()]);
    let mut steps: Vec<Action> = vec![
        Action::Run { program: owned("mkfs.ext4"), args: format },
        Action::Run { program: owned("mount"), args: mount },
    ];
    assert(steps.deep_view() =~= root_steps(root@));
    match &selection.efi_partition {
        None => {},
        Some(partition) => {
            let efi = partition.as_str();
            let format = vec![device_file(efi)];
            assert(format.deep_view() =~= seq![device_path(efi@)]);
            let make = vec![owned("-p"), owned("/mnt/boot/efi")];
            assert(make.deep_view() =~= seq!["-p"@, efi_mount_point()]);
            let mount = vec![device_file(efi), owned("/mnt/boot/efi")];
            assert(mount.deep_view() =~= seq![device_path(efi@), efi_mount_point()]);
            steps.push(Action::Run { program: owned("mkfs.vfat"), args: format });
            steps.push(Action::Run { program: owned("mkdir"), args: make });
            steps.push(Action::Run { program: owned("mount"), args: mount });
            assert(steps.deep_view() =~= root_steps(root@) + efi_steps(efi@));
        },
    }
    steps
}

} // verus!
