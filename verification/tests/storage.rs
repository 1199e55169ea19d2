use santana::action::Action;
use santana::detect::DetectError;
use santana::json::{lookup, parse_json, Json};
use santana::storage::{
    detect_storage, detect_storage_topology, device_file, device_name, device_names,
    device_partitions, format_and_mount, read_disks, StorageSelection,
};

fn texts(items: &[&str]) -> Vec<String> {
    items.iter().map(|item| item.to_string()).collect()
}

fn text(value: &str) -> Json {
    Json::Text(value.to_string())
}

fn record(members: Vec<(&str, Json)>) -> Json {
    Json::Record(members.into_iter().map(|(key, value)| (key.to_string(), value)).collect())
}

fn device(name: &str) -> Json {
    record(vec![("name", text(name))])
}

fn disk(name: &str, partitions: &[&str]) -> Json {
    record(vec![
        ("name", text(name)),
        ("children", Json::List(partitions.iter().map(|name| device(name)).collect())),
    ])
}

fn run(program: &str, args: &[&str]) -> Action {
    Action::Run { program: program.to_string(), args: texts(args) }
}

const REPORT: &str = "{\n   \"blockdevices\": [\n      {\"name\":\"sda\", \"maj:min\":\"8:0\", \"rm\":false, \"size\":\"465.8G\", \"ro\":false, \"type\":\"disk\", \"mountpoints\":[null],\n         \"children\": [\n            {\"name\":\"sda1\", \"size\":\"512M\", \"type\":\"part\", \"mountpoints\":[\"/boot\"]},\n            {\"name\":\"sda2\", \"size\":\"465.3G\", \"type\":\"part\", \"mountpoints\":[null]}\n         ]\n      },\n      {\"name\":\"sr0\", \"size\":1073741312, \"type\":\"rom\"},\n      {\"name\":\"nvme0n1\", \"children\": [{\"name\":\"nvme0n1p1\"}]}\n   ]\n}\n";

#[test]
fn topology_of_a_report_of_the_block_device_tool() {
    assert_eq!(
        detect_storage(REPORT),
        Ok(vec![
            ("sda".to_string(), texts(&["sda1", "sda2"])),
            ("sr0".to_string(), Vec::new()),
            ("nvme0n1".to_string(), texts(&["nvme0n1p1"])),
        ])
    );
}

#[test]
fn report_that_is_no_json_is_a_detection_failure() {
    assert_eq!(detect_storage(""), Err(DetectError::DetectionFailure));
    assert_eq!(detect_storage("NAME MAJ:MIN\nsda 8:0"), Err(DetectError::DetectionFailure));
    assert_eq!(
        detect_storage("{\"blockdevices\": [{\"name\": \"sda\"}]"),
        Err(DetectError::DetectionFailure)
    );
    assert_eq!(
        detect_storage("{\"blockdevices\": [{\"name\": \"sda\"}]} trailing"),
        Err(DetectError::DetectionFailure)
    );
}

#[test]
fn report_of_another_shape_is_a_detection_failure() {
    let failure = Err(DetectError::DetectionFailure);
    assert_eq!(detect_storage("[]"), failure);
    assert_eq!(detect_storage("null"), failure);
    assert_eq!(detect_storage("{}"), failure);
    assert_eq!(detect_storage("{\"devices\": [{\"name\": \"sda\"}]}"), failure);
    assert_eq!(detect_storage("{\"blockdevices\": {\"name\": \"sda\"}}"), failure);
    assert_eq!(detect_storage("{\"blockdevices\": \"sda\"}"), failure);
    assert_eq!(detect_storage("{\"blockdevices\": [\"sda\"]}"), failure);
    assert_eq!(detect_storage("{\"blockdevices\": [{\"size\": \"1G\"}]}"), failure);
    assert_eq!(detect_storage("{\"blockdevices\": [{\"name\": 7}]}"), failure);
    assert_eq!(detect_storage("{\"blockdevices\": [{\"name\": null}]}"), failure);
    assert_eq!(
        detect_storage("{\"blockdevices\": [{\"name\": \"sda\", \"children\": \"sda1\"}]}"),
        failure
    );
    assert_eq!(
        detect_storage("{\"blockdevices\": [{\"name\": \"sda\", \"children\": [{\"size\": 1}]}]}"),
        failure
    );
    assert_eq!(
        detect_storage("{\"blockdevices\": [{\"name\": \"sda\"}, {\"children\": []}]}"),
        failure
    );
}

#[test]
fn report_without_a_disk_is_an_empty_result() {
    assert_eq!(detect_storage("{\"blockdevices\": []}"), Err(DetectError::EmptyResult));
    assert_eq!(detect_storage(" { \"blockdevices\" : [ ] } "), Err(DetectError::EmptyResult));
}

#[test]
fn topology_of_a_document() {
    let document = record(vec![
        ("version", Json::Number),
        ("blockdevices", Json::List(vec![disk("vda", &["vda1", "vda2", "vda3"]), device("vdb")])),
    ]);
    assert_eq!(
        detect_storage_topology(&document),
        Ok(vec![
            ("vda".to_string(), texts(&["vda1", "vda2", "vda3"])),
            ("vdb".to_string(), Vec::new()),
        ])
    );
    assert_eq!(
        detect_storage_topology(&record(vec![("blockdevices", Json::List(Vec::new()))])),
        Err(DetectError::EmptyResult)
    );
    assert_eq!(detect_storage_topology(&Json::Null), Err(DetectError::DetectionFailure));
    assert_eq!(detect_storage_topology(&Json::List(vec![device("sda")])), Err(DetectError::DetectionFailure));
    assert_eq!(
        detect_storage_topology(&record(vec![("blockdevices", Json::Bool(true))])),
        Err(DetectError::DetectionFailure)
    );
    assert_eq!(
        detect_storage_topology(&record(vec![(
            "blockdevices",
            Json::List(vec![device("sda"), Json::Null])
        )])),
        Err(DetectError::DetectionFailure)
    );
}

#[test]
fn names_and_partitions_of_devices() {
    assert_eq!(device_name(&device("sda")), Some("sda".to_string()));
    assert_eq!(device_name(&record(vec![("name", Json::Number)])), None);
    assert_eq!(device_name(&record(vec![("label", text("sda"))])), None);
    assert_eq!(device_name(&text("sda")), None);
    assert_eq!(device_names(&vec![device("a"), device("b")]), Some(texts(&["a", "b"])));
    assert_eq!(device_names(&Vec::new()), Some(Vec::new()));
    assert_eq!(device_names(&vec![device("a"), Json::Null, device("c")]), None);
    assert_eq!(device_partitions(&disk("sda", &["sda1"])), Some(texts(&["sda1"])));
    assert_eq!(device_partitions(&device("sda")), Some(Vec::new()));
    assert_eq!(device_partitions(&record(vec![("children", Json::Null)])), None);
    assert_eq!(device_partitions(&Json::Number), None);
    assert_eq!(
        read_disks(&vec![disk("sda", &["sda1"]), device("sdb")]),
        Some(vec![("sda".to_string(), texts(&["sda1"])), ("sdb".to_string(), Vec::new())])
    );
    assert_eq!(read_disks(&vec![disk("sda", &["sda1"]), Json::Bool(false)]), None);
    assert_eq!(read_disks(&Vec::new()), Some(Vec::new()));
}

#[test]
fn documents_read_from_text() {
    assert!(matches!(parse_json("null"), Some(Json::Null)));
    assert!(matches!(parse_json(" true "), Some(Json::Bool(true))));
    assert!(matches!(parse_json("false"), Some(Json::Bool(false))));
    assert!(matches!(parse_json("12.5e3"), Some(Json::Number)));
    assert!(matches!(parse_json("-7"), Some(Json::Number)));
    match parse_json("\"a\\u0062c\"") {
        Some(Json::Text(value)) => assert_eq!(value, "abc"),
        other => panic!("{:?}", other),
    }
    match parse_json("[1, \"two\", [null]]") {
        Some(Json::List(items)) => {
            assert_eq!(items.len(), 3);
            assert!(matches!(items[0], Json::Number));
            assert!(matches!(&items[1], Json::Text(value) if value == "two"));
            assert!(matches!(&items[2], Json::List(inner) if inner.len() == 1));
        },
        other => panic!("{:?}", other),
    }
    match parse_json("{\"b\": 1, \"a\": {\"c\": \"d\"}, \"b\": \"last\"}") {
        Some(Json::Record(members)) => {
            assert_eq!(members.len(), 2);
            assert!(matches!(lookup(&members, "b"), Some(Json::Text(value)) if value == "last"));
            assert!(matches!(lookup(&members, "a"), Some(Json::Record(inner)) if inner.len() == 1));
            assert!(lookup(&members, "c").is_none());
        },
        other => panic!("{:?}", other),
    }
    assert!(parse_json("").is_none());
    assert!(parse_json("{").is_none());
    assert!(parse_json("nul").is_none());
    assert!(parse_json("{} {}").is_none());
    assert!(parse_json("{'a': 1}").is_none());
}

#[test]
fn the_first_member_with_the_key_is_found() {
    let members = vec![
        ("a".to_string(), Json::Number),
        ("b".to_string(), Json::Null),
        ("a".to_string(), Json::Bool(true)),
    ];
    assert!(matches!(lookup(&members, "a"), Some(Json::Number)));
    assert!(matches!(lookup(&members, "b"), Some(Json::Null)));
    assert!(lookup(&members, "A").is_none());
    assert!(lookup(&members, "").is_none());
    assert!(lookup(&Vec::new(), "a").is_none());
}

#[test]
fn steps_for_a_root_partition_alone() {
    let selection = StorageSelection { root_partition: "sda2".to_string(), efi_partition: None };
    assert_eq!(
        format_and_mount(&selection),
        vec![run("mkfs.ext4", &["/dev/sda2"]), run("mount", &["/dev/sda2", "/mnt"])]
    );
}

#[test]
fn steps_for_a_root_and_an_efi_partition() {
    let selection = StorageSelection {
        root_partition: "nvme0n1p2".to_string(),
        efi_partition: Some("nvme0n1p1".to_string()),
    };
    assert_eq!(
        format_and_mount(&selection),
        vec![
            run("mkfs.ext4", &["/dev/nvme0n1p2"]),
            run("mount", &["/dev/nvme0n1p2", "/mnt"]),
            run("mkfs.vfat", &["/dev/nvme0n1p1"]),
            run("mkdir", &["-p", "/mnt/boot/efi"]),
            run("mount", &["/dev/nvme0n1p1", "/mnt/boot/efi"]),
        ]
    );
}

#[test]
fn device_files() {
    assert_eq!(device_file("sda"), "/dev/sda");
    assert_eq!(device_file(""), "/dev/");
}
