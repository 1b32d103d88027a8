use graphyte::asset_library::asset_descriptor::AssetDescriptor;
use graphyte::asset_library::asset_system::decode_asset;
use graphyte::asset_library::asset_system::error::AssetArchiveError;
use graphyte::asset_library::asset_system::error::AssetSystemError;
use graphyte::asset_library::asset_system::error::DecodeError;
use graphyte::asset_library::asset_system::is_archive_file;
use graphyte::asset_library::asset_system::toml_nesting::next_mode;
use graphyte::asset_library::asset_system::toml_nesting::toml_nests_beyond;
use graphyte::asset_library::asset_system::toml_nesting::TomlMode;
use graphyte::asset_library::asset_system::AssetDocument;
use graphyte::asset_library::asset_system::AssetFormat;
use graphyte::asset_library::asset_system::AssetSystem;
use graphyte::asset_library::asset_system::TOML_NESTING_LIMIT;
use graphyte::asset_library::vfs::error::VfsError;
use graphyte::asset_library::vfs::MountedLayer;
use graphyte::asset_library::vfs::VfsMountPoint;
use graphyte::asset_library::vfs::VirtualFileSystem;
use std::sync::Arc;
use std::sync::Mutex;

/// A layer that holds its files in memory and notes every file it is asked for.
struct MemoryLayer {
    identifier: String,
    version: u64,
    files: Vec<(String, String, Vec<u8>)>,
    broken: Vec<String>,
    asked: Arc<Mutex<Vec<(u64, String)>>>,
}

impl MemoryLayer {
    fn new(identifier: &str, version: u64, asked: &Arc<Mutex<Vec<(u64, String)>>>) -> MemoryLayer {
        MemoryLayer {
            identifier: identifier.to_owned(),
            version,
            files: Vec::new(),
            broken: Vec::new(),
            asked: asked.clone(),
        }
    }

    fn with(mut self, name: &str, format: &str, bytes: &[u8]) -> MemoryLayer {
        self.files.push((name.to_owned(), format.to_owned(), bytes.to_vec()));
        self
    }

    fn with_broken(mut self, name: &str) -> MemoryLayer {
        self.broken.push(name.to_owned());
        self
    }
}

impl VfsMountPoint for MemoryLayer {
    fn identifier(&self) -> &str {
        &self.identifier
    }

    fn has_file(&self, identifier: &str) -> bool {
        self.files.iter().any(|(name, _, _)| name == identifier)
    }

    fn get_asset_descriptor(&self, identifier: &str) -> Option<AssetDescriptor> {
        self.files
            .iter()
            .find(|(name, _, _)| name == identifier)
            .map(|(name, format, _)| AssetDescriptor::new(name.clone(), format.clone()))
    }

    fn load_asset_into(&self, identifier: &str, buffer: &mut Vec<u8>) -> Result<AssetDescriptor, VfsError> {
        self.asked.lock().unwrap().push((self.version, identifier.to_owned()));
        if self.broken.iter().any(|name| name == identifier) {
            return Err(VfsError::Other(format!("layer {} cannot read {}", self.version, identifier)));
        }
        match self.files.iter().find(|(name, _, _)| name == identifier) {
            Some((name, format, bytes)) => {
                buffer.extend_from_slice(bytes);
                Ok(AssetDescriptor::new(name.clone(), format.clone()))
            }
            None => Err(VfsError::FileNotFound),
        }
    }

    fn version(&self) -> u64 {
        self.version
    }
}

fn asked_log() -> Arc<Mutex<Vec<(u64, String)>>> {
    Arc::new(Mutex::new(Vec::new()))
}

fn versions_asked(asked: &Arc<Mutex<Vec<(u64, String)>>>) -> Vec<u64> {
    asked.lock().unwrap().iter().map(|(version, _)| *version).collect()
}

#[test]
fn descriptor_keeps_identifier_and_format() {
    let descriptor = AssetDescriptor::new("textures/wall".to_owned(), "json".to_owned());
    assert_eq!(descriptor.identifier(), "textures/wall");
    assert_eq!(descriptor.format(), "json");
}

#[test]
fn vfs_error_says_what_it_is() {
    assert!(VfsError::FileNotFound.is_file_not_found());
    assert!(!VfsError::MountpointNotFound.is_file_not_found());
    assert!(!VfsError::Other("disk".to_owned()).is_file_not_found());
    assert_eq!(VfsError::MountpointNotFound.message(), "mount point not found");
    assert_eq!(VfsError::FileNotFound.message(), "file not found");
    assert_eq!(VfsError::Other("disk on fire".to_owned()).message(), "disk on fire");
}

#[test]
fn empty_file_system_knows_no_mount_point() {
    let vfs = VirtualFileSystem::default();
    assert!(matches!(vfs.read_file("core", "a"), Err(VfsError::MountpointNotFound)));
    let mut buffer = vec![1, 2, 3];
    assert!(matches!(vfs.read_file_into("core", "a", &mut buffer), Err(VfsError::MountpointNotFound)));
    assert_eq!(buffer, vec![1, 2, 3]);
}

#[test]
fn mounted_file_is_read() {
    let asked = asked_log();
    let mut vfs = VirtualFileSystem::default();
    assert!(vfs.mount(MemoryLayer::new("core", 1, &asked).with("a", "json", b"[1]")));
    let (bytes, descriptor) = vfs.read_file("core", "a").unwrap();
    assert_eq!(bytes, b"[1]");
    assert_eq!(descriptor.identifier(), "a");
    assert_eq!(descriptor.format(), "json");
}

#[test]
fn bytes_are_appended_to_the_buffer() {
    let asked = asked_log();
    let mut vfs = VirtualFileSystem::default();
    vfs.mount(MemoryLayer::new("core", 1, &asked).with("a", "json", b"[1]"));
    let mut buffer = b"x".to_vec();
    vfs.read_file_into("core", "a", &mut buffer).unwrap();
    assert_eq!(buffer, b"x[1]");
}

#[test]
fn same_version_is_mounted_once() {
    let asked = asked_log();
    let mut vfs = VirtualFileSystem::default();
    assert!(vfs.mount(MemoryLayer::new("core", 1, &asked).with("a", "json", b"first")));
    assert!(!vfs.mount(MemoryLayer::new("core", 1, &asked).with("a", "json", b"second")));
    assert!(vfs.mount(MemoryLayer::new("mods", 1, &asked).with("a", "json", b"third")));
    assert_eq!(vfs.read_file("core", "a").unwrap().0, b"first");
    assert_eq!(vfs.read_file("mods", "a").unwrap().0, b"third");
}

#[test]
fn highest_version_is_asked_first_whatever_the_mount_order() {
    for order in [[1u64, 2, 3], [3, 2, 1], [2, 3, 1], [2, 1, 3], [1, 3, 2], [3, 1, 2]] {
        let asked = asked_log();
        let mut vfs = VirtualFileSystem::default();
        for version in order {
            let layer = if version == 1 {
                MemoryLayer::new("core", version, &asked).with("a", "json", b"old")
            } else {
                MemoryLayer::new("core", version, &asked)
            };
            assert!(vfs.mount(layer));
        }
        assert_eq!(vfs.read_file("core", "a").unwrap().0, b"old");
        assert_eq!(versions_asked(&asked), vec![3, 2, 1]);
    }
}

#[test]
fn newer_layer_shadows_older_layer() {
    let asked = asked_log();
    let mut vfs = VirtualFileSystem::default();
    vfs.mount(MemoryLayer::new("core", 7, &asked).with("a", "json", b"new"));
    vfs.mount(MemoryLayer::new("core", 2, &asked).with("a", "json", b"old").with("b", "yaml", b"only old"));
    assert_eq!(vfs.read_file("core", "a").unwrap().0, b"new");
    assert_eq!(versions_asked(&asked), vec![7]);
    assert_eq!(vfs.read_file("core", "b").unwrap().0, b"only old");
}

#[test]
fn file_in_no_layer_is_not_found() {
    let asked = asked_log();
    let mut vfs = VirtualFileSystem::default();
    vfs.mount(MemoryLayer::new("core", 1, &asked));
    vfs.mount(MemoryLayer::new("core", 2, &asked));
    assert!(matches!(vfs.read_file("core", "a"), Err(VfsError::FileNotFound)));
    assert_eq!(versions_asked(&asked), vec![2, 1]);
}

#[test]
fn other_error_of_a_layer_ends_the_search() {
    let asked = asked_log();
    let mut vfs = VirtualFileSystem::default();
    vfs.mount(MemoryLayer::new("core", 1, &asked).with("a", "json", b"old"));
    vfs.mount(MemoryLayer::new("core", 2, &asked).with_broken("a"));
    vfs.mount(MemoryLayer::new("core", 3, &asked));
    match vfs.read_file("core", "a") {
        Err(VfsError::Other(reason)) => assert_eq!(reason, "layer 2 cannot read a"),
        _ => panic!("the error of layer 2 must come back"),
    }
    assert_eq!(versions_asked(&asked), vec![3, 2]);
}

#[test]
fn names_are_looked_up_in_lowercase() {
    let asked = asked_log();
    let mut vfs = VirtualFileSystem::default();
    vfs.mount(MemoryLayer::new("core", 1, &asked).with("textures/wall", "json", b"w"));
    assert_eq!(vfs.read_file("CORE", "Textures/WALL").unwrap().0, b"w");
    assert_eq!(asked.lock().unwrap()[0].1, "textures/wall");
}

#[test]
fn mount_point_is_kept_as_it_is_written() {
    let asked = asked_log();
    let mut vfs = VirtualFileSystem::default();
    assert!(vfs.mount(MemoryLayer::new("Core", 1, &asked).with("a", "json", b"w")));
    assert!(matches!(vfs.read_file("Core", "a"), Err(VfsError::MountpointNotFound)));
    assert!(matches!(vfs.read_file("core", "a"), Err(VfsError::MountpointNotFound)));
}

#[test]
fn mount_layer_takes_the_name_it_is_given() {
    let asked = asked_log();
    let mut vfs = VirtualFileSystem::default();
    let layer = MountedLayer::new(MemoryLayer::new("ignored", 4, &asked).with("a", "json", b"w"));
    assert!(vfs.mount_layer("core".to_owned(), layer));
    let again = MountedLayer::new(MemoryLayer::new("ignored", 4, &asked));
    assert!(!vfs.mount_layer("core".to_owned(), again));
    assert_eq!(vfs.read_file("core", "a").unwrap().0, b"w");
}

#[test]
fn format_names_are_known() {
    assert_eq!(AssetFormat::from_name("yaml"), Some(AssetFormat::Yaml));
    assert_eq!(AssetFormat::from_name("yml"), Some(AssetFormat::Yaml));
    assert_eq!(AssetFormat::from_name("cbor"), Some(AssetFormat::Cbor));
    assert_eq!(AssetFormat::from_name("json"), Some(AssetFormat::Json));
    assert_eq!(AssetFormat::from_name("toml"), Some(AssetFormat::Toml));
}

#[test]
fn other_format_names_are_unknown() {
    assert_eq!(AssetFormat::from_name(""), None);
    assert_eq!(AssetFormat::from_name("JSON"), None);
    assert_eq!(AssetFormat::from_name("xml"), None);
    assert_eq!(AssetFormat::from_name("json "), None);
    assert_eq!(AssetFormat::from_name("yam"), None);
}

#[test]
fn json_bytes_become_a_json_document() {
    match AssetFormat::Json.decode(b"{\"speed\": 3, \"name\": \"cart\"}") {
        Ok(AssetDocument::Json(value)) => {
            assert_eq!(value["speed"].as_u64(), Some(3));
            assert_eq!(value["name"].as_str(), Some("cart"));
        }
        _ => panic!("a JSON document must come back"),
    }
}

#[test]
fn yaml_bytes_become_a_yaml_document() {
    match AssetFormat::Yaml.decode(b"speed: 3\nname: cart\n") {
        Ok(AssetDocument::Yaml(value)) => {
            assert_eq!(value["speed"].as_u64(), Some(3));
            assert_eq!(value["name"].as_str(), Some("cart"));
        }
        _ => panic!("a YAML document must come back"),
    }
}

#[test]
fn toml_bytes_become_a_toml_document() {
    match AssetFormat::Toml.decode(b"speed = 3\nname = \"cart\"\n") {
        Ok(AssetDocument::Toml(value)) => {
            assert_eq!(value["speed"].as_integer(), Some(3));
            assert_eq!(value["name"].as_str(), Some("cart"));
        }
        _ => panic!("a TOML document must come back"),
    }
}

#[test]
fn cbor_bytes_become_a_cbor_document() {
    // The map {"speed": 3}.
    let bytes = [0xa1, 0x65, b's', b'p', b'e', b'e', b'd', 0x03];
    match AssetFormat::Cbor.decode(&bytes) {
        Ok(AssetDocument::Cbor(serde_cbor::Value::Map(map))) => {
            let speed = map.get(&serde_cbor::Value::Text("speed".to_owned()));
            assert_eq!(speed, Some(&serde_cbor::Value::Integer(3)));
        }
        _ => panic!("a CBOR map must come back"),
    }
}

#[test]
fn document_knows_its_format() {
    assert_eq!(AssetFormat::Json.decode(b"1").unwrap().format(), AssetFormat::Json);
    assert_eq!(AssetFormat::Yaml.decode(b"1").unwrap().format(), AssetFormat::Yaml);
    assert_eq!(AssetFormat::Cbor.decode(&[0x01]).unwrap().format(), AssetFormat::Cbor);
    assert_eq!(AssetFormat::Toml.decode(b"a = 1").unwrap().format(), AssetFormat::Toml);
}

#[test]
fn bytes_that_are_no_document_give_the_error_of_the_decoder() {
    assert!(matches!(AssetFormat::Json.decode(b"{"), Err(AssetSystemError::Other(DecodeError::Json(_)))));
    assert!(matches!(AssetFormat::Yaml.decode(b"a: [1"), Err(AssetSystemError::Other(DecodeError::Yaml(_)))));
    assert!(matches!(AssetFormat::Cbor.decode(&[0xa1]), Err(AssetSystemError::Other(DecodeError::Cbor(_)))));
    assert!(matches!(AssetFormat::Toml.decode(b"a = "), Err(AssetSystemError::Other(DecodeError::Toml(_)))));
}

#[test]
fn asset_is_decoded_in_the_format_of_its_description() {
    let bytes = b"[1, 2]";
    let json = AssetDescriptor::new("a".to_owned(), "json".to_owned());
    assert!(matches!(decode_asset(&json, bytes), Ok(AssetDocument::Json(_))));
    let yaml = AssetDescriptor::new("a".to_owned(), "yml".to_owned());
    assert!(matches!(decode_asset(&yaml, bytes), Ok(AssetDocument::Yaml(_))));
    let toml = AssetDescriptor::new("a".to_owned(), "toml".to_owned());
    assert!(matches!(decode_asset(&toml, bytes), Err(AssetSystemError::Other(DecodeError::Toml(_)))));
}

#[test]
fn unknown_format_is_refused() {
    let descriptor = AssetDescriptor::new("a".to_owned(), "png".to_owned());
    assert!(matches!(decode_asset(&descriptor, b"[1]"), Err(AssetSystemError::UnknownAssetFormat)));
}

#[test]
fn asset_system_loads_and_decodes() {
    let asked = asked_log();
    let mut assets = AssetSystem::default();
    assert!(assets.mount(MemoryLayer::new("core", 1, &asked).with("cart", "json", b"{\"speed\": 3}")));
    match assets.load_asset_as_type("core", "cart") {
        Ok(AssetDocument::Json(value)) => assert_eq!(value["speed"].as_u64(), Some(3)),
        _ => panic!("a JSON document must come back"),
    }
}

#[test]
fn asset_system_decodes_the_whole_buffer() {
    let asked = asked_log();
    let mut assets = AssetSystem::default();
    assets.mount(MemoryLayer::new("core", 1, &asked).with("tail", "json", b"2]"));
    let mut buffer = b"[1, ".to_vec();
    match assets.load_asset_as_type_using_buffer("core", "tail", &mut buffer) {
        Ok(AssetDocument::Json(value)) => assert_eq!(value[1].as_u64(), Some(2)),
        _ => panic!("the buffer as a whole is a JSON document"),
    }
    assert_eq!(buffer, b"[1, 2]");
}

#[test]
fn asset_system_passes_errors_of_the_file_system_on() {
    let asked = asked_log();
    let mut assets = AssetSystem::default();
    let mut buffer = Vec::new();
    assert!(matches!(
        assets.load_asset_as_blob_into("core", "cart", &mut buffer),
        Err(AssetSystemError::Vfs(VfsError::MountpointNotFound))
    ));
    assert!(matches!(
        assets.load_asset_as_type("core", "cart"),
        Err(AssetSystemError::Vfs(VfsError::MountpointNotFound))
    ));
    assets.mount(MemoryLayer::new("core", 1, &asked).with("image", "png", b"...."));
    assert!(matches!(
        assets.load_asset_as_type("core", "cart"),
        Err(AssetSystemError::Vfs(VfsError::FileNotFound))
    ));
    assert!(matches!(assets.load_asset_as_type("core", "image"), Err(AssetSystemError::UnknownAssetFormat)));
}

#[test]
fn asset_system_refuses_a_version_twice() {
    let asked = asked_log();
    let mut assets = AssetSystem::default();
    assert!(assets.mount(MemoryLayer::new("core", 1, &asked)));
    assert!(!assets.mount(MemoryLayer::new("core", 1, &asked)));
    assert!(assets.mount(MemoryLayer::new("core", 2, &asked)));
}

#[test]
fn errors_convert_into_asset_system_errors() {
    assert!(matches!(AssetSystemError::from(VfsError::FileNotFound), AssetSystemError::Vfs(VfsError::FileNotFound)));
    let io = std::io::Error::new(std::io::ErrorKind::NotFound, "gone");
    assert!(matches!(AssetSystemError::from(io), AssetSystemError::Io(_)));
}

#[test]
fn archive_error_converts_into_asset_system_error() {
    let error = AssetSystemError::from(AssetArchiveError { reason: "truncated".to_owned() });
    match error {
        AssetSystemError::Archive(e) => assert_eq!(e.reason, "truncated"),
        _ => panic!("the archive error must come back"),
    }
}

#[test]
fn decode_error_converts_into_asset_system_error() {
    let reason = match AssetFormat::Json.decode(b"{") {
        Err(AssetSystemError::Other(reason)) => reason,
        _ => panic!("the bytes are no JSON document"),
    };
    assert!(matches!(AssetSystemError::from(reason), AssetSystemError::Other(DecodeError::Json(_))));
}

#[test]
fn archive_files_are_files_with_the_wanted_extension() {
    assert!(is_archive_file(true, Some("pak"), "pak"));
    assert!(!is_archive_file(false, Some("pak"), "pak"));
    assert!(!is_archive_file(true, Some("PAK"), "pak"));
    assert!(!is_archive_file(true, Some("zip"), "pak"));
    assert!(!is_archive_file(true, None, "pak"));
    assert!(!is_archive_file(true, Some(""), "pak"));
}

#[test]
fn layers_are_asked_from_the_highest_version_down_for_any_mount_order() {
    let mut seed: u64 = 88_172_645_463_325_252;
    for _ in 0..200 {
        let asked = asked_log();
        let mut vfs = VirtualFileSystem::default();
        let mut mounted: Vec<u64> = Vec::new();
        for _ in 0..12 {
            seed ^= seed << 13;
            seed ^= seed >> 7;
            seed ^= seed << 17;
            let version = seed % 9;
            let fresh = !mounted.contains(&version);
            assert_eq!(vfs.mount(MemoryLayer::new("core", version, &asked)), fresh);
            if fresh {
                mounted.push(version);
            }
        }
        assert!(matches!(vfs.read_file("core", "a"), Err(VfsError::FileNotFound)));
        mounted.sort();
        mounted.reverse();
        assert_eq!(versions_asked(&asked), mounted);
    }
}

#[test]
fn layer_is_mounted_under_the_version_it_is_given() {
    let asked = asked_log();
    let mut vfs = VirtualFileSystem::default();
    let low = MountedLayer::with_version(1, MemoryLayer::new("x", 70, &asked));
    let high = MountedLayer::with_version(2, MemoryLayer::new("x", 60, &asked));
    assert!(vfs.mount_layer("core".to_owned(), high));
    assert!(vfs.mount_layer("core".to_owned(), low));
    assert!(!vfs.mount_layer("core".to_owned(), MountedLayer::with_version(2, MemoryLayer::new("x", 50, &asked))));
    assert!(matches!(vfs.read_file("core", "a"), Err(VfsError::FileNotFound)));
    assert_eq!(versions_asked(&asked), vec![60, 70]);
}

#[test]
fn mounted_layer_keeps_the_version_that_the_layer_answers() {
    let asked = asked_log();
    let mut vfs = VirtualFileSystem::default();
    assert!(vfs.mount_layer("core".to_owned(), MountedLayer::new(MemoryLayer::new("x", 5, &asked))));
    assert!(vfs.mount_layer("core".to_owned(), MountedLayer::new(MemoryLayer::new("x", 9, &asked))));
    assert!(!vfs.mount_layer("core".to_owned(), MountedLayer::new(MemoryLayer::new("x", 5, &asked))));
    assert!(matches!(vfs.read_file("core", "a"), Err(VfsError::FileNotFound)));
    assert_eq!(versions_asked(&asked), vec![9, 5]);
}

fn repeated(prefix: &str, unit: &str, times: usize, suffix: &str) -> Vec<u8> {
    let mut text = String::from(prefix);
    for _ in 0..times {
        text.push_str(unit);
    }
    text.push_str(suffix);
    text.into_bytes()
}

fn nested_yaml_mappings(levels: usize) -> Vec<u8> {
    let mut text = String::new();
    for level in 0..levels {
        for _ in 0..level {
            text.push(' ');
        }
        text.push_str("a:\n");
    }
    text.into_bytes()
}

fn numbered_lines(lines: usize, separator: &str, value: &str) -> Vec<u8> {
    let mut text = String::new();
    for line in 0..lines {
        text.push_str(&format!("key{}{}{}\n", line, separator, value));
    }
    text.into_bytes()
}

fn is_yaml_error(decoded: &Result<AssetDocument, AssetSystemError>) -> bool {
    matches!(decoded, Err(AssetSystemError::Other(DecodeError::Yaml(_))))
}

fn is_toml_error(decoded: &Result<AssetDocument, AssetSystemError>) -> bool {
    matches!(decoded, Err(AssetSystemError::Other(DecodeError::Toml(_))))
}

#[test]
fn flat_yaml_of_any_length_is_decoded() {
    let keys = numbered_lines(129, ": ", "1");
    assert!(matches!(AssetFormat::Yaml.decode(&keys), Ok(AssetDocument::Yaml(_))));
    let many = numbered_lines(5000, ": ", "[1, 2, {a: b}]");
    assert!(matches!(AssetFormat::Yaml.decode(&many), Ok(AssetDocument::Yaml(_))));
    let entries = repeated("", "- a-b: c?d\n", 5000, "");
    assert!(matches!(AssetFormat::Yaml.decode(&entries), Ok(AssetDocument::Yaml(_))));
}

#[test]
fn yaml_with_one_key_many_times_reaches_the_decoder() {
    let once = repeated("", "a: 1\n", 1, "");
    assert!(matches!(AssetFormat::Yaml.decode(&once), Ok(AssetDocument::Yaml(_))));
    let repeatedly = repeated("", "a: 1\n", 129, "");
    assert!(is_yaml_error(&AssetFormat::Yaml.decode(&repeatedly)));
}

#[test]
fn flat_toml_counts_few_levels_however_long_it_is() {
    assert!(!toml_nests_beyond(&numbered_lines(5000, " = ", "1.5"), 1));
    assert!(!toml_nests_beyond(&numbered_lines(5000, " = ", "\"a.b.c = [[[\""), 1));
    assert!(!toml_nests_beyond(&numbered_lines(5000, " = ", "[1.5, 2.5, { a.b = \"c.d\" }]"), 6));
    assert!(!toml_nests_beyond(&repeated("", "[[item]]\nname.first = 1.0\n", 5000, ""), 5));
}

#[test]
fn flat_toml_of_any_length_is_decoded() {
    let numbers = numbered_lines(129, " = ", "1.5");
    assert!(matches!(AssetFormat::Toml.decode(&numbers), Ok(AssetDocument::Toml(_))));
    let many = numbered_lines(5000, " = ", "[1.5, 2.5, { a.b = \"c.d\" }]");
    assert!(matches!(AssetFormat::Toml.decode(&many), Ok(AssetDocument::Toml(_))));
    let tables = repeated("", "[[item]]\nname.first = 1.0\n", 5000, "");
    assert!(matches!(AssetFormat::Toml.decode(&tables), Ok(AssetDocument::Toml(_))));
}

#[test]
fn nested_yaml_is_decoded() {
    let sequences = repeated("", "- ", 100, "a");
    assert!(matches!(AssetFormat::Yaml.decode(&sequences), Ok(AssetDocument::Yaml(_))));
    let mappings = nested_yaml_mappings(100);
    assert!(matches!(AssetFormat::Yaml.decode(&mappings), Ok(AssetDocument::Yaml(_))));
    let flow = repeated("", "[", 100, &"]".repeat(100));
    assert!(matches!(AssetFormat::Yaml.decode(&flow), Ok(AssetDocument::Yaml(_))));
}

#[test]
fn yaml_sequences_nested_without_end_are_an_error_of_the_decoder() {
    assert!(is_yaml_error(&AssetFormat::Yaml.decode(&repeated("", "- ", 129, "a"))));
    assert!(is_yaml_error(&AssetFormat::Yaml.decode(&repeated("", "- ", 1000, "a"))));
    assert!(is_yaml_error(&AssetFormat::Yaml.decode(&repeated("", "- ", 100_000, "a"))));
    assert!(is_yaml_error(&AssetFormat::Yaml.decode(&repeated("", "? ", 100_000, "a"))));
}

#[test]
fn yaml_mappings_nested_without_end_are_an_error_of_the_decoder() {
    assert!(is_yaml_error(&AssetFormat::Yaml.decode(&nested_yaml_mappings(1000))));
    assert!(is_yaml_error(&AssetFormat::Yaml.decode(&nested_yaml_mappings(3000))));
}

#[test]
fn yaml_flow_nested_without_end_is_an_error_of_the_decoder() {
    assert!(is_yaml_error(&AssetFormat::Yaml.decode(&repeated("", "[", 3000, ""))));
    assert!(is_yaml_error(&AssetFormat::Yaml.decode(&repeated("", "{a: ", 3000, ""))));
    let closed = repeated("", "[", 3000, &"]".repeat(3000));
    assert!(is_yaml_error(&AssetFormat::Yaml.decode(&closed)));
    let braces = repeated("", "{a: ", 3000, &format!("1{}", "}".repeat(3000)));
    assert!(is_yaml_error(&AssetFormat::Yaml.decode(&braces)));
    let quoted = repeated("", "[a\"b, \"]\", ", 3000, "");
    assert!(is_yaml_error(&AssetFormat::Yaml.decode(&quoted)));
}

#[test]
fn yaml_aliases_nested_without_end_are_an_error_of_the_decoder() {
    let mut text = String::from("a0: &a0 [x, x]\n");
    for level in 1..1000 {
        text.push_str(&format!("a{}: &a{} [*a{}]\n", level, level, level - 1));
    }
    assert!(is_yaml_error(&AssetFormat::Yaml.decode(text.as_bytes())));
}

#[test]
fn nested_toml_is_decoded() {
    let arrays = repeated("a = ", "[", 60, &"]".repeat(60));
    assert!(matches!(AssetFormat::Toml.decode(&arrays), Ok(AssetDocument::Toml(_))));
    let tables = repeated("a = ", "{a=", 60, &format!("1{}", "}".repeat(60)));
    assert!(matches!(AssetFormat::Toml.decode(&tables), Ok(AssetDocument::Toml(_))));
    let dotted = repeated("a", ".a", 60, " = 1");
    assert!(matches!(AssetFormat::Toml.decode(&dotted), Ok(AssetDocument::Toml(_))));
    let header = repeated("[a", ".a", 60, "]\nb = 1\n");
    assert!(matches!(AssetFormat::Toml.decode(&header), Ok(AssetDocument::Toml(_))));
}

fn is_nesting_refusal(decoded: &Result<AssetDocument, AssetSystemError>) -> bool {
    matches!(decoded, Err(AssetSystemError::NestingLimitExceeded))
}

#[test]
fn toml_nested_beyond_the_limit_is_refused_unseen() {
    assert!(is_nesting_refusal(&AssetFormat::Toml.decode(&repeated("a = ", "[", 300_000, ""))));
    assert!(is_nesting_refusal(&AssetFormat::Toml.decode(&repeated("a = ", "{a=", 300_000, ""))));
    let closed = repeated("a = ", "[", 100_000, &"]".repeat(100_000));
    assert!(is_nesting_refusal(&AssetFormat::Toml.decode(&closed)));
    assert!(is_nesting_refusal(&AssetFormat::Toml.decode(&repeated("a", ".a", 300_000, " = 1"))));
    assert!(is_nesting_refusal(&AssetFormat::Toml.decode(&repeated("[a", ".a", 300_000, "]\n"))));
    assert!(is_nesting_refusal(&AssetFormat::Toml.decode(&repeated("[[a", ".a", 300_000, "]]\n"))));
    let quoted = repeated("a = ", "[ \"]\", ", 100_000, "");
    assert!(is_nesting_refusal(&AssetFormat::Toml.decode(&quoted)));
    let ticked = repeated("a = ", "[ ']', ", 100_000, "");
    assert!(is_nesting_refusal(&AssetFormat::Toml.decode(&ticked)));
    let long_quoted = repeated("a = ", "[ \"\"\"]\"\"]\"\"\"\"\", ", 100_000, "");
    assert!(is_nesting_refusal(&AssetFormat::Toml.decode(&long_quoted)));
    let escaped = repeated("a = ", "[ \"\\\"]\\\\\", ", 100_000, "");
    assert!(is_nesting_refusal(&AssetFormat::Toml.decode(&escaped)));
    let commented = repeated("a = ", "[ # ]\n", 100_000, "");
    assert!(is_nesting_refusal(&AssetFormat::Toml.decode(&commented)));
    let deepest = toml_of_dotted_keys_in_nested_tables(79, 75);
    assert!(is_nesting_refusal(&AssetFormat::Toml.decode(&deepest)));
}

#[test]
fn toml_nested_to_the_bound_of_its_decoder_is_an_error_of_the_decoder() {
    assert!(is_toml_error(&AssetFormat::Toml.decode(&repeated("a = ", "[", 100, &"]".repeat(100)))));
    assert!(is_toml_error(&AssetFormat::Toml.decode(&repeated("a", ".a", 100, " = 1"))));
}

/// Dotted keys of `parts` parts inside inline tables that nest `levels` deep,
/// below a table whose name has `parts` parts.
fn toml_of_dotted_keys_in_nested_tables(parts: usize, levels: usize) -> Vec<u8> {
    let path = vec!["k"; parts].join(".");
    let mut text = format!("[{}]\n", path);
    for _ in 0..levels {
        text.push_str(&format!("{} = {{ ", path));
    }
    text.push_str(&format!("{} = [[[1]]]", path));
    for _ in 0..levels {
        text.push_str(" }");
    }
    text.push('\n');
    text.into_bytes()
}

/// The levels that the scan counts in `toml_of_dotted_keys_in_nested_tables`.
fn levels_of_dotted_keys_in_nested_tables(parts: usize, levels: usize) -> usize {
    (parts + 2) + parts * (levels + 1) + levels + 3
}

#[test]
fn toml_of_dotted_keys_in_nested_tables_is_decoded_up_to_the_limit() {
    let shallow = toml_of_dotted_keys_in_nested_tables(3, 3);
    assert!(!toml_nests_beyond(&shallow, levels_of_dotted_keys_in_nested_tables(3, 3)));
    assert!(toml_nests_beyond(&shallow, levels_of_dotted_keys_in_nested_tables(3, 3) - 1));
    assert!(matches!(AssetFormat::Toml.decode(&shallow), Ok(AssetDocument::Toml(_))));
    let mut levels = 4;
    while (TOML_NESTING_LIMIT - levels - 5) / (levels + 2) >= 80 {
        levels += 1;
    }
    let parts = (TOML_NESTING_LIMIT - levels - 5) / (levels + 2);
    let deep = toml_of_dotted_keys_in_nested_tables(parts, levels);
    assert!(!toml_nests_beyond(&deep, TOML_NESTING_LIMIT));
    assert!(toml_nests_beyond(&deep, TOML_NESTING_LIMIT - levels - 2));
    assert!(matches!(AssetFormat::Toml.decode(&deep), Ok(AssetDocument::Toml(_))));
    let deeper = toml_of_dotted_keys_in_nested_tables(parts + 1, levels);
    assert!(is_nesting_refusal(&AssetFormat::Toml.decode(&deeper)));
    let mut successive = String::new();
    for parts in 1..76 {
        successive.push_str(&format!("[{}]\n", vec!["t"; parts].join(".")));
    }
    assert!(matches!(AssetFormat::Toml.decode(successive.as_bytes()), Ok(AssetDocument::Toml(_))));
}

#[test]
fn toml_levels_are_counted_as_they_open() {
    assert!(!toml_nests_beyond(b"", 0));
    assert!(!toml_nests_beyond(b"# a.b.c = [[[\n", 0));
    assert!(toml_nests_beyond(b"a = 1", 0));
    assert!(!toml_nests_beyond(b"a = 1", 1));
    assert!(!toml_nests_beyond(b"a = 1.5\nb = 2.5\nc = 3.5\n", 1));
    assert!(toml_nests_beyond(b"a.b = { c.d = 1 }", 4));
    assert!(!toml_nests_beyond(b"a.b = { c.d = 1 }", 5));
    assert!(!toml_nests_beyond(b"a = [{ b = 1 }, { b = 2 }, { b = 3 }, { b = 4 }]", 4));
    assert!(toml_nests_beyond(b"a = [{ b = 1 }, { b = 2 }, { b = 3 }, { b = 4 }]", 3));
    assert!(!toml_nests_beyond(b"a = [1.5, 2.5, 3.5, 4.5, 5.5, 6.5]", 3));
    assert!(toml_nests_beyond(b"[a.b.c]\n", 4));
    assert!(!toml_nests_beyond(b"[a.b.c]\n", 5));
    assert!(toml_nests_beyond(b"[a.b.c]\nd = 1\n", 5));
    assert!(!toml_nests_beyond(b"[a.b.c]\nd = 1\n[e]\nf = 2\n", 6));
    assert!(toml_nests_beyond(b"[[a]]\n", 2));
    assert!(!toml_nests_beyond(b"[[a]]\n", 3));
    assert!(!toml_nests_beyond(b"a = \"[[[[.=.=.=\"\nb = '{{{{'\n", 1));
    assert!(!toml_nests_beyond(b"a = \"\\\"[[[[\"\n", 1));
    assert!(!toml_nests_beyond(b"a = \"\"\"\n[[[[\n\"\"[[\"\"\"\"\nb = '''\n{{{{''{{'''''\n", 1));
    assert!(toml_nests_beyond(b"a = \"\" \nb = [[1]]", 2));
    assert!(toml_nests_beyond(b"a = \"x\" # \"\nb = [[1]]", 2));
}

#[test]
fn toml_strings_and_comments_are_told_from_structure() {
    assert_eq!(next_mode(TomlMode::Plain, b'"'), (TomlMode::QuoteOpen, false));
    assert_eq!(next_mode(TomlMode::Plain, b'['), (TomlMode::Plain, true));
    assert_eq!(next_mode(TomlMode::Plain, b'#'), (TomlMode::Comment, false));
    assert_eq!(next_mode(TomlMode::Comment, b'"'), (TomlMode::Comment, false));
    assert_eq!(next_mode(TomlMode::Comment, b'\n'), (TomlMode::Plain, true));
    assert_eq!(next_mode(TomlMode::QuoteOpen, b'"'), (TomlMode::QuotePair, false));
    assert_eq!(next_mode(TomlMode::QuotePair, b'"'), (TomlMode::MultiBasic { quotes: 0 }, false));
    assert_eq!(next_mode(TomlMode::QuotePair, b','), (TomlMode::Plain, true));
    assert_eq!(next_mode(TomlMode::Basic, b'\\'), (TomlMode::BasicEscape, false));
    assert_eq!(next_mode(TomlMode::BasicEscape, b'"'), (TomlMode::Basic, false));
    assert_eq!(next_mode(TomlMode::Basic, b'"'), (TomlMode::Plain, false));
    assert_eq!(next_mode(TomlMode::MultiBasic { quotes: 2 }, b'"'), (TomlMode::MultiBasicEnd { extra: 0 }, false));
    assert_eq!(next_mode(TomlMode::MultiBasic { quotes: 1 }, b'x'), (TomlMode::MultiBasic { quotes: 0 }, false));
    assert_eq!(next_mode(TomlMode::MultiBasicEnd { extra: 1 }, b'"'), (TomlMode::MultiBasicEnd { extra: 2 }, false));
    assert_eq!(next_mode(TomlMode::MultiBasicEnd { extra: 2 }, b'"'), (TomlMode::QuoteOpen, false));
    assert_eq!(next_mode(TomlMode::MultiBasicEnd { extra: 0 }, b']'), (TomlMode::Plain, true));
    assert_eq!(next_mode(TomlMode::Literal, b'\\'), (TomlMode::Literal, false));
    assert_eq!(next_mode(TomlMode::Literal, b'\''), (TomlMode::Plain, false));
    assert_eq!(next_mode(TomlMode::TickPair, b'\''), (TomlMode::MultiLiteral { ticks: 0 }, false));
    assert_eq!(next_mode(TomlMode::MultiLiteral { ticks: 2 }, b'\''), (TomlMode::MultiLiteralEnd { extra: 0 }, false));
}

#[test]
fn toml_that_is_no_text_is_refused_before_the_decoder() {
    let bytes = [b'a', b' ', b'=', b' ', b'"', 0xff, b'"'];
    assert!(matches!(AssetFormat::Toml.decode(&bytes), Err(AssetSystemError::Other(DecodeError::TomlNotText))));
    assert!(matches!(AssetFormat::Toml.decode(&[0xc3]), Err(AssetSystemError::Other(DecodeError::TomlNotText))));
    let text = "a = \"\u{e9}\"".as_bytes();
    assert!(matches!(AssetFormat::Toml.decode(text), Ok(AssetDocument::Toml(_))));
    assert!(is_toml_error(&AssetFormat::Toml.decode(b"a = ")));
    assert!(is_yaml_error(&AssetFormat::Yaml.decode(&bytes)));
}

#[test]
fn json_and_cbor_are_bounded_by_their_decoders() {
    let deep = repeated("", "[", 300_000, "");
    assert!(matches!(AssetFormat::Json.decode(&deep), Err(AssetSystemError::Other(DecodeError::Json(_)))));
    let wide = repeated("[", "[],", 1000, "[]]");
    assert!(matches!(AssetFormat::Json.decode(&wide), Ok(AssetDocument::Json(_))));
    let arrays = vec![0x81u8; 300_000];
    assert!(matches!(AssetFormat::Cbor.decode(&arrays), Err(AssetSystemError::Other(DecodeError::Cbor(_)))));
}

#[test]
fn asset_nested_without_end_is_refused_or_an_error_of_its_decoder() {
    let asked = asked_log();
    let mut assets = AssetSystem::default();
    let deep = repeated("a = ", "[", 1000, "");
    assets.mount(MemoryLayer::new("core", 1, &asked).with("deep", "toml", &deep));
    assert!(is_nesting_refusal(&assets.load_asset_as_type("core", "deep")));
    let descriptor = AssetDescriptor::new("deep".to_owned(), "yml".to_owned());
    let sequences = repeated("", "- ", 1000, "a");
    assert!(is_yaml_error(&decode_asset(&descriptor, &sequences)));
}

/// A small generator of numbers that gives the same run every time.
struct Dice {
    state: u64,
}

impl Dice {
    fn roll(&mut self, sides: u64) -> u64 {
        self.state ^= self.state << 13;
        self.state ^= self.state >> 7;
        self.state ^= self.state << 17;
        self.state % sides
    }
}

/// Writes TOML documents of many shapes, with every key written once.
struct TomlWriter {
    dice: Dice,
    keys: usize,
}

impl TomlWriter {
    fn key(&mut self) -> String {
        self.keys += 1;
        match self.dice.roll(6) {
            0 => format!("\"k.{}]\"", self.keys),
            1 => format!("'k={}[.'", self.keys),
            2 => format!("\"\\\"{}\"", self.keys),
            _ => format!("k{}", self.keys),
        }
    }

    fn path(&mut self) -> String {
        let parts = 1 + self.dice.roll(3);
        let separator = if self.dice.roll(4) == 0 { " . " } else { "." };
        (0..parts).map(|_| self.key()).collect::<Vec<String>>().join(separator)
    }

    fn text(&mut self) -> String {
        match self.dice.roll(9) {
            0 => "\"\"".to_owned(),
            1 => "''".to_owned(),
            2 => "\"a ] } . = , [ { # b\"".to_owned(),
            3 => "'a ] } . = , [ { # \" b'".to_owned(),
            4 => "\"a \\\" ] \\\\\"".to_owned(),
            5 => "\"\"\"a ] \" ]] \"\" }} \\\"\"\" ' [\n[x.y]\nz = 1 \\\n  # \"\"\"\"\"".to_owned(),
            6 => "'''a ] ' ]] '' }} \" [\n[x.y]\nz = 1 # '''''".to_owned(),
            7 => "\"\"\"\"\"\"".to_owned(),
            _ => "\"plain\"".to_owned(),
        }
    }

    fn gap(&mut self) -> &'static str {
        match self.dice.roll(5) {
            0 => "\n",
            1 => " # ] } = . [ { \" '\n",
            2 => "\n\n  ",
            _ => " ",
        }
    }

    fn value(&mut self, room: u64) -> String {
        match self.dice.roll(if room == 0 { 5 } else { 9 }) {
            0 => "17".to_owned(),
            1 => "1.5".to_owned(),
            2 => "1979-05-27T07:32:00.999Z".to_owned(),
            3 | 4 => self.text(),
            5 | 6 => {
                let count = self.dice.roll(4);
                let mut text = String::from("[");
                for place in 0..count {
                    if place > 0 {
                        text.push(',');
                    }
                    text.push_str(self.gap());
                    text.push_str(&self.value(room - 1));
                }
                text.push_str(self.gap());
                text.push(']');
                text
            }
            _ => {
                let count = self.dice.roll(3);
                let mut text = String::from("{");
                for place in 0..count {
                    if place > 0 {
                        text.push(',');
                    }
                    text.push_str(&format!(" {} = {}", self.path(), self.value(room - 1)));
                }
                text.push_str(" }");
                text
            }
        }
    }

    fn document(&mut self) -> String {
        let mut text = String::new();
        for _ in 0..self.dice.roll(8) {
            match self.dice.roll(8) {
                0 => text.push_str(&format!("[{}]\n", self.path())),
                1 => text.push_str(&format!("[[{}]]\n", self.path())),
                2 => text.push_str("# [a.b.c] = { [ \" '\n"),
                3 => text.push('\n'),
                _ => {
                    let line = format!("{} = {}", self.path(), self.value(4));
                    text.push_str(&line);
                    text.push_str(if self.dice.roll(3) == 0 { " # ] [ . =\n" } else { "\n" });
                }
            }
        }
        text
    }
}

fn levels_of(value: &toml::Value) -> usize {
    match value {
        toml::Value::Array(items) => 1 + items.iter().map(levels_of).max().unwrap_or(0),
        toml::Value::Table(entries) => 1 + entries.values().map(levels_of).max().unwrap_or(0),
        _ => 0,
    }
}

fn levels_counted(text: &[u8]) -> usize {
    let mut limit = 0;
    while toml_nests_beyond(text, limit) {
        limit += 1;
    }
    limit
}

#[test]
fn toml_documents_are_never_deeper_than_the_levels_counted() {
    let mut writer = TomlWriter { dice: Dice { state: 0x2545_f491_4f6c_dd1d }, keys: 0 };
    let mut decoded = 0;
    let mut exact = 0;
    for _ in 0..3000 {
        let text = writer.document();
        let counted = levels_counted(text.as_bytes());
        assert!(counted <= TOML_NESTING_LIMIT, "{}", text);
        match AssetFormat::Toml.decode(text.as_bytes()) {
            Ok(AssetDocument::Toml(value)) => {
                decoded += 1;
                let empty = value.as_table().map_or(false, |table| table.is_empty());
                let levels = if empty { 0 } else { levels_of(&value) };
                assert!(levels <= counted, "{} levels, {} counted in:\n{}", levels, counted, text);
                assert!(counted <= 2 * levels + 3, "{} levels, {} counted in:\n{}", levels, counted, text);
                if levels == counted {
                    exact += 1;
                }
            }
            Err(AssetSystemError::Other(DecodeError::Toml(_))) => {}
            _ => panic!("a TOML text is decoded by the TOML decoder:\n{}", text),
        }
    }
    assert!(decoded >= 2000, "{} documents were decoded", decoded);
    assert!(exact >= 100, "{} documents were counted exactly", exact);
}
