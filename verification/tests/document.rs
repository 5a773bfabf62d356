use cargo_hoist::binaries::HoistedBinary;
use cargo_hoist::document::{DocumentEntry, RegistryDocument};
use cargo_hoist::error::HoistError;
use cargo_hoist::registry::HoistRegistry;

fn binary(name: &str, location: &str) -> HoistedBinary {
    HoistedBinary::new(name.to_string(), location.to_string())
}

fn entry(name: Option<&str>, location: Option<&str>) -> DocumentEntry {
    DocumentEntry { name: name.map(|s| s.to_string()), location: location.map(|s| s.to_string()) }
}

#[test]
fn an_empty_registry_is_written_without_a_list() {
    let document = HoistRegistry::default().write();
    assert_eq!(document, RegistryDocument { binaries: None });
    let loaded = HoistRegistry::new(&document).unwrap();
    assert_eq!(loaded, HoistRegistry::default());
    assert!(loaded.is_empty());
}

#[test]
fn a_document_with_an_empty_list_is_an_empty_registry() {
    let document = RegistryDocument { binaries: Some(vec![]) };
    let loaded = HoistRegistry::new(&document).unwrap();
    assert!(loaded.is_empty());
    assert_eq!(loaded.write(), RegistryDocument { binaries: None });
}

#[test]
fn write_stores_one_entry_for_each_record() {
    let mut registry = HoistRegistry::default();
    registry.insert(binary("foo", "/a/foo"));
    registry.insert(binary("bar", "/a/bar"));
    assert_eq!(
        registry.write(),
        RegistryDocument {
            binaries: Some(vec![
                entry(Some("foo"), Some("/a/foo")),
                entry(Some("bar"), Some("/a/bar")),
            ])
        }
    );
}

#[test]
fn a_written_registry_loads_as_itself() {
    let mut registry = HoistRegistry::default();
    registry.insert(binary("foo", "/a/foo"));
    registry.insert(binary("foo", "/b/foo"));
    registry.insert(binary("bar", "/a/bar"));
    let loaded = HoistRegistry::new(&registry.write()).unwrap();
    assert_eq!(loaded, registry);
    assert_eq!(loaded.list(), registry.list());
    assert_eq!(loaded.write(), registry.write());
}

#[test]
fn loading_keeps_each_record_once() {
    let document = RegistryDocument {
        binaries: Some(vec![
            entry(Some("foo"), Some("/a/foo")),
            entry(Some("bar"), Some("/a/bar")),
            entry(Some("foo"), Some("/a/foo")),
        ]),
    };
    let loaded = HoistRegistry::new(&document).unwrap();
    assert_eq!(loaded.list(), vec![binary("foo", "/a/foo"), binary("bar", "/a/bar")]);
    let again = HoistRegistry::new(&loaded.write()).unwrap();
    assert_eq!(again, loaded);
}

#[test]
fn an_entry_without_name_or_location_is_corrupt() {
    for broken in [
        entry(None, Some("/a/foo")),
        entry(Some("foo"), None),
        entry(None, None),
    ] {
        let document = RegistryDocument {
            binaries: Some(vec![entry(Some("bar"), Some("/a/bar")), broken]),
        };
        assert_eq!(HoistRegistry::new(&document), Err(HoistError::CorruptRegistry));
    }
}
