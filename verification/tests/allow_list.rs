//! The allow-list set: membership, idempotence, clearing, and the
//! persisted document.

use hook_relay::allow_list::{decode_allow_list, encode_allow_list, AlwaysAllowManager};

#[test]
fn test_add_and_check_tool() {
    let manager = AlwaysAllowManager::new();

    assert!(!manager.is_allowed("Bash"));

    let mut manager = manager;
    manager.add_tool("Bash").unwrap();
    assert!(manager.is_allowed("Bash"));
}

#[test]
fn test_add_tool_no_duplicates() {
    let mut manager = AlwaysAllowManager::new();

    manager.add_tool("Bash").unwrap();
    manager.add_tool("Bash").unwrap();

    let tools = manager.get_allowed_tools();
    assert_eq!(tools.len(), 1);
}

#[test]
fn test_remove_tool() {
    let mut manager = AlwaysAllowManager::new();

    manager.add_tool("Bash").unwrap();
    manager.add_tool("Edit").unwrap();
    assert!(manager.is_allowed("Bash"));

    manager.remove_tool("Bash").unwrap();
    assert!(!manager.is_allowed("Bash"));
    assert!(manager.is_allowed("Edit"));
}

#[test]
fn test_clear() {
    let mut manager = AlwaysAllowManager::new();

    manager.add_tool("Bash").unwrap();
    manager.add_tool("Edit").unwrap();
    assert_eq!(manager.get_allowed_tools().len(), 2);

    manager.clear().unwrap();
    assert!(manager.get_allowed_tools().is_empty());
}

#[test]
fn test_handles_missing_file() {
    // A store whose document does not exist reads as the empty set.
    let manager = AlwaysAllowManager::from_stored(None);

    assert!(manager.get_allowed_tools().is_empty());
    assert!(!manager.is_allowed("Bash"));
}

#[test]
fn test_persistence() {
    // Add a tool with a first manager and persist its document.
    let document = {
        let mut manager = AlwaysAllowManager::new();
        manager.add_tool("Bash").unwrap();
        encode_allow_list(&manager.get_allowed_tools())
    };

    // Check with a new manager read back from the document.
    {
        let manager = AlwaysAllowManager::from_stored(decode_allow_list(&document));
        assert!(manager.is_allowed("Bash"));
    }
}

#[test]
fn test_document_round_trip() {
    let tools = vec!["Bash".to_string(), "Edit".to_string()];
    let document = encode_allow_list(&tools);
    assert_eq!(decode_allow_list(&document), Some(tools));
}

#[test]
fn test_decode_rejects_corrupt_documents() {
    assert_eq!(decode_allow_list("not json at all"), None);
    assert_eq!(decode_allow_list("{}"), None);
    assert_eq!(decode_allow_list("{\"tools\": [1, 2]}"), None);
    assert_eq!(decode_allow_list("{\"tools\": []}"), Some(vec![]));
}

#[test]
fn test_from_stored_drops_duplicates() {
    let manager = AlwaysAllowManager::from_stored(Some(vec![
        "Bash".to_string(),
        "Edit".to_string(),
        "Bash".to_string(),
    ]));
    assert_eq!(manager.get_allowed_tools().len(), 2);
    assert!(manager.is_allowed("Bash"));
    assert!(manager.is_allowed("Edit"));
}
