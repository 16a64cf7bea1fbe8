use tinker::browser::session::{restore_session, session_from_tabs, SavedTab, Session};
use tinker::browser::tabs::TabManager;

#[test]
fn test_tab_creation() {
    let mut manager = TabManager::new();
    let id = manager.create_tab("https://example.com".to_string());
    assert_eq!(manager.get_tab_count(), 1);
    let tab = manager.get_tab_info(id).unwrap();
    assert_eq!(tab.url, "https://example.com");
}

#[test]
fn tabs_test_tab_switching() {
    let mut manager = TabManager::new();
    let id1 = manager.create_tab("https://example1.com".to_string());
    let id2 = manager.create_tab("https://example2.com".to_string());
    assert!(manager.switch_to_tab(id1));
    assert_eq!(manager.get_active_tab().unwrap().id, id1);
    assert!(manager.switch_to_tab(id2));
    assert_eq!(manager.get_active_tab().unwrap().id, id2);
}

#[test]
fn test_tab_closing() {
    let mut manager = TabManager::new();
    let id1 = manager.create_tab("https://example1.com".to_string());
    let id2 = manager.create_tab("https://example2.com".to_string());
    assert!(manager.close_tab(id1));
    assert_eq!(manager.get_tab_count(), 1);
    assert_eq!(manager.get_active_tab().unwrap().id, id2);
}

#[test]
fn test_tab_title_update() {
    let mut manager = TabManager::new();
    let id = manager.create_tab("https://example.com".to_string());
    assert!(manager.update_tab_title(id, "New Title".to_string()));
    assert_eq!(manager.get_tab_info(id).unwrap().title, "New Title");
}

#[test]
fn test_tab_url_update() {
    let mut manager = TabManager::new();
    let id = manager.create_tab("https://example.com".to_string());
    assert!(manager.update_tab_url(id, "https://new-url.com".to_string()));
    assert_eq!(manager.get_tab_info(id).unwrap().url, "https://new-url.com");
}

#[test]
fn test_history_push_and_back() {
    let mut manager = TabManager::new();
    let id = manager.create_tab("https://example.com".to_string());
    manager.push_history(id, "https://example.com/page1".to_string());
    manager.push_history(id, "https://example.com/page2".to_string());
    assert!(manager.can_go_back(id));
    assert!(!manager.can_go_forward(id));
    let url = manager.go_back(id).unwrap();
    assert_eq!(url, "https://example.com/page1");
    assert_eq!(manager.get_tab_info(id).unwrap().url, "https://example.com/page1");
    let url = manager.go_back(id).unwrap();
    assert_eq!(url, "https://example.com");
    assert!(!manager.can_go_back(id));
    assert!(manager.go_back(id).is_none());
}

#[test]
fn test_history_forward() {
    let mut manager = TabManager::new();
    let id = manager.create_tab("https://example.com".to_string());
    manager.push_history(id, "https://example.com/page1".to_string());
    manager.push_history(id, "https://example.com/page2".to_string());
    manager.go_back(id);
    manager.go_back(id);
    assert!(manager.can_go_forward(id));
    let url = manager.go_forward(id).unwrap();
    assert_eq!(url, "https://example.com/page1");
    let url = manager.go_forward(id).unwrap();
    assert_eq!(url, "https://example.com/page2");
    assert!(!manager.can_go_forward(id));
    assert!(manager.go_forward(id).is_none());
}

#[test]
fn test_history_truncates_on_new_navigate() {
    let mut manager = TabManager::new();
    let id = manager.create_tab("https://example.com".to_string());
    manager.push_history(id, "https://example.com/a".to_string());
    manager.push_history(id, "https://example.com/b".to_string());
    manager.go_back(id);
    manager.push_history(id, "https://example.com/c".to_string());
    assert!(!manager.can_go_forward(id));
    let url = manager.go_back(id).unwrap();
    assert_eq!(url, "https://example.com/a");
}

#[test]
fn test_get_all_tabs() {
    let mut manager = TabManager::new();
    let id1 = manager.create_tab("https://example1.com".to_string());
    let id2 = manager.create_tab("https://example2.com".to_string());
    let tabs = manager.get_all_tabs();
    assert_eq!(tabs.len(), 2);
    assert!(tabs.iter().any(|tab| tab.id == id1));
    assert!(tabs.iter().any(|tab| tab.id == id2));
}

#[test]
fn closing_the_last_tab_or_an_unknown_tab_is_refused() {
    let mut manager = TabManager::new();
    let id = manager.create_tab("https://example.com".to_string());
    assert!(!manager.close_tab(id + 7));
    assert!(!manager.close_tab(id));
    assert_eq!(manager.get_tab_count(), 1);
}

#[test]
fn back_then_forward_returns_to_the_same_page() {
    let mut manager = TabManager::new();
    let id = manager.create_tab("https://a.example".to_string());
    manager.push_history(id, "https://b.example".to_string());
    assert_eq!(manager.go_back(id).unwrap(), "https://a.example");
    assert_eq!(manager.go_forward(id).unwrap(), "https://b.example");
    assert_eq!(manager.get_tab_info(id).unwrap().url, "https://b.example");
}

#[test]
fn new_tabs_get_increasing_ids_and_become_active() {
    let mut manager = TabManager::new();
    let a = manager.create_tab("https://a.example".to_string());
    let b = manager.create_tab("https://b.example".to_string());
    assert!(b > a);
    assert_eq!(manager.get_active_tab().unwrap().id, b);
}

#[test]
fn a_session_restores_its_tabs_and_active_tab() {
    let session = Session {
        tabs: vec![
            SavedTab { url: "https://example.com".to_string(), title: "Example".to_string() },
            SavedTab { url: "https://rust-lang.org".to_string(), title: "Rust".to_string() },
        ],
        active_index: 1,
    };
    let mut manager = TabManager::new();
    let ids = restore_session(&mut manager, &session);
    assert_eq!(ids.len(), 2);
    assert_eq!(manager.get_active_tab().unwrap().url, "https://rust-lang.org");
    assert_eq!(manager.get_tab_info(ids[0]).unwrap().title, "Example");
    let saved = session_from_tabs(&manager);
    assert_eq!(saved.tabs.len(), 2);
    assert_eq!(saved.tabs[0].url, "https://example.com");
    assert_eq!(saved.tabs[1].title, "Rust");
    assert_eq!(saved.active_index, 1);
}
