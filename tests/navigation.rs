use linkwithmentor::navigation::{NavError, NavigationController};
use linkwithmentor::registry::{PanelDescriptor, PanelView, ViewRegistry};

fn controller() -> NavigationController {
    let mut r = ViewRegistry::new();
    for (id, view) in [("home", PanelView::Feed), ("chat", PanelView::Chat), ("groups", PanelView::Groups)] {
        r.register(PanelDescriptor::new(id.to_string(), String::new(), id.to_string(), view)).unwrap();
    }
    NavigationController::new(r, "home".to_string()).unwrap()
}

#[test]
fn starts_on_default_panel() {
    let c = controller();
    assert_eq!(c.current(), "home");
    assert!(!c.is_refreshing());
    assert_eq!(c.registry().len(), 3);
}

#[test]
fn unknown_default_panel_is_refused() {
    let r = ViewRegistry::new();
    assert_eq!(NavigationController::new(r, "home".to_string()).err(), Some(NavError::UnknownId));
}

#[test]
fn select_sets_current_and_notifies_once() {
    let mut c = controller();
    let n = c.select(&"groups".to_string()).unwrap();
    assert_eq!(n.panel, "groups");
    assert_eq!(c.current(), "groups");
    assert!(c.is_refreshing());
    c.refresh_done();
    assert!(!c.is_refreshing());
    assert_eq!(c.current(), "groups");
}

#[test]
fn select_unknown_keeps_current() {
    let mut c = controller();
    assert_eq!(c.select(&"jobs".to_string()).unwrap_err(), NavError::UnknownId);
    assert_eq!(c.current(), "home");
    assert!(!c.is_refreshing());
}

#[test]
fn reselecting_same_panel_is_idempotent() {
    let mut c = controller();
    assert_eq!(c.select(&"chat".to_string()).unwrap().panel, "chat");
    c.refresh_done();
    assert_eq!(c.select(&"chat".to_string()).unwrap().panel, "chat");
    c.refresh_done();
    assert_eq!(c.current(), "chat");
}

#[test]
fn selection_during_refresh_is_rejected() {
    let mut c = controller();
    c.select(&"chat".to_string()).unwrap();
    assert_eq!(c.select(&"groups".to_string()).unwrap_err(), NavError::Reentrant);
    assert_eq!(c.current(), "chat");
    c.refresh_done();
    assert_eq!(c.select(&"groups".to_string()).unwrap().panel, "groups");
}
