use linkwithmentor::registry::{PanelDescriptor, PanelView, RegistryError, ViewRegistry};

fn desc(id: &str, icon: &str, label: &str, view: PanelView) -> PanelDescriptor {
    PanelDescriptor::new(id.to_string(), icon.to_string(), label.to_string(), view)
}

fn sample() -> ViewRegistry {
    let mut r = ViewRegistry::new();
    assert_eq!(r.register(desc("home", "🏠", "Home", PanelView::Feed)), Ok(()));
    assert_eq!(r.register(desc("chat", "💬", "Chat", PanelView::Chat)), Ok(()));
    assert_eq!(r.register(desc("groups", "👥", "Groups", PanelView::Groups)), Ok(()));
    r
}

#[test]
fn resolve_returns_registered_descriptor() {
    let r = sample();
    let d = r.resolve(&"chat".to_string()).unwrap();
    assert_eq!(d.id, "chat");
    assert_eq!(d.icon, "💬");
    assert_eq!(d.label, "Chat");
    assert_eq!(d.view, PanelView::Chat);
    let g = r.resolve(&"groups".to_string()).unwrap();
    assert_eq!(g.label, "Groups");
    assert_eq!(g.view, PanelView::Groups);
}

#[test]
fn resolve_unknown_id_fails() {
    let r = sample();
    assert_eq!(r.resolve(&"jobs".to_string()).unwrap_err(), RegistryError::UnknownId);
    assert_eq!(ViewRegistry::new().resolve(&"home".to_string()).unwrap_err(), RegistryError::UnknownId);
}

#[test]
fn duplicate_registration_fails_and_keeps_first() {
    let mut r = sample();
    let res = r.register(desc("chat", "X", "Other chat", PanelView::Media));
    assert_eq!(res, Err(RegistryError::DuplicateId));
    assert_eq!(r.len(), 3);
    let d = r.resolve(&"chat".to_string()).unwrap();
    assert_eq!(d.label, "Chat");
    assert_eq!(d.view, PanelView::Chat);
}

#[test]
fn all_keeps_registration_order() {
    let r = sample();
    let ids: Vec<&str> = r.all().iter().map(|d| d.id.as_str()).collect();
    assert_eq!(ids, vec!["home", "chat", "groups"]);
}

#[test]
fn contains_reports_registered_ids() {
    let r = sample();
    assert!(r.contains(&"home".to_string()));
    assert!(!r.contains(&"settings".to_string()));
    assert_eq!(ViewRegistry::new().len(), 0);
}
