use streamduck::events::{ActionResult, EventDispatcher, ListensFor};
use streamduck::plugins::{PluginRenderingManager, PluginSocketManager};

#[test]
fn listeners_match_event_types() {
    assert!(ListensFor::Any.listens_for(9));
    assert!(ListensFor::Specific(4).listens_for(4));
    assert!(!ListensFor::Specific(4).listens_for(5));
    assert!(ListensFor::Multiple(vec![1, 2, 3]).listens_for(3));
    assert!(!ListensFor::Multiple(vec![1, 2, 3]).listens_for(4));
    assert!(!ListensFor::Multiple(vec![]).listens_for(0));
}

#[test]
fn plugin_managers_keep_additions_in_order() {
    let mut sockets = PluginSocketManager::new();
    sockets.add_listener("first");
    sockets.add_listener("second");
    assert_eq!(sockets.load_listeners(), vec!["first", "second"]);
    let mut renderers = PluginRenderingManager::new();
    renderers.add_renderer(1);
    assert_eq!(renderers.load_renderers(), vec![1]);
}

#[test]
fn action_results_describe_errors() {
    let r = ActionResult::Error("broken".to_string());
    assert_eq!(format!("{:?}", r), "Error(\"broken\")");
    assert_eq!(format!("{:?}", ActionResult::VisibleSuccess), "VisibleSuccess");
}

#[test]
fn dispatcher_drops_gone_listeners_and_picks_matching() {
    let mut d: EventDispatcher<&str> = EventDispatcher::new();
    d.add_listener_from_weak(ListensFor::Any, "any");
    d.add_listener_from_weak(ListensFor::Specific(7), "seven");
    d.add_listener_from_weak(ListensFor::Multiple(vec![1, 7]), "gone");
    d.add_listener_from_weak(ListensFor::Multiple(vec![2, 3]), "two_three");
    assert_eq!(d.matching(7), vec![0, 1, 2]);
    d.retain_alive(&vec![true, true, false, true]);
    assert_eq!(d.len(), 3);
    assert_eq!(*d.listener_at(2), "two_three");
    assert_eq!(d.matching(7), vec![0, 1]);
    assert_eq!(d.matching(3), vec![0, 2]);
    d.retain_alive(&vec![true, true, true]);
    assert_eq!(d.len(), 3);
}
