use serde_json::Value;
use topic_monitor::catalog::{DiscoveryError, TopicCatalog, TopicEntry};
use topic_monitor::manager::{
    Delivery, MessageError, SelectError, SubscriptionManager, NO_DATA,
};

fn entry(name: &str, types: &[&str]) -> TopicEntry {
    TopicEntry {
        name: name.to_string(),
        types: types.iter().map(|t| t.to_string()).collect(),
    }
}

fn two_topics() -> Vec<TopicEntry> {
    vec![
        entry("/chatter", &["std_msgs/String"]),
        entry("/joy", &["sensor_msgs/Joy"]),
    ]
}

fn listed_manager() -> SubscriptionManager {
    let mut m = SubscriptionManager::new();
    assert_eq!(m.refresh_catalog(Ok(two_topics())), Ok(()));
    m
}

fn text(s: &str) -> Result<String, MessageError> {
    Ok(s.to_string())
}

#[test]
fn fresh_manager_shows_no_data() {
    let m = SubscriptionManager::new();
    assert_eq!(m.current_message(), "no data received");
    assert_eq!(m.current_message(), NO_DATA);
    assert!(m.active().is_none());
    assert_eq!(m.catalog().len(), 0);
}

#[test]
fn last_message_wins_on_chatter() {
    let mut m = listed_manager();
    let req = m.select_topic("/chatter".to_string(), "std_msgs/String".to_string()).unwrap();
    assert_eq!(req.topic, "/chatter");
    assert_eq!(req.msg_type, "std_msgs/String");
    assert_eq!(req.cancelled, None);
    for msg in ["hi", "there", "world"] {
        assert_eq!(m.on_rendered(req.generation, text(msg)), Delivery::Displayed);
    }
    assert_eq!(m.current_message(), "world");
}

#[test]
fn switch_before_first_message_discards_chatter() {
    let mut m = listed_manager();
    let chatter = m.select_topic("/chatter".to_string(), "std_msgs/String".to_string()).unwrap();
    let joy = m.select_topic("/joy".to_string(), "sensor_msgs/Joy".to_string()).unwrap();
    assert_eq!(joy.cancelled, Some(chatter.generation));
    assert_eq!(m.on_rendered(chatter.generation, text("late chatter")), Delivery::Stale);
    assert_eq!(m.current_message(), NO_DATA);
    assert_eq!(m.on_rendered(joy.generation, text("axes")), Delivery::Displayed);
    assert_eq!(m.on_rendered(chatter.generation, text("later chatter")), Delivery::Stale);
    assert_eq!(m.current_message(), "axes");
}

#[test]
fn only_the_last_selection_is_live() {
    let mut m = listed_manager();
    let mut gens = Vec::new();
    for (topic, ty) in [("/chatter", "std_msgs/String"), ("/joy", "sensor_msgs/Joy"), ("/chatter", "std_msgs/String")] {
        let req = m.select_topic(topic.to_string(), ty.to_string()).unwrap();
        if let Some(prev) = gens.last() {
            assert_eq!(req.cancelled, Some(*prev));
        }
        gens.push(req.generation);
    }
    assert_eq!(gens, vec![1, 2, 3]);
    assert!(!m.is_current(1));
    assert!(!m.is_current(2));
    assert!(m.is_current(3));
    let live = m.active().unwrap();
    assert_eq!(live.generation, 3);
    assert_eq!(live.topic, "/chatter");
}

#[test]
fn cancelled_generation_never_reaches_cell() {
    let mut m = listed_manager();
    let first = m.select_topic("/chatter".to_string(), "std_msgs/String".to_string()).unwrap();
    assert_eq!(m.on_rendered(first.generation, text("hi")), Delivery::Displayed);
    let second = m.select_topic("/joy".to_string(), "sensor_msgs/Joy".to_string()).unwrap();
    assert_eq!(second.generation, first.generation + 1);
    assert_eq!(m.on_rendered(first.generation, text("stale")), Delivery::Stale);
    assert_eq!(m.on_rendered(first.generation, Err(MessageError::Receive)), Delivery::Stale);
    assert_eq!(m.current_message(), NO_DATA);
}

#[test]
fn switch_resets_cell_before_new_messages() {
    let mut m = listed_manager();
    m.select_topic("/chatter".to_string(), "std_msgs/String".to_string()).unwrap();
    assert_eq!(m.on_rendered(1, text("from chatter")), Delivery::Displayed);
    assert_eq!(m.current_message(), "from chatter");
    m.select_topic("/joy".to_string(), "sensor_msgs/Joy".to_string()).unwrap();
    assert_eq!(m.current_message(), NO_DATA);
}

#[test]
fn reselecting_same_topic_restarts_it() {
    let mut m = listed_manager();
    let a = m.select_topic("/chatter".to_string(), "std_msgs/String".to_string()).unwrap();
    m.on_rendered(a.generation, text("hi"));
    let b = m.select_topic("/chatter".to_string(), "std_msgs/String".to_string()).unwrap();
    assert_eq!(b.generation, a.generation + 1);
    assert_eq!(b.cancelled, Some(a.generation));
    assert_eq!(m.current_message(), NO_DATA);
    assert_eq!(m.on_rendered(a.generation, text("old")), Delivery::Stale);
}

#[test]
fn failed_refresh_keeps_catalog() {
    let mut m = listed_manager();
    assert_eq!(m.refresh_catalog(Err(DiscoveryError::Unreachable)), Err(DiscoveryError::Unreachable));
    assert_eq!(m.catalog().len(), 2);
    assert_eq!(m.catalog().entry(0).name, "/chatter");
    assert_eq!(m.catalog().entry(1).name, "/joy");
}

#[test]
fn duplicate_listing_is_refused() {
    let mut m = listed_manager();
    let dup = vec![entry("/a", &["x/Y"]), entry("/b", &["x/Z"]), entry("/a", &["x/W"])];
    assert_eq!(m.refresh_catalog(Ok(dup)), Err(DiscoveryError::DuplicateTopic));
    assert_eq!(m.catalog().len(), 2);
    assert_eq!(m.catalog().find(&"/joy".to_string()), Some(1));
}

#[test]
fn refresh_replaces_catalog_wholesale() {
    let mut m = listed_manager();
    assert_eq!(m.refresh_catalog(Ok(vec![entry("/odom", &["nav_msgs/Odometry"])])), Ok(()));
    assert_eq!(m.catalog().len(), 1);
    assert_eq!(m.catalog().find(&"/chatter".to_string()), None);
    assert_eq!(m.catalog().entry(0).types, vec!["nav_msgs/Odometry".to_string()]);
}

#[test]
fn catalog_from_listing() {
    assert!(TopicCatalog::from_listing(two_topics()).is_ok());
    assert_eq!(TopicCatalog::from_listing(Vec::new()).unwrap().len(), 0);
    assert!(TopicCatalog::new().find(&"/chatter".to_string()).is_none());
    let dup = vec![entry("/a", &[]), entry("/a", &[])];
    assert_eq!(TopicCatalog::from_listing(dup).err(), Some(DiscoveryError::DuplicateTopic));
}

#[test]
fn malformed_message_keeps_stream() {
    let mut m = listed_manager();
    let req = m.select_topic("/chatter".to_string(), "std_msgs/String".to_string()).unwrap();
    assert_eq!(m.on_rendered(req.generation, text("hi")), Delivery::Displayed);
    assert_eq!(m.on_rendered(req.generation, Err(MessageError::Render)), Delivery::Malformed);
    assert_eq!(m.on_rendered(req.generation, Err(MessageError::Receive)), Delivery::Malformed);
    assert_eq!(m.current_message(), "hi");
    assert!(m.is_current(req.generation));
    assert_eq!(m.on_rendered(req.generation, text("there")), Delivery::Displayed);
    assert_eq!(m.current_message(), "there");
}

#[test]
fn select_listed_uses_first_type() {
    let mut m = SubscriptionManager::new();
    m.refresh_catalog(Ok(vec![entry("/scan", &["sensor_msgs/LaserScan", "other/Scan"])])).unwrap();
    let req = m.select_listed(&"/scan".to_string()).unwrap();
    assert_eq!(req.topic, "/scan");
    assert_eq!(req.msg_type, "sensor_msgs/LaserScan");
    assert_eq!(req.generation, 1);
}

#[test]
fn select_listed_errors() {
    let mut m = SubscriptionManager::new();
    m.refresh_catalog(Ok(vec![entry("/empty", &[])])).unwrap();
    assert_eq!(m.select_listed(&"/missing".to_string()).err(), Some(SelectError::UnknownTopic));
    assert_eq!(m.select_listed(&"/empty".to_string()).err(), Some(SelectError::NoMessageType));
    assert!(m.active().is_none());
    assert_eq!(m.current_message(), NO_DATA);
}

#[test]
fn start_failure_leaves_nothing_live() {
    let mut m = listed_manager();
    let a = m.select_topic("/chatter".to_string(), "std_msgs/String".to_string()).unwrap();
    let b = m.select_topic("/joy".to_string(), "sensor_msgs/Joy".to_string()).unwrap();
    m.start_failed(a.generation);
    assert!(m.is_current(b.generation));
    m.start_failed(b.generation);
    assert!(m.active().is_none());
    assert_eq!(m.on_rendered(b.generation, text("x")), Delivery::Stale);
}

#[test]
fn shutdown_cancels_live_subscription() {
    let mut m = listed_manager();
    assert_eq!(m.shutdown(), None);
    let a = m.select_topic("/chatter".to_string(), "std_msgs/String".to_string()).unwrap();
    assert_eq!(m.shutdown(), Some(a.generation));
    assert!(m.active().is_none());
    assert_eq!(m.on_rendered(a.generation, text("x")), Delivery::Stale);
}

#[test]
fn payload_is_shown_as_pretty_json() {
    let mut m = listed_manager();
    let req = m.select_topic("/chatter".to_string(), "std_msgs/String".to_string()).unwrap();
    let mut fields = serde_json::Map::new();
    fields.insert("data".to_string(), Value::String("hi".to_string()));
    assert_eq!(m.on_message(req.generation, &Value::Object(fields)), Delivery::Displayed);
    assert_eq!(m.current_message(), "{\n  \"data\": \"hi\"\n}");
    assert_eq!(m.on_message(req.generation, &Value::String("world".to_string())), Delivery::Displayed);
    assert_eq!(m.current_message(), "\"world\"");
}

#[test]
fn stale_payload_is_not_rendered() {
    let mut m = listed_manager();
    let a = m.select_topic("/chatter".to_string(), "std_msgs/String".to_string()).unwrap();
    m.select_topic("/joy".to_string(), "sensor_msgs/Joy".to_string()).unwrap();
    assert_eq!(m.on_message(a.generation, &Value::Bool(true)), Delivery::Stale);
    assert_eq!(m.current_message(), NO_DATA);
}

#[test]
fn clicking_chatter_shows_last_message() {
    let mut m = listed_manager();
    let req = m.select_listed(&"/chatter".to_string()).unwrap();
    assert_eq!(req.msg_type, "std_msgs/String");
    for msg in ["hi", "there", "world"] {
        assert_eq!(m.on_rendered(req.generation, text(msg)), Delivery::Displayed);
    }
    assert_eq!(m.current_message(), "world");
}

#[test]
fn clicking_joy_before_chatter_data_discards_chatter() {
    let mut m = listed_manager();
    let chatter = m.select_listed(&"/chatter".to_string()).unwrap();
    let joy = m.select_listed(&"/joy".to_string()).unwrap();
    assert_eq!(joy.cancelled, Some(chatter.generation));
    assert_eq!(m.on_message(chatter.generation, &Value::String("late".to_string())), Delivery::Stale);
    assert_eq!(m.current_message(), NO_DATA);
    let live = m.active().unwrap();
    assert_eq!(live.topic, "/joy");
    assert_eq!(live.msg_type, "sensor_msgs/Joy");
}

#[test]
fn clicking_live_topic_again_restarts_it() {
    let mut m = listed_manager();
    let a = m.select_listed(&"/joy".to_string()).unwrap();
    m.on_rendered(a.generation, text("axes"));
    let b = m.select_listed(&"/joy".to_string()).unwrap();
    assert_eq!(b.cancelled, Some(a.generation));
    assert_eq!(b.generation, a.generation + 1);
    assert_eq!(m.current_message(), NO_DATA);
    assert_eq!(m.catalog().len(), 2);
}
