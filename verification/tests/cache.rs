use siostam::cache::Core;
use siostam::cache::Updatable;
use siostam::cache::UpdateDecision;
use siostam::config::SiostamConfig;
use siostam::config::Target;
use siostam::error::CustomError;
use siostam::server::Subscribe;
use siostam::server::Unsubscribe;
use siostam::server::UpdateMasterActor;
use siostam::subsystem_mapping::representation::GraphRepresentation;

fn representation(json: &str) -> GraphRepresentation {
    GraphRepresentation::new(json.to_string(), "<svg/>".to_string())
}

fn config(suffix: &str) -> SiostamConfig {
    SiostamConfig {
        suffix: suffix.to_string(),
        targets: vec![Target { url: None, branch: None, folder: Some("docs".to_string()) }],
    }
}

fn new_core(interval: u64, now: u64) -> Core {
    Core::new("Siostam.toml", interval, config(".toml"), representation("{}"), now)
}

#[test]
fn first_version_is_zero_and_acknowledged() {
    let u = Updatable::from(5u32, 100);
    assert_eq!(u.version(), 0);
    assert_eq!(u.last_check(), 100);
    assert!(u.has_been_acknowledged());
    assert_eq!(*u.storage(), 5);
}

#[test]
fn same_value_keeps_version_and_moves_last_check() {
    let mut u = Updatable::from(5u32, 100);
    assert_eq!(u.update(5, 250), 0);
    assert_eq!(u.version(), 0);
    assert_eq!(u.last_check(), 250);
    assert!(u.has_been_acknowledged());
    assert_eq!(*u.storage(), 5);
}

#[test]
fn different_value_advances_version_by_one() {
    let mut u = Updatable::from(5u32, 100);
    assert_eq!(u.update(6, 250), 1);
    assert_eq!(u.version(), 1);
    assert_eq!(u.last_check(), 250);
    assert!(!u.has_been_acknowledged());
    assert_eq!(*u.storage(), 6);
    u.acknowledge();
    assert!(u.has_been_acknowledged());
    assert_eq!(u.version(), 1);
}

#[test]
fn versions_never_go_back_over_a_history() {
    let mut u = Updatable::from(0u32, 0);
    let values = [1u32, 1, 2, 2, 2, 1, 3];
    let expected = [1usize, 1, 2, 2, 2, 3, 4];
    let mut last = 0;
    for (i, v) in values.iter().enumerate() {
        let version = u.update(*v, i as u64);
        assert!(version >= last);
        assert_eq!(version, expected[i]);
        last = version;
    }
}

#[test]
fn new_core_is_idle_and_up_to_date() {
    let c = new_core(1000, 50);
    assert_eq!(c.version(), 0);
    assert_eq!(c.config_version(), 0);
    assert_eq!(c.json(), "{}");
    assert_eq!(c.svg(), "<svg/>");
    assert_eq!(c.config_path(), "Siostam.toml");
    assert_eq!(c.config().suffix, ".toml");
    assert!(!c.is_graph_update_required(50));
}

#[test]
fn update_is_due_only_after_the_interval() {
    let c = new_core(1000, 50);
    assert!(!c.is_graph_update_required(1050));
    assert!(c.is_graph_update_required(1051));
    assert!(!c.is_graph_update_required(0));
}

#[test]
fn changed_config_makes_an_update_due_at_once() {
    let mut c = new_core(1000, 50);
    assert!(c.reload_config(Ok(config(".toml")), 60).is_ok());
    assert_eq!(c.config_version(), 0);
    assert!(!c.is_graph_update_required(60));
    assert!(c.reload_config(Ok(config(".subsystem.toml")), 70).is_ok());
    assert_eq!(c.config_version(), 1);
    assert_eq!(c.config().suffix, ".subsystem.toml");
    assert!(c.is_graph_update_required(70));
}

#[test]
fn failed_reload_changes_nothing() {
    let mut c = new_core(1000, 50);
    let outcome = c.reload_config(Err(CustomError::new("unreadable".to_string())), 60);
    assert_eq!(outcome.unwrap_err().message, "unreadable");
    assert_eq!(c.config_version(), 0);
    assert_eq!(c.config().suffix, ".toml");
    assert!(!c.is_graph_update_required(60));
}

#[test]
fn only_one_rebuild_is_in_flight() {
    let mut c = new_core(1000, 0);
    assert_eq!(c.check_for_graph_update(500), UpdateDecision::NotDue);
    assert_eq!(c.check_for_graph_update(2000), UpdateDecision::Start);
    for now in 2001..2010 {
        assert_eq!(c.check_for_graph_update(now), UpdateDecision::Busy);
    }
    assert_eq!(c.version(), 0);
    assert_eq!(c.json(), "{}");
    assert_eq!(c.upgrade_graph(Ok(representation("{\"a\":1}")), 2010).unwrap(), 1);
    assert_eq!(c.check_for_graph_update(2011), UpdateDecision::NotDue);
    assert_eq!(c.check_for_graph_update(3011), UpdateDecision::Start);
}

#[test]
fn rebuild_with_unchanged_content_reports_no_version_change() {
    let mut c = new_core(1000, 0);
    assert_eq!(c.check_for_graph_update(1001), UpdateDecision::Start);
    assert_eq!(c.upgrade_graph(Ok(representation("{}")), 1002).unwrap(), 0);
    assert_eq!(c.version(), 0);
    assert_eq!(c.check_for_graph_update(1500), UpdateDecision::NotDue);
    assert_eq!(c.check_for_graph_update(2002), UpdateDecision::NotDue);
    assert_eq!(c.check_for_graph_update(2003), UpdateDecision::Start);
    assert_eq!(c.upgrade_graph(Ok(representation("{}")), 2004).unwrap(), 0);
    assert_eq!(c.version(), 0);
}

#[test]
fn publishing_acknowledges_the_config() {
    let mut c = new_core(1000, 0);
    assert!(c.reload_config(Ok(config(".other")), 10).is_ok());
    assert_eq!(c.check_for_graph_update(11), UpdateDecision::Start);
    assert_eq!(c.upgrade_graph(Ok(representation("{\"b\":2}")), 12).unwrap(), 1);
    assert_eq!(c.json(), "{\"b\":2}");
    assert!(!c.is_graph_update_required(13));
    assert_eq!(c.check_for_graph_update(13), UpdateDecision::NotDue);
}

#[test]
fn failed_rebuild_keeps_the_snapshot_and_retries() {
    let mut c = new_core(1000, 0);
    assert!(c.reload_config(Ok(config(".other")), 10).is_ok());
    assert_eq!(c.check_for_graph_update(11), UpdateDecision::Start);
    let outcome = c.upgrade_graph(Err(CustomError::new("no network".to_string())), 12);
    assert_eq!(outcome.unwrap_err().message, "no network");
    assert_eq!(c.version(), 0);
    assert_eq!(c.json(), "{}");
    assert_eq!(c.svg(), "<svg/>");
    assert!(c.is_graph_update_required(13));
    assert_eq!(c.check_for_graph_update(13), UpdateDecision::Start);
}

#[test]
fn svg_alone_makes_a_new_version() {
    let mut c = new_core(1000, 0);
    let built = GraphRepresentation::new("{}".to_string(), "<svg>new</svg>".to_string());
    assert_eq!(c.upgrade_graph(Ok(built), 5).unwrap(), 1);
    assert_eq!(c.svg(), "<svg>new</svg>");
}

#[test]
fn subscribers_are_told_once_per_version_change() {
    let mut c = new_core(1000, 0);
    let mut master = UpdateMasterActor::new();
    master.subscribe(Subscribe(1));
    master.subscribe(Subscribe(2));
    master.subscribe(Subscribe(1));
    assert_eq!(master.last_version(), 0);

    let tick = master.tick(&mut c, 10);
    assert_eq!(tick.decision, UpdateDecision::NotDue);
    assert!(tick.recipients.is_empty());

    let tick = master.tick(&mut c, 1001);
    assert_eq!(tick.decision, UpdateDecision::Start);
    assert!(tick.recipients.is_empty());

    let tick = master.tick(&mut c, 1002);
    assert_eq!(tick.decision, UpdateDecision::Busy);
    assert!(tick.recipients.is_empty());

    assert_eq!(c.upgrade_graph(Ok(representation("{\"new\":true}")), 1003).unwrap(), 1);
    let tick = master.tick(&mut c, 1004);
    assert_eq!(tick.decision, UpdateDecision::NotDue);
    assert_eq!(tick.recipients, vec![1, 2, 1]);
    assert_eq!(master.last_version(), 1);

    let tick = master.tick(&mut c, 1005);
    assert!(tick.recipients.is_empty());
}

#[test]
fn unsubscribe_removes_every_subscription_of_the_handle() {
    let mut master = UpdateMasterActor::new();
    master.subscribe(Subscribe(1));
    master.subscribe(Subscribe(2));
    master.subscribe(Subscribe(1));
    master.subscribe(Subscribe(3));
    master.unsubscribe(Unsubscribe(1));
    assert_eq!(master.send_please_update_message(), vec![2, 3]);
    master.unsubscribe(Unsubscribe(9));
    assert_eq!(master.send_please_update_message(), vec![2, 3]);
    master.unsubscribe(Unsubscribe(2));
    master.unsubscribe(Unsubscribe(3));
    assert!(master.send_please_update_message().is_empty());
}

#[test]
fn unchanged_rebuild_tells_nobody() {
    let mut c = new_core(1000, 0);
    let mut master = UpdateMasterActor::new();
    master.subscribe(Subscribe(4));
    assert_eq!(master.tick(&mut c, 1001).decision, UpdateDecision::Start);
    assert_eq!(c.upgrade_graph(Ok(representation("{}")), 1002).unwrap(), 0);
    let tick = master.tick(&mut c, 1003);
    assert!(tick.recipients.is_empty());
    assert_eq!(master.last_version(), 0);
}
