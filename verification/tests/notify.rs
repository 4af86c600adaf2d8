use rxqlite_client::notify::name_less;
use rxqlite_client::{ListenStep, NetStreamManager, NotificationCommand};

#[test]
fn fresh_manager_listens_to_nothing() {
    let m = NetStreamManager::new(false, false);
    assert!(!m.is_listening());
    assert!(m.notification_stream.is_none());
    assert!(m.listened_tables.is_empty());
    assert!(matches!(m.plan_start_listening_for_notifications(), ListenStep::Connect(None)));
    assert!(matches!(m.plan_stop_listening_for_notifications(), ListenStep::Done));
    let t = "_test_user_".to_string();
    assert!(matches!(m.plan_start_listening_for_table_notifications(&t), ListenStep::Connect(None)));
    assert!(matches!(m.plan_stop_listening_for_table_notifications(&t), ListenStep::Done));
}

#[test]
fn connect_mode_follows_tls_settings() {
    assert_eq!(NetStreamManager::new(false, true).connect_mode(), None);
    assert_eq!(NetStreamManager::new(true, false).connect_mode(), Some(false));
    assert_eq!(NetStreamManager::new(true, true).connect_mode(), Some(true));
    assert!(matches!(
        NetStreamManager::new(true, true).plan_start_listening_for_notifications(),
        ListenStep::Connect(Some(true))
    ));
}

#[test]
fn subscriptions_follow_their_requests() {
    let table = "_test_user_".to_string();
    let mut m = NetStreamManager::new(false, false);

    m.finish_start_listening_for_notifications(true);
    assert!(m.listening_for_any_notifications);
    assert!(m.is_listening());
    assert!(matches!(m.plan_start_listening_for_notifications(), ListenStep::Done));

    m.finish_start_listening_for_table_notifications(&table, true);
    assert!(m.listens_to_table(&table));
    assert!(matches!(m.plan_start_listening_for_table_notifications(&table), ListenStep::Done));
    match m.plan_stop_listening_for_table_notifications(&table) {
        ListenStep::Send(NotificationCommand::UnregisterForTable(t)) => assert_eq!(t, table),
        _ => panic!("a listened table is unregistered"),
    }

    m.finish_stop_listening_for_notifications(true);
    assert!(!m.listening_for_any_notifications);
    assert!(m.is_listening());

    m.finish_stop_listening_for_table_notifications(&table, true);
    assert!(!m.listens_to_table(&table));
    assert!(!m.is_listening());
    assert!(m.notification_stream.is_none());
}

#[test]
fn stop_for_all_drops_everything() {
    let mut m = NetStreamManager::new(true, false);
    m.finish_start_listening_for_table_notifications(&"a".to_string(), true);
    m.finish_start_listening_for_notifications(true);
    m.stop_listening_for_all();
    assert!(!m.is_listening());
    assert!(m.listened_tables.is_empty());
    assert!(m.notification_stream.is_none());
    assert!(m.use_tls);
}

#[test]
fn failed_request_drops_everything() {
    let mut m = NetStreamManager::new(false, false);
    m.finish_start_listening_for_table_notifications(&"a".to_string(), true);
    m.finish_start_listening_for_notifications(true);
    m.finish_start_listening_for_table_notifications(&"b".to_string(), false);
    assert!(!m.is_listening());
    assert!(m.listened_tables.is_empty());
    let mut m = NetStreamManager::new(false, false);
    m.finish_start_listening_for_table_notifications(&"a".to_string(), true);
    m.finish_stop_listening_for_table_notifications(&"a".to_string(), false);
    assert!(m.listened_tables.is_empty());
    let mut m = NetStreamManager::new(false, false);
    m.finish_start_listening_for_notifications(true);
    m.finish_stop_listening_for_notifications(false);
    assert!(!m.is_listening());
    let mut m = NetStreamManager::new(false, false);
    m.finish_start_listening_for_notifications(false);
    assert!(!m.is_listening());
}

#[test]
fn a_table_is_listed_once() {
    let mut m = NetStreamManager::new(false, false);
    let a = "a".to_string();
    m.finish_start_listening_for_table_notifications(&a, true);
    m.finish_start_listening_for_table_notifications(&a, true);
    assert_eq!(m.listened_tables, vec![a.clone()]);
    m.finish_stop_listening_for_table_notifications(&"b".to_string(), true);
    assert_eq!(m.listened_tables, vec![a.clone()]);
    m.finish_start_listening_for_table_notifications(&"b".to_string(), true);
    m.finish_stop_listening_for_table_notifications(&a, true);
    assert_eq!(m.listened_tables, vec!["b".to_string()]);
}

#[test]
fn stopping_a_table_removes_every_entry_of_it() {
    let mut m = NetStreamManager::new(false, false);
    m.listened_tables = vec!["a".to_string(), "b".to_string(), "a".to_string()];
    m.finish_stop_listening_for_table_notifications(&"a".to_string(), true);
    assert_eq!(m.listened_tables, vec!["b".to_string()]);
    assert!(!m.listens_to_table(&"a".to_string()));
    assert!(m.listens_to_table(&"b".to_string()));
}

#[test]
fn tables_are_kept_in_name_order() {
    let mut m = NetStreamManager::new(false, false);
    for t in ["c", "a", "b", "ab", "é", "Z"] {
        m.finish_start_listening_for_table_notifications(&t.to_string(), true);
    }
    let mut expected: Vec<String> = ["c", "a", "b", "ab", "é", "Z"].iter().map(|t| t.to_string()).collect();
    expected.sort();
    assert_eq!(m.listened_tables, expected);
    assert_eq!(m.listened_tables, vec!["Z", "a", "ab", "b", "c", "é"]);
}

#[test]
fn name_order_is_the_order_of_strings() {
    let names = ["", "a", "ab", "b", "Z", "é", "ü", "_test_user_", "abc"];
    for a in names {
        for b in names {
            assert_eq!(name_less(&a.to_string(), &b.to_string()), a.to_string() < b.to_string());
        }
    }
}
