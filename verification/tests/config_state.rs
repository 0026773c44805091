//! Configuration records, the environment listing helpers, and the
//! widget state the front end keeps.

use redox_commander::configuration::{Configuration, Deployment, DeploymentAuth};
use redox_commander::models::environment::{Environment, EnvironmentFlag, EnvironmentList, OrgObj};
use redox_commander::models::EnvironmentResources;
use redox_commander::tui::event_queue::{InternalEventQueue, UserEvent};
use redox_commander::tui::focusable_paragraph::OwnStates as ParagraphStates;
use redox_commander::tui::global_listener::OwnStates as ListenerStates;
use redox_commander::tui::text_area::TextareaStates;

fn deployment(name: &str, default: Option<bool>) -> Deployment {
    Deployment {
        name: name.to_string(),
        auth_host: None,
        api_host: "https://api.example.test".to_string(),
        default,
        default_org: None,
        auth: DeploymentAuth {
            kid: "k1".to_string(),
            client_id: "abc".to_string(),
            private_key_file: "/tmp/key.pem".to_string(),
        },
    }
}

#[test]
fn default_deployment_is_first_marked() {
    let config = Configuration {
        deployments: vec![
            deployment("a", None),
            deployment("b", Some(false)),
            deployment("c", Some(true)),
            deployment("d", Some(true)),
        ],
    };
    let d = config.default_deployment().unwrap();
    assert_eq!(d.name, "c");
}

#[test]
fn no_default_deployment_when_none_marked() {
    let config = Configuration {
        deployments: vec![deployment("a", None), deployment("b", Some(false))],
    };
    assert!(config.default_deployment().is_none());
}

#[test]
fn auth_host_falls_back() {
    let mut d = deployment("a", None);
    assert_eq!(d.effective_auth_host().as_str(), "https://api.example.test");
    d.auth_host = Some("https://auth.example.test".to_string());
    assert_eq!(d.effective_auth_host().as_str(), "https://auth.example.test");
}

#[test]
fn completeness_requires_all_fields() {
    let mut d = deployment("a", None);
    assert!(d.is_complete());
    d.auth.client_id = String::new();
    assert!(!d.is_complete());
    let mut d2 = deployment("b", None);
    d2.api_host = String::new();
    assert!(!d2.is_complete());
}

fn env(name: &str, flag: EnvironmentFlag) -> Environment {
    Environment {
        name: name.to_string(),
        environment_flag: flag,
        id: name.to_string(),
        organization: OrgObj { id: 1 },
    }
}

#[test]
fn development_environment_is_first_development() {
    let list = EnvironmentList {
        environments: vec![
            env("p", EnvironmentFlag::Production),
            env("d1", EnvironmentFlag::Development),
            env("d2", EnvironmentFlag::Development),
        ],
    };
    assert_eq!(list.development_environment().unwrap().name, "d1");
    let none = EnvironmentList {
        environments: vec![env("p", EnvironmentFlag::Production)],
    };
    assert!(none.development_environment().is_none());
}

#[test]
fn resource_labels() {
    assert_eq!(EnvironmentResources::Alerts.label(), "Alerts");
    assert_eq!(EnvironmentResources::AuthCredential.label(), "Auth credential");
    assert_eq!(EnvironmentResources::ConfigModifiers.label(), "Config modifiers");
    assert_eq!(EnvironmentResources::TranslationSets.label(), "Translation sets");
    assert_eq!(EnvironmentResources::all().len(), 8);
}

#[test]
fn event_queue_serves_newest_first() {
    let mut q = InternalEventQueue::new();
    assert!(q.poll().is_none());
    q.push(UserEvent::ModalChanged(true));
    q.push(UserEvent::SetCurrentOrganization("42".to_string()));
    match q.poll() {
        Some(UserEvent::SetCurrentOrganization(org)) => assert_eq!(org, "42"),
        other => panic!("expected the newest event, got {:?}", other),
    }
    match q.poll() {
        Some(UserEvent::ModalChanged(true)) => {}
        other => panic!("expected the older event, got {:?}", other),
    }
    assert!(q.poll().is_none());
}

#[test]
fn textarea_index_stays_in_range() {
    let mut s = TextareaStates::default();
    s.set_list_len(3);
    assert_eq!(s.list_index, 0);
    s.incr_list_index();
    s.incr_list_index();
    assert_eq!(s.list_index, 2);
    // At the last line the index stays put.
    s.incr_list_index();
    assert_eq!(s.list_index, 2);
    // Shrinking the list clamps the index.
    s.set_list_len(2);
    assert_eq!(s.list_index, 1);
    s.set_list_len(0);
    assert_eq!(s.list_index, 0);
    s.decr_list_index();
    assert_eq!(s.list_index, 0);
}

#[test]
fn textarea_jumps_and_steps() {
    let mut s = TextareaStates::default();
    s.set_list_len(10);
    s.list_index_at_last();
    assert_eq!(s.list_index, 9);
    s.list_index_at_first();
    assert_eq!(s.list_index, 0);
    assert_eq!(s.calc_max_step_ahead(8), 8);
    assert_eq!(s.calc_max_step_ahead(20), 9);
    assert_eq!(s.calc_max_step_behind(8), 0);
    s.list_index_at_last();
    assert_eq!(s.calc_max_step_ahead(8), 0);
    assert_eq!(s.calc_max_step_behind(4), 4);
    assert_eq!(s.calc_max_step_behind(20), 9);
}

#[test]
fn listener_and_paragraph_state() {
    let mut l = ListenerStates::new();
    assert!(!l.modal_open);
    l.set_modal_state(true);
    assert!(l.modal_open);
    let mut p = ParagraphStates::default();
    assert!(p.value.is_none());
    p.update_value(Some("shown".to_string()));
    assert_eq!(p.value.as_deref(), Some("shown"));
    p.update_value(None);
    assert!(p.value.is_none());
}
