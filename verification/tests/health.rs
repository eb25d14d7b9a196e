use ghost::health_monitor::message_builder::build_health_message;
use ghost::health_monitor::updater::{HealthEvent, HealthMonitor};
use ghost::health_monitor::ServiceType;
use ghost::status_checker::services::{user_agent, Service};
use ghost::status_checker::{HealthChecker, HttpReply};

fn reply(success: bool, body: &str) -> HttpReply {
    HttpReply { success, body: body.to_string() }
}

#[test]
fn status_id_examples() {
    let checker = HealthChecker::new("a", "b", "c", "d", "e");
    assert_eq!(checker.get_status_id(true, true, true, true), 15);
    assert_eq!(checker.get_status_id(true, false, true, true), 11);
    assert_eq!(checker.get_status_id(false, false, false, false), 0);
    assert_eq!(checker.get_status_id(false, false, false, true), 1);
}

#[test]
fn health_checker_urls_and_bodies() {
    let c = HealthChecker::new("https://m", "https://n", "https://f", "https://p", "https://k");
    assert_eq!(c.keycloak_url, "https://k");
    assert_eq!(c.matrix_health_url(), "https://m/health");
    assert_eq!(c.nextcloud_health_url(), "https://n/status.php");
    assert_eq!(c.forgejo_health_url(), "https://f/api/healthz");
    assert_eq!(c.portainer_health_url(), "https://p/api/system/status");
    assert!(c.check_matrix(&reply(true, "OK")));
    assert!(!c.check_matrix(&reply(true, "OK\n")));
    assert!(!c.check_matrix(&reply(false, "OK")));
    assert!(c.check_nextcloud(&reply(true, "{\"installed\":true,\"productname\":\"Nextcloud\"}")));
    assert!(!c.check_nextcloud(&reply(true, "{\"installed\":false,\"productname\":\"Nextcloud\"}")));
    assert!(c.check_forgejo(&reply(true, "{\n  \"status\": \"pass\",\n  \"description\": \"Forgejo\"\n}")));
    assert!(!c.check_forgejo(&reply(true, "{\"status\": \"fail\"}")));
    assert!(c.check_portainer(&reply(true, "{\"Version\":\"2.19\",\"InstanceID\":\"x\"}")));
    assert!(!c.check_portainer(&reply(true, "{\"Version\":\"2.19\"}")));
}

#[test]
fn service_health_urls() {
    let s = Service::new("https://git.example.org".to_string(), ServiceType::Forgejo);
    assert_eq!(s.health_url(), "https://git.example.org/api/healthz");
    let s = Service::new("https://social.example.org".to_string(), ServiceType::Gotosocial);
    assert_eq!(s.health_url(), "https://social.example.org/nodeinfo/2.0");
    assert_eq!(user_agent("0.1.0"), "Ghost-Bot 0.1.0");
}

#[test]
fn service_bodies_are_judged_by_kind() {
    let ok = |t: ServiceType, body: &str| Service::new(String::new(), t).is_okay(Some(&reply(true, body)));
    assert!(ok(ServiceType::Synapse, "OK"));
    assert!(ok(ServiceType::Synapse, " O K\n"));
    assert!(!ok(ServiceType::Synapse, "NOT OK"));
    assert!(ok(ServiceType::Nextcloud, "{\"installed\": true, \"productname\": \"Nextcloud\"}"));
    assert!(!ok(ServiceType::Nextcloud, "{\"installed\": true}"));
    assert!(ok(ServiceType::Forgejo, "{\"status\": \"pass\"}"));
    assert!(!ok(ServiceType::Forgejo, "x{\"status\": \"pass\"}"));
    assert!(ok(ServiceType::Portainer, "{\"Version\":\"1\",\"InstanceID\":\"2\"}"));
    assert!(ok(ServiceType::Keycloak, "{ \"status\": \"UP\", \"checks\": [] }"));
    assert!(!ok(ServiceType::Keycloak, "{ \"status\": \"DOWN\" }"));
    assert!(ok(ServiceType::Bitwarden, "Healthy"));
    assert!(!ok(ServiceType::Bitwarden, " \n "));
    assert!(ok(ServiceType::Wordpress, "User-agent: *"));
    assert!(!ok(ServiceType::Wordpress, ""));
    assert!(ok(ServiceType::Gotosocial, "{\"software\":{\"name\":\"gotosocial\"}}"));
    assert!(!ok(ServiceType::Gotosocial, "{\"software\":{\"name\":\"mastodon\"}}"));
    let s = Service::new(String::new(), ServiceType::Synapse);
    assert!(!s.is_okay(None));
    assert!(!s.is_okay(Some(&reply(false, "OK"))));
}

#[test]
fn health_message_lines_and_code() {
    let services = vec![
        Service::new("https://matrix.example.org".to_string(), ServiceType::Synapse),
        Service::new("https://cloud.example.org".to_string(), ServiceType::Nextcloud),
        Service::new("https://git.example.org".to_string(), ServiceType::Forgejo),
    ];
    let status = build_health_message(&services, &vec![true, false, true]);
    assert_eq!(status.code, 5);
    assert_eq!(
        status.content,
        "🐋 Here is an update of the accessible web services and their status:\n\
         🟢 Synapse - Online and ready to go\n\
         🔴 Nextcloud - Offline 💀 Check this service on https://cloud.example.org\n\
         🟢 Forgejo - Online and ready to go\n"
    );
    assert!(status.content.contains("🐋"));
    assert!(status.content.contains("🟢"));
}

#[test]
fn health_code_of_all_up_is_all_ones() {
    let services: Vec<Service> = (0..7)
        .map(|_| Service::new("https://x".to_string(), ServiceType::Wordpress))
        .collect();
    let status = build_health_message(&services, &vec![true; 7]);
    assert_eq!(status.code, 127);
    assert_eq!(HealthMonitor::new(7).code, 127);
    let status = build_health_message(&services, &vec![false; 7]);
    assert_eq!(status.code, 0);
    let empty = build_health_message(&Vec::new(), &Vec::new());
    assert_eq!(empty.code, 0);
    assert_eq!(empty.content, "🐋 Here is an update of the accessible web services and their status:\n");
}

#[test]
fn monitor_starts_settled_on_all_up() {
    let m = HealthMonitor::new(3);
    assert_eq!(m, HealthMonitor { code: 7, code_before: 7 });
    assert_eq!(HealthMonitor::new(0).code, 0);
}

#[test]
fn monitor_reports_a_lasting_change_once() {
    let mut m = HealthMonitor::new(3);
    assert_eq!(m.step(7), HealthEvent::NoChange);
    assert_eq!(m.step(5), HealthEvent::Waiting);
    assert_eq!(m, HealthMonitor { code: 5, code_before: 7 });
    assert_eq!(m.step(5), HealthEvent::Notify);
    assert_eq!(m, HealthMonitor { code: 5, code_before: 5 });
    assert_eq!(m.step(5), HealthEvent::NoChange);
}

#[test]
fn monitor_ignores_a_blip() {
    let mut m = HealthMonitor::new(3);
    assert_eq!(m.step(3), HealthEvent::Waiting);
    assert_eq!(m.step(7), HealthEvent::FalsePositive);
    assert_eq!(m, HealthMonitor { code: 7, code_before: 7 });
    assert_eq!(m.step(7), HealthEvent::NoChange);
}

#[test]
fn monitor_waits_again_on_a_second_different_code() {
    let mut m = HealthMonitor::new(3);
    assert_eq!(m.step(5), HealthEvent::Waiting);
    assert_eq!(m.step(1), HealthEvent::Waiting);
    assert_eq!(m, HealthMonitor { code: 1, code_before: 5 });
    assert_eq!(m.step(1), HealthEvent::Notify);
}

#[test]
fn accepted_bodies_stay_accepted_with_more_text() {
    let ok = |t: ServiceType, body: &str| Service::new(String::new(), t).is_okay(Some(&reply(true, body)));
    assert!(ok(ServiceType::Forgejo, "{\"status\":\"pass\"}trailing"));
    assert!(!ok(ServiceType::Forgejo, "leading{\"status\":\"pass\"}"));
    assert!(ok(ServiceType::Keycloak, "before{\"status\":\"UP\"}after"));
    assert!(ok(ServiceType::Gotosocial, "x{\"name\":\"gotosocial\"}y"));
    assert!(!ok(ServiceType::Synapse, "OKAY"));
}

#[test]
fn check_body_accepts_more_text_after_an_accepted_body() {
    let keycloak = Service::new(String::new(), ServiceType::Keycloak);
    assert!(keycloak.check_body("\"status\":\"UP\"".to_string()));
    assert!(keycloak.check_body("{\"status\":\"UP\",\"checks\":[]}".to_string()));
    let forgejo = Service::new(String::new(), ServiceType::Forgejo);
    assert!(forgejo.check_body("{\"status\":\"pass\"".to_string()));
    assert!(forgejo.check_body("{\"status\":\"pass\",\"x\":1}".to_string()));
    assert!(!forgejo.check_body("x{\"status\":\"pass\"".to_string()));
    let synapse = Service::new(String::new(), ServiceType::Synapse);
    assert!(synapse.check_body("OK".to_string()));
    assert!(!synapse.check_body("OK!".to_string()));
}

#[test]
fn status_codes_fit_with_many_services_down() {
    let services: Vec<Service> = (0..40)
        .map(|_| Service::new("https://x".to_string(), ServiceType::Wordpress))
        .collect();
    let mut okay = vec![false; 40];
    okay[0] = true;
    okay[30] = true;
    let status = build_health_message(&services, &okay);
    assert_eq!(status.code, 1 + (1 << 30));
}

#[test]
fn a_monitor_run_reports_only_repeated_codes() {
    let mut m = HealthMonitor::new(4);
    let readings = [15, 11, 15, 11, 11, 11, 7, 3, 3];
    let mut notified = Vec::new();
    for (t, r) in readings.iter().enumerate() {
        if m.step(*r) == HealthEvent::Notify {
            notified.push(t);
        }
    }
    assert_eq!(notified, vec![4, 8]);
    for t in notified {
        assert_eq!(readings[t], readings[t - 1]);
    }
}
