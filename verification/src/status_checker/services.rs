//! A watched service: its kind and its base URL, where its health endpoint lies,
//! and how its health reply is judged.

use vstd::prelude::*;

use crate::health_monitor::ServiceType;
use crate::status_checker::HttpReply;
use crate::text::{is_blank, lemma_contains_extended, lemma_strip_blanks_nonempty, lemma_starts_with_extended, remove_blanks, seq_contains, seq_starts_with, str_contains, str_eq, str_starts_with, strip_blanks};

verus! {

/// The path, below a service's base URL, at which its health can be read.
pub open spec fn endpoint(t: ServiceType) -> Seq<char> {
    match t {
        ServiceType::Synapse => "/health"@,
        ServiceType::Nextcloud => "/status.php"@,
        ServiceType::Forgejo => "/api/healthz"@,
        ServiceType::Portainer => "/api/system/status"@,
        ServiceType::Keycloak => "/health"@,
        ServiceType::Bitwarden => "/alive"@,
        ServiceType::Wordpress => "/robots.txt"@,
        ServiceType::Gotosocial => "/nodeinfo/2.0"@,
    }
}

/// Whether a (blank-stripped) reply body shows a healthy service of kind `t`.
pub open spec fn body_ok(t: ServiceType, body: Seq<char>) -> bool {
    match t {
        ServiceType::Synapse => body == "OK"@,
        ServiceType::Nextcloud => seq_contains(body, "\"installed\":true"@) && seq_contains(
            body,
            "\"productname\":\"Nextcloud\""@,
        ),
        ServiceType::Forgejo => seq_starts_with(body, "{\"status\":\"pass\""@),
        ServiceType::Portainer => seq_contains(body, "Version"@) && seq_contains(body, "InstanceID"@),
        ServiceType::Keycloak => seq_contains(body, "\"status\":\"UP\""@),
        ServiceType::Bitwarden => body.len() > 0,
        ServiceType::Wordpress => body.len() > 0,
        ServiceType::Gotosocial => seq_contains(body, "name\":\"gotosocial"@),
    }
}

/// Adding text after a body that a check accepts keeps it accepted, for every
/// kind but Synapse (whose body must be exactly `OK`); adding text before it
/// too, for every kind but Synapse and Forgejo (whose body must begin with the
/// pass status).
pub proof fn lemma_accepted_body_stays_accepted(
    t: ServiceType,
    body: Seq<char>,
    prefix: Seq<char>,
    suffix: Seq<char>,
)
    requires
        t != ServiceType::Synapse,
        body_ok(t, body),
    ensures
        body_ok(t, body + suffix),
        t != ServiceType::Forgejo ==> body_ok(t, prefix + body + suffix),
{
    let empty = Seq::<char>::empty();
    assert(empty + body + suffix =~= body + suffix);
    match t {
        ServiceType::Nextcloud => {
            lemma_contains_extended(body, "\"installed\":true"@, empty, suffix);
            lemma_contains_extended(body, "\"productname\":\"Nextcloud\""@, empty, suffix);
            lemma_contains_extended(body, "\"installed\":true"@, prefix, suffix);
            lemma_contains_extended(body, "\"productname\":\"Nextcloud\""@, prefix, suffix);
        },
        ServiceType::Forgejo => {
            lemma_starts_with_extended(body, "{\"status\":\"pass\""@, suffix);
        },
        ServiceType::Portainer => {
            lemma_contains_extended(body, "Version"@, empty, suffix);
            lemma_contains_extended(body, "InstanceID"@, empty, suffix);
            lemma_contains_extended(body, "Version"@, prefix, suffix);
            lemma_contains_extended(body, "InstanceID"@, prefix, suffix);
        },
        ServiceType::Keycloak => {
            lemma_contains_extended(body, "\"status\":\"UP\""@, empty, suffix);
            lemma_contains_extended(body, "\"status\":\"UP\""@, prefix, suffix);
        },
        ServiceType::Gotosocial => {
            lemma_contains_extended(body, "name\":\"gotosocial"@, empty, suffix);
            lemma_contains_extended(body, "name\":\"gotosocial"@, prefix, suffix);
        },
        _ => {},
    }
}

/// Whether the reply to a health request (`None` when the request failed)
/// shows a healthy service of kind `t`: a success status and a body that,
/// stripped of newlines and spaces, passes the check for `t`.
pub open spec fn reply_ok(t: ServiceType, reply: Option<(bool, Seq<char>)>) -> bool {
    match reply {
        None => false,
        Some((success, body)) => success && body_ok(t, strip_blanks(body)),
    }
}

/// The `User-Agent` header that the bot sends with its requests.
pub open spec fn user_agent_for(version: Seq<char>) -> Seq<char> {
    "Ghost-Bot "@ + version
}

/// The `User-Agent` header for the bot's version `version`.
pub fn user_agent(version: &str) -> (agent: String)
    ensures
        agent@ == user_agent_for(version@),
{
    String::from_str("Ghost-Bot ").concat(version)
}

/// How a health reply is judged, kind by kind: a failed request or a failure
/// status is down; otherwise the body, stripped of newlines and spaces, must
/// be `OK` (Synapse), mention an installed Nextcloud (Nextcloud), begin with a
/// pass status (Forgejo), carry a version and an instance id (Portainer),
/// report the status `UP` (Keycloak), name GoToSocial (GoToSocial), or hold
/// any character besides newlines and spaces (Bitwarden, WordPress).
pub proof fn lemma_reply_judged_by_kind(t: ServiceType, success: bool, body: Seq<char>)
    ensures
        !reply_ok(t, None),
        !success ==> !reply_ok(t, Some((success, body))),
        success ==> (reply_ok(t, Some((success, body))) <==> match t {
            ServiceType::Synapse => strip_blanks(body) == "OK"@,
            ServiceType::Nextcloud => seq_contains(strip_blanks(body), "\"installed\":true"@)
                && seq_contains(strip_blanks(body), "\"productname\":\"Nextcloud\""@),
            ServiceType::Forgejo => seq_starts_with(strip_blanks(body), "{\"status\":\"pass\""@),
            ServiceType::Portainer => seq_contains(strip_blanks(body), "Version"@) && seq_contains(
                strip_blanks(body),
                "InstanceID"@,
            ),
            ServiceType::Keycloak => seq_contains(strip_blanks(body), "\"status\":\"UP\""@),
            ServiceType::Gotosocial => seq_contains(strip_blanks(body), "name\":\"gotosocial"@),
            ServiceType::Bitwarden => exists|i: int| 0 <= i < body.len() && !is_blank(#[trigger] body[i]),
            ServiceType::Wordpress => exists|i: int| 0 <= i < body.len() && !is_blank(#[trigger] body[i]),
        }),
{
    lemma_strip_blanks_nonempty(body);
}

/// The abstract value of a service: its kind and its base URL.
pub struct ServiceView {
    pub service_type: ServiceType,
    pub url: Seq<char>,
}

/// A self-hosted web service to watch.
pub struct Service {
    service_type: ServiceType,
    url: String,
}

impl View for Service {
    type V = ServiceView;

    closed spec fn view(&self) -> ServiceView {
        ServiceView { service_type: self.service_type, url: self.url@ }
    }
}

impl Service {
    pub fn new(url: String, service_type: ServiceType) -> (s: Self)
        ensures
            s@ == (ServiceView { service_type, url: url@ }),
    {
        Service { url, service_type }
    }

    /// A copy of the service.
    pub fn duplicate(&self) -> (s: Service)
        ensures
            s@ == self@,
    {
        Service { service_type: self.service_type, url: self.url.clone() }
    }

    pub fn get_url(&self) -> (url: String)
        ensures
            url@ == self@.url,
    {
        self.url.clone()
    }

    pub fn get_type(&self) -> (t: &ServiceType)
        ensures
            *t == self@.service_type,
    {
        &self.service_type
    }

    /// The URL at which the service's health is read: its base URL followed by
    /// the endpoint of its kind.
    pub fn health_url(&self) -> (full: String)
        ensures
            full@ == self@.url + endpoint(self@.service_type),
    {
        let url = self.get_url();
        let ep = self.get_endpoint();
        url.concat(ep.as_str())
    }

    /// Judges the reply to the health request: `None` when the request failed,
    /// otherwise whether the status was a success and the body (read as text,
    /// empty when unreadable).
    pub fn is_okay(&self, reply: Option<&HttpReply>) -> (ok: bool)
        ensures
            ok == reply_ok(
                self@.service_type,
                match reply {
                    None => None,
                    Some(r) => Some((r.success, r.body@)),
                },
            ),
    {
        match reply {
            None => false,
            Some(r) => {
                if !r.success {
                    return false;
                }
                let body = remove_blanks(r.body.as_str());
                self.check_body(body)
            },
        }
    }

    fn get_endpoint(&self) -> (ep: String)
        ensures
            ep@ == endpoint(self@.service_type),
    {
        match self.service_type {
            ServiceType::Synapse => String::from_str("/health"),
            ServiceType::Nextcloud => String::from_str("/status.php"),
            ServiceType::Forgejo => String::from_str("/api/healthz"),
            ServiceType::Portainer => String::from_str("/api/system/status"),
            ServiceType::Keycloak => String::from_str("/health"),
            ServiceType::Bitwarden => String::from_str("/alive"),
            ServiceType::Wordpress => String::from_str("/robots.txt"),
            ServiceType::Gotosocial => String::from_str("/nodeinfo/2.0"),
        }
    }

    /// Whether a (blank-stripped) reply body shows a healthy service of this
    /// service's kind.
    pub fn check_body(&self, body: String) -> (ok: bool)
        ensures
            ok == body_ok(self@.service_type, body@),
    {
        match self.service_type {
            ServiceType::Synapse => str_eq(body.as_str(), "OK"),
            ServiceType::Nextcloud => str_contains(body.as_str(), "\"installed\":true")
                && str_contains(body.as_str(), "\"productname\":\"Nextcloud\""),
            ServiceType::Forgejo => str_starts_with(body.as_str(), "{\"status\":\"pass\""),
            ServiceType::Portainer => str_contains(body.as_str(), "Version") && str_contains(
                body.as_str(),
                "InstanceID",
            ),
            ServiceType::Keycloak => str_contains(body.as_str(), "\"status\":\"UP\""),
            ServiceType::Bitwarden => !body.as_str().is_empty(),
            ServiceType::Wordpress => !body.as_str().is_empty(),
            ServiceType::Gotosocial => str_contains(body.as_str(), "name\":\"gotosocial"),
        }
    }
}

} // verus!
