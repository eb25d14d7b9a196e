//! Health checks of single services, and the status code that sums them up.

use vstd::prelude::*;

use crate::text::{remove_blanks, seq_contains, seq_starts_with, str_contains, str_eq, str_starts_with, strip_blanks};

pub mod config_builder;
pub mod services;

pub use crate::health_monitor::ServiceType;

verus! {

/// What came back for an HTTP request: whether the status was a success,
/// and the body read as text (empty when it could not be read).
pub struct HttpReply {
    pub success: bool,
    pub body: String,
}

/// Checks for a fixed set of four services, each given by its base URL.
pub struct HealthChecker {
    pub matrix_url: String,
    pub nextcloud_url: String,
    pub forgejo_url: String,
    pub portainer_url: String,
    pub keycloak_url: String,
}

/// Whether a Synapse health reply shows a healthy server.
pub open spec fn matrix_reply_ok(success: bool, body: Seq<char>) -> bool {
    success && body == "OK"@
}

/// Whether a Nextcloud status reply shows an installed Nextcloud.
pub open spec fn nextcloud_reply_ok(success: bool, body: Seq<char>) -> bool {
    success && seq_contains(body, "\"installed\":true"@) && seq_contains(
        body,
        "\"productname\":\"Nextcloud\""@,
    )
}

/// Whether a Forgejo health reply, stripped of newlines and spaces, reports a pass.
pub open spec fn forgejo_reply_ok(success: bool, body: Seq<char>) -> bool {
    success && seq_starts_with(strip_blanks(body), "{\"status\":\"pass\""@)
}

/// Whether a Portainer status reply carries a version and an instance id.
pub open spec fn portainer_reply_ok(success: bool, body: Seq<char>) -> bool {
    success && seq_contains(body, "Version"@) && seq_contains(body, "InstanceID"@)
}

/// The status id of four liveness flags: the first is the most significant
/// of four bits.
pub open spec fn status_id(a: bool, b: bool, c: bool, d: bool) -> int {
    (if a { 8int } else { 0int }) + (if b { 4int } else { 0int }) + (if c { 2int } else { 0int }) + (
    if d {
        1int
    } else {
        0int
    })
}

impl HealthChecker {
    pub fn new(
        matrix_url: &str,
        nextcloud_url: &str,
        forgejo_url: &str,
        portainer_url: &str,
        keycloak_url: &str,
    ) -> (c: Self)
        ensures
            c.matrix_url@ == matrix_url@,
            c.nextcloud_url@ == nextcloud_url@,
            c.forgejo_url@ == forgejo_url@,
            c.portainer_url@ == portainer_url@,
            c.keycloak_url@ == keycloak_url@,
    {
        Self {
            matrix_url: matrix_url.to_owned(),
            nextcloud_url: nextcloud_url.to_owned(),
            forgejo_url: forgejo_url.to_owned(),
            portainer_url: portainer_url.to_owned(),
            keycloak_url: keycloak_url.to_owned(),
        }
    }

    /// Where the Synapse health is read.
    pub fn matrix_health_url(&self) -> (u: String)
        ensures
            u@ == self.matrix_url@ + "/health"@,
    {
        self.matrix_url.clone().concat("/health")
    }

    /// Where the Nextcloud status is read.
    pub fn nextcloud_health_url(&self) -> (u: String)
        ensures
            u@ == self.nextcloud_url@ + "/status.php"@,
    {
        self.nextcloud_url.clone().concat("/status.php")
    }

    /// Where the Forgejo health is read.
    pub fn forgejo_health_url(&self) -> (u: String)
        ensures
            u@ == self.forgejo_url@ + "/api/healthz"@,
    {
        self.forgejo_url.clone().concat("/api/healthz")
    }

    /// Where the Portainer status is read.
    pub fn portainer_health_url(&self) -> (u: String)
        ensures
            u@ == self.portainer_url@ + "/api/system/status"@,
    {
        self.portainer_url.clone().concat("/api/system/status")
    }

    /// Judges the reply to the Synapse health request.
    pub fn check_matrix(&self, reply: &HttpReply) -> (ok: bool)
        ensures
            ok == matrix_reply_ok(reply.success, reply.body@),
    {
        reply.success && str_eq(reply.body.as_str(), "OK")
    }

    /// Judges the reply to the Nextcloud status request.
    pub fn check_nextcloud(&self, reply: &HttpReply) -> (ok: bool)
        ensures
            ok == nextcloud_reply_ok(reply.success, reply.body@),
    {
        reply.success && str_contains(reply.body.as_str(), "\"installed\":true") && str_contains(
            reply.body.as_str(),
            "\"productname\":\"Nextcloud\"",
        )
    }

    /// Judges the reply to the Forgejo health request.
    pub fn check_forgejo(&self, reply: &HttpReply) -> (ok: bool)
        ensures
            ok == forgejo_reply_ok(reply.success, reply.body@),
    {
        if !reply.success {
            return false;
        }
        let body = remove_blanks(reply.body.as_str());
        str_starts_with(body.as_str(), "{\"status\":\"pass\"")
    }

    /// Judges the reply to the Portainer status request.
    pub fn check_portainer(&self, reply: &HttpReply) -> (ok: bool)
        ensures
            ok == portainer_reply_ok(reply.success, reply.body@),
    {
        reply.success && str_contains(reply.body.as_str(), "Version") && str_contains(
            reply.body.as_str(),
            "InstanceID",
        )
    }

    /// 1 1 1 1 -> 15
    /// 1 0 1 1 -> 11
    pub fn get_status_id(&self, is_alive_1: bool, is_alive_2: bool, is_alive_3: bool, is_alive_4: bool) -> (code: u8)
        ensures
            code == status_id(is_alive_1, is_alive_2, is_alive_3, is_alive_4),
    {
        let mut code: u8 = 0;
        if is_alive_1 {
            code += 8;
        }
        if is_alive_2 {
            code += 4;
        }
        if is_alive_3 {
            code += 2;
        }
        if is_alive_4 {
            code += 1;
        }
        code
    }
}

} // verus!
