//! The services that are watched, the configuration that names them, and the
//! health report that is posted about them.

use vstd::prelude::*;

use crate::text::{ascii_lower, ascii_lowercase};

pub mod config_builder;
pub mod message_builder;
pub mod updater;

pub use crate::status_checker::services;

verus! {

/// The kinds of self-hosted web service whose health can be checked.
#[derive(Debug, Clone, Copy, PartialEq, Eq, Structural)]
pub enum ServiceType {
    Synapse,
    Nextcloud,
    Forgejo,
    Portainer,
    Keycloak,
    Bitwarden,
    Wordpress,
    Gotosocial,
}

/// Every service type, in declaration order.
pub open spec fn all_service_types() -> Seq<ServiceType> {
    seq![
        ServiceType::Synapse,
        ServiceType::Nextcloud,
        ServiceType::Forgejo,
        ServiceType::Portainer,
        ServiceType::Keycloak,
        ServiceType::Bitwarden,
        ServiceType::Wordpress,
        ServiceType::Gotosocial,
    ]
}

impl ServiceType {
    /// The display name of a service type: the name of its variant.
    pub open spec fn name(self) -> Seq<char> {
        match self {
            ServiceType::Synapse => "Synapse"@,
            ServiceType::Nextcloud => "Nextcloud"@,
            ServiceType::Forgejo => "Forgejo"@,
            ServiceType::Portainer => "Portainer"@,
            ServiceType::Keycloak => "Keycloak"@,
            ServiceType::Bitwarden => "Bitwarden"@,
            ServiceType::Wordpress => "Wordpress"@,
            ServiceType::Gotosocial => "Gotosocial"@,
        }
    }

    /// The key under which the configuration file gives the service's URL:
    /// the display name in lower case.
    pub open spec fn config_key(self) -> Seq<char> {
        self.name().map_values(|c: char| ascii_lower(c))
    }

    /// The display name of the service type.
    pub fn to_string(&self) -> (s: String)
        ensures
            s@ == self.name(),
    {
        match self {
            ServiceType::Synapse => String::from_str("Synapse"),
            ServiceType::Nextcloud => String::from_str("Nextcloud"),
            ServiceType::Forgejo => String::from_str("Forgejo"),
            ServiceType::Portainer => String::from_str("Portainer"),
            ServiceType::Keycloak => String::from_str("Keycloak"),
            ServiceType::Bitwarden => String::from_str("Bitwarden"),
            ServiceType::Wordpress => String::from_str("Wordpress"),
            ServiceType::Gotosocial => String::from_str("Gotosocial"),
        }
    }

    /// The configuration key of the service type: its display name, lower-cased.
    pub fn config_key_string(&self) -> (s: String)
        ensures
            s@ == self.config_key(),
    {
        let name = self.to_string();
        ascii_lowercase(name.as_str())
    }

    /// Every service type, in declaration order.
    pub fn all() -> (v: Vec<ServiceType>)
        ensures
            v@ == all_service_types(),
    {
        let v = vec![
            ServiceType::Synapse,
            ServiceType::Nextcloud,
            ServiceType::Forgejo,
            ServiceType::Portainer,
            ServiceType::Keycloak,
            ServiceType::Bitwarden,
            ServiceType::Wordpress,
            ServiceType::Gotosocial,
        ];
        assert(v@ =~= all_service_types());
        v
    }
}

} // verus!
