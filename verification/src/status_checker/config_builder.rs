//! The list of services named by the configuration file.

use vstd::prelude::*;

use crate::health_monitor::config_builder::{configured_services, services_from, services_view, ConfigError};
use crate::health_monitor::{all_service_types, ServiceType};
use crate::status_checker::services::Service;
use crate::toml_doc::{parse_toml, toml_document};

verus! {

/// Where the configuration file is found.
pub struct ConfBuilder {
    file_path: String,
}

impl ConfBuilder {
    /// The path of the configuration file.
    pub closed spec fn path(&self) -> Seq<char> {
        self.file_path@
    }

    /// A builder for the file named by `configured_path` (the value of the
    /// `CHECKER_CONF` environment variable, when it is set), else for
    /// `checker.toml`.
    pub fn new(configured_path: Option<String>) -> (b: Self)
        ensures
            b.path() == match configured_path {
                Some(p) => p@,
                None => "checker.toml"@,
            },
    {
        let file_path = match configured_path {
            Some(p) => p,
            None => String::from_str("checker.toml"),
        };
        Self { file_path }
    }

    /// The path of the configuration file.
    pub fn file_path(&self) -> (p: String)
        ensures
            p@ == self.path(),
    {
        self.file_path.clone()
    }

    /// The services written in `content`, the text of the file: one for each
    /// service type whose lower-cased name is a top-level key, in the order of
    /// the service types. When the text is not a TOML document there are no
    /// services, and the parse error comes with them.
    pub fn build(&self, content: &str) -> (res: (Vec<Service>, Option<ConfigError>))
        ensures
            match toml_document(content@) {
                None => res.0@.len() == 0 && res.1 is Some,
                Some(doc) => services_view(res.0@) == configured_services(doc, all_service_types())
                    && res.1 is None,
            },
    {
        match parse_toml(content) {
            Err(e) => (Vec::new(), Some(ConfigError::Parse(e))),
            Ok(entries) => (services_from(&entries, &ServiceType::all()), None),
        }
    }
}

} // verus!
