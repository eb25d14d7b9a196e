//! The configuration of the bot: the room to report to, the services to watch,
//! and the settings for social notifications.

use vstd::prelude::*;

use crate::health_monitor::{all_service_types, ServiceType};
use crate::status_checker::services::{Service, ServiceView};
use crate::toml_doc::{
    doc_view, find_item, find_leaf, item_str_or_empty, item_string, leaves_view, lookup,
    parse_toml, toml_document, ItemModel, LeafModel, TomlItem, TomlLeaf,
};

verus! {

/// The abstract value of a list of services.
pub open spec fn services_view(services: Seq<Service>) -> Seq<ServiceView> {
    services.map_values(|s: Service| s@)
}

/// The services that a document configures, among `types`, in the order of
/// `types`: one for each type whose lower-cased name is a top-level key, with
/// the string under that key as its URL (empty when it is not a string).
pub open spec fn configured_services(
    doc: Seq<(Seq<char>, ItemModel)>,
    types: Seq<ServiceType>,
) -> Seq<ServiceView>
    decreases types.len(),
{
    if types.len() == 0 {
        Seq::empty()
    } else {
        let rest = configured_services(doc, types.drop_last());
        match lookup(doc, types.last().config_key()) {
            Some(item) => rest.push(
                ServiceView { service_type: types.last(), url: item_str_or_empty(item) },
            ),
            None => rest,
        }
    }
}

/// The entries of the `notifications` table of a document, when it has one.
pub open spec fn notifications_table(doc: Seq<(Seq<char>, ItemModel)>) -> Option<
    Seq<(Seq<char>, LeafModel)>,
> {
    match lookup(doc, "notifications"@) {
        Some(ItemModel::Table(entries)) => Some(entries),
        _ => None,
    }
}

/// The string under `gotosocial_token` in the `notifications` table.
pub open spec fn configured_token(doc: Seq<(Seq<char>, ItemModel)>) -> Option<Seq<char>> {
    match notifications_table(doc) {
        Some(entries) => match lookup(entries, "gotosocial_token"@) {
            Some(LeafModel::Str(s)) => Some(s),
            _ => None,
        },
        None => None,
    }
}

/// The integer under `refresh_interval` in the `notifications` table.
pub open spec fn configured_refresh(doc: Seq<(Seq<char>, ItemModel)>) -> Option<i64> {
    match notifications_table(doc) {
        Some(entries) => match lookup(entries, "refresh_interval"@) {
            Some(LeafModel::Integer(i)) => Some(i),
            _ => None,
        },
        None => None,
    }
}

/// The abstract value of a configuration.
pub struct GhostConfigView {
    pub services: Seq<ServiceView>,
    pub room_id: Option<Seq<char>>,
    pub gotosocial_token: Option<Seq<char>>,
    pub notification_refresh: Option<i64>,
}

/// The configuration with nothing set.
pub open spec fn empty_config() -> GhostConfigView {
    GhostConfigView {
        services: Seq::empty(),
        room_id: None,
        gotosocial_token: None,
        notification_refresh: None,
    }
}

/// The configuration that a document gives: nothing without a `room-id` key;
/// otherwise the room (empty when not a string), the configured services in
/// the order of the service types, and the notification settings.
pub open spec fn config_of(doc: Seq<(Seq<char>, ItemModel)>) -> GhostConfigView {
    match lookup(doc, "room-id"@) {
        None => empty_config(),
        Some(room) => GhostConfigView {
            services: configured_services(doc, all_service_types()),
            room_id: Some(item_str_or_empty(room)),
            gotosocial_token: configured_token(doc),
            notification_refresh: configured_refresh(doc),
        },
    }
}

/// A document without a `room-id` key gives the empty configuration, with which
/// the bot does not start.
pub proof fn lemma_no_room_no_config(doc: Seq<(Seq<char>, ItemModel)>)
    requires
        lookup(doc, "room-id"@) is None,
    ensures
        config_of(doc) == empty_config(),
        config_of(doc).room_id is None,
{
}

/// Every configured service is one whose key the document holds, with the
/// string under that key as its URL, and its type is one of `types`.
pub proof fn lemma_configured_services_are_in_the_document(
    doc: Seq<(Seq<char>, ItemModel)>,
    types: Seq<ServiceType>,
    i: int,
)
    requires
        0 <= i < configured_services(doc, types).len(),
    ensures
        ({
            let s = configured_services(doc, types)[i];
            &&& lookup(doc, s.service_type.config_key()) is Some
            &&& s.url == item_str_or_empty(lookup(doc, s.service_type.config_key())->0)
            &&& types.contains(s.service_type)
        }),
    decreases types.len(),
{
    let rest = configured_services(doc, types.drop_last());
    if i < rest.len() {
        lemma_configured_services_are_in_the_document(doc, types.drop_last(), i);
        let t = rest[i].service_type;
        let k = choose|k: int| 0 <= k < types.drop_last().len() && types.drop_last()[k] == t;
        assert(types[k] == t);
    } else {
        assert(types[types.len() - 1] == types.last());
    }
}

/// A type whose key the document holds is among the configured services,
/// with the string under its key as its URL, when the type is among `types`.
pub proof fn lemma_document_services_are_configured(
    doc: Seq<(Seq<char>, ItemModel)>,
    types: Seq<ServiceType>,
    t: ServiceType,
)
    requires
        types.contains(t),
        lookup(doc, t.config_key()) is Some,
    ensures
        configured_services(doc, types).contains(
            ServiceView { service_type: t, url: item_str_or_empty(lookup(doc, t.config_key())->0) },
        ),
    decreases types.len(),
{
    let sv = ServiceView { service_type: t, url: item_str_or_empty(lookup(doc, t.config_key())->0) };
    let rest = configured_services(doc, types.drop_last());
    if types.last() == t {
        assert(configured_services(doc, types) == rest.push(sv));
        assert(configured_services(doc, types)[rest.len() as int] == sv);
    } else {
        let k = choose|k: int| 0 <= k < types.len() && types[k] == t;
        assert(types.drop_last()[k] == t);
        lemma_document_services_are_configured(doc, types.drop_last(), t);
        let j = choose|j: int| 0 <= j < rest.len() && rest[j] == sv;
        match lookup(doc, types.last().config_key()) {
            Some(item) => {
                assert(configured_services(doc, types)[j] == sv);
            },
            None => {},
        }
    }
}

/// Every service type is among `all_service_types`.
pub proof fn lemma_all_service_types_complete(t: ServiceType)
    ensures
        all_service_types().contains(t),
{
    let all = all_service_types();
    match t {
        ServiceType::Synapse => assert(all[0] == t),
        ServiceType::Nextcloud => assert(all[1] == t),
        ServiceType::Forgejo => assert(all[2] == t),
        ServiceType::Portainer => assert(all[3] == t),
        ServiceType::Keycloak => assert(all[4] == t),
        ServiceType::Bitwarden => assert(all[5] == t),
        ServiceType::Wordpress => assert(all[6] == t),
        ServiceType::Gotosocial => assert(all[7] == t),
    }
}

/// What a document with a `room-id` configures, setting by setting: the room
/// is the string under `room-id` (empty when it is not a string); the token is
/// the string under `gotosocial_token` in the `notifications` table and the
/// refresh interval the integer under `refresh_interval` there, each read on
/// its own; and a service of type `t` with URL `url` is configured exactly
/// when the document holds the lower-cased name of `t` with `url` under it
/// (empty when not a string).
pub proof fn lemma_config_reads_each_setting(doc: Seq<(Seq<char>, ItemModel)>, t: ServiceType, url: Seq<char>)
    requires
        lookup(doc, "room-id"@) is Some,
    ensures
        config_of(doc).room_id == Some(
            match lookup(doc, "room-id"@)->0 {
                ItemModel::Str(s) => s,
                _ => Seq::empty(),
            },
        ),
        config_of(doc).gotosocial_token == match lookup(doc, "notifications"@) {
            Some(ItemModel::Table(entries)) => match lookup(entries, "gotosocial_token"@) {
                Some(LeafModel::Str(token)) => Some(token),
                _ => None,
            },
            _ => None,
        },
        config_of(doc).notification_refresh == match lookup(doc, "notifications"@) {
            Some(ItemModel::Table(entries)) => match lookup(entries, "refresh_interval"@) {
                Some(LeafModel::Integer(i)) => Some(i),
                _ => None,
            },
            _ => None,
        },
        config_of(doc).services.contains(ServiceView { service_type: t, url }) <==> (lookup(
            doc,
            t.config_key(),
        ) is Some && url == match lookup(doc, t.config_key())->0 {
            ItemModel::Str(s) => s,
            _ => Seq::empty(),
        }),
{
    let services = configured_services(doc, all_service_types());
    let sv = ServiceView { service_type: t, url };
    if services.contains(sv) {
        let i = choose|i: int| 0 <= i < services.len() && services[i] == sv;
        lemma_configured_services_are_in_the_document(doc, all_service_types(), i);
    }
    if lookup(doc, t.config_key()) is Some && url == item_str_or_empty(lookup(doc, t.config_key())->0) {
        lemma_all_service_types_complete(t);
        lemma_document_services_are_configured(doc, all_service_types(), t);
    }
}

/// Where the configuration file is found.
pub struct ConfBuilder {
    file_path: String,
}

/// The configuration of the bot.
pub struct GhostConfig {
    pub services: Vec<Service>,
    pub room_id: Option<String>,
    pub gotosocial_token: Option<String>,
    pub notification_refresh: Option<i64>,
}

impl View for GhostConfig {
    type V = GhostConfigView;

    open spec fn view(&self) -> GhostConfigView {
        GhostConfigView {
            services: services_view(self.services@),
            room_id: match self.room_id {
                Some(r) => Some(r@),
                None => None,
            },
            gotosocial_token: match self.gotosocial_token {
                Some(t) => Some(t@),
                None => None,
            },
            notification_refresh: self.notification_refresh,
        }
    }
}

/// Why a configuration file could not be used.
pub enum ConfigError {
    /// The text is not a TOML document; the `toml` crate's error says why.
    Parse(toml::de::Error),
}

/// The services configured among `types`, in order.
pub fn services_from(entries: &Vec<(String, TomlItem)>, types: &Vec<ServiceType>) -> (services: Vec<Service>)
    ensures
        services_view(services@) == configured_services(doc_view(entries@), types@),
{
    let ghost doc = doc_view(entries@);
    let mut services: Vec<Service> = Vec::new();
    let mut i: usize = 0;
    while i < types.len()
        invariant
            doc == doc_view(entries@),
            i <= types@.len(),
            services_view(services@) == configured_services(doc, types@.take(i as int)),
        decreases types@.len() - i,
    {
        let t = types[i];
        assert(types@.take(i + 1).drop_last() =~= types@.take(i as int));
        assert(types@.take(i + 1).last() == t);
        let key = t.config_key_string();
        let found = find_item(entries, key.as_str());
        match found {
            Some(item) => {
                let url = item_string(item);
                let ghost before = services@;
                services.push(Service::new(url, t));
                assert(services@ =~= before.push(services@.last()));
                assert(services_view(services@) =~= services_view(before).push(services@.last()@));
            },
            None => {},
        }
        i += 1;
    }
    assert(types@.take(types@.len() as int) =~= types@);
    services
}

impl GhostConfig {
    pub fn empty() -> (c: Self)
        ensures
            c@ == empty_config(),
    {
        let c = GhostConfig {
            services: Vec::new(),
            room_id: None,
            gotosocial_token: None,
            notification_refresh: None,
        };
        assert(c@.services =~= Seq::<ServiceView>::empty());
        c
    }

    /// Whether the configuration lacks a room or services to report on.
    pub fn is_empty(&self) -> (e: bool)
        ensures
            e == (self@.room_id is None || self@.services.len() == 0),
    {
        self.room_id.is_none() || self.services.len() == 0
    }

    /// The configuration given by the top-level entries of a parsed document.
    pub fn from_document(entries: &Vec<(String, TomlItem)>) -> (c: GhostConfig)
        ensures
            c@ == config_of(doc_view(entries@)),
    {
        let room = find_item(entries, "room-id");
        let room_id = match room {
            None => return GhostConfig::empty(),
            Some(item) => item_string(item),
        };
        let services = services_from(entries, &ServiceType::all());
        let mut gotosocial_token: Option<String> = None;
        let mut notification_refresh: Option<i64> = None;
        match find_item(entries, "notifications") {
            Some(TomlItem::Table(table)) => {
                gotosocial_token = ConfBuilder::get_token(table);
                notification_refresh = ConfBuilder::get_refresh(table);
            },
            _ => {},
        }
        GhostConfig { services, room_id: Some(room_id), gotosocial_token, notification_refresh }
    }
}

impl ConfBuilder {
    /// The path of the configuration file.
    pub closed spec fn path(&self) -> Seq<char> {
        self.file_path@
    }

    /// A builder for the file named by `configured_path` (the value of the
    /// `CHECKER_CONF` environment variable, when it is set), else for
    /// `checker.toml`.
    pub fn new(configured_path: Option<String>) -> (b: Self)
        ensures
            b.path() == match configured_path {
                Some(p) => p@,
                None => "checker.toml"@,
            },
    {
        let file_path = match configured_path {
            Some(p) => p,
            None => String::from_str("checker.toml"),
        };
        Self { file_path }
    }

    /// The path of the configuration file.
    pub fn file_path(&self) -> (p: String)
        ensures
            p@ == self.path(),
    {
        self.file_path.clone()
    }

    /// The configuration written in `content`, the text of the file, and the
    /// parse error when the text is not a TOML document, in which case the
    /// configuration is the empty one.
    pub fn build(&self, content: &str) -> (res: (GhostConfig, Option<ConfigError>))
        ensures
            match toml_document(content@) {
                None => res.0@ == empty_config() && res.1 is Some,
                Some(doc) => res.0@ == config_of(doc) && res.1 is None,
            },
    {
        match parse_toml(content) {
            Err(e) => (GhostConfig::empty(), Some(ConfigError::Parse(e))),
            Ok(entries) => (GhostConfig::from_document(&entries), None),
        }
    }

    fn get_token(notifications: &Vec<(String, TomlLeaf)>) -> (token: Option<String>)
        ensures
            token matches Some(t) ==> lookup(leaves_view(notifications@), "gotosocial_token"@)
                == Some(LeafModel::Str(t@)),
            token is None ==> !(lookup(leaves_view(notifications@), "gotosocial_token"@) matches Some(
                LeafModel::Str(_),
            )),
    {
        match find_leaf(notifications, "gotosocial_token") {
            Some(TomlLeaf::Str(s)) => Some(s.clone()),
            _ => None,
        }
    }

    fn get_refresh(notifications: &Vec<(String, TomlLeaf)>) -> (refresh: Option<i64>)
        ensures
            refresh matches Some(r) ==> lookup(leaves_view(notifications@), "refresh_interval"@)
                == Some(LeafModel::Integer(r)),
            refresh is None ==> !(lookup(leaves_view(notifications@), "refresh_interval"@) matches Some(
                LeafModel::Integer(_),
            )),
    {
        match find_leaf(notifications, "refresh_interval") {
            Some(TomlLeaf::Integer(i)) => Some(*i),
            _ => None,
        }
    }
}

} // verus!
