//! The core of a small agent that reports a laptop's battery and processor
//! readings to a home-automation hub: the sensor model, the messages that go
//! over the wire, and the bookkeeping of a device's registration.
//!
//! The library sends nothing and saves nothing. It says what is to be sent,
//! what a reply means and what is to be kept; the program around it does the
//! sending and the keeping.

use crate::host::{os_release, os_type, project_config_dir};
use crate::json::{
    bool_value, empty_object, insert_optional, is_object, json_parse, json_pretty_text,
    nullable_value, object_insert, parse_value, print_value_pretty, read_flag,
    read_optional_text, read_text, text_of, text_value, value_doc, JsonDoc,
};
use vstd::prelude::*;
use vstd::string::*;

pub mod hass;
pub mod host;
pub mod json;
pub mod sensors;

verus! {

/// The identifier under which the agent registers with the hub.
pub const APP_ID: &'static str = "rusty_hass_laptop";

/// The version that the agent reports to the hub.
pub const APP_VERSION: &'static str = "0.1.0";

/// The name of the file that keeps the configuration.
pub const CONFIG_FILE: &'static str = "config.json";

/// What `convert_case` makes of a text in title case.
pub uninterp spec fn title_case(text: Seq<char>) -> Seq<char>;

/// Calls `convert_case::Casing::to_case` with `Case::Title`: the words of the
/// text, each with a capital, joined by spaces.
#[verifier::external_body]
fn to_title_case(text: &str) -> (title: String)
    ensures
        title@ == title_case(text@),
{
    convert_case::Casing::to_case(&text, convert_case::Case::Title)
}

/// Why a configuration could not be made.
#[derive(Clone, Copy, Debug, PartialEq, Eq, Structural)]
pub enum ConfigError {
    /// The machine does not tell what it is: its name, or its operating
    /// system.
    HostUnknown,
    /// The text is no JSON object, or a member of it has the wrong kind.
    Malformed,
}

/// A device's identity and its credentials with the hub.
#[derive(Debug)]
pub struct Config {
    /// Where this configuration was read from. Not part of what is saved.
    pub config_file: Option<String>,
    pub auth_token: Option<String>,
    /// Absent until the hub has registered the device.
    pub webhook_id: Option<String>,
    pub webhook_secret: Option<String>,
    pub hass_address: Option<String>,
    pub device_id: String,
    pub app_id: String,
    pub app_name: String,
    pub app_version: String,
    pub device_name: String,
    pub manufacturer: String,
    pub model: String,
    pub os_name: String,
    pub os_version: String,
    pub support_encryption: bool,
}

/// The model of [`Config`]: every text by its characters.
pub struct ConfigModel {
    pub config_file: Option<Seq<char>>,
    pub auth_token: Option<Seq<char>>,
    pub webhook_id: Option<Seq<char>>,
    pub webhook_secret: Option<Seq<char>>,
    pub hass_address: Option<Seq<char>>,
    pub device_id: Seq<char>,
    pub app_id: Seq<char>,
    pub app_name: Seq<char>,
    pub app_version: Seq<char>,
    pub device_name: Seq<char>,
    pub manufacturer: Seq<char>,
    pub model: Seq<char>,
    pub os_name: Seq<char>,
    pub os_version: Seq<char>,
    pub support_encryption: bool,
}

impl View for Config {
    type V = ConfigModel;

    open spec fn view(&self) -> ConfigModel {
        ConfigModel {
            config_file: text_of(self.config_file),
            auth_token: text_of(self.auth_token),
            webhook_id: text_of(self.webhook_id),
            webhook_secret: text_of(self.webhook_secret),
            hass_address: text_of(self.hass_address),
            device_id: self.device_id@,
            app_id: self.app_id@,
            app_name: self.app_name@,
            app_version: self.app_version@,
            device_name: self.device_name@,
            manufacturer: self.manufacturer@,
            model: self.model@,
            os_name: self.os_name@,
            os_version: self.os_version@,
            support_encryption: self.support_encryption,
        }
    }
}

/// A copy of an optional text.
fn copy_of(text: &Option<String>) -> (copy: Option<String>)
    ensures
        text_of(copy) == text_of(*text),
{
    match text {
        Some(text) => Some(text.clone()),
        None => None,
    }
}

impl Clone for Config {
    fn clone(&self) -> (copy: Config)
        ensures
            copy@ == self@,
    {
        Config {
            config_file: copy_of(&self.config_file),
            auth_token: copy_of(&self.auth_token),
            webhook_id: copy_of(&self.webhook_id),
            webhook_secret: copy_of(&self.webhook_secret),
            hass_address: copy_of(&self.hass_address),
            device_id: self.device_id.clone(),
            app_id: self.app_id.clone(),
            app_name: self.app_name.clone(),
            app_version: self.app_version.clone(),
            device_name: self.device_name.clone(),
            manufacturer: self.manufacturer.clone(),
            model: self.model.clone(),
            os_name: self.os_name.clone(),
            os_version: self.os_version.clone(),
            support_encryption: self.support_encryption,
        }
    }
}

impl ConfigModel {
    /// The configuration of a device that has not met a hub yet: no
    /// credentials, and an identity made of what the host says of itself.
    pub open spec fn host_defaults(
        hostname: Seq<char>,
        os_name: Seq<char>,
        os_version: Seq<char>,
        app_name: Seq<char>,
    ) -> ConfigModel {
        ConfigModel {
            config_file: None,
            auth_token: None,
            webhook_id: None,
            webhook_secret: None,
            hass_address: None,
            device_id: hostname + "_"@ + os_name,
            app_id: APP_ID@,
            app_name,
            app_version: APP_VERSION@,
            device_name: hostname,
            manufacturer: "Unknown"@,
            model: "Unknown"@,
            os_name,
            os_version,
            support_encryption: false,
        }
    }

    /// The path of the configuration file in a directory.
    pub open spec fn path_in(directory: Seq<char>) -> Seq<char> {
        directory + "/"@ + CONFIG_FILE@
    }

    /// The device is registered: the hub has issued it a webhook.
    pub open spec fn registered(self) -> bool {
        self.webhook_id is Some
    }

    /// A webhook is kept only together with the address of the hub that
    /// issued it.
    pub open spec fn paired(self) -> bool {
        self.webhook_id is Some ==> self.hass_address is Some
    }

    /// The JSON object that keeps this configuration. The place it was read
    /// from is left out, and so is a secret that is absent; an absent token,
    /// webhook or address is `null`.
    pub open spec fn doc(self) -> JsonDoc {
        JsonDoc::empty_object().with("auth_token"@, JsonDoc::nullable(self.auth_token)).with(
            "webhook_id"@,
            JsonDoc::nullable(self.webhook_id),
        ).with_optional("webhook_secret"@, self.webhook_secret).with(
            "hass_address"@,
            JsonDoc::nullable(self.hass_address),
        ).with("device_id"@, JsonDoc::Text(self.device_id)).with(
            "app_id"@,
            JsonDoc::Text(self.app_id),
        ).with("app_name"@, JsonDoc::Text(self.app_name)).with(
            "app_version"@,
            JsonDoc::Text(self.app_version),
        ).with("device_name"@, JsonDoc::Text(self.device_name)).with(
            "manufacturer"@,
            JsonDoc::Text(self.manufacturer),
        ).with("model"@, JsonDoc::Text(self.model)).with(
            "os_name"@,
            JsonDoc::Text(self.os_name),
        ).with("os_version"@, JsonDoc::Text(self.os_version)).with(
            "support_encryption"@,
            JsonDoc::Bool(self.support_encryption),
        )
    }

    /// The configuration that a JSON document describes. A member that the
    /// document lacks is taken from `defaults`; members that it has beyond
    /// these are passed over. `None` where the document is no object or one of
    /// the members has the wrong kind.
    pub open spec fn decode(doc: JsonDoc, defaults: ConfigModel) -> Option<ConfigModel> {
        let auth_token = doc.optional_text("auth_token"@, defaults.auth_token);
        let webhook_id = doc.optional_text("webhook_id"@, defaults.webhook_id);
        let webhook_secret = doc.optional_text("webhook_secret"@, defaults.webhook_secret);
        let hass_address = doc.optional_text("hass_address"@, defaults.hass_address);
        let device_id = doc.text("device_id"@, defaults.device_id);
        let app_id = doc.text("app_id"@, defaults.app_id);
        let app_name = doc.text("app_name"@, defaults.app_name);
        let app_version = doc.text("app_version"@, defaults.app_version);
        let device_name = doc.text("device_name"@, defaults.device_name);
        let manufacturer = doc.text("manufacturer"@, defaults.manufacturer);
        let model = doc.text("model"@, defaults.model);
        let os_name = doc.text("os_name"@, defaults.os_name);
        let os_version = doc.text("os_version"@, defaults.os_version);
        let support_encryption = doc.flag("support_encryption"@, defaults.support_encryption);
        if doc is Object && auth_token is Ok && webhook_id is Ok && webhook_secret is Ok
            && hass_address is Ok && device_id is Ok && app_id is Ok && app_name is Ok
            && app_version is Ok && device_name is Ok && manufacturer is Ok && model is Ok
            && os_name is Ok && os_version is Ok && support_encryption is Ok {
            Some(
                ConfigModel {
                    config_file: defaults.config_file,
                    auth_token: auth_token->Ok_0,
                    webhook_id: webhook_id->Ok_0,
                    webhook_secret: webhook_secret->Ok_0,
                    hass_address: hass_address->Ok_0,
                    device_id: device_id->Ok_0,
                    app_id: app_id->Ok_0,
                    app_name: app_name->Ok_0,
                    app_version: app_version->Ok_0,
                    device_name: device_name->Ok_0,
                    manufacturer: manufacturer->Ok_0,
                    model: model->Ok_0,
                    os_name: os_name->Ok_0,
                    os_version: os_version->Ok_0,
                    support_encryption: support_encryption->Ok_0,
                },
            )
        } else {
            None
        }
    }
}

/// The names of the members of a saved configuration by their lengths; those
/// of one length by their first letters. No two of them are the same.
proof fn lemma_names_differ()
    ensures
        "model"@.len() == 5,
        "app_id"@.len() == 6,
        "os_name"@.len() == 7,
        "app_name"@.len() == 8,
        "device_id"@.len() == 9,
        "auth_token"@.len() == 10 && "auth_token"@[0] == 'a',
        "webhook_id"@.len() == 10 && "webhook_id"@[0] == 'w',
        "os_version"@.len() == 10 && "os_version"@[0] == 'o',
        "app_version"@.len() == 11 && "app_version"@[0] == 'a',
        "device_name"@.len() == 11 && "device_name"@[0] == 'd',
        "hass_address"@.len() == 12 && "hass_address"@[0] == 'h',
        "manufacturer"@.len() == 12 && "manufacturer"@[0] == 'm',
        "webhook_secret"@.len() == 14,
        "support_encryption"@.len() == 18,
{
    reveal_strlit("model");
    reveal_strlit("app_id");
    reveal_strlit("os_name");
    reveal_strlit("app_name");
    reveal_strlit("device_id");
    reveal_strlit("auth_token");
    reveal_strlit("webhook_id");
    reveal_strlit("os_version");
    reveal_strlit("app_version");
    reveal_strlit("device_name");
    reveal_strlit("hass_address");
    reveal_strlit("manufacturer");
    reveal_strlit("webhook_secret");
    reveal_strlit("support_encryption");
}

/// What is saved is what is read back. The place that a configuration was
/// read from is not saved, so it comes from the defaults; so does the secret
/// where the configuration has none. Everything else, the webhook among it,
/// is as it was: a device that was registered when it was saved is registered
/// when it is read.
pub proof fn lemma_config_round_trip(config: ConfigModel, defaults: ConfigModel)
    ensures
        ConfigModel::decode(config.doc(), defaults) == Some(
            ConfigModel {
                config_file: defaults.config_file,
                webhook_secret: match config.webhook_secret {
                    Some(secret) => Some(secret),
                    None => defaults.webhook_secret,
                },
                ..config
            },
        ),
        ConfigModel::decode(config.doc(), defaults)->Some_0.registered() == config.registered(),
{
    lemma_names_differ();
}

impl ConfigModel {
    /// What the agent starts with, given where its configuration is kept and
    /// the text that was found there: the configuration, and whether it is
    /// to be saved.
    pub open spec fn startup(
        path: Option<Seq<char>>,
        stored: Option<Seq<char>>,
        defaults: ConfigModel,
    ) -> Result<(ConfigModel, bool), ConfigError> {
        match (path, stored) {
            (None, _) => Ok((defaults, false)),
            (Some(_), None) => Ok((defaults, true)),
            (Some(path), Some(text)) => match json_parse(text) {
                Some(doc) => match ConfigModel::decode(doc, defaults) {
                    Some(model) => Ok((ConfigModel { config_file: Some(path), ..model }, false)),
                    None => Err(ConfigError::Malformed),
                },
                None => Err(ConfigError::Malformed),
            },
        }
    }
}

impl Config {
    /// The configuration of a device that has not met a hub yet, for a host
    /// of the given name and operating system, under the given display name
    /// of the agent.
    pub fn host_defaults(
        hostname: String,
        os_name: String,
        os_version: String,
        app_name: String,
    ) -> (made: Config)
        ensures
            made@ == ConfigModel::host_defaults(hostname@, os_name@, os_version@, app_name@),
    {
        let mut device_id = hostname.clone();
        device_id.append("_");
        device_id.append(os_name.as_str());
        Config {
            config_file: None,
            auth_token: None,
            webhook_id: None,
            webhook_secret: None,
            hass_address: None,
            device_id,
            app_id: APP_ID.to_owned(),
            app_name,
            app_version: APP_VERSION.to_owned(),
            device_name: hostname,
            manufacturer: "Unknown".to_owned(),
            model: "Unknown".to_owned(),
            os_name,
            os_version,
            support_encryption: false,
        }
    }

    /// The defaults for a host, with the agent's identifier in title case as
    /// its display name.
    pub fn for_host(hostname: String, os_name: String, os_version: String) -> (made: Config)
        ensures
            made@ == ConfigModel::host_defaults(
                hostname@,
                os_name@,
                os_version@,
                title_case(APP_ID@),
            ),
    {
        let app_name = to_title_case(APP_ID);
        Config::host_defaults(hostname, os_name, os_version, app_name)
    }

    /// The defaults for this machine, under the name that it goes by. What
    /// the machine says of its operating system is not known beforehand: a
    /// configuration that comes back is the default for the given name and
    /// the system that it names.
    pub fn detect(hostname: String) -> (made: Result<Config, ConfigError>)
        ensures
            made matches Ok(config) ==> config@ == ConfigModel::host_defaults(
                hostname@,
                config@.os_name,
                config@.os_version,
                title_case(APP_ID@),
            ),
            made matches Err(error) ==> error == ConfigError::HostUnknown,
    {
        let os_name = match os_type() {
            Ok(os_name) => os_name,
            Err(_) => {
                return Err(ConfigError::HostUnknown);
            },
        };
        let os_version = match os_release() {
            Ok(os_version) => os_version,
            Err(_) => {
                return Err(ConfigError::HostUnknown);
            },
        };
        Ok(Config::for_host(hostname, os_name, os_version))
    }

    /// The path of the configuration file in a directory.
    pub fn path_in(directory: &str) -> (path: String)
        ensures
            path@ == ConfigModel::path_in(directory@),
    {
        let mut path = directory.to_owned();
        path.append("/");
        path.append(CONFIG_FILE);
        path
    }

    /// The path of the configuration file for a user: in the user's
    /// directory for this agent, where the user has one.
    pub fn path_under(directory: Option<String>) -> (path: Option<String>)
        ensures
            text_of(path) == match text_of(directory) {
                Some(directory) => Some(ConfigModel::path_in(directory)),
                None => None,
            },
    {
        match directory {
            Some(directory) => Some(Config::path_in(directory.as_str())),
            None => None,
        }
    }

    /// Where this user's configuration is kept, if the environment names
    /// such a place: the configuration file in some directory.
    pub fn default_path() -> (path: Option<String>)
        ensures
            path matches Some(path) ==> exists|directory: Seq<char>|
                path@ == ConfigModel::path_in(directory),
    {
        Config::path_under(project_config_dir("fr", "obito1903", APP_ID))
    }

    /// What the agent starts with. `path` is where the configuration is
    /// kept, if the user has such a place, and `stored` is the text that was
    /// found there, if any. A text that is found is read, with `defaults` for
    /// what it does not say, and remembers where it was found. Where nothing
    /// is found the defaults stand; the flag then says that there is a place
    /// to save them to, so that the user can fill them in.
    pub fn startup(path: Option<String>, stored: Option<String>, defaults: Config) -> (made: Result<
        (Config, bool),
        ConfigError,
    >)
        ensures
            match ConfigModel::startup(text_of(path), text_of(stored), defaults@) {
                Ok((model, save)) => made matches Ok((config, flag)) && config@ == model && flag
                    == save,
                Err(error) => made matches Err(found) && found == error,
            },
    {
        match path {
            None => Ok((defaults, false)),
            Some(path) => match stored {
                None => Ok((defaults, true)),
                Some(text) => match Config::from_json_text(text.as_str(), defaults) {
                    Ok(mut config) => {
                        config.config_file = Some(path);
                        Ok((config, false))
                    },
                    Err(error) => Err(error),
                },
            },
        }
    }

    /// The configuration as a JSON value.
    pub fn to_json(&self) -> (value: serde_json::Value)
        ensures
            value_doc(value) == self@.doc(),
    {
        let mut object = empty_object();
        object_insert(&mut object, "auth_token", nullable_value(&self.auth_token));
        object_insert(&mut object, "webhook_id", nullable_value(&self.webhook_id));
        insert_optional(&mut object, "webhook_secret", &self.webhook_secret);
        object_insert(&mut object, "hass_address", nullable_value(&self.hass_address));
        object_insert(&mut object, "device_id", text_value(self.device_id.as_str()));
        object_insert(&mut object, "app_id", text_value(self.app_id.as_str()));
        object_insert(&mut object, "app_name", text_value(self.app_name.as_str()));
        object_insert(&mut object, "app_version", text_value(self.app_version.as_str()));
        object_insert(&mut object, "device_name", text_value(self.device_name.as_str()));
        object_insert(&mut object, "manufacturer", text_value(self.manufacturer.as_str()));
        object_insert(&mut object, "model", text_value(self.model.as_str()));
        object_insert(&mut object, "os_name", text_value(self.os_name.as_str()));
        object_insert(&mut object, "os_version", text_value(self.os_version.as_str()));
        object_insert(&mut object, "support_encryption", bool_value(self.support_encryption));
        object
    }

    /// The configuration as the indented JSON text that is kept on disk.
    pub fn to_json_text(&self) -> (text: String)
        ensures
            text@ == json_pretty_text(self@.doc()),
    {
        let value = self.to_json();
        print_value_pretty(&value)
    }

    /// Reads a configuration from a JSON value, with `defaults` for what the
    /// value does not say.
    pub fn from_json(value: &serde_json::Value, defaults: Config) -> (made: Result<
        Config,
        ConfigError,
    >)
        ensures
            match ConfigModel::decode(value_doc(*value), defaults@) {
                Some(model) => made matches Ok(config) && config@ == model,
                None => made matches Err(error) && error == ConfigError::Malformed,
            },
    {
        if !is_object(value) {
            return Err(ConfigError::Malformed);
        }
        let auth_token = match read_optional_text(value, "auth_token", defaults.auth_token) {
            Ok(found) => found,
            Err(_) => {
                return Err(ConfigError::Malformed);
            },
        };
        let webhook_id = match read_optional_text(value, "webhook_id", defaults.webhook_id) {
            Ok(found) => found,
            Err(_) => {
                return Err(ConfigError::Malformed);
            },
        };
        let webhook_secret = match read_optional_text(
            value,
            "webhook_secret",
            defaults.webhook_secret,
        ) {
            Ok(found) => found,
            Err(_) => {
                return Err(ConfigError::Malformed);
            },
        };
        let hass_address = match read_optional_text(value, "hass_address", defaults.hass_address) {
            Ok(found) => found,
            Err(_) => {
                return Err(ConfigError::Malformed);
            },
        };
        let device_id = match read_text(value, "device_id", defaults.device_id) {
            Ok(found) => found,
            Err(_) => {
                return Err(ConfigError::Malformed);
            },
        };
        let app_id = match read_text(value, "app_id", defaults.app_id) {
            Ok(found) => found,
            Err(_) => {
                return Err(ConfigError::Malformed);
            },
        };
        let app_name = match read_text(value, "app_name", defaults.app_name) {
            Ok(found) => found,
            Err(_) => {
                return Err(ConfigError::Malformed);
            },
        };
        let app_version = match read_text(value, "app_version", defaults.app_version) {
            Ok(found) => found,
            Err(_) => {
                return Err(ConfigError::Malformed);
            },
        };
        let device_name = match read_text(value, "device_name", defaults.device_name) {
            Ok(found) => found,
            Err(_) => {
                return Err(ConfigError::Malformed);
            },
        };
        let manufacturer = match read_text(value, "manufacturer", defaults.manufacturer) {
            Ok(found) => found,
            Err(_) => {
                return Err(ConfigError::Malformed);
            },
        };
        let model = match read_text(value, "model", defaults.model) {
            Ok(found) => found,
            Err(_) => {
                return Err(ConfigError::Malformed);
            },
        };
        let os_name = match read_text(value, "os_name", defaults.os_name) {
            Ok(found) => found,
            Err(_) => {
                return Err(ConfigError::Malformed);
            },
        };
        let os_version = match read_text(value, "os_version", defaults.os_version) {
            Ok(found) => found,
            Err(_) => {
                return Err(ConfigError::Malformed);
            },
        };
        let support_encryption = match read_flag(
            value,
            "support_encryption",
            defaults.support_encryption,
        ) {
            Ok(found) => found,
            Err(_) => {
                return Err(ConfigError::Malformed);
            },
        };
        Ok(
            Config {
                config_file: defaults.config_file,
                auth_token,
                webhook_id,
                webhook_secret,
                hass_address,
                device_id,
                app_id,
                app_name,
                app_version,
                device_name,
                manufacturer,
                model,
                os_name,
                os_version,
                support_encryption,
            },
        )
    }

    /// Reads a configuration from the JSON text that is kept on disk, with
    /// `defaults` for what the text does not say.
    pub fn from_json_text(text: &str, defaults: Config) -> (made: Result<Config, ConfigError>)
        ensures
            match json_parse(text@) {
                Some(doc) => match ConfigModel::decode(doc, defaults@) {
                    Some(model) => made matches Ok(config) && config@ == model,
                    None => made matches Err(error) && error == ConfigError::Malformed,
                },
                None => made matches Err(error) && error == ConfigError::Malformed,
            },
    {
        match parse_value(text) {
            Ok(value) => Config::from_json(&value, defaults),
            Err(_) => Err(ConfigError::Malformed),
        }
    }
}

} // verus!
