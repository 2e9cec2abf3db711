//! The hub client: what is sent to register a device and its sensors, and
//! what a reply does to the configuration.
//!
//! The client sends nothing itself. For each exchange it gives the request,
//! a URL and a JSON body, and takes the reply. The channel that carries them
//! adds the client's `authorization` as a header to every request.

use crate::json::{
    bool_value, empty_object, is_object, json_parse, json_text, object_insert, parse_value,
    print_value, read_optional_text, text_of, text_value, value_doc, JsonDoc,
};
use crate::sensors::{MessageModel, Provider, Sensor, SensorData, StateValue, UpdateModel};
use crate::{Config, ConfigModel};
use vstd::prelude::*;
use vstd::string::*;

verus! {

/// Why an exchange with the hub came to nothing.
#[derive(Clone, Copy, Debug, PartialEq, Eq, Structural)]
pub enum HubError {
    /// The configuration lacks the hub's address or a token that a header
    /// can carry.
    NotConfigured,
    /// A sensor was to be sent before the device has a webhook.
    PreconditionViolation,
    /// The hub could not be reached, or the request could not be sent.
    TransportFailure,
    /// The hub replied, but not with what a registration is answered with.
    MalformedResponse,
}

/// What the channel brings back from one request.
pub enum HubReply {
    /// The request did not get through.
    Unreachable,
    /// The hub answered with this body.
    Body(String),
}

/// One request to the hub: a JSON body to be POSTed to a URL.
pub struct HubRequest {
    pub url: String,
    pub body: String,
}

/// The identity that a device registers with.
pub struct RegistrationInfoReq {
    pub device_id: String,
    pub app_id: String,
    pub app_name: String,
    pub app_version: String,
    pub device_name: String,
    pub manufacturer: String,
    pub model: String,
    pub os_name: String,
    pub os_version: String,
    pub supports_encryption: bool,
}

/// What the hub answers a registration with.
pub struct RegistrationInfoResp {
    pub secret: Option<String>,
    pub webhook_id: Option<String>,
}

/// The model of [`RegistrationInfoReq`].
pub struct RegistrationModel {
    pub device_id: Seq<char>,
    pub app_id: Seq<char>,
    pub app_name: Seq<char>,
    pub app_version: Seq<char>,
    pub device_name: Seq<char>,
    pub manufacturer: Seq<char>,
    pub model: Seq<char>,
    pub os_name: Seq<char>,
    pub os_version: Seq<char>,
    pub supports_encryption: bool,
}

/// The model of [`RegistrationInfoResp`].
pub struct RegistrationReplyModel {
    pub secret: Option<Seq<char>>,
    pub webhook_id: Option<Seq<char>>,
}

impl View for RegistrationInfoReq {
    type V = RegistrationModel;

    open spec fn view(&self) -> RegistrationModel {
        RegistrationModel {
            device_id: self.device_id@,
            app_id: self.app_id@,
            app_name: self.app_name@,
            app_version: self.app_version@,
            device_name: self.device_name@,
            manufacturer: self.manufacturer@,
            model: self.model@,
            os_name: self.os_name@,
            os_version: self.os_version@,
            supports_encryption: self.supports_encryption,
        }
    }
}

impl View for RegistrationInfoResp {
    type V = RegistrationReplyModel;

    open spec fn view(&self) -> RegistrationReplyModel {
        RegistrationReplyModel {
            secret: text_of(self.secret),
            webhook_id: text_of(self.webhook_id),
        }
    }
}

impl RegistrationModel {
    /// The identity that a configuration registers with.
    pub open spec fn of(config: ConfigModel) -> RegistrationModel {
        RegistrationModel {
            device_id: config.device_id,
            app_id: config.app_id,
            app_name: config.app_name,
            app_version: config.app_version,
            device_name: config.device_name,
            manufacturer: config.manufacturer,
            model: config.model,
            os_name: config.os_name,
            os_version: config.os_version,
            supports_encryption: config.support_encryption,
        }
    }

    /// The JSON object that carries the identity.
    pub open spec fn doc(self) -> JsonDoc {
        JsonDoc::empty_object().with("device_id"@, JsonDoc::Text(self.device_id)).with(
            "app_id"@,
            JsonDoc::Text(self.app_id),
        ).with("app_name"@, JsonDoc::Text(self.app_name)).with(
            "app_version"@,
            JsonDoc::Text(self.app_version),
        ).with("device_name"@, JsonDoc::Text(self.device_name)).with(
            "manufacturer"@,
            JsonDoc::Text(self.manufacturer),
        ).with("model"@, JsonDoc::Text(self.model)).with(
            "os_name"@,
            JsonDoc::Text(self.os_name),
        ).with("os_version"@, JsonDoc::Text(self.os_version)).with(
            "supports_encryption"@,
            JsonDoc::Bool(self.supports_encryption),
        )
    }
}

impl RegistrationReplyModel {
    /// The reply that a JSON document holds: an object whose `secret` and
    /// `webhook_id`, where it has them, are strings or `null`. `None` for any
    /// other document.
    pub open spec fn decode(doc: JsonDoc) -> Option<RegistrationReplyModel> {
        let secret = doc.optional_text("secret"@, None);
        let webhook_id = doc.optional_text("webhook_id"@, None);
        if doc is Object && secret is Ok && webhook_id is Ok {
            Some(RegistrationReplyModel { secret: secret->Ok_0, webhook_id: webhook_id->Ok_0 })
        } else {
            None
        }
    }
}

impl RegistrationInfoReq {
    /// The identity that `config` registers with.
    pub fn from_config(config: &Config) -> (request: RegistrationInfoReq)
        ensures
            request@ == RegistrationModel::of(config@),
    {
        RegistrationInfoReq {
            device_id: config.device_id.clone(),
            app_id: config.app_id.clone(),
            app_name: config.app_name.clone(),
            app_version: config.app_version.clone(),
            device_name: config.device_name.clone(),
            manufacturer: config.manufacturer.clone(),
            model: config.model.clone(),
            os_name: config.os_name.clone(),
            os_version: config.os_version.clone(),
            supports_encryption: config.support_encryption,
        }
    }

    /// The identity as a JSON value.
    pub fn to_json(&self) -> (value: serde_json::Value)
        ensures
            value_doc(value) == self@.doc(),
    {
        let mut object = empty_object();
        object_insert(&mut object, "device_id", text_value(self.device_id.as_str()));
        object_insert(&mut object, "app_id", text_value(self.app_id.as_str()));
        object_insert(&mut object, "app_name", text_value(self.app_name.as_str()));
        object_insert(&mut object, "app_version", text_value(self.app_version.as_str()));
        object_insert(&mut object, "device_name", text_value(self.device_name.as_str()));
        object_insert(&mut object, "manufacturer", text_value(self.manufacturer.as_str()));
        object_insert(&mut object, "model", text_value(self.model.as_str()));
        object_insert(&mut object, "os_name", text_value(self.os_name.as_str()));
        object_insert(&mut object, "os_version", text_value(self.os_version.as_str()));
        object_insert(&mut object, "supports_encryption", bool_value(self.supports_encryption));
        object
    }
}

impl RegistrationInfoResp {
    /// Reads the hub's reply from a JSON value.
    pub fn from_json(value: &serde_json::Value) -> (read: Result<RegistrationInfoResp, HubError>)
        ensures
            match RegistrationReplyModel::decode(value_doc(*value)) {
                Some(model) => read matches Ok(reply) && reply@ == model,
                None => read matches Err(error) && error == HubError::MalformedResponse,
            },
    {
        if !is_object(value) {
            return Err(HubError::MalformedResponse);
        }
        let secret = match read_optional_text(value, "secret", None) {
            Ok(found) => found,
            Err(_) => {
                return Err(HubError::MalformedResponse);
            },
        };
        let webhook_id = match read_optional_text(value, "webhook_id", None) {
            Ok(found) => found,
            Err(_) => {
                return Err(HubError::MalformedResponse);
            },
        };
        Ok(RegistrationInfoResp { secret, webhook_id })
    }

    /// Reads the hub's reply from the text of a response body.
    pub fn from_json_text(body: &str) -> (read: Result<RegistrationInfoResp, HubError>)
        ensures
            match json_parse(body@) {
                Some(doc) => match RegistrationReplyModel::decode(doc) {
                    Some(model) => read matches Ok(reply) && reply@ == model,
                    None => read matches Err(error) && error == HubError::MalformedResponse,
                },
                None => read matches Err(error) && error == HubError::MalformedResponse,
            },
    {
        match parse_value(body) {
            Ok(value) => RegistrationInfoResp::from_json(&value),
            Err(_) => Err(HubError::MalformedResponse),
        }
    }
}

/// A character that the value of an HTTP header may hold: a tab, or anything
/// from the space on but the delete character.
pub open spec fn header_char(c: char) -> bool {
    c == '\t' || (c as u32 >= 32 && c as u32 != 127)
}

/// A text that can stand as the value of an HTTP header.
pub open spec fn header_safe(text: Seq<char>) -> bool {
    forall|i: int| 0 <= i < text.len() ==> header_char(#[trigger] text[i])
}

/// Whether `text` can stand as the value of an HTTP header.
pub fn is_header_safe(text: &str) -> (safe: bool)
    ensures
        safe == header_safe(text@),
{
    let length = text.unicode_len();
    let mut i: usize = 0;
    while i < length
        invariant
            i <= length,
            length == text@.len(),
            forall|j: int| 0 <= j < i ==> header_char(#[trigger] text@[j]),
        decreases length - i,
    {
        let c = text.get_char(i);
        if !(c == '\t' || (c as u32 >= 32 && c as u32 != 127)) {
            return false;
        }
        i += 1;
    }
    true
}

/// `Bearer` and a space in front of a token change nothing about its fitness
/// for a header.
pub proof fn lemma_bearer_is_as_safe_as_the_token(token: Seq<char>)
    ensures
        header_safe(Client::bearer(token)) == header_safe(token),
{
    reveal_strlit("Bearer ");
    let credential = Client::bearer(token);
    if header_safe(token) {
        assert forall|i: int| 0 <= i < credential.len() implies header_char(
            #[trigger] credential[i],
        ) by {
            if i >= 7 {
                assert(credential[i] == token[i - 7]);
            }
        }
    }
    if header_safe(credential) {
        assert forall|i: int| 0 <= i < token.len() implies header_char(#[trigger] token[i]) by {
            assert(token[i] == credential[i + 7]);
        }
    }
}

/// The hub client: a configuration, the credential that was made of its
/// token when the client was built, and the sensors that the hub knows of.
pub struct Client {
    pub config: Config,
    /// The value of the `Authorization` header that every request carries.
    /// It is a secret: it belongs in the header and nowhere else.
    pub authorization: String,
    /// The unique identifiers of the sensors that the hub has taken since the
    /// client was built.
    pub announced: Vec<String>,
}

impl Clone for Client {
    fn clone(&self) -> (copy: Client)
        ensures
            copy.config@ == self.config@,
            copy.authorization@ == self.authorization@,
            copy.announced_ids() == self.announced_ids(),
    {
        let mut announced: Vec<String> = Vec::new();
        let mut i: usize = 0;
        while i < self.announced.len()
            invariant
                i <= self.announced@.len(),
                announced@.len() == i,
                forall|j: int| 0 <= j < i ==> (#[trigger] announced@[j])@ == self.announced@[j]@,
            decreases self.announced@.len() - i,
        {
            announced.push(self.announced[i].clone());
            i += 1;
        }
        assert(announced.deep_view() =~= self.announced.deep_view());
        Client {
            config: self.config.clone(),
            authorization: self.authorization.clone(),
            announced,
        }
    }
}

impl Client {
    /// The device is registered: the hub has issued it a webhook.
    pub open spec fn registered(&self) -> bool {
        self.config@.registered()
    }

    /// The identifiers of the sensors that the hub has taken, in the order
    /// in which it took them.
    pub open spec fn announced_ids(&self) -> Seq<Seq<char>> {
        self.announced.deep_view()
    }

    /// The hub has taken the sensor of this identifier.
    pub open spec fn knows(&self, unique_id: Seq<char>) -> bool {
        self.announced_ids().contains(unique_id)
    }

    /// The credential that a token makes.
    pub open spec fn bearer(token: Seq<char>) -> Seq<char> {
        "Bearer "@ + token
    }

    /// The URL at which a hub registers devices.
    pub open spec fn registration_url(address: Seq<char>) -> Seq<char> {
        address + "/api/mobile_app/registrations"@
    }

    /// The URL of a device's webhook.
    pub open spec fn webhook_url(address: Seq<char>, webhook_id: Seq<char>) -> Seq<char> {
        address + "/api/webhook/"@ + webhook_id
    }

    /// Builds the client for a configuration. The configuration has to hold
    /// a token, and the token has to be fit for a header.
    pub fn new(config: Config) -> (made: Result<Client, HubError>)
        ensures
            match config@.auth_token {
                Some(token) if header_safe(token) => made matches Ok(client)
                    && client.config == config && client.authorization@ == Client::bearer(token)
                    && client.announced_ids() == Seq::<Seq<char>>::empty(),
                _ => made matches Err(error) && error == HubError::NotConfigured,
            },
    {
        let mut authorization = "Bearer ".to_owned();
        match &config.auth_token {
            Some(token) => {
                authorization.append(token.as_str());
                proof {
                    lemma_bearer_is_as_safe_as_the_token(token@);
                }
            },
            None => {
                return Err(HubError::NotConfigured);
            },
        }
        if is_header_safe(authorization.as_str()) {
            Ok(Client { config, authorization, announced: Vec::new() })
        } else {
            Err(HubError::NotConfigured)
        }
    }

    /// The request that registers the device with the hub.
    pub fn registration_request(&self) -> (request: Result<HubRequest, HubError>)
        ensures
            match self.config@.hass_address {
                Some(address) => request matches Ok(request) && request.url@
                    == Client::registration_url(address) && request.body@ == json_text(
                    RegistrationModel::of(self.config@).doc(),
                ),
                None => request matches Err(error) && error == HubError::NotConfigured,
            },
    {
        match &self.config.hass_address {
            Some(address) => {
                let mut url = address.clone();
                url.append("/api/mobile_app/registrations");
                let value = RegistrationInfoReq::from_config(&self.config).to_json();
                Ok(HubRequest { url, body: print_value(&value) })
            },
            None => Err(HubError::NotConfigured),
        }
    }

    /// What a registration does to a configuration: the webhook and the
    /// secret of the reply take the place of those it had.
    pub open spec fn registered_with(
        config: ConfigModel,
        webhook_id: Seq<char>,
        secret: Option<Seq<char>>,
    ) -> ConfigModel {
        ConfigModel { webhook_id: Some(webhook_id), webhook_secret: secret, ..config }
    }

    /// What a parsed reply to the registration request comes to: the webhook
    /// and the secret to keep, where the configuration names a hub and the
    /// reply names a webhook.
    pub open spec fn registration_outcome(
        config: ConfigModel,
        reply: RegistrationReplyModel,
    ) -> Result<ConfigModel, HubError> {
        if config.hass_address is None {
            Err(HubError::NotConfigured)
        } else {
            match reply.webhook_id {
                Some(webhook_id) => Ok(Client::registered_with(config, webhook_id, reply.secret)),
                None => Err(HubError::MalformedResponse),
            }
        }
    }

    /// What the channel's answer to the registration request comes to.
    pub open spec fn reply_outcome(config: ConfigModel, reply: HubReply) -> Result<
        ConfigModel,
        HubError,
    > {
        match reply {
            HubReply::Unreachable => Err(HubError::TransportFailure),
            HubReply::Body(body) => match json_parse(body@) {
                Some(doc) => match RegistrationReplyModel::decode(doc) {
                    Some(reply) => Client::registration_outcome(config, reply),
                    None => Err(HubError::MalformedResponse),
                },
                None => Err(HubError::MalformedResponse),
            },
        }
    }

    /// Takes the hub's parsed reply to the registration request into the
    /// configuration. The device is registered from then on. A reply without
    /// a webhook registers nothing and changes nothing.
    pub fn apply_registration(&mut self, reply: RegistrationInfoResp) -> (done: Result<
        (),
        HubError,
    >)
        ensures
            match Client::registration_outcome(old(self).config@, reply@) {
                Ok(config) => done is Ok && final(self).config@ == config,
                Err(error) => done == Err::<(), HubError>(error) && *final(self) == *old(self),
            },
            final(self).authorization == old(self).authorization,
            final(self).announced == old(self).announced,
            old(self).registered() ==> final(self).registered(),
            done is Ok ==> final(self).registered() && final(self).config@.paired(),
    {
        if self.config.hass_address.is_none() {
            return Err(HubError::NotConfigured);
        }
        match reply.webhook_id {
            Some(webhook_id) => {
                self.config.webhook_id = Some(webhook_id);
                self.config.webhook_secret = reply.secret;
                Ok(())
            },
            None => Err(HubError::MalformedResponse),
        }
    }

    /// Takes the channel's answer to the registration request. On success the
    /// configuration holds the webhook that the hub issued, and is to be
    /// saved. Any failure leaves the client as it was.
    pub fn register_app(&mut self, reply: HubReply) -> (done: Result<(), HubError>)
        ensures
            match Client::reply_outcome(old(self).config@, reply) {
                Ok(config) => done is Ok && final(self).config@ == config,
                Err(error) => done == Err::<(), HubError>(error) && *final(self) == *old(self),
            },
            final(self).authorization == old(self).authorization,
            final(self).announced == old(self).announced,
            old(self).registered() ==> final(self).registered(),
            done is Ok ==> final(self).registered() && final(self).config@.paired(),
    {
        match reply {
            HubReply::Unreachable => Err(HubError::TransportFailure),
            HubReply::Body(body) => match RegistrationInfoResp::from_json_text(body.as_str()) {
                Ok(reply) => self.apply_registration(reply),
                Err(error) => Err(error),
            },
        }
    }

    /// What sending a message to the webhook takes: the request, where the
    /// device has a webhook and a hub to send to.
    pub open spec fn webhook_request(config: ConfigModel, message: MessageModel) -> Result<
        (Seq<char>, Seq<char>),
        HubError,
    > {
        match (config.webhook_id, config.hass_address) {
            (None, _) => Err(HubError::PreconditionViolation),
            (Some(_), None) => Err(HubError::NotConfigured),
            (Some(webhook_id), Some(address)) => Ok(
                (Client::webhook_url(address, webhook_id), json_text(message.doc())),
            ),
        }
    }

    /// The request that carries `message` to the device's webhook. A device
    /// that is not registered has no webhook: no request is made for it.
    pub fn message_request<T: StateValue>(&self, message: &SensorData<T>) -> (request: Result<
        HubRequest,
        HubError,
    >)
        ensures
            match Client::webhook_request(self.config@, message@) {
                Ok((url, body)) => request matches Ok(request) && request.url@ == url
                    && request.body@ == body,
                Err(error) => request matches Err(found) && found == error,
            },
    {
        let webhook_id = match &self.config.webhook_id {
            Some(webhook_id) => webhook_id,
            None => {
                return Err(HubError::PreconditionViolation);
            },
        };
        let address = match &self.config.hass_address {
            Some(address) => address,
            None => {
                return Err(HubError::NotConfigured);
            },
        };
        let mut url = address.clone();
        url.append("/api/webhook/");
        url.append(webhook_id.as_str());
        Ok(HubRequest { url, body: message.to_json_text() })
    }

    /// Whether the hub has taken the sensor of this identifier.
    pub fn is_announced(&self, unique_id: &str) -> (found: bool)
        ensures
            found == self.knows(unique_id@),
    {
        let wanted = unique_id.to_owned();
        let mut i: usize = 0;
        while i < self.announced.len()
            invariant
                i <= self.announced@.len(),
                wanted@ == unique_id@,
                forall|j: int| 0 <= j < i ==> self.announced_ids()[j] != unique_id@,
            decreases self.announced@.len() - i,
        {
            if self.announced[i] == wanted {
                assert(self.announced_ids()[i as int] == unique_id@);
                return true;
            }
            i += 1;
        }
        false
    }

    /// The request that announces `sensor` to the hub.
    pub fn register_sensor<T, U: Provider>(&self, sensor: &T) -> (request: Result<
        HubRequest,
        HubError,
    >) where T: Sensor<U>
        ensures
            match Client::webhook_request(
                self.config@,
                MessageModel::RegisterSensor { data: sensor.registration() },
            ) {
                Ok((url, body)) => request matches Ok(request) && request.url@ == url
                    && request.body@ == body,
                Err(error) => request matches Err(found) && found == error,
            },
    {
        let message = sensor.get_register_info();
        self.message_request(&message)
    }

    /// Takes the channel's answer to the request that announced `sensor`. A
    /// request that got through has announced the sensor: from then on the hub
    /// knows it, and updates of it may follow. The hub's words are not read.
    pub fn sensor_registered<T, U: Provider>(&mut self, sensor: &T, reply: &HubReply) -> (done: Result<
        (),
        HubError,
    >) where T: Sensor<U>
        ensures
            done == match *reply {
                HubReply::Unreachable => Err::<(), HubError>(HubError::TransportFailure),
                HubReply::Body(_) => if old(self).registered() {
                    Ok::<(), HubError>(())
                } else {
                    Err::<(), HubError>(HubError::PreconditionViolation)
                },
            },
            final(self).config == old(self).config,
            final(self).authorization == old(self).authorization,
            done is Err ==> final(self).announced == old(self).announced,
            final(self).announced_ids() == if done is Ok && !old(self).knows(
                sensor.registration().unique_id,
            ) {
                old(self).announced_ids().push(sensor.registration().unique_id)
            } else {
                old(self).announced_ids()
            },
            done is Ok ==> final(self).knows(sensor.registration().unique_id),
            forall|unique_id: Seq<char>|
                old(self).knows(unique_id) ==> final(self).knows(unique_id),
    {
        match reply {
            HubReply::Unreachable => Err(HubError::TransportFailure),
            HubReply::Body(_) => {
                if self.config.webhook_id.is_none() {
                    return Err(HubError::PreconditionViolation);
                }
                let unique_id = match sensor.get_register_info() {
                    SensorData::RegisterSensor { data } => data.unique_id,
                    SensorData::UpdateSensorStates { data } => data.unique_id,
                };
                if !self.is_announced(unique_id.as_str()) {
                    self.announced.push(unique_id);
                    proof {
                        let before = old(self).announced_ids();
                        let after = before.push(sensor.registration().unique_id);
                        assert(after[before.len() as int] == sensor.registration().unique_id);
                        assert forall|known: Seq<char>| before.contains(known) implies after.contains(
                            known,
                        ) by {
                            let i = choose|i: int| 0 <= i < before.len() && before[i] == known;
                            assert(after[i] == known);
                        }
                    }
                }
                Ok(())
            },
        }
    }

    /// What sending an update takes: the hub has to know the sensor, and the
    /// device has to have a webhook and a hub to send to.
    pub open spec fn update_request(&self, update: UpdateModel) -> Result<
        (Seq<char>, Seq<char>),
        HubError,
    > {
        if self.knows(update.unique_id) {
            Client::webhook_request(self.config@, MessageModel::UpdateSensorStates { data: update })
        } else {
            Err(HubError::PreconditionViolation)
        }
    }

    /// The request that brings the hub up to date with `sensor`. There is
    /// none for a sensor that has not been announced.
    pub fn update_sensor<T, U: Provider>(&self, sensor: &T) -> (request: Result<
        HubRequest,
        HubError,
    >) where T: Sensor<U>
        ensures
            match self.update_request(sensor.update()) {
                Ok((url, body)) => request matches Ok(request) && request.url@ == url
                    && request.body@ == body,
                Err(error) => request matches Err(found) && found == error,
            },
    {
        let message = sensor.get_update_info();
        let known = match &message {
            SensorData::UpdateSensorStates { data } => self.is_announced(data.unique_id.as_str()),
            SensorData::RegisterSensor { data } => self.is_announced(data.unique_id.as_str()),
        };
        if known {
            self.message_request(&message)
        } else {
            Err(HubError::PreconditionViolation)
        }
    }

    /// What the channel's answer to an update comes to. The hub's words are
    /// not read: a request that got through has done its work.
    pub fn acknowledge(reply: &HubReply) -> (done: Result<(), HubError>)
        ensures
            done == match *reply {
                HubReply::Unreachable => Err::<(), HubError>(HubError::TransportFailure),
                HubReply::Body(_) => Ok::<(), HubError>(()),
            },
    {
        match reply {
            HubReply::Unreachable => Err(HubError::TransportFailure),
            HubReply::Body(_) => Ok(()),
        }
    }
}

/// The token goes into the credential and nowhere else: two configurations
/// that differ in nothing but the token make the same requests, URL and body.
pub proof fn lemma_requests_leave_the_token_out(
    config: ConfigModel,
    other: ConfigModel,
    message: MessageModel,
)
    requires
        other == (ConfigModel { auth_token: other.auth_token, ..config }),
    ensures
        Client::webhook_request(other, message) == Client::webhook_request(config, message),
        RegistrationModel::of(other) == RegistrationModel::of(config),
{
}

} // verus!
