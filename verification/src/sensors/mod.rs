//! Sensors, the providers that refresh them, and the two messages by which a
//! sensor is announced to the hub and kept up to date.

use crate::json::{
    empty_object, insert_optional, json_text, number_value, object_insert, print_value, text_of,
    text_value, value_doc, JsonDoc,
};
use vstd::prelude::*;

pub mod battery;
pub mod cpu;

verus! {

/// Why a provider could not deliver.
#[derive(Clone, Copy, Debug, PartialEq, Eq, Structural)]
pub enum SensorError {
    /// The metric source cannot be opened at all.
    SourceUnavailable,
    /// The source is there, but this reading failed.
    ReadFailed,
}

/// A live handle to one source of readings, and the sensors fed from it.
pub trait Provider: Sized {
    /// Opens the source and takes a first reading. This fails only where the
    /// source cannot be had at all.
    fn new() -> (made: Result<Self, SensorError>)
        ensures
            made matches Err(error) ==> error == SensorError::SourceUnavailable,
    ;

    /// Reads the source again and writes the fresh values into every sensor.
    /// A failed reading leaves every sensor as it was.
    fn update_all(&mut self) -> (done: Result<(), SensorError>)
        ensures
            done matches Err(error) ==> error == SensorError::ReadFailed && *final(self) == *old(
                self,
            ),
    ;
}

/// One named, typed measurement that a provider keeps up to date.
pub trait Sensor<P: Provider>: Sized {
    type StateType: StateValue;

    /// The state that `provider` holds for this sensor.
    spec fn current(provider: &P) -> Self::StateType;

    /// What announces this sensor to the hub.
    spec fn registration(&self) -> RegisterModel;

    /// What brings the hub up to date with this sensor.
    spec fn update(&self) -> UpdateModel;

    /// An update speaks of the sensor that was registered: it carries the same
    /// identifier and the same type tag, and both carry the sensor's state.
    proof fn lemma_same_identity(&self)
        ensures
            self.update().unique_id == self.registration().unique_id,
            self.update().sensor_type == self.registration().sensor_type,
            self.update().state == self.registration().state,
    ;

    /// The identifier is fixed: whatever the state, a sensor of this type
    /// goes by the same identifier and the same type tag.
    proof fn lemma_stable_identity(&self, later: &Self)
        ensures
            later.registration().unique_id == self.registration().unique_id,
            later.registration().sensor_type == self.registration().sensor_type,
    ;

    fn new() -> Self;

    /// The value last read for this sensor. Nothing is read anew.
    fn get_current(provider: &P) -> (read: Result<Self::StateType, SensorError>)
        ensures
            read == Ok::<Self::StateType, SensorError>(Self::current(provider)),
    ;

    fn get_register_info(&self) -> (message: SensorData<Self::StateType>)
        ensures
            message@ == (MessageModel::RegisterSensor { data: self.registration() }),
    ;

    fn get_update_info(&self) -> (message: SensorData<Self::StateType>)
        ensures
            message@ == (MessageModel::UpdateSensorStates { data: self.update() }),
    ;
}

/// A state that the wire format can carry.
pub trait StateValue: Sized {
    /// The JSON document that stands for this state.
    spec fn state_doc(&self) -> JsonDoc;

    fn to_json(&self) -> (value: serde_json::Value)
        ensures
            value_doc(value) == self.state_doc(),
    ;
}

impl StateValue for u8 {
    open spec fn state_doc(&self) -> JsonDoc {
        JsonDoc::Integer(*self as int)
    }

    fn to_json(&self) -> (value: serde_json::Value) {
        number_value(*self as u64)
    }
}

impl StateValue for u32 {
    open spec fn state_doc(&self) -> JsonDoc {
        JsonDoc::Integer(*self as int)
    }

    fn to_json(&self) -> (value: serde_json::Value) {
        number_value(*self as u64)
    }
}

impl StateValue for u64 {
    open spec fn state_doc(&self) -> JsonDoc {
        JsonDoc::Integer(*self as int)
    }

    fn to_json(&self) -> (value: serde_json::Value) {
        number_value(*self)
    }
}

impl StateValue for String {
    open spec fn state_doc(&self) -> JsonDoc {
        JsonDoc::Text(self@)
    }

    fn to_json(&self) -> (value: serde_json::Value) {
        text_value(self.as_str())
    }
}

/// The hub's two kinds of sensor entity.
#[derive(Clone, Copy, Debug, PartialEq, Eq, Structural)]
pub enum SensorType {
    Sensor,
    BinarySensor,
}

impl SensorType {
    /// The tag that names this kind on the wire.
    pub open spec fn tag(self) -> Seq<char> {
        match self {
            SensorType::Sensor => "sensor"@,
            SensorType::BinarySensor => "binary_sensor"@,
        }
    }

    /// The kind that a tag names.
    pub open spec fn from_tag(tag: Seq<char>) -> Option<SensorType> {
        if tag == "sensor"@ {
            Some(SensorType::Sensor)
        } else if tag == "binary_sensor"@ {
            Some(SensorType::BinarySensor)
        } else {
            None
        }
    }

    pub fn as_str(&self) -> (tag: &'static str)
        ensures
            tag@ == self.tag(),
    {
        match self {
            SensorType::Sensor => "sensor",
            SensorType::BinarySensor => "binary_sensor",
        }
    }
}

/// What announces a sensor: its identity, its presentation and its first state.
pub struct SensorRegisterData<T> {
    pub sensor_type: SensorType,
    pub unique_id: String,
    pub name: String,
    pub state: T,
    pub device_class: Option<String>,
    pub icon: Option<String>,
    pub unit_of_measurement: Option<String>,
    pub state_class: Option<String>,
    pub entity_category: Option<String>,
}

/// What brings a sensor up to date: its identity, its state and its icon.
pub struct SensorUpdateData<T> {
    pub sensor_type: SensorType,
    pub unique_id: String,
    pub state: T,
    pub icon: Option<String>,
}

/// A message to the hub's webhook.
#[allow(inconsistent_fields)]
pub enum SensorData<T> {
    UpdateSensorStates { data: SensorUpdateData<T> },
    RegisterSensor { data: SensorRegisterData<T> },
}

/// The model of [`SensorRegisterData`]: texts by their characters, the state
/// by its document.
pub struct RegisterModel {
    pub sensor_type: SensorType,
    pub unique_id: Seq<char>,
    pub name: Seq<char>,
    pub state: JsonDoc,
    pub device_class: Option<Seq<char>>,
    pub icon: Option<Seq<char>>,
    pub unit_of_measurement: Option<Seq<char>>,
    pub state_class: Option<Seq<char>>,
    pub entity_category: Option<Seq<char>>,
}

/// The model of [`SensorUpdateData`].
pub struct UpdateModel {
    pub sensor_type: SensorType,
    pub unique_id: Seq<char>,
    pub state: JsonDoc,
    pub icon: Option<Seq<char>>,
}

/// The model of [`SensorData`].
#[allow(inconsistent_fields)]
pub enum MessageModel {
    UpdateSensorStates { data: UpdateModel },
    RegisterSensor { data: RegisterModel },
}

impl RegisterModel {
    /// The `data` object of a registration. A metadata field that is absent
    /// has no member at all.
    pub open spec fn doc(self) -> JsonDoc {
        JsonDoc::empty_object().with("type"@, JsonDoc::Text(self.sensor_type.tag())).with(
            "unique_id"@,
            JsonDoc::Text(self.unique_id),
        ).with("name"@, JsonDoc::Text(self.name)).with("state"@, self.state).with_optional(
            "device_class"@,
            self.device_class,
        ).with_optional("icon"@, self.icon).with_optional(
            "unit_of_measurement"@,
            self.unit_of_measurement,
        ).with_optional("state_class"@, self.state_class).with_optional(
            "entity_category"@,
            self.entity_category,
        )
    }
}

impl RegisterModel {
    /// The registration that a `data` object describes, read member by
    /// member; `None` where a member that has to be there is missing or any
    /// member has the wrong kind.
    pub open spec fn decode(doc: JsonDoc) -> Option<RegisterModel> {
        let device_class = doc.optional_text("device_class"@, None);
        let icon = doc.optional_text("icon"@, None);
        let unit_of_measurement = doc.optional_text("unit_of_measurement"@, None);
        let state_class = doc.optional_text("state_class"@, None);
        let entity_category = doc.optional_text("entity_category"@, None);
        match (
            doc.member("type"@),
            doc.member("unique_id"@),
            doc.member("name"@),
            doc.member("state"@),
        ) {
            (
                Some(JsonDoc::Text(tag)),
                Some(JsonDoc::Text(unique_id)),
                Some(JsonDoc::Text(name)),
                Some(state),
            ) => if SensorType::from_tag(tag) is Some && device_class is Ok && icon is Ok
                && unit_of_measurement is Ok && state_class is Ok && entity_category is Ok {
                Some(
                    RegisterModel {
                        sensor_type: SensorType::from_tag(tag)->Some_0,
                        unique_id,
                        name,
                        state,
                        device_class: device_class->Ok_0,
                        icon: icon->Ok_0,
                        unit_of_measurement: unit_of_measurement->Ok_0,
                        state_class: state_class->Ok_0,
                        entity_category: entity_category->Ok_0,
                    },
                )
            } else {
                None
            },
            _ => None,
        }
    }
}

impl UpdateModel {
    /// The update that a `data` object describes; `None` where a member that
    /// has to be there is missing or any member has the wrong kind.
    pub open spec fn decode(doc: JsonDoc) -> Option<UpdateModel> {
        let icon = doc.optional_text("icon"@, None);
        match (doc.member("type"@), doc.member("unique_id"@), doc.member("state"@)) {
            (Some(JsonDoc::Text(tag)), Some(JsonDoc::Text(unique_id)), Some(state)) => if
                SensorType::from_tag(tag) is Some && icon is Ok {
                Some(
                    UpdateModel {
                        sensor_type: SensorType::from_tag(tag)->Some_0,
                        unique_id,
                        state,
                        icon: icon->Ok_0,
                    },
                )
            } else {
                None
            },
            _ => None,
        }
    }

    /// The `data` object of an update.
    pub open spec fn doc(self) -> JsonDoc {
        JsonDoc::empty_object().with("type"@, JsonDoc::Text(self.sensor_type.tag())).with(
            "unique_id"@,
            JsonDoc::Text(self.unique_id),
        ).with("state"@, self.state).with_optional("icon"@, self.icon)
    }
}

impl MessageModel {
    /// The identifier by which the hub tells sensors apart.
    pub open spec fn unique_id(self) -> Seq<char> {
        match self {
            MessageModel::UpdateSensorStates { data } => data.unique_id,
            MessageModel::RegisterSensor { data } => data.unique_id,
        }
    }

    pub open spec fn sensor_type(self) -> SensorType {
        match self {
            MessageModel::UpdateSensorStates { data } => data.sensor_type,
            MessageModel::RegisterSensor { data } => data.sensor_type,
        }
    }

    pub open spec fn state(self) -> JsonDoc {
        match self {
            MessageModel::UpdateSensorStates { data } => data.state,
            MessageModel::RegisterSensor { data } => data.state,
        }
    }

    /// The tag that tells the two messages apart on the wire.
    pub open spec fn tag(self) -> Seq<char> {
        match self {
            MessageModel::UpdateSensorStates { .. } => "update_sensor_states"@,
            MessageModel::RegisterSensor { .. } => "register_sensor"@,
        }
    }

    /// The `data` object of the message.
    pub open spec fn data_doc(self) -> JsonDoc {
        match self {
            MessageModel::UpdateSensorStates { data } => data.doc(),
            MessageModel::RegisterSensor { data } => data.doc(),
        }
    }

    /// The whole message: `{"type": tag, "data": {..}}`.
    pub open spec fn doc(self) -> JsonDoc {
        JsonDoc::empty_object().with("type"@, JsonDoc::Text(self.tag())).with(
            "data"@,
            self.data_doc(),
        )
    }

    /// The message that a JSON document describes; `None` where the document
    /// is none of the two messages.
    pub open spec fn decode(doc: JsonDoc) -> Option<MessageModel> {
        match (doc.member("type"@), doc.member("data"@)) {
            (Some(JsonDoc::Text(tag)), Some(data)) => if tag == "register_sensor"@ {
                match RegisterModel::decode(data) {
                    Some(data) => Some(MessageModel::RegisterSensor { data }),
                    None => None,
                }
            } else if tag == "update_sensor_states"@ {
                match UpdateModel::decode(data) {
                    Some(data) => Some(MessageModel::UpdateSensorStates { data }),
                    None => None,
                }
            } else {
                None
            },
            _ => None,
        }
    }
}

/// The names of the members of a message, and the tags, by their lengths;
/// those of one length by their first letters. No two of them are the same.
proof fn lemma_names_differ()
    ensures
        "type"@.len() == 4 && "type"@[0] == 't',
        "data"@.len() == 4 && "data"@[0] == 'd',
        "name"@.len() == 4 && "name"@[0] == 'n',
        "icon"@.len() == 4 && "icon"@[0] == 'i',
        "state"@.len() == 5,
        "unique_id"@.len() == 9,
        "state_class"@.len() == 11,
        "device_class"@.len() == 12,
        "entity_category"@.len() == 15,
        "unit_of_measurement"@.len() == 19,
        "sensor"@.len() == 6,
        "binary_sensor"@.len() == 13,
        "register_sensor"@.len() == 15,
        "update_sensor_states"@.len() == 20,
{
    reveal_strlit("type");
    reveal_strlit("data");
    reveal_strlit("unique_id");
    reveal_strlit("name");
    reveal_strlit("state");
    reveal_strlit("device_class");
    reveal_strlit("icon");
    reveal_strlit("unit_of_measurement");
    reveal_strlit("state_class");
    reveal_strlit("entity_category");
    reveal_strlit("sensor");
    reveal_strlit("binary_sensor");
    reveal_strlit("register_sensor");
    reveal_strlit("update_sensor_states");
}

/// What announces a sensor reads back from its `data` object as it was.
pub proof fn lemma_registration_reads_back(data: RegisterModel)
    ensures
        RegisterModel::decode(data.doc()) == Some(data),
{
    lemma_names_differ();
}

/// What brings a sensor up to date reads back from its `data` object as it
/// was.
pub proof fn lemma_update_reads_back(data: UpdateModel)
    ensures
        UpdateModel::decode(data.doc()) == Some(data),
{
    lemma_names_differ();
}

/// Serialization round trip: a message reads back from its JSON document as
/// the message that was built. So a registration keeps its unique identifier,
/// its type tag and its state on the way through JSON, and so does an update.
pub proof fn lemma_message_round_trip(message: MessageModel)
    ensures
        MessageModel::decode(message.doc()) == Some(message),
        MessageModel::decode(message.doc())->Some_0.unique_id() == message.unique_id(),
        MessageModel::decode(message.doc())->Some_0.sensor_type() == message.sensor_type(),
        MessageModel::decode(message.doc())->Some_0.state() == message.state(),
{
    lemma_names_differ();
    match message {
        MessageModel::RegisterSensor { data } => lemma_registration_reads_back(data),
        MessageModel::UpdateSensorStates { data } => lemma_update_reads_back(data),
    }
}

/// Idempotence of updates: two update messages taken from one sensor with no
/// refresh in between are the same message, and go out as the same text.
pub proof fn lemma_update_repeats<P: Provider, S: Sensor<P>>(
    sensor: S,
    first: SensorData<S::StateType>,
    second: SensorData<S::StateType>,
)
    requires
        first@ == (MessageModel::UpdateSensorStates { data: sensor.update() }),
        second@ == (MessageModel::UpdateSensorStates { data: sensor.update() }),
    ensures
        first@ == second@,
        json_text(first@.doc()) == json_text(second@.doc()),
{
}

impl<T: StateValue> View for SensorRegisterData<T> {
    type V = RegisterModel;

    open spec fn view(&self) -> RegisterModel {
        RegisterModel {
            sensor_type: self.sensor_type,
            unique_id: self.unique_id@,
            name: self.name@,
            state: self.state.state_doc(),
            device_class: text_of(self.device_class),
            icon: text_of(self.icon),
            unit_of_measurement: text_of(self.unit_of_measurement),
            state_class: text_of(self.state_class),
            entity_category: text_of(self.entity_category),
        }
    }
}

impl<T: StateValue> View for SensorUpdateData<T> {
    type V = UpdateModel;

    open spec fn view(&self) -> UpdateModel {
        UpdateModel {
            sensor_type: self.sensor_type,
            unique_id: self.unique_id@,
            state: self.state.state_doc(),
            icon: text_of(self.icon),
        }
    }
}

impl<T: StateValue> View for SensorData<T> {
    type V = MessageModel;

    open spec fn view(&self) -> MessageModel {
        match self {
            SensorData::UpdateSensorStates { data } => MessageModel::UpdateSensorStates {
                data: data@,
            },
            SensorData::RegisterSensor { data } => MessageModel::RegisterSensor { data: data@ },
        }
    }
}

impl<T: StateValue> SensorRegisterData<T> {
    /// The `data` object of the registration, as a JSON value.
    pub fn to_json(&self) -> (value: serde_json::Value)
        ensures
            value_doc(value) == self@.doc(),
    {
        let mut object = empty_object();
        object_insert(&mut object, "type", text_value(self.sensor_type.as_str()));
        object_insert(&mut object, "unique_id", text_value(self.unique_id.as_str()));
        object_insert(&mut object, "name", text_value(self.name.as_str()));
        object_insert(&mut object, "state", self.state.to_json());
        insert_optional(&mut object, "device_class", &self.device_class);
        insert_optional(&mut object, "icon", &self.icon);
        insert_optional(&mut object, "unit_of_measurement", &self.unit_of_measurement);
        insert_optional(&mut object, "state_class", &self.state_class);
        insert_optional(&mut object, "entity_category", &self.entity_category);
        object
    }
}

impl<T: StateValue> SensorUpdateData<T> {
    /// The `data` object of the update, as a JSON value.
    pub fn to_json(&self) -> (value: serde_json::Value)
        ensures
            value_doc(value) == self@.doc(),
    {
        let mut object = empty_object();
        object_insert(&mut object, "type", text_value(self.sensor_type.as_str()));
        object_insert(&mut object, "unique_id", text_value(self.unique_id.as_str()));
        object_insert(&mut object, "state", self.state.to_json());
        insert_optional(&mut object, "icon", &self.icon);
        object
    }
}

impl<T: StateValue> SensorData<T> {
    /// The message as a JSON value.
    pub fn to_json(&self) -> (value: serde_json::Value)
        ensures
            value_doc(value) == self@.doc(),
    {
        let mut object = empty_object();
        match self {
            SensorData::UpdateSensorStates { data } => {
                object_insert(&mut object, "type", text_value("update_sensor_states"));
                object_insert(&mut object, "data", data.to_json());
            },
            SensorData::RegisterSensor { data } => {
                object_insert(&mut object, "type", text_value("register_sensor"));
                object_insert(&mut object, "data", data.to_json());
            },
        }
        object
    }

    /// The message as the JSON text that goes to the hub.
    pub fn to_json_text(&self) -> (text: String)
        ensures
            text@ == json_text(self@.doc()),
    {
        let value = self.to_json();
        print_value(&value)
    }
}

} // verus!
