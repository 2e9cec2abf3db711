//! The battery: one provider with one sensor, the charge in percent.

use super::{
    Provider, RegisterModel, Sensor, SensorData, SensorError, SensorRegisterData, SensorType,
    SensorUpdateData, UpdateModel,
};
use crate::json::JsonDoc;
use vstd::prelude::*;

verus! {

/// `battery::Error`, what a failed look at the battery reports. It is only
/// told apart from success.
#[verifier::external_type_specification]
#[verifier::external_body]
pub struct ExBatteryError(battery::Error);

/// Opens the platform's battery interface with `battery::Manager::new`, takes
/// the first battery that `battery::Manager::batteries` lists, and reads
/// `battery::Battery::state_of_charge`, whose ratio is taken in percent and cut
/// to a whole number. `Ok(None)` says that the machine has no battery. Nothing
/// is promised of the charge: it is what the hardware reports.
#[verifier::external_body]
fn first_charge() -> Result<Option<u8>, battery::Error> {
    let first = match battery::Manager::new()?.batteries()?.next() {
        Some(found) => found?,
        None => return Ok(None),
    };
    Ok(Some(first.state_of_charge().get::<battery::units::ratio::percent>() as u8))
}

/// The icon for a charge in percent: one icon for every ten, the highest
/// charge of each ten included, and the unknown icon for a charge that is
/// none.
pub open spec fn battery_icon(level: u8) -> Seq<char> {
    if 91 <= level <= 100 {
        "mdi:battery"@
    } else if 81 <= level <= 90 {
        "mdi:battery-90"@
    } else if 71 <= level <= 80 {
        "mdi:battery-80"@
    } else if 61 <= level <= 70 {
        "mdi:battery-70"@
    } else if 51 <= level <= 60 {
        "mdi:battery-60"@
    } else if 41 <= level <= 50 {
        "mdi:battery-50"@
    } else if 31 <= level <= 40 {
        "mdi:battery-40"@
    } else if 21 <= level <= 30 {
        "mdi:battery-30"@
    } else if 11 <= level <= 20 {
        "mdi:battery-20"@
    } else if 0 <= level <= 10 {
        "mdi:battery-alert-outline"@
    } else {
        "mdi:battery-unknown"@
    }
}

/// The machine's first battery.
pub struct BatteryProvider {
    pub level: BatteryLevel,
}

/// The charge of the battery, in percent.
#[derive(Debug)]
pub struct BatteryLevel {
    pub state: u8,
}

/// The charge of the machine's first battery; `None` where no battery could
/// be read.
fn read_charge() -> Option<u8> {
    BatteryProvider::reading_of(first_charge())
}

impl BatteryProvider {
    /// What a look at the machine's batteries comes to: the charge of the
    /// first battery. There is none where the look failed, and none where the
    /// machine has no battery.
    pub fn reading_of(outcome: Result<Option<u8>, battery::Error>) -> (reading: Option<u8>)
        ensures
            reading == match outcome {
                Ok(charge) => charge,
                Err(_) => None,
            },
    {
        match outcome {
            Ok(charge) => charge,
            Err(_) => None,
        }
    }

    /// The provider for a first look at the battery: `None` says that there is
    /// no battery to read.
    pub fn from_reading(reading: Option<u8>) -> (made: Result<BatteryProvider, SensorError>)
        ensures
            made == match reading {
                Some(charge) => Ok::<BatteryProvider, SensorError>(
                    BatteryProvider { level: BatteryLevel { state: charge } },
                ),
                None => Err::<BatteryProvider, SensorError>(SensorError::SourceUnavailable),
            },
    {
        match reading {
            Some(charge) => Ok(BatteryProvider { level: BatteryLevel { state: charge } }),
            None => Err(SensorError::SourceUnavailable),
        }
    }

    /// Takes a later look at the battery into the sensor. A look that failed
    /// changes nothing.
    pub fn refresh_with(&mut self, reading: Option<u8>) -> (done: Result<(), SensorError>)
        ensures
            done == match reading {
                Some(_) => Ok::<(), SensorError>(()),
                None => Err::<(), SensorError>(SensorError::ReadFailed),
            },
            *final(self) == match reading {
                Some(charge) => BatteryProvider { level: BatteryLevel { state: charge } },
                None => *old(self),
            },
    {
        match reading {
            Some(charge) => {
                self.level.state = charge;
                Ok(())
            },
            None => Err(SensorError::ReadFailed),
        }
    }
}

impl Provider for BatteryProvider {
    fn new() -> (made: Result<Self, SensorError>) {
        BatteryProvider::from_reading(read_charge())
    }

    fn update_all(&mut self) -> (done: Result<(), SensorError>) {
        self.refresh_with(read_charge())
    }
}

impl BatteryLevel {
    /// The name of the icon that shows this charge.
    pub fn icon(&self) -> (name: String)
        ensures
            name@ == battery_icon(self.state),
    {
        let level = self.state;
        let name = if level > 100 {
            "mdi:battery-unknown"
        } else if level > 90 {
            "mdi:battery"
        } else if level > 80 {
            "mdi:battery-90"
        } else if level > 70 {
            "mdi:battery-80"
        } else if level > 60 {
            "mdi:battery-70"
        } else if level > 50 {
            "mdi:battery-60"
        } else if level > 40 {
            "mdi:battery-50"
        } else if level > 30 {
            "mdi:battery-40"
        } else if level > 20 {
            "mdi:battery-30"
        } else if level > 10 {
            "mdi:battery-20"
        } else {
            "mdi:battery-alert-outline"
        };
        name.to_owned()
    }
}

impl Sensor<BatteryProvider> for BatteryLevel {
    type StateType = u8;

    open spec fn current(provider: &BatteryProvider) -> u8 {
        provider.level.state
    }

    open spec fn registration(&self) -> RegisterModel {
        RegisterModel {
            sensor_type: SensorType::Sensor,
            unique_id: "battery_level"@,
            name: "Battery Level"@,
            state: JsonDoc::Integer(self.state as int),
            device_class: None,
            icon: Some(battery_icon(self.state)),
            unit_of_measurement: Some("%"@),
            state_class: None,
            entity_category: None,
        }
    }

    open spec fn update(&self) -> UpdateModel {
        UpdateModel {
            sensor_type: SensorType::Sensor,
            unique_id: "battery_level"@,
            state: JsonDoc::Integer(self.state as int),
            icon: Some(battery_icon(self.state)),
        }
    }

    proof fn lemma_same_identity(&self) {
    }

    proof fn lemma_stable_identity(&self, later: &Self) {
    }

    fn new() -> (sensor: Self)
        ensures
            sensor.state == 0,
    {
        BatteryLevel { state: 0 }
    }

    fn get_current(provider: &BatteryProvider) -> (read: Result<u8, SensorError>) {
        Ok(provider.level.state)
    }

    fn get_register_info(&self) -> (message: SensorData<u8>) {
        let data = SensorRegisterData {
            sensor_type: SensorType::Sensor,
            unique_id: "battery_level".to_owned(),
            name: "Battery Level".to_owned(),
            state: self.state,
            device_class: None,
            icon: Some(self.icon()),
            unit_of_measurement: Some("%".to_owned()),
            state_class: None,
            entity_category: None,
        };
        assert(data@ == self.registration());
        SensorData::RegisterSensor { data }
    }

    fn get_update_info(&self) -> (message: SensorData<u8>) {
        let data = SensorUpdateData {
            sensor_type: SensorType::Sensor,
            unique_id: "battery_level".to_owned(),
            state: self.state,
            icon: Some(self.icon()),
        };
        assert(data@ == self.update());
        SensorData::UpdateSensorStates { data }
    }
}

} // verus!
