//! The processor: one provider with two sensors, the number of cores and the
//! clock frequency.

use super::{
    Provider, RegisterModel, Sensor, SensorData, SensorError, SensorRegisterData, SensorType,
    SensorUpdateData, UpdateModel,
};
use crate::host::{cpu_num, cpu_speed};
use crate::json::JsonDoc;
use vstd::prelude::*;

verus! {

/// The machine's processor.
pub struct CpuProvider {
    pub cpu_cores: CpuCores,
    pub cpu_freq: CpuFreq,
}

/// The clock frequency of the processor, in MHz.
#[derive(Debug)]
pub struct CpuFreq {
    pub state: u64,
}

/// The number of logical processors.
#[derive(Debug)]
pub struct CpuCores {
    pub state: u32,
}

/// One look at the processor.
#[derive(Clone, Copy, Debug, PartialEq, Eq, Structural)]
pub struct CpuReading {
    pub cores: u32,
    pub speed: u64,
}

/// Both readings of the processor; `None` where either cannot be had.
fn read_cpu() -> Option<CpuReading> {
    CpuReading::of(cpu_num(), cpu_speed())
}

impl CpuReading {
    /// What the two looks at the processor come to: one reading, where both
    /// succeeded. A look that failed leaves no reading at all, so that the
    /// two sensors are never fed from different looks.
    pub fn of(cores: Result<u32, sys_info::Error>, speed: Result<u64, sys_info::Error>) -> (reading:
        Option<CpuReading>)
        ensures
            reading == match (cores, speed) {
                (Ok(cores), Ok(speed)) => Some(CpuReading { cores, speed }),
                _ => None,
            },
    {
        match (cores, speed) {
            (Ok(cores), Ok(speed)) => Some(CpuReading { cores, speed }),
            _ => None,
        }
    }
}

impl CpuProvider {
    /// The provider with both sensors at the values of `reading`.
    pub open spec fn holding(reading: CpuReading) -> CpuProvider {
        CpuProvider {
            cpu_cores: CpuCores { state: reading.cores },
            cpu_freq: CpuFreq { state: reading.speed },
        }
    }

    /// The provider for a first look at the processor: `None` says that the
    /// processor cannot be read.
    pub fn from_reading(reading: Option<CpuReading>) -> (made: Result<CpuProvider, SensorError>)
        ensures
            made == match reading {
                Some(reading) => Ok::<CpuProvider, SensorError>(CpuProvider::holding(reading)),
                None => Err::<CpuProvider, SensorError>(SensorError::SourceUnavailable),
            },
    {
        match reading {
            Some(reading) => Ok(
                CpuProvider {
                    cpu_cores: CpuCores { state: reading.cores },
                    cpu_freq: CpuFreq { state: reading.speed },
                },
            ),
            None => Err(SensorError::SourceUnavailable),
        }
    }

    /// Takes a later look at the processor into both sensors. A look that
    /// failed changes neither.
    pub fn refresh_with(&mut self, reading: Option<CpuReading>) -> (done: Result<(), SensorError>)
        ensures
            done == match reading {
                Some(_) => Ok::<(), SensorError>(()),
                None => Err::<(), SensorError>(SensorError::ReadFailed),
            },
            *final(self) == match reading {
                Some(reading) => CpuProvider::holding(reading),
                None => *old(self),
            },
    {
        match reading {
            Some(reading) => {
                self.cpu_cores.state = reading.cores;
                self.cpu_freq.state = reading.speed;
                Ok(())
            },
            None => Err(SensorError::ReadFailed),
        }
    }
}

impl Provider for CpuProvider {
    fn new() -> (made: Result<Self, SensorError>) {
        CpuProvider::from_reading(read_cpu())
    }

    fn update_all(&mut self) -> (done: Result<(), SensorError>) {
        self.refresh_with(read_cpu())
    }
}

impl Sensor<CpuProvider> for CpuFreq {
    type StateType = u64;

    open spec fn current(provider: &CpuProvider) -> u64 {
        provider.cpu_freq.state
    }

    open spec fn registration(&self) -> RegisterModel {
        RegisterModel {
            sensor_type: SensorType::Sensor,
            unique_id: "cpu_freq"@,
            name: "CPU Frequency"@,
            state: JsonDoc::Integer(self.state as int),
            device_class: Some("frequency"@),
            icon: Some("mdi:sine-wave"@),
            unit_of_measurement: Some("MHz"@),
            state_class: None,
            entity_category: None,
        }
    }

    open spec fn update(&self) -> UpdateModel {
        UpdateModel {
            sensor_type: SensorType::Sensor,
            unique_id: "cpu_freq"@,
            state: JsonDoc::Integer(self.state as int),
            icon: Some("mdi:sine-wave"@),
        }
    }

    proof fn lemma_same_identity(&self) {
    }

    proof fn lemma_stable_identity(&self, later: &Self) {
    }

    fn new() -> (sensor: Self)
        ensures
            sensor.state == 0,
    {
        CpuFreq { state: 0 }
    }

    fn get_current(provider: &CpuProvider) -> (read: Result<u64, SensorError>) {
        Ok(provider.cpu_freq.state)
    }

    fn get_register_info(&self) -> (message: SensorData<u64>) {
        let data = SensorRegisterData {
            sensor_type: SensorType::Sensor,
            unique_id: "cpu_freq".to_owned(),
            name: "CPU Frequency".to_owned(),
            state: self.state,
            device_class: Some("frequency".to_owned()),
            icon: Some("mdi:sine-wave".to_owned()),
            unit_of_measurement: Some("MHz".to_owned()),
            state_class: None,
            entity_category: None,
        };
        assert(data@ == self.registration());
        SensorData::RegisterSensor { data }
    }

    fn get_update_info(&self) -> (message: SensorData<u64>) {
        let data = SensorUpdateData {
            sensor_type: SensorType::Sensor,
            unique_id: "cpu_freq".to_owned(),
            state: self.state,
            icon: Some("mdi:sine-wave".to_owned()),
        };
        assert(data@ == self.update());
        SensorData::UpdateSensorStates { data }
    }
}

impl Sensor<CpuProvider> for CpuCores {
    type StateType = u32;

    open spec fn current(provider: &CpuProvider) -> u32 {
        provider.cpu_cores.state
    }

    open spec fn registration(&self) -> RegisterModel {
        RegisterModel {
            sensor_type: SensorType::Sensor,
            unique_id: "cpu_cores"@,
            name: "CPU Cores"@,
            state: JsonDoc::Integer(self.state as int),
            device_class: None,
            icon: Some("mdi:memory"@),
            unit_of_measurement: None,
            state_class: None,
            entity_category: None,
        }
    }

    open spec fn update(&self) -> UpdateModel {
        UpdateModel {
            sensor_type: SensorType::Sensor,
            unique_id: "cpu_cores"@,
            state: JsonDoc::Integer(self.state as int),
            icon: Some("mdi:memory"@),
        }
    }

    proof fn lemma_same_identity(&self) {
    }

    proof fn lemma_stable_identity(&self, later: &Self) {
    }

    fn new() -> (sensor: Self)
        ensures
            sensor.state == 0,
    {
        CpuCores { state: 0 }
    }

    fn get_current(provider: &CpuProvider) -> (read: Result<u32, SensorError>) {
        Ok(provider.cpu_cores.state)
    }

    fn get_register_info(&self) -> (message: SensorData<u32>) {
        let data = SensorRegisterData {
            sensor_type: SensorType::Sensor,
            unique_id: "cpu_cores".to_owned(),
            name: "CPU Cores".to_owned(),
            state: self.state,
            device_class: None,
            icon: Some("mdi:memory".to_owned()),
            unit_of_measurement: None,
            state_class: None,
            entity_category: None,
        };
        assert(data@ == self.registration());
        SensorData::RegisterSensor { data }
    }

    fn get_update_info(&self) -> (message: SensorData<u32>) {
        let data = SensorUpdateData {
            sensor_type: SensorType::Sensor,
            unique_id: "cpu_cores".to_owned(),
            state: self.state,
            icon: Some("mdi:memory".to_owned()),
        };
        assert(data@ == self.update());
        SensorData::UpdateSensorStates { data }
    }
}

} // verus!
