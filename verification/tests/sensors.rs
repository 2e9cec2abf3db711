use rusty_hass_laptop::sensors::battery::{BatteryLevel, BatteryProvider};
use rusty_hass_laptop::sensors::cpu::{CpuCores, CpuFreq, CpuProvider, CpuReading};
use rusty_hass_laptop::sensors::{
    Provider, Sensor, SensorData, SensorError, SensorRegisterData, SensorType, SensorUpdateData,
    StateValue,
};
use serde_json::Value;

fn parsed(text: &str) -> Value {
    serde_json::from_str::<Value>(text).unwrap()
}

#[test]
fn mod_serialize_test() {
    let req = SensorData::UpdateSensorStates::<u32> {
        data: SensorUpdateData {
            sensor_type: SensorType::Sensor,
            unique_id: String::from("battery_level"),
            state: 32,
            icon: None,
        },
    };
    println!("serialized = {}", req.to_json_text());
    assert_eq!(
        req.to_json_text(),
        r#"{"data":{"state":32,"type":"sensor","unique_id":"battery_level"},"type":"update_sensor_states"}"#
    );
}

#[test]
fn batlevel_test() {
    match BatteryProvider::new() {
        Ok(bat_info) => {
            println!("serialized = {}", bat_info.level.get_register_info().to_json_text());
            println!("serialized = {}", bat_info.level.get_update_info().to_json_text());
        }
        Err(error) => assert_eq!(error, SensorError::SourceUnavailable),
    }
    let bat_info = BatteryProvider::from_reading(Some(32)).unwrap();
    println!("serialized = {}", bat_info.level.get_register_info().to_json_text());
    println!("serialized = {}", bat_info.level.get_update_info().to_json_text());
}

#[test]
fn battery_icon_follows_the_table_at_every_boundary() {
    let table: [(u8, &str); 24] = [
        (0, "mdi:battery-alert-outline"),
        (5, "mdi:battery-alert-outline"),
        (10, "mdi:battery-alert-outline"),
        (11, "mdi:battery-20"),
        (20, "mdi:battery-20"),
        (21, "mdi:battery-30"),
        (30, "mdi:battery-30"),
        (31, "mdi:battery-40"),
        (40, "mdi:battery-40"),
        (41, "mdi:battery-50"),
        (50, "mdi:battery-50"),
        (51, "mdi:battery-60"),
        (60, "mdi:battery-60"),
        (61, "mdi:battery-70"),
        (70, "mdi:battery-70"),
        (71, "mdi:battery-80"),
        (80, "mdi:battery-80"),
        (81, "mdi:battery-90"),
        (90, "mdi:battery-90"),
        (91, "mdi:battery"),
        (100, "mdi:battery"),
        (101, "mdi:battery-unknown"),
        (200, "mdi:battery-unknown"),
        (255, "mdi:battery-unknown"),
    ];
    for (state, icon) in table {
        let level = BatteryLevel { state };
        assert_eq!(level.icon(), icon, "state {}", state);
        match level.get_update_info() {
            SensorData::UpdateSensorStates { data } => {
                assert_eq!(data.icon.as_deref(), Some(icon), "state {}", state);
                assert_eq!(data.state, state);
            }
            SensorData::RegisterSensor { .. } => panic!("an update was asked for"),
        }
    }
}

#[test]
fn battery_icon_is_one_of_the_table_for_every_state() {
    for state in 0..=255u8 {
        let icon = BatteryLevel { state }.icon();
        let expected = match state {
            91..=100 => "mdi:battery",
            81..=90 => "mdi:battery-90",
            71..=80 => "mdi:battery-80",
            61..=70 => "mdi:battery-70",
            51..=60 => "mdi:battery-60",
            41..=50 => "mdi:battery-50",
            31..=40 => "mdi:battery-40",
            21..=30 => "mdi:battery-30",
            11..=20 => "mdi:battery-20",
            0..=10 => "mdi:battery-alert-outline",
            _ => "mdi:battery-unknown",
        };
        assert_eq!(icon, expected);
    }
}

#[test]
fn battery_level_five_end_to_end() {
    let provider = BatteryProvider::from_reading(Some(5)).unwrap();
    assert_eq!(BatteryLevel::get_current(&provider), Ok(5));

    let registration = parsed(&provider.level.get_register_info().to_json_text());
    assert_eq!(registration["type"], "register_sensor");
    assert_eq!(registration["data"]["icon"], "mdi:battery-alert-outline");
    assert_eq!(registration["data"]["unit_of_measurement"], "%");
    assert_eq!(registration["data"]["name"], "Battery Level");
    assert_eq!(registration["data"]["state"], 5);

    let update = parsed(&provider.level.get_update_info().to_json_text());
    assert_eq!(update["type"], "update_sensor_states");
    assert_eq!(update["data"]["icon"], registration["data"]["icon"]);
    assert_eq!(update["data"]["state"], 5);
    let data = update["data"].as_object().unwrap();
    assert!(!data.contains_key("name"));
    assert!(!data.contains_key("unit_of_measurement"));
    assert!(!data.contains_key("device_class"));
    assert_eq!(data.len(), 4);
}

#[test]
fn battery_messages_as_exact_text() {
    let level = BatteryLevel { state: 5 };
    assert_eq!(
        level.get_register_info().to_json_text(),
        r#"{"data":{"icon":"mdi:battery-alert-outline","name":"Battery Level","state":5,"type":"sensor","unique_id":"battery_level","unit_of_measurement":"%"},"type":"register_sensor"}"#
    );
    assert_eq!(
        level.get_update_info().to_json_text(),
        r#"{"data":{"icon":"mdi:battery-alert-outline","state":5,"type":"sensor","unique_id":"battery_level"},"type":"update_sensor_states"}"#
    );
}

#[test]
fn cpu_cores_have_no_unit_and_cpu_frequency_is_in_mhz() {
    let provider =
        CpuProvider::from_reading(Some(CpuReading { cores: 8, speed: 2400 })).unwrap();

    let cores = parsed(&provider.cpu_cores.get_register_info().to_json_text());
    assert!(!cores["data"].as_object().unwrap().contains_key("unit_of_measurement"));
    assert!(!cores["data"].as_object().unwrap().contains_key("device_class"));
    assert_eq!(cores["data"]["unique_id"], "cpu_cores");
    assert_eq!(cores["data"]["name"], "CPU Cores");
    assert_eq!(cores["data"]["icon"], "mdi:memory");
    assert_eq!(cores["data"]["state"], 8);

    let text = provider.cpu_freq.get_register_info().to_json_text();
    assert!(text.contains(r#""unit_of_measurement":"MHz""#));
    let freq = parsed(&text);
    assert_eq!(freq["data"]["unit_of_measurement"], "MHz");
    assert_eq!(freq["data"]["device_class"], "frequency");
    assert_eq!(freq["data"]["unique_id"], "cpu_freq");
    assert_eq!(freq["data"]["name"], "CPU Frequency");
    assert_eq!(freq["data"]["icon"], "mdi:sine-wave");
    assert_eq!(freq["data"]["state"], 2400);
}

#[test]
fn cpu_messages_as_exact_text() {
    let cores = CpuCores { state: 4 };
    let freq = CpuFreq { state: 1800 };
    assert_eq!(
        cores.get_register_info().to_json_text(),
        r#"{"data":{"icon":"mdi:memory","name":"CPU Cores","state":4,"type":"sensor","unique_id":"cpu_cores"},"type":"register_sensor"}"#
    );
    assert_eq!(
        cores.get_update_info().to_json_text(),
        r#"{"data":{"icon":"mdi:memory","state":4,"type":"sensor","unique_id":"cpu_cores"},"type":"update_sensor_states"}"#
    );
    assert_eq!(
        freq.get_register_info().to_json_text(),
        r#"{"data":{"device_class":"frequency","icon":"mdi:sine-wave","name":"CPU Frequency","state":1800,"type":"sensor","unique_id":"cpu_freq","unit_of_measurement":"MHz"},"type":"register_sensor"}"#
    );
    assert_eq!(
        freq.get_update_info().to_json_text(),
        r#"{"data":{"icon":"mdi:sine-wave","state":1800,"type":"sensor","unique_id":"cpu_freq"},"type":"update_sensor_states"}"#
    );
}

#[test]
fn registration_survives_the_round_trip_through_json() {
    let message = SensorData::RegisterSensor::<u64> {
        data: SensorRegisterData {
            sensor_type: SensorType::BinarySensor,
            unique_id: String::from("lid \"main\" \\ \u{e9}\n"),
            name: String::from("Lid"),
            state: u64::MAX,
            device_class: Some(String::from("opening")),
            icon: None,
            unit_of_measurement: None,
            state_class: Some(String::from("measurement")),
            entity_category: Some(String::from("diagnostic")),
        },
    };
    let back = parsed(&message.to_json_text());
    assert_eq!(back, message.to_json());
    assert_eq!(back["type"], "register_sensor");
    assert_eq!(back["data"]["type"], "binary_sensor");
    assert_eq!(back["data"]["unique_id"], "lid \"main\" \\ \u{e9}\n");
    assert_eq!(back["data"]["state"].as_u64(), Some(u64::MAX));
    assert_eq!(back["data"]["state_class"], "measurement");
    assert_eq!(back["data"]["entity_category"], "diagnostic");
    assert_eq!(back["data"]["device_class"], "opening");
    assert_eq!(back["data"].as_object().unwrap().len(), 7);
}

#[test]
fn every_sensor_keeps_its_identity_through_json() {
    let battery = parsed(&BatteryLevel { state: 77 }.get_register_info().to_json_text());
    assert_eq!(battery["data"]["unique_id"], "battery_level");
    assert_eq!(battery["data"]["type"], "sensor");
    assert_eq!(battery["data"]["state"], 77);
    let update = parsed(&BatteryLevel { state: 77 }.get_update_info().to_json_text());
    assert_eq!(update["data"]["unique_id"], battery["data"]["unique_id"]);
    assert_eq!(update["data"]["type"], battery["data"]["type"]);
    assert_eq!(update["data"]["state"], battery["data"]["state"]);
}

#[test]
fn update_twice_without_refresh_gives_the_same_bytes() {
    let mut provider = BatteryProvider::from_reading(Some(64)).unwrap();
    let first = provider.level.get_update_info().to_json_text();
    let second = provider.level.get_update_info().to_json_text();
    assert_eq!(first.as_bytes(), second.as_bytes());

    provider.refresh_with(Some(12)).unwrap();
    let third = provider.level.get_update_info().to_json_text();
    assert_ne!(first, third);
    assert_eq!(third, provider.level.get_update_info().to_json_text());

    let cpu = CpuProvider::from_reading(Some(CpuReading { cores: 2, speed: 900 })).unwrap();
    assert_eq!(
        cpu.cpu_freq.get_update_info().to_json_text(),
        cpu.cpu_freq.get_update_info().to_json_text()
    );
    assert_eq!(
        cpu.cpu_cores.get_update_info().to_json_text(),
        cpu.cpu_cores.get_update_info().to_json_text()
    );
}

#[test]
fn icon_is_taken_anew_on_every_update() {
    let mut provider = BatteryProvider::from_reading(Some(95)).unwrap();
    assert!(provider.level.get_update_info().to_json_text().contains(r#""icon":"mdi:battery""#));
    provider.refresh_with(Some(15)).unwrap();
    assert!(provider.level.get_update_info().to_json_text().contains(r#""icon":"mdi:battery-20""#));
    provider.refresh_with(Some(130)).unwrap();
    assert!(provider
        .level
        .get_update_info()
        .to_json_text()
        .contains(r#""icon":"mdi:battery-unknown""#));
}

#[test]
fn a_battery_that_is_not_there_gives_no_provider() {
    match BatteryProvider::from_reading(None) {
        Err(error) => assert_eq!(error, SensorError::SourceUnavailable),
        Ok(_) => panic!("no battery was read"),
    }
    match CpuProvider::from_reading(None) {
        Err(error) => assert_eq!(error, SensorError::SourceUnavailable),
        Ok(_) => panic!("no processor was read"),
    }
}

#[test]
fn a_failed_reading_keeps_the_last_values() {
    let mut battery = BatteryProvider::from_reading(Some(42)).unwrap();
    assert_eq!(battery.refresh_with(None), Err(SensorError::ReadFailed));
    assert_eq!(battery.level.state, 42);
    assert_eq!(BatteryLevel::get_current(&battery), Ok(42));
    assert_eq!(battery.refresh_with(Some(43)), Ok(()));
    assert_eq!(battery.level.state, 43);

    let mut cpu = CpuProvider::from_reading(Some(CpuReading { cores: 4, speed: 3000 })).unwrap();
    assert_eq!(cpu.refresh_with(None), Err(SensorError::ReadFailed));
    assert_eq!(cpu.cpu_cores.state, 4);
    assert_eq!(cpu.cpu_freq.state, 3000);
    assert_eq!(cpu.refresh_with(Some(CpuReading { cores: 6, speed: 1200 })), Ok(()));
    assert_eq!(CpuCores::get_current(&cpu), Ok(6));
    assert_eq!(CpuFreq::get_current(&cpu), Ok(1200));
}

#[test]
fn new_sensors_start_at_zero() {
    assert_eq!(<BatteryLevel as Sensor<BatteryProvider>>::new().state, 0);
    assert_eq!(<CpuFreq as Sensor<CpuProvider>>::new().state, 0);
    assert_eq!(<CpuCores as Sensor<CpuProvider>>::new().state, 0);
}

#[test]
fn the_processor_of_this_machine() {
    match CpuProvider::new() {
        Ok(mut provider) => {
            assert_eq!(CpuCores::get_current(&provider), Ok(provider.cpu_cores.state));
            let cores = provider.cpu_cores.state;
            let speed = provider.cpu_freq.state;
            match provider.update_all() {
                Ok(()) => assert_eq!(provider.cpu_cores.state, cores),
                Err(error) => {
                    assert_eq!(error, SensorError::ReadFailed);
                    assert_eq!(provider.cpu_cores.state, cores);
                    assert_eq!(provider.cpu_freq.state, speed);
                }
            }
        }
        Err(error) => assert_eq!(error, SensorError::SourceUnavailable),
    }
}

#[test]
fn the_battery_of_this_machine() {
    match BatteryProvider::new() {
        Ok(mut provider) => {
            let before = provider.level.state;
            match provider.update_all() {
                Ok(()) => assert_eq!(BatteryLevel::get_current(&provider), Ok(provider.level.state)),
                Err(error) => {
                    assert_eq!(error, SensorError::ReadFailed);
                    assert_eq!(provider.level.state, before);
                }
            }
        }
        Err(error) => assert_eq!(error, SensorError::SourceUnavailable),
    }
}

#[test]
fn states_are_json_numbers() {
    assert_eq!(7u8.to_json(), Value::from(7u64));
    assert_eq!(70_000u32.to_json(), Value::from(70_000u64));
    assert_eq!(u64::MAX.to_json(), Value::from(u64::MAX));
    assert_eq!(String::from("on battery").to_json(), Value::from("on battery"));
    let message = SensorData::UpdateSensorStates::<String> {
        data: SensorUpdateData {
            sensor_type: SensorType::Sensor,
            unique_id: String::from("power_source"),
            state: String::from("mains"),
            icon: None,
        },
    };
    assert_eq!(
        message.to_json_text(),
        r#"{"data":{"state":"mains","type":"sensor","unique_id":"power_source"},"type":"update_sensor_states"}"#
    );
    assert_eq!(SensorType::Sensor.as_str(), "sensor");
    assert_eq!(SensorType::BinarySensor.as_str(), "binary_sensor");
}

#[test]
fn a_look_at_the_battery_comes_to_a_charge_or_to_none() {
    assert_eq!(BatteryProvider::reading_of(Ok(Some(37))), Some(37));
    assert_eq!(BatteryProvider::reading_of(Ok(Some(0))), Some(0));
    assert_eq!(BatteryProvider::reading_of(Ok(Some(255))), Some(255));
    assert_eq!(BatteryProvider::reading_of(Ok(None)), None);
    let refused = std::io::Error::from(std::io::ErrorKind::PermissionDenied);
    assert_eq!(BatteryProvider::reading_of(Err(battery::Error::from(refused))), None);
}

#[test]
fn two_looks_at_the_processor_come_to_one_reading_or_to_none() {
    assert_eq!(CpuReading::of(Ok(8), Ok(2400)), Some(CpuReading { cores: 8, speed: 2400 }));
    assert_eq!(CpuReading::of(Ok(0), Ok(0)), Some(CpuReading { cores: 0, speed: 0 }));
    assert_eq!(CpuReading::of(Err(sys_info::Error::Unknown), Ok(2400)), None);
    assert_eq!(CpuReading::of(Ok(8), Err(sys_info::Error::UnsupportedSystem)), None);
    assert_eq!(
        CpuReading::of(Err(sys_info::Error::Unknown), Err(sys_info::Error::Unknown)),
        None
    );
}
