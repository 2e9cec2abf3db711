use rusty_hass_laptop::{Config, ConfigError, APP_ID, APP_VERSION, CONFIG_FILE};
use serde_json::Value;

fn defaults() -> Config {
    Config::for_host(String::from("host"), String::from("Linux"), String::from("6.1"))
}

fn same(left: &Config, right: &Config) -> bool {
    left.config_file == right.config_file
        && left.auth_token == right.auth_token
        && left.webhook_id == right.webhook_id
        && left.webhook_secret == right.webhook_secret
        && left.hass_address == right.hass_address
        && left.device_id == right.device_id
        && left.app_id == right.app_id
        && left.app_name == right.app_name
        && left.app_version == right.app_version
        && left.device_name == right.device_name
        && left.manufacturer == right.manufacturer
        && left.model == right.model
        && left.os_name == right.os_name
        && left.os_version == right.os_version
        && left.support_encryption == right.support_encryption
}

#[test]
fn lib_serialize_test() {
    let config = match Config::detect(String::from("rodriguess")) {
        Ok(config) => config,
        Err(error) => {
            assert_eq!(error, ConfigError::HostUnknown);
            defaults()
        }
    };
    println!("serialized = {}", config.to_json());
    assert_eq!(serde_json::from_str::<Value>(&config.to_json().to_string()).unwrap(), config.to_json());
}

#[test]
fn deserialize_test() {
    let reader = String::from(
        r#"{"auth_token":null,"webhook_id":null,"hass_address":null,"device_id":"rodriguess","app_version":"0.1.0","device_name":"rodriguess","manufacturer":"Unknown","model":"Unknown","os_name":"Linux","os_version":"5.14.16-zen1-1-zen"}"#,
    );
    let config: Config = Config::from_json_text(&reader, defaults()).unwrap();
    println!("{:?}", config);
    assert_eq!(config.auth_token, None);
    assert_eq!(config.webhook_id, None);
    assert_eq!(config.webhook_secret, None);
    assert_eq!(config.hass_address, None);
    assert_eq!(config.device_id, "rodriguess");
    assert_eq!(config.app_id, "rusty_hass_laptop");
    assert_eq!(config.app_name, "Rusty Hass Laptop");
    assert_eq!(config.app_version, "0.1.0");
    assert_eq!(config.device_name, "rodriguess");
    assert_eq!(config.manufacturer, "Unknown");
    assert_eq!(config.model, "Unknown");
    assert_eq!(config.os_name, "Linux");
    assert_eq!(config.os_version, "5.14.16-zen1-1-zen");
    assert!(!config.support_encryption);
    assert_eq!(config.config_file, None);
}

#[test]
fn read_test() {
    let config = match Config::detect(String::from("rodriguess")) {
        Ok(config) => config,
        Err(_) => defaults(),
    };
    println!("serialized = {}", config.to_json_text());
    assert!(same(&Config::from_json_text(&config.to_json_text(), defaults()).unwrap(), &config));
}

#[test]
fn defaults_are_made_of_what_the_host_says() {
    let config = Config::for_host(
        String::from("rodriguess"),
        String::from("Linux"),
        String::from("5.14.16-zen1-1-zen"),
    );
    assert_eq!(config.config_file, None);
    assert_eq!(config.auth_token, None);
    assert_eq!(config.webhook_id, None);
    assert_eq!(config.webhook_secret, None);
    assert_eq!(config.hass_address, None);
    assert_eq!(config.device_id, "rodriguess_Linux");
    assert_eq!(config.app_id, "rusty_hass_laptop");
    assert_eq!(config.app_name, "Rusty Hass Laptop");
    assert_eq!(config.app_version, "0.1.0");
    assert_eq!(config.device_name, "rodriguess");
    assert_eq!(config.manufacturer, "Unknown");
    assert_eq!(config.model, "Unknown");
    assert_eq!(config.os_name, "Linux");
    assert_eq!(config.os_version, "5.14.16-zen1-1-zen");
    assert!(!config.support_encryption);
    assert_eq!(APP_ID, "rusty_hass_laptop");
    assert_eq!(APP_VERSION, "0.1.0");
    assert_eq!(CONFIG_FILE, "config.json");

    let named = Config::host_defaults(
        String::from("h"),
        String::from("os"),
        String::from("1"),
        String::from("My Agent"),
    );
    assert_eq!(named.app_name, "My Agent");
    assert_eq!(named.device_id, "h_os");
    assert_eq!(named.device_name, "h");
    assert_eq!(named.os_name, "os");
    assert_eq!(named.os_version, "1");
}

#[test]
fn this_machine_has_defaults() {
    match Config::detect(String::from("rodriguess")) {
        Ok(config) => {
            assert_eq!(config.device_name, "rodriguess");
            assert_eq!(config.device_id, format!("rodriguess_{}", config.os_name));
            assert_eq!(config.app_id, "rusty_hass_laptop");
            assert_eq!(config.app_version, "0.1.0");
            assert_eq!(config.manufacturer, "Unknown");
            assert_eq!(config.model, "Unknown");
            assert!(!config.support_encryption);
            assert_eq!(config.app_name, "Rusty Hass Laptop");
            assert_eq!(config.webhook_id, None);
            assert_eq!(config.auth_token, None);
        }
        Err(error) => assert_eq!(error, ConfigError::HostUnknown),
    }
    if let Some(path) = Config::default_path() {
        assert!(path.ends_with("/config.json"));
        assert!(path.contains("rusty_hass_laptop"));
    }
    assert_eq!(Config::path_in("/home/alice/.config/app"), "/home/alice/.config/app/config.json");
    assert_eq!(Config::path_in(""), "/config.json");
    assert_eq!(
        Config::path_under(Some(String::from("/home/alice/.config/app"))).as_deref(),
        Some("/home/alice/.config/app/config.json")
    );
    assert_eq!(Config::path_under(None), None);
}

#[test]
fn the_agent_starts_with_what_it_finds() {
    let (config, save) = Config::startup(None, None, defaults()).unwrap();
    assert!(same(&config, &defaults()));
    assert!(!save);

    let (config, save) =
        Config::startup(None, Some(String::from(r#"{"model":"X1"}"#)), defaults()).unwrap();
    assert!(same(&config, &defaults()));
    assert!(!save);

    let (config, save) = Config::startup(Some(String::from("/p/config.json")), None, defaults()).unwrap();
    assert!(same(&config, &defaults()));
    assert_eq!(config.config_file, None);
    assert!(save);

    let (config, save) = Config::startup(
        Some(String::from("/p/config.json")),
        Some(String::from(r#"{"model":"X1","webhook_id":"w","hass_address":"http://hub"}"#)),
        defaults(),
    )
    .unwrap();
    assert!(!save);
    assert_eq!(config.config_file.as_deref(), Some("/p/config.json"));
    assert_eq!(config.model, "X1");
    assert_eq!(config.webhook_id.as_deref(), Some("w"));
    assert_eq!(config.hass_address.as_deref(), Some("http://hub"));
    assert_eq!(config.device_id, "host_Linux");

    match Config::startup(
        Some(String::from("/p/config.json")),
        Some(String::from("not json")),
        defaults(),
    ) {
        Err(error) => assert_eq!(error, ConfigError::Malformed),
        Ok(_) => panic!("a text that is no JSON was read"),
    }
}

#[test]
fn the_saved_text_is_indented_json() {
    let mut config = defaults();
    config.config_file = Some(String::from("/somewhere/config.json"));
    config.webhook_id = Some(String::from("abc"));
    let expected = r#"{
  "app_id": "rusty_hass_laptop",
  "app_name": "Rusty Hass Laptop",
  "app_version": "0.1.0",
  "auth_token": null,
  "device_id": "host_Linux",
  "device_name": "host",
  "hass_address": null,
  "manufacturer": "Unknown",
  "model": "Unknown",
  "os_name": "Linux",
  "os_version": "6.1",
  "support_encryption": false,
  "webhook_id": "abc"
}"#;
    assert_eq!(config.to_json_text(), expected);

    config.webhook_secret = Some(String::from("s"));
    config.support_encryption = true;
    config.auth_token = Some(String::from("t"));
    config.hass_address = Some(String::from("http://hub"));
    assert_eq!(
        config.to_json().to_string(),
        r#"{"app_id":"rusty_hass_laptop","app_name":"Rusty Hass Laptop","app_version":"0.1.0","auth_token":"t","device_id":"host_Linux","device_name":"host","hass_address":"http://hub","manufacturer":"Unknown","model":"Unknown","os_name":"Linux","os_version":"6.1","support_encryption":true,"webhook_id":"abc","webhook_secret":"s"}"#
    );
}

#[test]
fn what_is_saved_is_what_is_read() {
    let mut config = defaults();
    config.auth_token = Some(String::from("token \"quoted\" \\ \u{e9}"));
    config.webhook_id = Some(String::from("abc"));
    config.webhook_secret = Some(String::from("secret"));
    config.hass_address = Some(String::from("http://hub.local:8123"));
    config.manufacturer = String::from("ACME");
    config.support_encryption = true;
    let other = Config::for_host(String::from("x"), String::from("y"), String::from("z"));
    let back = Config::from_json_text(&config.to_json_text(), other).unwrap();
    assert!(same(&back, &config));
    assert_eq!(back.webhook_id.as_deref(), Some("abc"));

    let copy = config.clone();
    assert!(same(&copy, &config));

    let mut placed = Config::for_host(String::from("x"), String::from("y"), String::from("z"));
    placed.config_file = Some(String::from("/here"));
    placed.webhook_secret = Some(String::from("kept"));
    let bare = defaults();
    let back = Config::from_json(&bare.to_json(), placed).unwrap();
    assert_eq!(back.config_file.as_deref(), Some("/here"));
    assert_eq!(back.webhook_secret.as_deref(), Some("kept"));
    assert_eq!(back.device_id, "host_Linux");
}

#[test]
fn members_that_are_missing_come_from_the_defaults() {
    let mut base = defaults();
    base.auth_token = Some(String::from("t"));
    base.hass_address = Some(String::from("http://hub"));
    base.webhook_id = Some(String::from("w"));
    base.support_encryption = true;

    let config = Config::from_json_text("{}", base.clone()).unwrap();
    assert!(same(&config, &base));

    let config = Config::from_json_text(
        r#"{"auth_token":null,"model":"X1","support_encryption":false,"unknown":[1,2.5,{"a":null}]}"#,
        base.clone(),
    )
    .unwrap();
    assert_eq!(config.auth_token, None);
    assert_eq!(config.model, "X1");
    assert!(!config.support_encryption);
    assert_eq!(config.hass_address.as_deref(), Some("http://hub"));
    assert_eq!(config.webhook_id.as_deref(), Some("w"));
    assert_eq!(config.device_id, "host_Linux");
}

#[test]
fn a_text_of_another_shape_is_malformed() {
    let texts = [
        "",
        "{",
        "[]",
        "null",
        "\"text\"",
        "17",
        r#"{"device_id":null}"#,
        r#"{"device_id":5}"#,
        r#"{"model":["X1"]}"#,
        r#"{"auth_token":5}"#,
        r#"{"webhook_id":false}"#,
        r#"{"webhook_secret":{}}"#,
        r#"{"hass_address":1.5}"#,
        r#"{"support_encryption":"yes"}"#,
        r#"{"support_encryption":null}"#,
        r#"{"app_id":true}"#,
        r#"{"app_name":0}"#,
        r#"{"app_version":1}"#,
        r#"{"device_name":[]}"#,
        r#"{"manufacturer":{}}"#,
        r#"{"os_name":null}"#,
        r#"{"os_version":-1}"#,
    ];
    for text in texts {
        match Config::from_json_text(text, defaults()) {
            Err(error) => assert_eq!(error, ConfigError::Malformed, "text {}", text),
            Ok(config) => panic!("text {} was read as {:?}", text, config),
        }
    }
    let value = serde_json::from_str::<Value>(r#"["a"]"#).unwrap();
    assert!(matches!(Config::from_json(&value, defaults()), Err(ConfigError::Malformed)));
}

#[test]
fn save_test() {
    let config = match Config::detect(String::from("rodriguess")) {
        Ok(config) => config,
        Err(_) => defaults(),
    };
    let text = config.to_json_text();
    assert!(text.starts_with("{\n  \"app_id\": \"rusty_hass_laptop\""));
    assert!(text.ends_with("\n}"));
    assert!(same(&Config::from_json_text(&text, defaults()).unwrap(), &config));
}
