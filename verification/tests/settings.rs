use uplink::config::{get_config, Config, ConfigError, Defaults, Role};

fn args(words: &[&str]) -> Vec<String> {
    words.iter().map(|w| w.to_string()).collect()
}

fn no_defaults() -> Defaults {
    Defaults { mode: None, address: None, passphrase: None, no_envelope: false }
}

#[test]
fn arguments_give_mode_address_and_switches() {
    let config = get_config(&args(&["uplink", "server", "127.0.0.1:8080", "--no-exec"]), None, no_defaults());
    assert_eq!(
        config,
        Config {
            mode: Some("server".to_string()),
            address: Some("127.0.0.1:8080".to_string()),
            passphrase: "default_passphrase".to_string(),
            no_exec: true,
            no_transfer: false,
            no_envelope: false,
        }
    );
    assert_eq!(config.role(), Ok(Role::Server("127.0.0.1:8080".to_string())));
}

#[test]
fn the_environment_passphrase_comes_before_the_embedded_one() {
    let defaults = Defaults {
        mode: Some("client".to_string()),
        address: Some("10.0.0.1:9".to_string()),
        passphrase: Some("built in".to_string()),
        no_envelope: true,
    };
    let config = get_config(&args(&["uplink"]), Some("from env".to_string()), defaults);
    assert_eq!(config.passphrase, "from env");
    assert_eq!(config.role(), Ok(Role::Client("10.0.0.1:9".to_string())));
    assert!(config.no_envelope);
    assert!(!config.no_transfer);

    let defaults = Defaults { mode: None, address: None, passphrase: Some("built in".to_string()), no_envelope: false };
    let config = get_config(&args(&["uplink", "client", "h:1", "--no-transfer", "--no-envelope"]), None, defaults);
    assert_eq!(config.passphrase, "built in");
    assert!(config.no_transfer && config.no_envelope && !config.no_exec);
}

#[test]
fn a_mode_without_address_and_an_unknown_mode_are_refused() {
    assert_eq!(get_config(&args(&["uplink", "server"]), None, no_defaults()).role(), Err(ConfigError::MissingAddress));
    assert_eq!(get_config(&args(&["uplink", "client"]), None, no_defaults()).role(), Err(ConfigError::MissingAddress));
    assert_eq!(get_config(&args(&["uplink"]), None, no_defaults()).role(), Err(ConfigError::InvalidMode));
    assert_eq!(get_config(&args(&["uplink", "proxy", "a:1"]), None, no_defaults()).role(), Err(ConfigError::InvalidMode));
    assert_eq!(get_config(&args(&[]), None, no_defaults()).role(), Err(ConfigError::InvalidMode));
}
