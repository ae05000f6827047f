use connected_garage_controller::door::{str_equal, DoorError, DoorId};
use connected_garage_controller::registry::{ConfigError, DoorConfig, DoorEntry, Registry};

fn entry(door: DoorId, actuator: u8, trigger: u8, echo: u8, threshold: u64) -> DoorEntry {
    DoorEntry {
        door,
        config: DoorConfig {
            actuator_pin: actuator,
            trigger_pin: trigger,
            echo_pin: echo,
            open_threshold_um: threshold,
        },
    }
}

#[test]
fn parse_known_doors() {
    assert_eq!(DoorId::parse("left"), Ok(DoorId::Left));
    assert_eq!(DoorId::parse("middle"), Ok(DoorId::Middle));
    assert_eq!(DoorId::parse("right"), Ok(DoorId::Right));
}

#[test]
fn parse_rejects_unknown_door() {
    assert_eq!(DoorId::parse("Left"), Err(DoorError::UnknownDoorId));
    assert_eq!(DoorId::parse(""), Err(DoorError::UnknownDoorId));
    assert_eq!(DoorId::parse("lefty"), Err(DoorError::UnknownDoorId));
    assert_eq!(DoorId::parse("none"), Err(DoorError::UnknownDoorId));
}

#[test]
fn names_round_trip() {
    for d in [DoorId::Left, DoorId::Middle, DoorId::Right] {
        assert_eq!(DoorId::parse(d.name()), Ok(d));
    }
    assert_eq!(DoorId::Middle.name(), "middle");
}

#[test]
fn string_equality() {
    assert!(str_equal("abc", "abc"));
    assert!(!str_equal("abc", "abd"));
    assert!(!str_equal("abc", "ab"));
    assert!(str_equal("", ""));
}

#[test]
fn standard_registry_is_valid() {
    let r = Registry::standard();
    assert_eq!(r.len(), 3);
    assert_eq!(r.entry(0), entry(DoorId::Left, 16, 17, 27, 120_000));
    let cfg = r.get(DoorId::Right).unwrap();
    assert_eq!(cfg.open_threshold_um, 80_000);
    assert_eq!(cfg.trigger_pin, 5);
    assert_eq!(cfg.echo_pin, 6);
    assert!(Registry::new(vec![r.entry(0), r.entry(1), r.entry(2)]).is_ok());
}

#[test]
fn registry_lookup_of_unconfigured_door() {
    let r = Registry::new(vec![entry(DoorId::Left, 16, 17, 27, 120_000)]).unwrap();
    assert_eq!(r.get(DoorId::Middle), None);
    assert_eq!(r.get(DoorId::Left).unwrap().actuator_pin, 16);
}

#[test]
fn registry_rejects_zero_threshold() {
    let r = Registry::new(vec![
        entry(DoorId::Left, 16, 17, 27, 120_000),
        entry(DoorId::Middle, 20, 26, 19, 0),
    ]);
    assert_eq!(r.err(), Some(ConfigError::NonPositiveThreshold));
}

#[test]
fn registry_rejects_duplicate_door() {
    let r = Registry::new(vec![
        entry(DoorId::Left, 16, 17, 27, 120_000),
        entry(DoorId::Left, 20, 26, 19, 115_000),
    ]);
    assert_eq!(r.err(), Some(ConfigError::DuplicateDoor));
}

#[test]
fn registry_rejects_pins_shared_across_doors() {
    let r = Registry::new(vec![
        entry(DoorId::Left, 16, 17, 27, 120_000),
        entry(DoorId::Middle, 20, 17, 27, 115_000),
    ]);
    assert_eq!(r.err(), Some(ConfigError::SharedPin));
}

#[test]
fn registry_rejects_pins_shared_within_a_door() {
    let r = Registry::new(vec![entry(DoorId::Left, 16, 17, 17, 120_000)]);
    assert_eq!(r.err(), Some(ConfigError::SharedPin));
}

#[test]
fn empty_registry_is_accepted() {
    let r = Registry::new(vec![]).unwrap();
    assert_eq!(r.len(), 0);
}
