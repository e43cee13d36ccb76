use battery_deck::battery::{
    activation_date_from, get_battery_info, get_battery_percent, get_charger_info,
    get_health_readings, get_is_plugged, get_realtime_readings, get_system_info, parse_hardware_value,
    parse_ioreg_bool, parse_ioreg_i32, parse_ioreg_u32, parse_memory_gb, parse_power_report,
    validate_settings, ChargeMode, Settings,
};

fn settings(min: u8, max: u8) -> Settings {
    Settings { min_charge: min, max_charge: max, adapter_sleep: false, magsafe_sync: true }
}

#[test]
fn default_settings_are_valid() {
    let d = Settings::default();
    assert_eq!(d, settings(40, 80));
    assert!(validate_settings(&d).is_ok());
}

#[test]
fn settings_errors_in_order() {
    assert_eq!(validate_settings(&settings(19, 80)), Err("min_charge must be at least 20".to_string()));
    assert_eq!(validate_settings(&settings(10, 40)), Err("min_charge must be at least 20".to_string()));
    assert_eq!(validate_settings(&settings(20, 49)), Err("max_charge must be at least 50".to_string()));
    assert_eq!(validate_settings(&settings(20, 101)), Err("Charge values must be 0-100".to_string()));
    assert_eq!(validate_settings(&settings(101, 100)), Err("Charge values must be 0-100".to_string()));
    assert_eq!(
        validate_settings(&settings(80, 80)),
        Err("min_charge must be less than max_charge".to_string())
    );
    assert!(validate_settings(&settings(20, 50)).is_ok());
    assert!(validate_settings(&settings(99, 100)).is_ok());
}

const HARDWARE: &str = "Hardware:\n\n    Hardware Overview:\n\n      Model Name: MacBook Pro\n      Model Identifier: Mac15,6\n      Chip: Apple M3 Pro\n      Total Number of Cores: 11\n      Memory: 18 GB\n      Serial Number (system): XXXX\n";

#[test]
fn reads_hardware_values() {
    assert_eq!(parse_hardware_value(HARDWARE, "Model Name"), Some("MacBook Pro".to_string()));
    assert_eq!(parse_hardware_value(HARDWARE, "Chip"), Some("Apple M3 Pro".to_string()));
    assert_eq!(parse_hardware_value(HARDWARE, "Processor Name"), None);
    assert_eq!(parse_hardware_value("Chip:   \nChip: M1\n", "Chip"), Some("M1".to_string()));
}

#[test]
fn reads_memory_sizes() {
    assert_eq!(parse_memory_gb("18 GB"), Some(18));
    assert_eq!(parse_memory_gb("8GB"), Some(8));
    assert_eq!(parse_memory_gb("about 32 gb"), Some(32));
    assert_eq!(parse_memory_gb("0 GB"), Some(0));
    assert_eq!(parse_memory_gb("16 MB"), None);
    assert_eq!(parse_memory_gb("lots GB"), None);
}

#[test]
fn system_info_from_report() {
    let info = get_system_info(Some(HARDWARE), Some("2024-01-02".to_string())).unwrap();
    assert_eq!(info.model_name, "MacBook Pro");
    assert_eq!(info.chip, "Apple M3 Pro");
    assert_eq!(info.memory_gb, 18);
    assert_eq!(info.activation_date, Some("2024-01-02".to_string()));
    let empty = get_system_info(Some(""), None).unwrap();
    assert_eq!(empty.model_name, "Mac");
    assert_eq!(empty.chip, "Apple Silicon");
    assert_eq!(empty.memory_gb, 0);
    let intel = get_system_info(Some("Processor Name: Quad-Core Intel Core i7\n"), None).unwrap();
    assert_eq!(intel.chip, "Quad-Core Intel Core i7");
    assert!(get_system_info(None, None).is_none());
}

#[test]
fn activation_date_is_trimmed() {
    assert_eq!(activation_date_from(Some("2023-05-06\n")), Some("2023-05-06".to_string()));
    assert_eq!(activation_date_from(Some(" \n")), None);
    assert_eq!(activation_date_from(None), None);
}

#[test]
fn reads_pmset_output() {
    let charging = "Now drawing from 'AC Power'\n -InternalBattery-0 (id=12345)\t85%; charging; 0:40 remaining present: true\n";
    assert_eq!(get_battery_info(Some(charging)), Some((85, true)));
    let discharging = "Now drawing from 'Battery Power'\n -InternalBattery-0 (id=1)\t42%; discharging; 3:10 remaining present: true\n";
    assert_eq!(get_battery_info(Some(discharging)), Some((42, false)));
    let held = " -InternalBattery-0 (id=1)\t80%; AC attached; not charging present: true\n";
    assert_eq!(get_battery_info(Some(held)), Some((80, false)));
    assert_eq!(get_battery_info(Some(" -InternalBattery-0 (id=1) no level\n")), None);
    assert_eq!(get_battery_info(Some("Now drawing from 'AC Power'\n")), None);
    assert_eq!(get_battery_info(None), None);
    assert_eq!(get_battery_percent(get_battery_info(Some(charging))), 85);
    assert_eq!(get_battery_percent(None), 0);
}

const IOREG: &str = "  |   \"ExternalConnected\" = Yes\n  |   \"IsCharging\" = No\n  |   \"Voltage\" = 12543\n  |   \"InstantAmperage\" = 0\n  |   \"Amperage\" = -1234\n  |   \"DesignCapacity\" = 6075\n  |   \"CycleCount\" = 87\n  |   \"ChargingVoltage\" = \"13050\"\n  |   \"ChargingCurrent\" = 3000\n";

#[test]
fn reads_ioreg_properties() {
    assert_eq!(parse_ioreg_u32(IOREG, "Voltage"), Some(12543));
    assert_eq!(parse_ioreg_u32(IOREG, "ChargingVoltage"), Some(13050));
    assert_eq!(parse_ioreg_u32(IOREG, "Amperage"), None);
    assert_eq!(parse_ioreg_i32(IOREG, "Amperage"), Some(-1234));
    assert_eq!(parse_ioreg_u32(IOREG, "Missing"), None);
    assert!(parse_ioreg_bool(IOREG, "ExternalConnected"));
    assert!(!parse_ioreg_bool(IOREG, "IsCharging"));
    assert!(!parse_ioreg_bool(IOREG, "Voltage"));
    assert!(get_is_plugged(Some(IOREG)));
    assert!(!get_is_plugged(None));
}

#[test]
fn regex_meta_characters_in_keys_are_literal() {
    let text = "\"A.B\" = 5\n\"AxB\" = 7\n";
    assert_eq!(parse_ioreg_u32(text, "A.B"), Some(5));
    assert_eq!(parse_ioreg_u32("\"AxB\" = 7\n", "A.B"), None);
}

#[test]
fn realtime_prefers_instant_amperage_unless_zero() {
    let r = get_realtime_readings(IOREG);
    assert_eq!(r.voltage, 12543);
    assert_eq!(r.amperage, -1234);
    assert!(!r.is_charging);
    assert!(r.external_connected);
    let r2 = get_realtime_readings("\"InstantAmperage\" = 250\n\"Amperage\" = 100\n");
    assert_eq!(r2.amperage, 250);
    assert_eq!(r2.voltage, 0);
}

#[test]
fn health_needs_design_capacity() {
    assert_eq!(get_health_readings(IOREG), Some((6075, 87)));
    assert_eq!(get_health_readings("\"CycleCount\" = 3\n"), None);
}

const POWER: &str = "Power:\n\n    AC Charger Information:\n\n      Connected: Yes\n      Wattage (W): 96\n      Name: 96W USB-C Power Adapter\n      Name: Other\n";

#[test]
fn charger_from_reports() {
    assert_eq!(parse_power_report(POWER), ("96W USB-C Power Adapter".to_string(), 96));
    assert_eq!(parse_power_report("Wattage (W): 30\nWattage (W): x\n"), (String::new(), 0));
    let c = get_charger_info(Some(IOREG), Some(POWER)).unwrap();
    assert_eq!(c.name, "96W USB-C Power Adapter");
    assert_eq!(c.wattage, 96);
    assert!(c.connected);
    assert_eq!(c.charging_voltage, 13050);
    assert_eq!(c.charging_current, 3000);
    let unnamed = get_charger_info(Some(IOREG), None).unwrap();
    assert_eq!(unnamed.name, "USB-C Power Adapter");
    assert_eq!(unnamed.wattage, 0);
    let off = get_charger_info(Some("\"ExternalConnected\" = No\n"), Some(POWER)).unwrap();
    assert_eq!(off.name, "—");
    assert!(!off.connected);
    assert_eq!(off.charging_voltage, 0);
    assert!(get_charger_info(None, Some(POWER)).is_none());
}

#[test]
fn charge_modes_compare() {
    assert_ne!(ChargeMode::Standard, ChargeMode::ToFull);
}
