use inlretro::bootload::{accept_device, check_version, is_programmer_id, strings_match, FirmwareVersion};
use inlretro::cli::{parse_command_line, parse_console, parse_number, parse_u16, CliError, Console};
use inlretro::transport::DumpError;

fn args(list: &[&str]) -> Vec<String> {
    list.iter().map(|s| s.to_string()).collect()
}

#[test]
fn full_command_line() {
    let o = parse_command_line(&args(&["prog", "-c", "NES", "-m", "nrom", "-x", "32", "-y", "8", "-d", "out.nes", "-a", "save.srm"])).unwrap();
    assert_eq!(o.console, "NES");
    assert_eq!(o.mapper, "nrom");
    assert_eq!(o.prg_size, 32);
    assert_eq!(o.chr_size, 8);
    assert_eq!(o.filename, "out.nes");
    assert_eq!(o.savefile, "save.srm");
}

#[test]
fn command_line_defaults_and_unknown_arguments() {
    let o = parse_command_line(&args(&["prog", "-c", "snes", "extra", "-q"])).unwrap();
    assert_eq!(o.console, "snes");
    assert_eq!(o.filename, "");
    assert_eq!(o.savefile, "");
    assert_eq!(o.prg_size, 0);
    let o = parse_command_line(&args(&["prog", "-x", "16", "-x", "64"])).unwrap();
    assert_eq!(o.prg_size, 64);
}

#[test]
fn command_line_errors() {
    assert_eq!(parse_command_line(&args(&["prog"])).unwrap_err(), CliError::NotEnoughArguments);
    assert_eq!(parse_command_line(&args(&[])).unwrap_err(), CliError::NotEnoughArguments);
    assert_eq!(parse_command_line(&args(&["prog", "-h"])).unwrap_err(), CliError::Help);
    assert_eq!(parse_command_line(&args(&["prog", "-c", "nes", "--help"])).unwrap_err(), CliError::Help);
    assert_eq!(parse_command_line(&args(&["prog", "-c"])).unwrap_err(), CliError::MissingValue(1));
    assert_eq!(
        parse_command_line(&args(&["prog", "-x", "big"])).unwrap_err(),
        CliError::InvalidNumber("big".to_string())
    );
}

#[test]
fn numbers() {
    assert_eq!(parse_number(&"32".to_string()), Ok(32));
    assert_eq!(parse_number(&"+7".to_string()), Ok(7));
    assert_eq!(parse_number(&"0065535".to_string()), Ok(65535));
    assert_eq!(parse_number(&"65536".to_string()), Err(CliError::InvalidNumber("65536".to_string())));
    assert_eq!(parse_number(&"".to_string()), Err(CliError::InvalidNumber("".to_string())));
    assert_eq!(parse_number(&"+".to_string()), Err(CliError::InvalidNumber("+".to_string())));
    assert_eq!(parse_number(&"-1".to_string()), Err(CliError::InvalidNumber("-1".to_string())));
    assert_eq!(parse_number(&"1 ".to_string()), Err(CliError::InvalidNumber("1 ".to_string())));
    assert_eq!(parse_u16("99999999999999999999"), None);
    assert_eq!(parse_u16("0"), Some(0));
}

#[test]
fn numbers_agree_with_std() {
    for s in ["0", "1", "+12", "00", "65535", "65536", "-0", "", "+", "1x", "٣", "4294967297", "+0099"] {
        assert_eq!(parse_u16(s), s.parse::<u16>().ok(), "{:?}", s);
    }
}

#[test]
fn consoles_in_any_case() {
    assert_eq!(parse_console("nes"), Some(Console::Nes));
    assert_eq!(parse_console("SNES"), Some(Console::Snes));
    assert_eq!(parse_console("Gb"), Some(Console::Gb));
    assert_eq!(parse_console("GBA"), Some(Console::Gba));
    assert_eq!(parse_console("Genesis"), Some(Console::Genesis));
    assert_eq!(parse_console("n64"), None);
}

#[test]
fn firmware_version_gate() {
    assert!(check_version(&FirmwareVersion { major: 2, minor: 3, sub_minor: 0 }));
    assert!(check_version(&FirmwareVersion { major: 2, minor: 0, sub_minor: 1 }));
    assert!(!check_version(&FirmwareVersion { major: 2, minor: 0, sub_minor: 0 }));
    assert!(!check_version(&FirmwareVersion { major: 1, minor: 9, sub_minor: 9 }));
    assert!(check_version(&FirmwareVersion { major: 3, minor: 1, sub_minor: 0 }));
}

#[test]
fn device_identity() {
    assert!(is_programmer_id(0x16C0, 0x05DC));
    assert!(!is_programmer_id(0x16C0, 0x05DD));
    let m = "InfiniteNesLives.com".to_string();
    let p = "INL Retro-Prog".to_string();
    assert!(strings_match(&m, &p));
    assert!(!strings_match(&p, &m));
    let v = FirmwareVersion { major: 2, minor: 3, sub_minor: 0 };
    assert_eq!(accept_device(true, &v), Ok(()));
    assert_eq!(accept_device(false, &v), Err(DumpError::Configuration));
    assert_eq!(accept_device(true, &FirmwareVersion { major: 1, minor: 3, sub_minor: 0 }), Err(DumpError::Version));
}
