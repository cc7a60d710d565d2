use plnk::command::{Command, BLOCKED, UNBLOCKED, USAGE};
use plnk::config::{config_path, Config, HOME_ENV, PLNK_PARTIAL_PATH};
use plnk::error::{ErrorKind, PlnkError};

fn strings(items: &[&str]) -> Vec<String> {
    items.iter().map(|item| item.to_string()).collect()
}

#[test]
fn no_argument_blocks() {
    assert_eq!(Command::parse(&strings(&["plnk"])), Command::Block);
    assert_eq!(Command::parse(&[]), Command::Block);
}

#[test]
fn known_arguments() {
    assert_eq!(Command::parse(&strings(&["plnk", "u"])), Command::Unblock);
    assert_eq!(Command::parse(&strings(&["plnk", "h"])), Command::Help);
    assert_eq!(Command::parse(&strings(&["plnk", "help"])), Command::Help);
    assert_eq!(Command::parse(&strings(&["plnk", "u", "zzz"])), Command::Unblock);
}

#[test]
fn unknown_arguments_are_kept() {
    assert_eq!(Command::parse(&strings(&["plnk", "x"])), Command::Unknown("x".to_string()));
    assert_eq!(Command::parse(&strings(&["plnk", "U"])), Command::Unknown("U".to_string()));
    assert_eq!(Command::parse(&strings(&["plnk", ""])), Command::Unknown(String::new()));
    assert_eq!(
        Command::parse(&strings(&["plnk", "--help", "u"])),
        Command::Unknown("--help".to_string())
    );
}

#[test]
fn without_write_access_nothing_is_decided() {
    assert_eq!(Command::decide(false, &strings(&["plnk"])), Err(PlnkError::NotRoot));
    assert_eq!(Command::decide(false, &strings(&["plnk", "u"])), Err(PlnkError::NotRoot));
    assert_eq!(Command::decide(false, &strings(&["plnk", "help"])), Err(PlnkError::NotRoot));
    assert_eq!(Command::decide(false, &strings(&["plnk", "zzz"])), Err(PlnkError::NotRoot));
}

#[test]
fn with_write_access_the_arguments_decide() {
    assert_eq!(Command::decide(true, &strings(&["plnk"])), Ok(Command::Block));
    assert_eq!(Command::decide(true, &strings(&["plnk", "u"])), Ok(Command::Unblock));
    assert_eq!(Command::decide(true, &strings(&["plnk", "h"])), Ok(Command::Help));
    assert_eq!(
        Command::decide(true, &strings(&["plnk", "zzz"])),
        Ok(Command::Unknown("zzz".to_string()))
    );
}

#[test]
fn usage_and_messages() {
    let lines: Vec<&str> = USAGE.lines().collect();
    assert_eq!(
        lines,
        vec![
            "Usage: plnk [OPTION]",
            "Block or unblock URLs by modifying /etc/hosts",
            "",
            "Options:",
            "  u,            Restore original hosts file",
            "  h, help       Show this help message",
            "  (no args)     Block URLs from config",
        ]
    );
    assert!(USAGE.ends_with('\n'));
    assert_eq!(BLOCKED, "URLs blocked successfully");
    assert_eq!(UNBLOCKED, "URLs unblocked successfully");
}

#[test]
fn config_keeps_order_and_duplicates() {
    let given = strings(&["b.example", "a.example", "b.example"]);
    let config = Config::new(given.clone()).unwrap();
    assert_eq!(config.blocked_domains, given);
    assert_eq!(Config::new(Vec::new()), Ok(Config { blocked_domains: Vec::new() }));
}

#[test]
fn config_refuses_blank_domains() {
    assert_eq!(Config::new(strings(&[""])), Err(PlnkError::EmptyDomain));
    assert_eq!(Config::new(strings(&["a.example", "   "])), Err(PlnkError::EmptyDomain));
    assert_eq!(Config::new(strings(&["\t\n", "a.example"])), Err(PlnkError::EmptyDomain));
    assert_eq!(Config::new(strings(&["a", "b", "\u{3000}"])), Err(PlnkError::EmptyDomain));
    assert!(Config::new(strings(&[" a ", "b c"])).is_ok());
}

#[test]
fn config_path_lies_below_home() {
    assert_eq!(config_path("/home/ann"), "/home/ann/.config/plnk/config.toml");
    assert_eq!(config_path(""), "/.config/plnk/config.toml");
    assert_eq!(config_path("/root/"), "/root//.config/plnk/config.toml");
    assert_eq!(HOME_ENV, "HOME");
    assert_eq!(PLNK_PARTIAL_PATH, ".config/plnk/config.toml");
}

#[test]
fn every_error_has_its_kind() {
    assert_eq!(PlnkError::HomeNotSet.kind(), ErrorKind::Config);
    assert_eq!(PlnkError::ConfigUnreadable("p".to_string()).kind(), ErrorKind::Config);
    assert_eq!(PlnkError::ConfigMalformed("m".to_string()).kind(), ErrorKind::Config);
    assert_eq!(PlnkError::EmptyDomain.kind(), ErrorKind::Config);
    assert_eq!(PlnkError::NotRoot.kind(), ErrorKind::Permission);
    assert_eq!(PlnkError::HostsUnreadable.kind(), ErrorKind::Hosts);
    assert_eq!(PlnkError::HostsNotWritable.kind(), ErrorKind::Hosts);
    assert_eq!(PlnkError::BackupSourceUnreadable.kind(), ErrorKind::Backup);
    assert_eq!(PlnkError::BackupNotWritten.kind(), ErrorKind::Backup);
    assert_eq!(PlnkError::NoBackupFound.kind(), ErrorKind::Restore);
    assert_eq!(PlnkError::RestoreFailed.kind(), ErrorKind::Restore);
    assert_eq!(PlnkError::EmptyDomainSet.kind(), ErrorKind::IllegalState);
    assert_eq!(PlnkError::AlreadyBlocked.kind(), ErrorKind::IllegalState);
    assert_eq!(PlnkError::InvalidArgument.kind(), ErrorKind::IllegalState);
}

#[test]
fn kinds_have_labels() {
    assert_eq!(ErrorKind::Config.label(), "Config error");
    assert_eq!(ErrorKind::Permission.label(), "Permission denied");
    assert_eq!(ErrorKind::Hosts.label(), "Hosts file error");
    assert_eq!(ErrorKind::Backup.label(), "Backup error");
    assert_eq!(ErrorKind::Restore.label(), "Restore error");
    assert_eq!(ErrorKind::IllegalState.label(), "Illegal state");
}

#[test]
fn messages() {
    assert_eq!(PlnkError::HomeNotSet.message(), "Environment variable HOME not set");
    assert_eq!(
        PlnkError::ConfigUnreadable("/home/ann/.config/plnk/config.toml".to_string()).message(),
        "Failed to read config file: /home/ann/.config/plnk/config.toml"
    );
    assert_eq!(
        PlnkError::ConfigMalformed("expected `=`".to_string()).message(),
        "Failed to parse config: expected `=`"
    );
    assert_eq!(PlnkError::EmptyDomain.message(), "Empty domain found in config");
    assert_eq!(PlnkError::NotRoot.message(), "must run as root");
    assert_eq!(PlnkError::HostsUnreadable.message(), "cannot read hosts file");
    assert_eq!(PlnkError::HostsNotWritable.message(), "Cannot write to hosts file");
    assert_eq!(PlnkError::BackupSourceUnreadable.message(), "cannot read host file");
    assert_eq!(PlnkError::BackupNotWritten.message(), "cannot create backup file");
    assert_eq!(PlnkError::NoBackupFound.message(), "no backup file found");
    assert_eq!(PlnkError::RestoreFailed.message(), "cannot restore hosts file from backup");
    assert_eq!(PlnkError::EmptyDomainSet.message(), "No domain to block");
    assert_eq!(PlnkError::AlreadyBlocked.message(), "URLs already blocked");
    assert_eq!(PlnkError::InvalidArgument.message(), "Invalid argument");
}

#[test]
fn reports_start_with_the_kind() {
    assert_eq!(PlnkError::AlreadyBlocked.describe(), "Illegal state: URLs already blocked");
    assert_eq!(PlnkError::NotRoot.describe(), "Permission denied: must run as root");
    assert_eq!(PlnkError::HostsUnreadable.describe(), "Hosts file error: cannot read hosts file");
    assert_eq!(PlnkError::BackupNotWritten.describe(), "Backup error: cannot create backup file");
    assert_eq!(PlnkError::NoBackupFound.describe(), "Restore error: no backup file found");
    assert_eq!(
        PlnkError::ConfigUnreadable("/x".to_string()).describe(),
        "Config error: Failed to read config file: /x"
    );
}
