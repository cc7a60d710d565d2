//! What can go wrong, by kind, and how each failure reads.

use vstd::prelude::*;
use vstd::string::StringExecFns;

verus! {

/// The kinds of failure.
#[derive(Clone, Copy, Debug, PartialEq, Eq, Structural)]
pub enum ErrorKind {
    /// The configuration is missing, unreadable or malformed, or names an
    /// empty domain.
    Config,
    /// The process may not write to the host file.
    Permission,
    /// The host file cannot be read or written.
    Hosts,
    /// The copy of the host file cannot be made.
    Backup,
    /// The host file cannot be restored from its copy.
    Restore,
    /// What was asked for does not fit the state of the host file, or the
    /// request itself.
    IllegalState,
}

/// A failure. Each one ends the operation in which it comes up.
#[derive(Clone, Debug, PartialEq, Eq)]
pub enum PlnkError {
    /// The variable that names the home directory is not set.
    HomeNotSet,
    /// The configuration file at the given path cannot be read.
    ConfigUnreadable(String),
    /// The configuration file does not parse; the text says why.
    ConfigMalformed(String),
    /// A configured domain is empty or blank.
    EmptyDomain,
    /// The host file cannot be opened for writing.
    NotRoot,
    /// The host file cannot be read.
    HostsUnreadable,
    /// The entries cannot be appended to the host file.
    HostsNotWritable,
    /// The host file cannot be read to copy it.
    BackupSourceUnreadable,
    /// The copy of the host file cannot be written.
    BackupNotWritten,
    /// There is no copy to restore the host file from.
    NoBackupFound,
    /// The copy cannot be moved onto the host file.
    RestoreFailed,
    /// No domain was given to block.
    EmptyDomainSet,
    /// The host file already redirects one of the domains.
    AlreadyBlocked,
    /// The command line holds an argument that is not known.
    InvalidArgument,
}

impl ErrorKind {
    /// How the kind reads at the start of a report.
    pub open spec fn label_text(self) -> Seq<char> {
        match self {
            ErrorKind::Config => "Config error"@,
            ErrorKind::Permission => "Permission denied"@,
            ErrorKind::Hosts => "Hosts file error"@,
            ErrorKind::Backup => "Backup error"@,
            ErrorKind::Restore => "Restore error"@,
            ErrorKind::IllegalState => "Illegal state"@,
        }
    }

    /// How the kind reads at the start of a report.
    pub fn label(&self) -> (text: &'static str)
        ensures
            text@ == self.label_text(),
    {
        match self {
            ErrorKind::Config => "Config error",
            ErrorKind::Permission => "Permission denied",
            ErrorKind::Hosts => "Hosts file error",
            ErrorKind::Backup => "Backup error",
            ErrorKind::Restore => "Restore error",
            ErrorKind::IllegalState => "Illegal state",
        }
    }
}

impl PlnkError {
    /// The kind of the failure.
    pub open spec fn kind_of(self) -> ErrorKind {
        match self {
            PlnkError::HomeNotSet => ErrorKind::Config,
            PlnkError::ConfigUnreadable(_) => ErrorKind::Config,
            PlnkError::ConfigMalformed(_) => ErrorKind::Config,
            PlnkError::EmptyDomain => ErrorKind::Config,
            PlnkError::NotRoot => ErrorKind::Permission,
            PlnkError::HostsUnreadable => ErrorKind::Hosts,
            PlnkError::HostsNotWritable => ErrorKind::Hosts,
            PlnkError::BackupSourceUnreadable => ErrorKind::Backup,
            PlnkError::BackupNotWritten => ErrorKind::Backup,
            PlnkError::NoBackupFound => ErrorKind::Restore,
            PlnkError::RestoreFailed => ErrorKind::Restore,
            PlnkError::EmptyDomainSet => ErrorKind::IllegalState,
            PlnkError::AlreadyBlocked => ErrorKind::IllegalState,
            PlnkError::InvalidArgument => ErrorKind::IllegalState,
        }
    }

    /// What the failure says, without its kind.
    pub open spec fn message_text(self) -> Seq<char> {
        match self {
            PlnkError::HomeNotSet => "Environment variable HOME not set"@,
            PlnkError::ConfigUnreadable(path) => "Failed to read config file: "@ + path@,
            PlnkError::ConfigMalformed(reason) => "Failed to parse config: "@ + reason@,
            PlnkError::EmptyDomain => "Empty domain found in config"@,
            PlnkError::NotRoot => "must run as root"@,
            PlnkError::HostsUnreadable => "cannot read hosts file"@,
            PlnkError::HostsNotWritable => "Cannot write to hosts file"@,
            PlnkError::BackupSourceUnreadable => "cannot read host file"@,
            PlnkError::BackupNotWritten => "cannot create backup file"@,
            PlnkError::NoBackupFound => "no backup file found"@,
            PlnkError::RestoreFailed => "cannot restore hosts file from backup"@,
            PlnkError::EmptyDomainSet => "No domain to block"@,
            PlnkError::AlreadyBlocked => "URLs already blocked"@,
            PlnkError::InvalidArgument => "Invalid argument"@,
        }
    }

    /// The report of the failure: the label of its kind, a colon and a
    /// space, and what it says.
    pub open spec fn report(self) -> Seq<char> {
        self.kind_of().label_text() + ": "@ + self.message_text()
    }

    /// The kind of the failure.
    pub fn kind(&self) -> (kind: ErrorKind)
        ensures
            kind == self.kind_of(),
    {
        match self {
            PlnkError::HomeNotSet => ErrorKind::Config,
            PlnkError::ConfigUnreadable(_) => ErrorKind::Config,
            PlnkError::ConfigMalformed(_) => ErrorKind::Config,
            PlnkError::EmptyDomain => ErrorKind::Config,
            PlnkError::NotRoot => ErrorKind::Permission,
            PlnkError::HostsUnreadable => ErrorKind::Hosts,
            PlnkError::HostsNotWritable => ErrorKind::Hosts,
            PlnkError::BackupSourceUnreadable => ErrorKind::Backup,
            PlnkError::BackupNotWritten => ErrorKind::Backup,
            PlnkError::NoBackupFound => ErrorKind::Restore,
            PlnkError::RestoreFailed => ErrorKind::Restore,
            PlnkError::EmptyDomainSet => ErrorKind::IllegalState,
            PlnkError::AlreadyBlocked => ErrorKind::IllegalState,
            PlnkError::InvalidArgument => ErrorKind::IllegalState,
        }
    }

    /// What the failure says, without its kind.
    pub fn message(&self) -> (text: String)
        ensures
            text@ == self.message_text(),
    {
        match self {
            PlnkError::HomeNotSet => String::from_str("Environment variable HOME not set"),
            PlnkError::ConfigUnreadable(path) => String::from_str(
                "Failed to read config file: ",
            ).concat(path.as_str()),
            PlnkError::ConfigMalformed(reason) => String::from_str(
                "Failed to parse config: ",
            ).concat(reason.as_str()),
            PlnkError::EmptyDomain => String::from_str("Empty domain found in config"),
            PlnkError::NotRoot => String::from_str("must run as root"),
            PlnkError::HostsUnreadable => String::from_str("cannot read hosts file"),
            PlnkError::HostsNotWritable => String::from_str("Cannot write to hosts file"),
            PlnkError::BackupSourceUnreadable => String::from_str("cannot read host file"),
            PlnkError::BackupNotWritten => String::from_str("cannot create backup file"),
            PlnkError::NoBackupFound => String::from_str("no backup file found"),
            PlnkError::RestoreFailed => String::from_str("cannot restore hosts file from backup"),
            PlnkError::EmptyDomainSet => String::from_str("No domain to block"),
            PlnkError::AlreadyBlocked => String::from_str("URLs already blocked"),
            PlnkError::InvalidArgument => String::from_str("Invalid argument"),
        }
    }

    /// The report of the failure, as it is shown to the user.
    pub fn describe(&self) -> (text: String)
        ensures
            text@ == self.report(),
    {
        let message = self.message();
        String::from_str(self.kind().label()).concat(": ").concat(message.as_str())
    }
}

} // verus!
