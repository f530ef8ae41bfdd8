//! The failure kinds that every component reports.

use vstd::prelude::*;

verus! {

/// How a container operation failed.
#[derive(Debug, Clone, PartialEq, Eq)]
pub enum ContainerError {
    RootRequired,
    NamespaceSetup { message: String },
    Cgroup { message: String },
    Filesystem { message: String },
    Volume { message: String },
    Network { message: String },
    ProcessExecution { message: String },
    InvalidConfiguration { message: String },
    Io { message: String },
}

pub type ContainerResult<T> = Result<T, ContainerError>;

/// The tag of a [`ContainerError`], without its message.
#[derive(Debug, Clone, Copy, PartialEq, Eq, Structural)]
pub enum ErrorKind {
    RootRequired,
    NamespaceSetup,
    Cgroup,
    Filesystem,
    Volume,
    Network,
    ProcessExecution,
    InvalidConfiguration,
    Io,
}

/// A failure as a plain value: its kind and the characters of its message.
pub struct ErrorView {
    pub kind: ErrorKind,
    pub message: Seq<char>,
}

impl View for ContainerError {
    type V = ErrorView;

    open spec fn view(&self) -> ErrorView {
        match self {
            ContainerError::RootRequired => ErrorView {
                kind: ErrorKind::RootRequired,
                message: Seq::empty(),
            },
            ContainerError::NamespaceSetup { message } => ErrorView {
                kind: ErrorKind::NamespaceSetup,
                message: message@,
            },
            ContainerError::Cgroup { message } => ErrorView {
                kind: ErrorKind::Cgroup,
                message: message@,
            },
            ContainerError::Filesystem { message } => ErrorView {
                kind: ErrorKind::Filesystem,
                message: message@,
            },
            ContainerError::Volume { message } => ErrorView {
                kind: ErrorKind::Volume,
                message: message@,
            },
            ContainerError::Network { message } => ErrorView {
                kind: ErrorKind::Network,
                message: message@,
            },
            ContainerError::ProcessExecution { message } => ErrorView {
                kind: ErrorKind::ProcessExecution,
                message: message@,
            },
            ContainerError::InvalidConfiguration { message } => ErrorView {
                kind: ErrorKind::InvalidConfiguration,
                message: message@,
            },
            ContainerError::Io { message } => ErrorView { kind: ErrorKind::Io, message: message@ },
        }
    }
}

/// A result with its error replaced by the error's view.
pub open spec fn outcome_of<T>(r: ContainerResult<T>) -> Result<T, ErrorView> {
    match r {
        Ok(v) => Ok(v),
        Err(e) => Err(e@),
    }
}

/// The failure of the given kind with the given message. The kind
/// `RootRequired` has no message.
pub open spec fn error_of(kind: ErrorKind, message: Seq<char>) -> ErrorView {
    ErrorView {
        kind,
        message: if kind is RootRequired {
            Seq::empty()
        } else {
            message
        },
    }
}

/// The failure of kind `Network` with the given message.
pub open spec fn network_failure(message: Seq<char>) -> ErrorView {
    ErrorView { kind: ErrorKind::Network, message }
}

/// The failure of kind `ProcessExecution` with the given message.
pub open spec fn process_failure(message: Seq<char>) -> ErrorView {
    ErrorView { kind: ErrorKind::ProcessExecution, message }
}

/// The words that introduce a failure of each kind when it is shown to the user.
pub open spec fn kind_label(kind: ErrorKind) -> Seq<char> {
    match kind {
        ErrorKind::RootRequired => "Root privileges required"@,
        ErrorKind::NamespaceSetup => "Namespace setup error: "@,
        ErrorKind::Cgroup => "Cgroup error: "@,
        ErrorKind::Filesystem => "Filesystem error: "@,
        ErrorKind::Volume => "Volume error: "@,
        ErrorKind::Network => "Network error: "@,
        ErrorKind::ProcessExecution => "Process execution error: "@,
        ErrorKind::InvalidConfiguration => "Invalid configuration: "@,
        ErrorKind::Io => "IO error: "@,
    }
}

/// A failure as one line of text: the label of its kind, then its message.
pub open spec fn described(e: ErrorView) -> Seq<char> {
    kind_label(e.kind) + e.message
}

impl ContainerError {
    /// The failure of the given kind with the given message.
    pub fn of(kind: ErrorKind, message: String) -> (e: ContainerError)
        ensures
            e@ == error_of(kind, message@),
    {
        match kind {
            ErrorKind::RootRequired => ContainerError::RootRequired,
            ErrorKind::NamespaceSetup => ContainerError::NamespaceSetup { message },
            ErrorKind::Cgroup => ContainerError::Cgroup { message },
            ErrorKind::Filesystem => ContainerError::Filesystem { message },
            ErrorKind::Volume => ContainerError::Volume { message },
            ErrorKind::Network => ContainerError::Network { message },
            ErrorKind::ProcessExecution => ContainerError::ProcessExecution { message },
            ErrorKind::InvalidConfiguration => ContainerError::InvalidConfiguration { message },
            ErrorKind::Io => ContainerError::Io { message },
        }
    }

    /// A `ProcessExecution` failure with the given message.
    pub fn process_execution(message: String) -> (e: ContainerError)
        ensures
            e@ == process_failure(message@),
    {
        ContainerError::ProcessExecution { message }
    }

    /// A `Network` failure with the given message.
    pub fn network(message: String) -> (e: ContainerError)
        ensures
            e@ == network_failure(message@),
    {
        ContainerError::Network { message }
    }

    /// A copy of this failure.
    pub fn duplicate(&self) -> (e: ContainerError)
        ensures
            e@ == self@,
    {
        ContainerError::of(self.kind(), self.message())
    }

    /// The kind of this failure.
    pub fn kind(&self) -> (k: ErrorKind)
        ensures
            k == self@.kind,
    {
        match self {
            ContainerError::RootRequired => ErrorKind::RootRequired,
            ContainerError::NamespaceSetup { .. } => ErrorKind::NamespaceSetup,
            ContainerError::Cgroup { .. } => ErrorKind::Cgroup,
            ContainerError::Filesystem { .. } => ErrorKind::Filesystem,
            ContainerError::Volume { .. } => ErrorKind::Volume,
            ContainerError::Network { .. } => ErrorKind::Network,
            ContainerError::ProcessExecution { .. } => ErrorKind::ProcessExecution,
            ContainerError::InvalidConfiguration { .. } => ErrorKind::InvalidConfiguration,
            ContainerError::Io { .. } => ErrorKind::Io,
        }
    }

    /// The message this failure carries; empty for `RootRequired`.
    pub fn message(&self) -> (m: String)
        ensures
            m@ == self@.message,
    {
        match self {
            ContainerError::RootRequired => String::new(),
            ContainerError::NamespaceSetup { message } => message.clone(),
            ContainerError::Cgroup { message } => message.clone(),
            ContainerError::Filesystem { message } => message.clone(),
            ContainerError::Volume { message } => message.clone(),
            ContainerError::Network { message } => message.clone(),
            ContainerError::ProcessExecution { message } => message.clone(),
            ContainerError::InvalidConfiguration { message } => message.clone(),
            ContainerError::Io { message } => message.clone(),
        }
    }

    /// The failure as the one line of text that is shown to the user.
    pub fn describe(&self) -> (line: String)
        ensures
            line@ == described(self@),
    {
        let label: &str = match self {
            ContainerError::RootRequired => "Root privileges required",
            ContainerError::NamespaceSetup { .. } => "Namespace setup error: ",
            ContainerError::Cgroup { .. } => "Cgroup error: ",
            ContainerError::Filesystem { .. } => "Filesystem error: ",
            ContainerError::Volume { .. } => "Volume error: ",
            ContainerError::Network { .. } => "Network error: ",
            ContainerError::ProcessExecution { .. } => "Process execution error: ",
            ContainerError::InvalidConfiguration { .. } => "Invalid configuration: ",
            ContainerError::Io { .. } => "IO error: ",
        };
        let mut line = String::from_str(label);
        let message = self.message();
        line.append(message.as_str());
        line
    }
}

} // verus!
