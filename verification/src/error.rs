//! The crate's error type and the helpers that turn a missing configuration
//! entry into one.
use vstd::prelude::*;
use vstd::string::*;

verus! {

/// Errors in rustcracker; each carries a message.
#[derive(Debug)]
pub enum RtckError {
    Encode(String),
    Decode(String),
    Config(String),
    FilesysIO(String),
    Firecracker(String),
    Jailer(String),
    IO(String),
    Agent(String),
    Hypervisor(String),
    Machine(String),
}

/// The variant of an error, without its message.
#[derive(Clone, Copy, PartialEq, Eq, Structural, Debug)]
pub enum RtckErrorKind {
    Encode,
    Decode,
    Config,
    FilesysIO,
    Firecracker,
    Jailer,
    IO,
    Agent,
    Hypervisor,
    Machine,
}

/// An error as a variant and the text of its message.
pub open spec fn err_view(e: RtckError) -> (RtckErrorKind, Seq<char>) {
    match e {
        RtckError::Encode(m) => (RtckErrorKind::Encode, m@),
        RtckError::Decode(m) => (RtckErrorKind::Decode, m@),
        RtckError::Config(m) => (RtckErrorKind::Config, m@),
        RtckError::FilesysIO(m) => (RtckErrorKind::FilesysIO, m@),
        RtckError::Firecracker(m) => (RtckErrorKind::Firecracker, m@),
        RtckError::Jailer(m) => (RtckErrorKind::Jailer, m@),
        RtckError::IO(m) => (RtckErrorKind::IO, m@),
        RtckError::Agent(m) => (RtckErrorKind::Agent, m@),
        RtckError::Hypervisor(m) => (RtckErrorKind::Hypervisor, m@),
        RtckError::Machine(m) => (RtckErrorKind::Machine, m@),
    }
}

impl RtckError {
    /// The variant of this error.
    pub fn kind(&self) -> (k: RtckErrorKind)
        ensures
            k == err_view(*self).0,
    {
        match self {
            RtckError::Encode(_) => RtckErrorKind::Encode,
            RtckError::Decode(_) => RtckErrorKind::Decode,
            RtckError::Config(_) => RtckErrorKind::Config,
            RtckError::FilesysIO(_) => RtckErrorKind::FilesysIO,
            RtckError::Firecracker(_) => RtckErrorKind::Firecracker,
            RtckError::Jailer(_) => RtckErrorKind::Jailer,
            RtckError::IO(_) => RtckErrorKind::IO,
            RtckError::Agent(_) => RtckErrorKind::Agent,
            RtckError::Hypervisor(_) => RtckErrorKind::Hypervisor,
            RtckError::Machine(_) => RtckErrorKind::Machine,
        }
    }

    /// The message of this error.
    pub fn message(&self) -> (m: &String)
        ensures
            m@ == err_view(*self).1,
    {
        match self {
            RtckError::Encode(m) => m,
            RtckError::Decode(m) => m,
            RtckError::Config(m) => m,
            RtckError::FilesysIO(m) => m,
            RtckError::Firecracker(m) => m,
            RtckError::Jailer(m) => m,
            RtckError::IO(m) => m,
            RtckError::Agent(m) => m,
            RtckError::Hypervisor(m) => m,
            RtckError::Machine(m) => m,
        }
    }
}

/// The text an error is displayed as: a prefix naming its variant, then
/// its message.
pub open spec fn error_text(e: RtckError) -> Seq<char> {
    let (k, m) = err_view(e);
    match k {
        RtckErrorKind::Encode => "Fail to encode structs: "@ + m,
        RtckErrorKind::Decode => "Fail to decode payload: "@ + m,
        RtckErrorKind::Config => "Configure: "@ + m,
        RtckErrorKind::FilesysIO => "Filesys I/O: "@ + m,
        RtckErrorKind::Firecracker => "Firecracker: "@ + m,
        RtckErrorKind::Jailer => "Jailer: "@ + m,
        RtckErrorKind::IO => "IO error: "@ + m,
        RtckErrorKind::Agent => "Agent: "@ + m,
        RtckErrorKind::Hypervisor => "Hypervisor: "@ + m,
        RtckErrorKind::Machine => "Process: "@ + m,
    }
}

fn with_prefix(prefix: &str, m: &String) -> (s: String)
    ensures
        s@ == prefix@ + m@,
{
    let mut s = String::from_str(prefix);
    s.append(m.as_str());
    s
}

impl RtckError {
    /// The text this error is displayed as.
    pub fn to_text(&self) -> (s: String)
        ensures
            s@ == error_text(*self),
    {
        match self {
            RtckError::Encode(m) => with_prefix("Fail to encode structs: ", m),
            RtckError::Decode(m) => with_prefix("Fail to decode payload: ", m),
            RtckError::Config(m) => with_prefix("Configure: ", m),
            RtckError::FilesysIO(m) => with_prefix("Filesys I/O: ", m),
            RtckError::Firecracker(m) => with_prefix("Firecracker: ", m),
            RtckError::Jailer(m) => with_prefix("Jailer: ", m),
            RtckError::IO(m) => with_prefix("IO error: ", m),
            RtckError::Agent(m) => with_prefix("Agent: ", m),
            RtckError::Hypervisor(m) => with_prefix("Hypervisor: ", m),
            RtckError::Machine(m) => with_prefix("Process: ", m),
        }
    }
}

/// The error of decoding a null where a value was expected.
#[derive(Debug)]
pub struct UnexpectedNullError;

impl UnexpectedNullError {
    /// The text this error is displayed as.
    pub fn to_text(&self) -> (s: String)
        ensures
            s@ == "unexpected null; try decoding as an `Option`"@,
    {
        String::from_str("unexpected null; try decoding as an `Option`")
    }
}

/// The message for a missing configuration entry.
pub open spec fn missing_entry_text(name: Seq<char>) -> Seq<char> {
    "Missing "@ + name + " entry"@
}

fn missing_entry_message(name: &str) -> (s: String)
    ensures
        s@ == missing_entry_text(name@),
{
    let mut s = String::from_str("Missing ");
    s.append(name);
    s.append(" entry");
    s
}

/// The value of a required entry, or a configuration error naming it.
pub fn handle_entry<T: Clone>(option: &Option<T>, name: &str) -> (r: Result<T, RtckError>)
    ensures
        r is Ok <==> option is Some,
        r matches Ok(v) ==> cloned(option->0, v),
        r matches Err(e) ==> err_view(e) == (RtckErrorKind::Config, missing_entry_text(name@)),
{
    match option {
        Some(v) => Ok(v.clone()),
        None => Err(RtckError::Config(missing_entry_message(name))),
    }
}

/// The value of an optional entry, or the given default.
pub fn handle_entry_default<T: Clone>(entry: &Option<T>, default: T) -> (r: T)
    ensures
        entry is Some ==> cloned(entry->0, r),
        entry is None ==> r == default,
{
    match entry {
        Some(v) => v.clone(),
        None => default,
    }
}

/// A reference to a required entry, or a jailer error naming it.
pub fn handle_entry_ref<'a, T>(entry: &'a Option<T>, name: &str) -> (r: Result<&'a T, RtckError>)
    ensures
        r is Ok <==> entry is Some,
        r matches Ok(v) ==> *v == entry->0,
        r matches Err(e) ==> err_view(e) == (RtckErrorKind::Jailer, missing_entry_text(name@)),
{
    match entry {
        Some(v) => Ok(v),
        None => Err(RtckError::Jailer(missing_entry_message(name))),
    }
}

} // verus!
