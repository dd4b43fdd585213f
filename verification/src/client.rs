//! A client of Firecracker's API socket: how Firecracker is launched for it,
//! and the method and path of each request it makes.
use vstd::prelude::*;
use vstd::string::*;
use crate::jailer::{push_str_arg, push_string_arg, views};

verus! {

/// A client of one Firecracker process.
#[derive(Debug)]
pub struct FirecrackerClient {
    /// The API socket.
    pub socket_path: String,
    /// The Firecracker binary.
    pub firecracker_binary_path: String,
}

/// An HTTP client over a Unix socket (its state lives where it connects).
#[derive(Debug)]
pub struct HttpUnixClient {}

/// A request the client makes.
#[derive(Debug)]
pub enum ClientRequest {
    GetBalloon,
    PutBalloon,
    PutGuestBootSource,
    /// A drive, by its id.
    PutGuestDriveById(String),
    PutMachineConfiguration,
    PutLogger,
    /// A network interface, by its id.
    PutGuestNetworkInterfaceById(String),
    CreateSyncAction,
}

/// The HTTP method of a request: `GET` to read the balloon, `PUT` otherwise.
pub open spec fn request_method(r: ClientRequest) -> Seq<char> {
    match r {
        ClientRequest::GetBalloon => "GET"@,
        _ => "PUT"@,
    }
}

/// The path a request is sent to. (Sync actions go to `actions`, without a
/// leading slash.)
pub open spec fn request_path(r: ClientRequest) -> Seq<char> {
    match r {
        ClientRequest::GetBalloon => "/balloon"@,
        ClientRequest::PutBalloon => "/balloon"@,
        ClientRequest::PutGuestBootSource => "/boot-source"@,
        ClientRequest::PutGuestDriveById(id) => "/drives/"@ + id@,
        ClientRequest::PutMachineConfiguration => "/machine-config"@,
        ClientRequest::PutLogger => "/logger"@,
        ClientRequest::PutGuestNetworkInterfaceById(id) => "/network-interfaces/"@ + id@,
        ClientRequest::CreateSyncAction => "actions"@,
    }
}

/// The error text when Firecracker answers a request with an error; `None`
/// for reading the balloon, whose answer is the balloon itself.
pub open spec fn request_failure(r: ClientRequest) -> Option<Seq<char>> {
    match r {
        ClientRequest::GetBalloon => None,
        ClientRequest::PutBalloon => Some("putBalloon"@),
        ClientRequest::PutGuestBootSource => Some("putGuestBootSource"@),
        ClientRequest::PutGuestDriveById(_) => Some("putGuestDriveByID"@),
        ClientRequest::PutMachineConfiguration => Some("putMachineConfiguration"@),
        ClientRequest::PutLogger => Some("putLogger"@),
        ClientRequest::PutGuestNetworkInterfaceById(_) => Some("putGuestNetworkInterfaceByID"@),
        ClientRequest::CreateSyncAction => Some("createSyncAction"@),
    }
}

fn prefixed(prefix: &str, id: &String) -> (s: String)
    ensures
        s@ == prefix@ + id@,
{
    let mut s = String::from_str(prefix);
    s.append(id.as_str());
    s
}

impl ClientRequest {
    /// The request's HTTP method.
    pub fn method(&self) -> (m: String)
        ensures
            m@ == request_method(*self),
    {
        match self {
            ClientRequest::GetBalloon => String::from_str("GET"),
            _ => String::from_str("PUT"),
        }
    }

    /// The path the request is sent to.
    pub fn path(&self) -> (p: String)
        ensures
            p@ == request_path(*self),
    {
        match self {
            ClientRequest::GetBalloon => String::from_str("/balloon"),
            ClientRequest::PutBalloon => String::from_str("/balloon"),
            ClientRequest::PutGuestBootSource => String::from_str("/boot-source"),
            ClientRequest::PutGuestDriveById(id) => prefixed("/drives/", id),
            ClientRequest::PutMachineConfiguration => String::from_str("/machine-config"),
            ClientRequest::PutLogger => String::from_str("/logger"),
            ClientRequest::PutGuestNetworkInterfaceById(id) => prefixed("/network-interfaces/", id),
            ClientRequest::CreateSyncAction => String::from_str("actions"),
        }
    }

    /// What a request comes to once Firecracker's answer is read: an answer
    /// that reads as Firecracker's error fails a `PUT` with the request's
    /// error text; any other answer succeeds.
    pub fn outcome(&self, answer_is_error: bool) -> (r: Result<(), String>)
        ensures
            match request_failure(*self) {
                Some(t) => if answer_is_error { r matches Err(e) && e@ == t } else { r is Ok },
                None => r is Ok,
            },
    {
        let text = match self {
            ClientRequest::GetBalloon => {
                return Ok(());
            },
            ClientRequest::PutBalloon => "putBalloon",
            ClientRequest::PutGuestBootSource => "putGuestBootSource",
            ClientRequest::PutGuestDriveById(_) => "putGuestDriveByID",
            ClientRequest::PutMachineConfiguration => "putMachineConfiguration",
            ClientRequest::PutLogger => "putLogger",
            ClientRequest::PutGuestNetworkInterfaceById(_) => "putGuestNetworkInterfaceByID",
            ClientRequest::CreateSyncAction => "createSyncAction",
        };
        if answer_is_error {
            Err(String::from_str(text))
        } else {
            Ok(())
        }
    }
}

impl FirecrackerClient {
    /// The API socket's path.
    pub fn get_socket_path(&self) -> (p: String)
        ensures
            p == self.socket_path,
    {
        self.socket_path.clone()
    }

    /// A client for the Firecracker binary at `firecracker_binary_path`,
    /// reached at `socket_path`.
    pub fn new(socket_path: String, firecracker_binary_path: String) -> (c: Self)
        ensures
            c.socket_path == socket_path,
            c.firecracker_binary_path == firecracker_binary_path,
    {
        FirecrackerClient { socket_path, firecracker_binary_path }
    }

    /// How Firecracker is launched for this client: `sudo` running the
    /// binary on the API socket.
    pub fn launch_command(&self) -> (r: (String, Vec<String>))
        ensures
            r.0@ == "sudo"@,
            views(r.1@) == seq![self.firecracker_binary_path@, "--api-sock"@, self.socket_path@],
    {
        let mut args: Vec<String> = Vec::new();
        push_string_arg(&mut args, self.firecracker_binary_path.clone());
        push_str_arg(&mut args, "--api-sock");
        push_string_arg(&mut args, self.socket_path.clone());
        (String::from_str("sudo"), args)
    }
}

} // verus!
