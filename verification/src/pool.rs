//! The requests a pooled connection to Firecracker's API socket serves: the
//! text written for each, and what is handed back from the reply read.
use vstd::prelude::*;
use vstd::string::*;
use crate::http::{api_request_text, byte_len, http_request, res_into_parts, response_parts, status_lines_well_formed, status_text};
use crate::text::{decimal, lines};

verus! {

/// A request to Firecracker's API. Bodies are the JSON texts of what is put
/// or patched.
#[derive(Debug)]
pub enum PoolRequest {
    CreateSnapshot(String),
    CreateSyncAction(String),
    DescribeBalloonConfig,
    DescribeBalloonStats,
    DescribeInstance,
    GetExportVmConfig,
    GetFirecrackerVersion,
    GetMachineConfiguration,
    GetMmds,
    LoadSnapshot(String),
    PatchBalloonStatsInterval(String),
    PatchBalloon(String),
    PatchGuestDriveById { drive_id: String, body: String },
    PatchGuestNetworkInterfaceById { iface_id: String, body: String },
    PatchMachineConfiguration(String),
    PatchMmds(String),
    PatchVm(String),
    PutBalloon(String),
    PutCpuConfiguration(String),
    PutEntropyDevice(String),
    PutGuestBootSource(String),
    PutGuestDriveById { drive_id: String, body: String },
    PutGuestNetworkInterfaceById { iface_id: String, body: String },
    PutGuestVsock(String),
    PutLogger(String),
    PutMachineConfiguration(String),
    PutMetrics(String),
    PutMmdsConfig(String),
    PutMmds(String),
}

/// The method, path and body of a request.
pub open spec fn request_parts(r: PoolRequest) -> (Seq<char>, Seq<char>, Option<Seq<char>>) {
    match r {
        PoolRequest::CreateSnapshot(b) => ("PUT"@, "/snapshot/create"@, Some(b@)),
        PoolRequest::CreateSyncAction(b) => ("PUT"@, "/actions"@, Some(b@)),
        PoolRequest::DescribeBalloonConfig => ("GET"@, "/balloon"@, None),
        PoolRequest::DescribeBalloonStats => ("GET"@, "/balloon/statistics"@, None),
        PoolRequest::DescribeInstance => ("GET"@, "/"@, None),
        PoolRequest::GetExportVmConfig => ("GET"@, "/vm/config"@, None),
        PoolRequest::GetFirecrackerVersion => ("GET"@, "/version"@, None),
        PoolRequest::GetMachineConfiguration => ("GET"@, "/machine-config"@, None),
        PoolRequest::GetMmds => ("GET"@, "/mmds"@, None),
        PoolRequest::LoadSnapshot(b) => ("PUT"@, "/snapshot/load"@, Some(b@)),
        PoolRequest::PatchBalloonStatsInterval(b) => ("PATCH"@, "/balloon/statistics"@, Some(b@)),
        PoolRequest::PatchBalloon(b) => ("PATCH"@, "/balloon"@, Some(b@)),
        PoolRequest::PatchGuestDriveById { drive_id, body } => ("PATCH"@, "/drives/"@ + drive_id@, Some(body@)),
        PoolRequest::PatchGuestNetworkInterfaceById { iface_id, body } => ("PATCH"@, "/network-interfaces/"@ + iface_id@, Some(body@)),
        PoolRequest::PatchMachineConfiguration(b) => ("PATCH"@, "/machine-config"@, Some(b@)),
        PoolRequest::PatchMmds(b) => ("PATCH"@, "/mmds"@, Some(b@)),
        PoolRequest::PatchVm(b) => ("PATCH"@, "/vm"@, Some(b@)),
        PoolRequest::PutBalloon(b) => ("PUT"@, "/balloon"@, Some(b@)),
        PoolRequest::PutCpuConfiguration(b) => ("PUT"@, "/cpu-config"@, Some(b@)),
        PoolRequest::PutEntropyDevice(b) => ("PUT"@, "/entropy"@, Some(b@)),
        PoolRequest::PutGuestBootSource(b) => ("PUT"@, "/boot-source"@, Some(b@)),
        PoolRequest::PutGuestDriveById { drive_id, body } => ("PUT"@, "/drives/"@ + drive_id@, Some(body@)),
        PoolRequest::PutGuestNetworkInterfaceById { iface_id, body } => ("PUT"@, "/network-interfaces/"@ + iface_id@, Some(body@)),
        PoolRequest::PutGuestVsock(b) => ("PUT"@, "/vsock"@, Some(b@)),
        PoolRequest::PutLogger(b) => ("PUT"@, "/logger"@, Some(b@)),
        PoolRequest::PutMachineConfiguration(b) => ("PUT"@, "/machine-config"@, Some(b@)),
        PoolRequest::PutMetrics(b) => ("PUT"@, "/metrics"@, Some(b@)),
        PoolRequest::PutMmdsConfig(b) => ("PUT"@, "/mmds/config"@, Some(b@)),
        PoolRequest::PutMmds(b) => ("PUT"@, "/mmds"@, Some(b@)),
    }
}

/// Whether a request is answered with the reply's body (the reads) rather
/// than with its status.
pub open spec fn answers_with_body(r: PoolRequest) -> bool {
    request_parts(r).2 is None
}

/// The endpoints of Firecracker's API, by path: the method and path of
/// the endpoint each request is for.
pub open spec fn firecracker_endpoint(r: PoolRequest) -> (Seq<char>, Seq<char>) {
    match r {
        PoolRequest::DescribeInstance => ("GET"@, "/"@),
        PoolRequest::CreateSyncAction(_) => ("PUT"@, "/actions"@),
        PoolRequest::DescribeBalloonConfig => ("GET"@, "/balloon"@),
        PoolRequest::PutBalloon(_) => ("PUT"@, "/balloon"@),
        PoolRequest::PatchBalloon(_) => ("PATCH"@, "/balloon"@),
        PoolRequest::DescribeBalloonStats => ("GET"@, "/balloon/statistics"@),
        PoolRequest::PatchBalloonStatsInterval(_) => ("PATCH"@, "/balloon/statistics"@),
        PoolRequest::PutGuestBootSource(_) => ("PUT"@, "/boot-source"@),
        PoolRequest::PutCpuConfiguration(_) => ("PUT"@, "/cpu-config"@),
        PoolRequest::PutGuestDriveById { drive_id, .. } => ("PUT"@, "/drives/"@ + drive_id@),
        PoolRequest::PatchGuestDriveById { drive_id, .. } => ("PATCH"@, "/drives/"@ + drive_id@),
        PoolRequest::PutEntropyDevice(_) => ("PUT"@, "/entropy"@),
        PoolRequest::PutLogger(_) => ("PUT"@, "/logger"@),
        PoolRequest::GetMachineConfiguration => ("GET"@, "/machine-config"@),
        PoolRequest::PutMachineConfiguration(_) => ("PUT"@, "/machine-config"@),
        PoolRequest::PatchMachineConfiguration(_) => ("PATCH"@, "/machine-config"@),
        PoolRequest::PutMetrics(_) => ("PUT"@, "/metrics"@),
        PoolRequest::GetMmds => ("GET"@, "/mmds"@),
        PoolRequest::PutMmds(_) => ("PUT"@, "/mmds"@),
        PoolRequest::PatchMmds(_) => ("PATCH"@, "/mmds"@),
        PoolRequest::PutMmdsConfig(_) => ("PUT"@, "/mmds/config"@),
        PoolRequest::PutGuestNetworkInterfaceById { iface_id, .. } => ("PUT"@, "/network-interfaces/"@ + iface_id@),
        PoolRequest::PatchGuestNetworkInterfaceById { iface_id, .. } => ("PATCH"@, "/network-interfaces/"@ + iface_id@),
        PoolRequest::CreateSnapshot(_) => ("PUT"@, "/snapshot/create"@),
        PoolRequest::LoadSnapshot(_) => ("PUT"@, "/snapshot/load"@),
        PoolRequest::GetFirecrackerVersion => ("GET"@, "/version"@),
        PoolRequest::PatchVm(_) => ("PATCH"@, "/vm"@),
        PoolRequest::GetExportVmConfig => ("GET"@, "/vm/config"@),
        PoolRequest::PutGuestVsock(_) => ("PUT"@, "/vsock"@),
    }
}

/// The JSON text a request carries, if any.
pub open spec fn carried_json(r: PoolRequest) -> Option<Seq<char>> {
    match r {
        PoolRequest::PutGuestDriveById { body, .. } | PoolRequest::PatchGuestDriveById { body, .. }
        | PoolRequest::PutGuestNetworkInterfaceById { body, .. }
        | PoolRequest::PatchGuestNetworkInterfaceById { body, .. } => Some(body@),
        PoolRequest::CreateSnapshot(b) | PoolRequest::CreateSyncAction(b) | PoolRequest::LoadSnapshot(b)
        | PoolRequest::PatchBalloonStatsInterval(b) | PoolRequest::PatchBalloon(b)
        | PoolRequest::PatchMachineConfiguration(b) | PoolRequest::PatchMmds(b) | PoolRequest::PatchVm(b)
        | PoolRequest::PutBalloon(b) | PoolRequest::PutCpuConfiguration(b) | PoolRequest::PutEntropyDevice(b)
        | PoolRequest::PutGuestBootSource(b) | PoolRequest::PutGuestVsock(b) | PoolRequest::PutLogger(b)
        | PoolRequest::PutMachineConfiguration(b) | PoolRequest::PutMetrics(b) | PoolRequest::PutMmdsConfig(b)
        | PoolRequest::PutMmds(b) => Some(b@),
        _ => None,
    }
}

/// Every request goes to its endpoint with its method and carries, as its
/// body, exactly the JSON text it holds, which a `GET` never has; the
/// request line written is `<method> <path> HTTP/1.1`.
pub proof fn lemma_request_endpoints(r: PoolRequest)
    ensures
        request_parts(r).0 == firecracker_endpoint(r).0,
        request_parts(r).1 == firecracker_endpoint(r).1,
        request_parts(r).2 is None <==> firecracker_endpoint(r).0 == "GET"@,
        request_parts(r).2 == carried_json(r),
        (firecracker_endpoint(r).0 + " "@ + firecracker_endpoint(r).1 + " HTTP/1.1\r\n"@).is_prefix_of(
            api_request_text(request_parts(r).0, request_parts(r).1, request_parts(r).2)),
{
    reveal_strlit("GET");
    reveal_strlit("PUT");
    reveal_strlit("PATCH");
    assert("PUT"@[0] != "GET"@[0]);
    assert("PATCH"@.len() != "GET"@.len());
    let (m, p) = firecracker_endpoint(r);
    let line = m + " "@ + p + " HTTP/1.1\r\n"@;
    let head = line + "Content-Type: application/json\r\n"@;
    let t = api_request_text(request_parts(r).0, request_parts(r).1, request_parts(r).2);
    assert(m + " "@ + p + " HTTP/1.1\r\nContent-Type: application/json\r\n"@ =~= head) by {
        reveal_strlit(" HTTP/1.1\r\nContent-Type: application/json\r\n");
        reveal_strlit(" HTTP/1.1\r\n");
        reveal_strlit("Content-Type: application/json\r\n");
    }
    let rest = match request_parts(r).2 {
        Some(b) => "Content-Length: "@ + decimal(byte_len(b)) + "\r\n\r\n"@ + b,
        None => "\r\n"@,
    };
    assert(t =~= line + ("Content-Type: application/json\r\n"@ + rest));
    assert(line =~= t.subrange(0, line.len() as int));
}

/// What a pooled connection hands back for a request.
#[derive(Debug)]
pub enum PoolReply {
    /// The status code and its reason text.
    Status(String, String),
    /// The reply's body.
    Body(String),
}

fn joined(prefix: &str, id: &String) -> (s: String)
    ensures
        s@ == prefix@ + id@,
{
    let mut s = String::from_str(prefix);
    s.append(id.as_str());
    s
}

impl PoolRequest {
    /// The body a request carries, with the byte length it fits in.
    pub open spec fn body_fits(self) -> bool {
        request_parts(self).2 matches Some(b) ==> byte_len(b) <= usize::MAX
    }

    fn parts(&self) -> (r: (&'static str, String, Option<String>))
        ensures
            (r.0@, r.1@, match r.2 { Some(b) => Some(b@), None => None }) == request_parts(*self),
    {
        match self {
            PoolRequest::CreateSnapshot(b) => ("PUT", String::from_str("/snapshot/create"), Some(b.clone())),
            PoolRequest::CreateSyncAction(b) => ("PUT", String::from_str("/actions"), Some(b.clone())),
            PoolRequest::DescribeBalloonConfig => ("GET", String::from_str("/balloon"), None),
            PoolRequest::DescribeBalloonStats => ("GET", String::from_str("/balloon/statistics"), None),
            PoolRequest::DescribeInstance => ("GET", String::from_str("/"), None),
            PoolRequest::GetExportVmConfig => ("GET", String::from_str("/vm/config"), None),
            PoolRequest::GetFirecrackerVersion => ("GET", String::from_str("/version"), None),
            PoolRequest::GetMachineConfiguration => ("GET", String::from_str("/machine-config"), None),
            PoolRequest::GetMmds => ("GET", String::from_str("/mmds"), None),
            PoolRequest::LoadSnapshot(b) => ("PUT", String::from_str("/snapshot/load"), Some(b.clone())),
            PoolRequest::PatchBalloonStatsInterval(b) => ("PATCH", String::from_str("/balloon/statistics"), Some(b.clone())),
            PoolRequest::PatchBalloon(b) => ("PATCH", String::from_str("/balloon"), Some(b.clone())),
            PoolRequest::PatchGuestDriveById { drive_id, body } => ("PATCH", joined("/drives/", drive_id), Some(body.clone())),
            PoolRequest::PatchGuestNetworkInterfaceById { iface_id, body } => ("PATCH", joined("/network-interfaces/", iface_id), Some(body.clone())),
            PoolRequest::PatchMachineConfiguration(b) => ("PATCH", String::from_str("/machine-config"), Some(b.clone())),
            PoolRequest::PatchMmds(b) => ("PATCH", String::from_str("/mmds"), Some(b.clone())),
            PoolRequest::PatchVm(b) => ("PATCH", String::from_str("/vm"), Some(b.clone())),
            PoolRequest::PutBalloon(b) => ("PUT", String::from_str("/balloon"), Some(b.clone())),
            PoolRequest::PutCpuConfiguration(b) => ("PUT", String::from_str("/cpu-config"), Some(b.clone())),
            PoolRequest::PutEntropyDevice(b) => ("PUT", String::from_str("/entropy"), Some(b.clone())),
            PoolRequest::PutGuestBootSource(b) => ("PUT", String::from_str("/boot-source"), Some(b.clone())),
            PoolRequest::PutGuestDriveById { drive_id, body } => ("PUT", joined("/drives/", drive_id), Some(body.clone())),
            PoolRequest::PutGuestNetworkInterfaceById { iface_id, body } => ("PUT", joined("/network-interfaces/", iface_id), Some(body.clone())),
            PoolRequest::PutGuestVsock(b) => ("PUT", String::from_str("/vsock"), Some(b.clone())),
            PoolRequest::PutLogger(b) => ("PUT", String::from_str("/logger"), Some(b.clone())),
            PoolRequest::PutMachineConfiguration(b) => ("PUT", String::from_str("/machine-config"), Some(b.clone())),
            PoolRequest::PutMetrics(b) => ("PUT", String::from_str("/metrics"), Some(b.clone())),
            PoolRequest::PutMmdsConfig(b) => ("PUT", String::from_str("/mmds/config"), Some(b.clone())),
            PoolRequest::PutMmds(b) => ("PUT", String::from_str("/mmds"), Some(b.clone())),
        }
    }

    /// The text written to the socket for this request.
    pub fn request_text(&self) -> (s: String)
        requires
            self.body_fits(),
        ensures
            s@ == api_request_text(request_parts(*self).0, request_parts(*self).1, request_parts(*self).2),
    {
        let (m, p, b) = self.parts();
        http_request(m, p.as_str(), b)
    }

    /// What is handed back from the reply read for this request: the body
    /// for the reads, the status code and its reason text otherwise.
    pub fn reply(&self, response: String) -> (r: PoolReply)
        requires
            status_lines_well_formed(lines(response@)),
        ensures
            if answers_with_body(*self) {
                r matches PoolReply::Body(b) && b@ == response_parts(response@).1
            } else {
                r matches PoolReply::Status(c, t) && c@ == response_parts(response@).0 && t@ == status_text(c@)
            },
    {
        let (_m, _p, b) = self.parts();
        let (code, text, body) = res_into_parts(response);
        if b.is_none() {
            PoolReply::Body(body)
        } else {
            PoolReply::Status(code, text)
        }
    }
}

} // verus!
