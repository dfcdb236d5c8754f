//! The closed set of calls that the management service offers, each with the
//! parameters that its endpoint takes.

use vstd::prelude::*;
use vstd::string::*;

verus! {

/// One call of the management service.
///
/// Field names are the query parameter names that the service expects, letter
/// for letter, which is why they do not follow the usual naming style.
#[allow(non_snake_case)]
#[allow(inconsistent_fields)]
#[derive(Debug, PartialEq, Eq)]
pub enum Operation {
    Start,
    Stop,
    Restart,
    Kill,
    GetLiveServiceInfo,
    GetAvailableOS,
    ReinstallOs { os: String },
    ResetRootPassword,
    GetUsageGraphs,
    GetRawUsageStats,
    SetHostname { newHostname: String },
    SetPtr { ip: String, ptr: String },
    BasicShellCd { currentDir: String, newDir: String },
    BasicShellExec { command: String },
    ShellScriptExec { script: String },
    SnapshotCreate { description: Option<String> },
    SnapshotList,
    SnapshotDelete { snapshot: String },
    SnapshotRestore { snapshot: String },
    SnapshotToggleSticky { snapshot: String, sticky: bool },
    SnapshotExport { snapshot: String },
    SnapshotImport { sourceVeid: String, sourceToken: String },
    Ipv6Add { ip: Option<String> },
    Ipv6Delete { ip: String },
    MigrateGetLocations,
    MigrateStart { location: String },
    CloneFromExternalServer {
        externalServerIP: String,
        externalServerSSHport: String,
        externalServerRootPassword: String,
    },
    GetSuspensionDetails,
    Unsuspend { record_id: String },
    GetRateLimitStatus,
}

/// What an [`Operation`] is, with every text as a sequence of characters.
#[allow(non_snake_case)]
#[allow(inconsistent_fields)]
pub ghost enum OperationView {
    Start,
    Stop,
    Restart,
    Kill,
    GetLiveServiceInfo,
    GetAvailableOS,
    ReinstallOs { os: Seq<char> },
    ResetRootPassword,
    GetUsageGraphs,
    GetRawUsageStats,
    SetHostname { newHostname: Seq<char> },
    SetPtr { ip: Seq<char>, ptr: Seq<char> },
    BasicShellCd { currentDir: Seq<char>, newDir: Seq<char> },
    BasicShellExec { command: Seq<char> },
    ShellScriptExec { script: Seq<char> },
    SnapshotCreate { description: Option<Seq<char>> },
    SnapshotList,
    SnapshotDelete { snapshot: Seq<char> },
    SnapshotRestore { snapshot: Seq<char> },
    SnapshotToggleSticky { snapshot: Seq<char>, sticky: bool },
    SnapshotExport { snapshot: Seq<char> },
    SnapshotImport { sourceVeid: Seq<char>, sourceToken: Seq<char> },
    Ipv6Add { ip: Option<Seq<char>> },
    Ipv6Delete { ip: Seq<char> },
    MigrateGetLocations,
    MigrateStart { location: Seq<char> },
    CloneFromExternalServer {
        externalServerIP: Seq<char>,
        externalServerSSHport: Seq<char>,
        externalServerRootPassword: Seq<char>,
    },
    GetSuspensionDetails,
    Unsuspend { record_id: Seq<char> },
    GetRateLimitStatus,
}

/// The characters of an optional text.
pub open spec fn optional_text(text: Option<String>) -> Option<Seq<char>> {
    match text {
        Some(text) => Some(text@),
        None => None,
    }
}

impl View for Operation {
    type V = OperationView;

    #[allow(non_snake_case)]
    open spec fn view(&self) -> OperationView {
        match *self {
            Operation::Start => OperationView::Start,
            Operation::Stop => OperationView::Stop,
            Operation::Restart => OperationView::Restart,
            Operation::Kill => OperationView::Kill,
            Operation::GetLiveServiceInfo => OperationView::GetLiveServiceInfo,
            Operation::GetAvailableOS => OperationView::GetAvailableOS,
            Operation::ReinstallOs { os } => OperationView::ReinstallOs { os: os@ },
            Operation::ResetRootPassword => OperationView::ResetRootPassword,
            Operation::GetUsageGraphs => OperationView::GetUsageGraphs,
            Operation::GetRawUsageStats => OperationView::GetRawUsageStats,
            Operation::SetHostname { newHostname } => OperationView::SetHostname {
                newHostname: newHostname@,
            },
            Operation::SetPtr { ip, ptr } => OperationView::SetPtr { ip: ip@, ptr: ptr@ },
            Operation::BasicShellCd { currentDir, newDir } => OperationView::BasicShellCd {
                currentDir: currentDir@,
                newDir: newDir@,
            },
            Operation::BasicShellExec { command } => OperationView::BasicShellExec {
                command: command@,
            },
            Operation::ShellScriptExec { script } => OperationView::ShellScriptExec {
                script: script@,
            },
            Operation::SnapshotCreate { description } => OperationView::SnapshotCreate {
                description: optional_text(description),
            },
            Operation::SnapshotList => OperationView::SnapshotList,
            Operation::SnapshotDelete { snapshot } => OperationView::SnapshotDelete {
                snapshot: snapshot@,
            },
            Operation::SnapshotRestore { snapshot } => OperationView::SnapshotRestore {
                snapshot: snapshot@,
            },
            Operation::SnapshotToggleSticky { snapshot, sticky } => {
                OperationView::SnapshotToggleSticky { snapshot: snapshot@, sticky }
            },
            Operation::SnapshotExport { snapshot } => OperationView::SnapshotExport {
                snapshot: snapshot@,
            },
            Operation::SnapshotImport { sourceVeid, sourceToken } => {
                OperationView::SnapshotImport {
                    sourceVeid: sourceVeid@,
                    sourceToken: sourceToken@,
                }
            },
            Operation::Ipv6Add { ip } => OperationView::Ipv6Add { ip: optional_text(ip) },
            Operation::Ipv6Delete { ip } => OperationView::Ipv6Delete { ip: ip@ },
            Operation::MigrateGetLocations => OperationView::MigrateGetLocations,
            Operation::MigrateStart { location } => OperationView::MigrateStart {
                location: location@,
            },
            Operation::CloneFromExternalServer {
                externalServerIP,
                externalServerSSHport,
                externalServerRootPassword,
            } => OperationView::CloneFromExternalServer {
                externalServerIP: externalServerIP@,
                externalServerSSHport: externalServerSSHport@,
                externalServerRootPassword: externalServerRootPassword@,
            },
            Operation::GetSuspensionDetails => OperationView::GetSuspensionDetails,
            Operation::Unsuspend { record_id } => OperationView::Unsuspend {
                record_id: record_id@,
            },
            Operation::GetRateLimitStatus => OperationView::GetRateLimitStatus,
        }
    }
}

/// A query parameter: its name and its value.
pub type Pair = (Seq<char>, Seq<char>);

/// How a flag is written in a query: `1` for set, `0` for clear.
pub open spec fn flag_text(flag: bool) -> Seq<char> {
    if flag {
        "1"@
    } else {
        "0"@
    }
}

/// The pair that an optional parameter contributes: none when it is absent.
pub open spec fn optional_pair(name: Seq<char>, value: Option<Seq<char>>) -> Seq<Pair> {
    match value {
        Some(value) => seq![(name, value)],
        None => Seq::empty(),
    }
}

impl OperationView {
    /// The path of the endpoint, below the base address of the service. It is
    /// also the word that selects the operation on the command line.
    pub open spec fn endpoint(self) -> Seq<char> {
        match self {
            OperationView::Start => "start"@,
            OperationView::Stop => "stop"@,
            OperationView::Restart => "restart"@,
            OperationView::Kill => "kill"@,
            OperationView::GetLiveServiceInfo => "getLiveServiceInfo"@,
            OperationView::GetAvailableOS => "getAvailableOS"@,
            OperationView::ReinstallOs { .. } => "reinstallOS"@,
            OperationView::ResetRootPassword => "resetRootPassword"@,
            OperationView::GetUsageGraphs => "getUsageGraphs"@,
            OperationView::GetRawUsageStats => "getRawUsageStats"@,
            OperationView::SetHostname { .. } => "setHostname"@,
            OperationView::SetPtr { .. } => "setPTR"@,
            OperationView::BasicShellCd { .. } => "basicShell/cd"@,
            OperationView::BasicShellExec { .. } => "basicShell/exec"@,
            OperationView::ShellScriptExec { .. } => "shellScript/exec"@,
            OperationView::SnapshotCreate { .. } => "snapshot/create"@,
            OperationView::SnapshotList => "snapshot/list"@,
            OperationView::SnapshotDelete { .. } => "snapshot/delete"@,
            OperationView::SnapshotRestore { .. } => "snapshot/restore"@,
            OperationView::SnapshotToggleSticky { .. } => "snapshot/toggleSticky"@,
            OperationView::SnapshotExport { .. } => "snapshot/export"@,
            OperationView::SnapshotImport { .. } => "snapshot/import"@,
            OperationView::Ipv6Add { .. } => "ipv6/add"@,
            OperationView::Ipv6Delete { .. } => "ipv6/delete"@,
            OperationView::MigrateGetLocations => "migrate/getLocations"@,
            OperationView::MigrateStart { .. } => "migrate/start"@,
            OperationView::CloneFromExternalServer { .. } => "cloneFromExternalServer"@,
            OperationView::GetSuspensionDetails => "getSuspensionDetails"@,
            OperationView::Unsuspend { .. } => "unsuspend"@,
            OperationView::GetRateLimitStatus => "getRateLimitStatus"@,
        }
    }

    /// The query parameters of the call, in the order in which the request
    /// carries them. An optional parameter that is absent has no pair.
    #[allow(non_snake_case)]
    pub open spec fn parameters(self) -> Seq<Pair> {
        match self {
            OperationView::ReinstallOs { os } => seq![("os"@, os)],
            OperationView::SetHostname { newHostname } => seq![("newHostname"@, newHostname)],
            OperationView::SetPtr { ip, ptr } => seq![("ip"@, ip), ("ptr"@, ptr)],
            OperationView::BasicShellCd { currentDir, newDir } => seq![
                ("currentDir"@, currentDir),
                ("newDir"@, newDir),
            ],
            OperationView::BasicShellExec { command } => seq![("command"@, command)],
            OperationView::ShellScriptExec { script } => seq![("script"@, script)],
            OperationView::SnapshotCreate { description } => optional_pair(
                "description"@,
                description,
            ),
            OperationView::SnapshotDelete { snapshot } => seq![("snapshot"@, snapshot)],
            OperationView::SnapshotRestore { snapshot } => seq![("snapshot"@, snapshot)],
            OperationView::SnapshotToggleSticky { snapshot, sticky } => seq![
                ("snapshot"@, snapshot),
                ("sticky"@, flag_text(sticky)),
            ],
            OperationView::SnapshotExport { snapshot } => seq![("snapshot"@, snapshot)],
            OperationView::SnapshotImport { sourceVeid, sourceToken } => seq![
                ("sourceVeid"@, sourceVeid),
                ("sourceToken"@, sourceToken),
            ],
            OperationView::Ipv6Add { ip } => optional_pair("ip"@, ip),
            OperationView::Ipv6Delete { ip } => seq![("ip"@, ip)],
            OperationView::MigrateStart { location } => seq![("location"@, location)],
            OperationView::CloneFromExternalServer {
                externalServerIP,
                externalServerSSHport,
                externalServerRootPassword,
            } => seq![
                ("externalServerIP"@, externalServerIP),
                ("externalServerSSHport"@, externalServerSSHport),
                ("externalServerRootPassword"@, externalServerRootPassword),
            ],
            OperationView::Unsuspend { record_id } => seq![("record_id"@, record_id)],
            _ => Seq::empty(),
        }
    }

    /// How many parameters the call cannot do without.
    pub open spec fn required_parameters(self) -> nat {
        match self {
            OperationView::ReinstallOs { .. }
            | OperationView::SetHostname { .. }
            | OperationView::BasicShellExec { .. }
            | OperationView::ShellScriptExec { .. }
            | OperationView::SnapshotDelete { .. }
            | OperationView::SnapshotRestore { .. }
            | OperationView::SnapshotExport { .. }
            | OperationView::Ipv6Delete { .. }
            | OperationView::MigrateStart { .. }
            | OperationView::Unsuspend { .. } => 1,
            OperationView::SetPtr { .. }
            | OperationView::BasicShellCd { .. }
            | OperationView::SnapshotToggleSticky { .. }
            | OperationView::SnapshotImport { .. } => 2,
            OperationView::CloneFromExternalServer { .. } => 3,
            _ => 0,
        }
    }
}

/// The names and values of a list of pairs, as sequences of characters.
pub open spec fn pairs_view(pairs: Seq<(&'static str, String)>) -> Seq<Pair> {
    Seq::new(pairs.len(), |i: int| (pairs[i].0@, pairs[i].1@))
}

fn flag_str(flag: bool) -> (text: &'static str)
    ensures
        text@ == flag_text(flag),
{
    if flag {
        "1"
    } else {
        "0"
    }
}

fn one_pair(name: &'static str, value: &String) -> (pairs: Vec<(&'static str, String)>)
    ensures
        pairs_view(pairs@) == seq![(name@, value@)],
{
    let mut pairs: Vec<(&'static str, String)> = Vec::new();
    pairs.push((name, value.clone()));
    assert(pairs_view(pairs@) =~= seq![(name@, value@)]);
    pairs
}

fn two_pairs(
    first_name: &'static str,
    first: &String,
    second_name: &'static str,
    second: &String,
) -> (pairs: Vec<(&'static str, String)>)
    ensures
        pairs_view(pairs@) == seq![(first_name@, first@), (second_name@, second@)],
{
    let mut pairs: Vec<(&'static str, String)> = Vec::new();
    pairs.push((first_name, first.clone()));
    pairs.push((second_name, second.clone()));
    assert(pairs_view(pairs@) =~= seq![(first_name@, first@), (second_name@, second@)]);
    pairs
}

fn optional_pairs(name: &'static str, value: &Option<String>) -> (pairs: Vec<
    (&'static str, String),
>)
    ensures
        pairs_view(pairs@) == optional_pair(name@, optional_text(*value)),
{
    let mut pairs: Vec<(&'static str, String)> = Vec::new();
    match value {
        Some(value) => {
            pairs.push((name, value.clone()));
            assert(pairs_view(pairs@) =~= seq![(name@, value@)]);
        },
        None => {
            assert(pairs_view(pairs@) =~= Seq::<Pair>::empty());
        },
    }
    pairs
}

impl Operation {
    /// The path of the endpoint that serves this call.
    pub fn endpoint(&self) -> (path: &'static str)
        ensures
            path@ == self@.endpoint(),
    {
        match self {
            Operation::Start => "start",
            Operation::Stop => "stop",
            Operation::Restart => "restart",
            Operation::Kill => "kill",
            Operation::GetLiveServiceInfo => "getLiveServiceInfo",
            Operation::GetAvailableOS => "getAvailableOS",
            Operation::ReinstallOs { .. } => "reinstallOS",
            Operation::ResetRootPassword => "resetRootPassword",
            Operation::GetUsageGraphs => "getUsageGraphs",
            Operation::GetRawUsageStats => "getRawUsageStats",
            Operation::SetHostname { .. } => "setHostname",
            Operation::SetPtr { .. } => "setPTR",
            Operation::BasicShellCd { .. } => "basicShell/cd",
            Operation::BasicShellExec { .. } => "basicShell/exec",
            Operation::ShellScriptExec { .. } => "shellScript/exec",
            Operation::SnapshotCreate { .. } => "snapshot/create",
            Operation::SnapshotList => "snapshot/list",
            Operation::SnapshotDelete { .. } => "snapshot/delete",
            Operation::SnapshotRestore { .. } => "snapshot/restore",
            Operation::SnapshotToggleSticky { .. } => "snapshot/toggleSticky",
            Operation::SnapshotExport { .. } => "snapshot/export",
            Operation::SnapshotImport { .. } => "snapshot/import",
            Operation::Ipv6Add { .. } => "ipv6/add",
            Operation::Ipv6Delete { .. } => "ipv6/delete",
            Operation::MigrateGetLocations => "migrate/getLocations",
            Operation::MigrateStart { .. } => "migrate/start",
            Operation::CloneFromExternalServer { .. } => "cloneFromExternalServer",
            Operation::GetSuspensionDetails => "getSuspensionDetails",
            Operation::Unsuspend { .. } => "unsuspend",
            Operation::GetRateLimitStatus => "getRateLimitStatus",
        }
    }

    /// The query parameters of this call, name and value, in request order.
    #[allow(non_snake_case)]
    pub fn parameters(&self) -> (pairs: Vec<(&'static str, String)>)
        ensures
            pairs_view(pairs@) == self@.parameters(),
    {
        match self {
            Operation::ReinstallOs { os } => one_pair("os", os),
            Operation::SetHostname { newHostname } => one_pair("newHostname", newHostname),
            Operation::SetPtr { ip, ptr } => two_pairs("ip", ip, "ptr", ptr),
            Operation::BasicShellCd { currentDir, newDir } => two_pairs(
                "currentDir",
                currentDir,
                "newDir",
                newDir,
            ),
            Operation::BasicShellExec { command } => one_pair("command", command),
            Operation::ShellScriptExec { script } => one_pair("script", script),
            Operation::SnapshotCreate { description } => optional_pairs(
                "description",
                description,
            ),
            Operation::SnapshotDelete { snapshot } => one_pair("snapshot", snapshot),
            Operation::SnapshotRestore { snapshot } => one_pair("snapshot", snapshot),
            Operation::SnapshotToggleSticky { snapshot, sticky } => {
                let flag = String::from_str(flag_str(*sticky));
                two_pairs("snapshot", snapshot, "sticky", &flag)
            },
            Operation::SnapshotExport { snapshot } => one_pair("snapshot", snapshot),
            Operation::SnapshotImport { sourceVeid, sourceToken } => two_pairs(
                "sourceVeid",
                sourceVeid,
                "sourceToken",
                sourceToken,
            ),
            Operation::Ipv6Add { ip } => optional_pairs("ip", ip),
            Operation::Ipv6Delete { ip } => one_pair("ip", ip),
            Operation::MigrateStart { location } => one_pair("location", location),
            Operation::CloneFromExternalServer {
                externalServerIP,
                externalServerSSHport,
                externalServerRootPassword,
            } => {
let mut pairs = two_pairs(
                    "externalServerIP",
                    externalServerIP,
                    "externalServerSSHport",
                    externalServerSSHport,
                );
                let ghost two = pairs_view(pairs@);
                pairs.push(("externalServerRootPassword", externalServerRootPassword.clone()));
                assert(pairs_view(pairs@) =~= two.push(
                    ("externalServerRootPassword"@, externalServerRootPassword@),
                ));
                assert(pairs_view(pairs@) =~= self@.parameters());
                pairs
            },
            Operation::Unsuspend { record_id } => one_pair("record_id", record_id),
            _ => {
                let pairs: Vec<(&'static str, String)> = Vec::new();
                assert(pairs_view(pairs@) =~= Seq::<Pair>::empty());
                pairs
            },
        }
    }

    /// Whether the reply to this call is the record of the server's live state
    /// rather than text to show as it comes.
    pub fn expects_live_info(&self) -> (live: bool)
        ensures
            live == (self@ is GetLiveServiceInfo),
    {
        match self {
            Operation::GetLiveServiceInfo => true,
            _ => false,
        }
    }
}

} // verus!
