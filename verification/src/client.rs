//! The client: the credentials of one account, and what is built from them.

use crate::error::CliError;
use crate::live_info::VirtualPrivateServerLiveInfo;
use crate::operation::Operation;
use crate::request::{build_url, request_url};
use vstd::prelude::*;

verus! {

/// Base address of the management service; every endpoint path hangs below it.
pub const BASE_URL: &'static str = "https://api.64clouds.com/v1";

/// Name of the environment variable that holds the account identifier.
pub const VEID_VARIABLE: &'static str = "KIWIVM_VEID";

/// Name of the environment variable that holds the API key.
pub const API_KEY_VARIABLE: &'static str = "KIWIVM_API_KEY";

/// The usage text, shown when help is asked for or no operation is given.
pub const USAGE: &'static str =
"The KiWiVM CLI tool

USAGE:
    kiwivmcil <OPTIONS>

OPTIONS:
    start               Starts the VPS
    stop                Stops the VPS
    restart             Reboots the VPS
    kill                Allows to forcibly stop a VPS that is stuck and cannot be stopped by normal means.
    getLiveServiceInfo  This function returns all data provided by getServiceInfo. In addition, it provides detailed status of the VPS.
    getAvailableOS      Get available OS
    reinstallOS <os>    Reinstall the Operating System. OS must be specified via \"os\" variable.
    resetRootPassword   Generates and sets a new root password.
    getUsageGraphs      Obsolete, use getRawUsageStats instead
    getRawUsageStats    Returns a two-dimensional array with the detailed usage statistics shown under Detailed Statistics in KiwiVM.

    setHostname <newHostname>       Sets new hostname.
    setPTR <ip> <ptr>               Sets new PTR (rDNS) record for IP.
    basicShell/cd <currentDir> <newDir>
                                    Simulate change of directory inside of the VPS.
    basicShell/exec <command>       Execute a shell command on the VPS (synchronously).
    shellScript/exec <script>       Execute a shell script on the VPS (asynchronously).
    snapshot/create [description]   Create snapshot
    snapshot/list                   Get list of snapshots.
    snapshot/delete <snapshot>      Delete snapshot by fileName (can be retrieved with snapshot/list call).
    snapshot/restore <snapshot>     Restores snapshot by fileName (can be retrieved with snapshot/list call). This will overwrite all data on the VPS.
    snapshot/toggleSticky <snapshot> <sticky>
                                    Set or remove sticky attribute. Name of snapshot can be retrieved with snapshot/list call – look for fileName variable.
    snapshot/export <snapshot>      Generates a token with which the snapshot can be transferred to another instance.
    snapshot/import <sourceVeid> <sourceToken>
                                    Imports a snapshot from another instance identified by VEID and Token. Both VEID and Token must be obtained from another instance beforehand with a snapshot/export call.
    ipv6/add [ip]                   Assigns a new IPv6 address. For initial IPv6 assignment an empty IP is required (call without parameters), and a new IP from the available pool is assigned automatically. All subsequent requested IPv6 addresses must be within the /64 subnet of the first IPv6 address.
    ipv6/delete <ip>                Releases specified IPv6 address.
    migrate/getLocations            Return all possible migration locations.
    migrate/start <location>        Start VPS migration to new location. Takes new location ID as input.
    cloneFromExternal <ServerexternalServerIP> <externalServerSSHport> <externalServerRootPassword>
                                    (OVZ only) Clone a remote server or VPS. See Migrate from another server for example on how this works.
    getSuspensionDetails            Retrieve information related to service suspensions.
    unsuspend <record_id>           Clear abuse issue identified by record_id and unsuspend the VPS. Refer to getSuspensionDetails call for details.
    getRateLimitStatus              Monitoring API limit.";

/// An account of the management service: its identifier and its API key, set
/// once, and the live state of its server where that has been fetched.
pub struct KiwivmCLI {
    pub veid: String,
    pub api_key: String,
    pub info: Option<VirtualPrivateServerLiveInfo>,
}

impl KiwivmCLI {
    /// A client for the account `veid` with the key `api_key`, with no live
    /// state fetched yet.
    pub fn new(veid: String, api_key: String) -> (client: KiwivmCLI)
        ensures
            client.veid == veid,
            client.api_key == api_key,
            client.info is None,
    {
        KiwivmCLI { veid, api_key, info: None }
    }

    /// A client from what the lookups of the two credentials gave: the account
    /// identifier under `VEID_VARIABLE` and the key under `API_KEY_VARIABLE`.
    /// Both must be there.
    pub fn with_credentials(veid: Option<String>, api_key: Option<String>) -> (outcome: Result<
        KiwivmCLI,
        CliError,
    >)
        ensures
            match outcome {
                Ok(client) => veid == Some(client.veid) && api_key == Some(client.api_key)
                    && client.info is None,
                Err(error) => error == CliError::MissingCredentials && (veid is None
                    || api_key is None),
            },
    {
        match (veid, api_key) {
            (Some(veid), Some(api_key)) => Ok(KiwivmCLI::new(veid, api_key)),
            _ => Err(CliError::MissingCredentials),
        }
    }

    /// The address of the request that performs `operation` for this account.
    pub fn construct_url(&self, operation: Operation) -> (url: String)
        ensures
            url@ == request_url(BASE_URL@, operation@, self.veid@, self.api_key@),
    {
        build_url(BASE_URL, &operation, self.veid.as_str(), self.api_key.as_str())
    }

    /// The usage text.
    pub fn hint() -> (text: &'static str)
        ensures
            text@ == USAGE@,
    {
        USAGE
    }
}

} // verus!
