//! The record that the service returns for a query of the server's live state.

use std::collections::HashMap;
use vstd::prelude::*;

verus! {

/// The live state of a virtual server, field by field as the service names
/// them. Fields that the service leaves out for some plans are optional.
#[derive(Debug)]
pub struct VirtualPrivateServerLiveInfo {
    pub vm_type: String,
    pub ve_status: String,
    pub ve_mac1: String,
    pub ve_used_disk_space_b: i64,
    pub ve_disk_quota_gb: String,
    pub is_cpu_throttled: String,
    pub is_disk_throttled: String,
    pub ssh_port: i32,
    pub live_hostname: String,
    pub load_average: String,
    pub mem_available_kb: i64,
    pub swap_total_kb: Option<i64>,
    pub swap_available_kb: Option<i64>,
    pub hostname: String,
    pub node_ip: String,
    pub node_alias: String,
    pub node_location: String,
    pub node_location_id: String,
    pub node_datacenter: String,
    pub location_ipv6_ready: bool,
    pub plan: String,
    pub plan_monthly_data: i64,
    pub monthly_data_multiplier: i8,
    pub plan_disk: i64,
    pub plan_ram: i64,
    pub plan_swap: i64,
    pub plan_max_ipv6s: i8,
    pub os: String,
    pub email: String,
    pub data_counter: i64,
    pub data_next_reset: i64,
    pub ip_addresses: Vec<String>,
    pub private_ip_addresses: Vec<String>,
    pub iso1: Option<String>,
    pub iso2: Option<String>,
    pub available_isos: Vec<String>,
    pub plan_private_network_available: bool,
    pub location_private_network_available: bool,
    pub rdns_api_available: bool,
    pub ptr: HashMap<String, Option<String>>,
    pub suspended: bool,
    pub policy_violation: bool,
    pub suspension_count: Option<i32>,
    pub total_abuse_points: i32,
    pub max_abuse_points: i32,
    pub error: i32,
    pub veid: i64,
}

} // verus!
