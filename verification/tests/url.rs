use kiwivm_cli::client::BASE_URL;
use kiwivm_cli::{build_url, KiwivmCLI, Operation};

fn text(value: &str) -> String {
    value.to_string()
}

fn url_of(operation: Operation) -> String {
    build_url("https://example.test/v1", &operation, "123", "abc")
}

fn with_query(path: &str, query: &str) -> String {
    format!("https://example.test/v1/{}?veid=123&api_key=abc{}", path, query)
}

#[test]
fn start_url_carries_only_the_credentials() {
    assert_eq!(url_of(Operation::Start), "https://example.test/v1/start?veid=123&api_key=abc");
}

#[test]
fn set_ptr_url_appends_ip_then_ptr() {
    let operation = Operation::SetPtr { ip: text("1.2.3.4"), ptr: text("host.example.com") };
    assert_eq!(operation.endpoint(), "setPTR");
    assert_eq!(
        operation.parameters(),
        vec![("ip", text("1.2.3.4")), ("ptr", text("host.example.com"))]
    );
    assert_eq!(
        url_of(operation),
        "https://example.test/v1/setPTR?veid=123&api_key=abc&ip=1.2.3.4&ptr=host.example.com"
    );
}

#[test]
fn client_builds_below_the_service_address() {
    let client = KiwivmCLI::new(text("123"), text("abc"));
    assert_eq!(BASE_URL, "https://api.64clouds.com/v1");
    assert_eq!(
        client.construct_url(Operation::Start),
        "https://api.64clouds.com/v1/start?veid=123&api_key=abc"
    );
    assert_eq!(
        client.construct_url(Operation::Ipv6Delete { ip: text("2001:db8::1") }),
        "https://api.64clouds.com/v1/ipv6/delete?veid=123&api_key=abc&ip=2001:db8::1"
    );
}

#[test]
fn operations_without_parameters_have_no_further_pairs() {
    assert_eq!(url_of(Operation::Stop), with_query("stop", ""));
    assert_eq!(url_of(Operation::Restart), with_query("restart", ""));
    assert_eq!(url_of(Operation::Kill), with_query("kill", ""));
    assert_eq!(url_of(Operation::GetLiveServiceInfo), with_query("getLiveServiceInfo", ""));
    assert_eq!(url_of(Operation::GetAvailableOS), with_query("getAvailableOS", ""));
    assert_eq!(url_of(Operation::ResetRootPassword), with_query("resetRootPassword", ""));
    assert_eq!(url_of(Operation::GetUsageGraphs), with_query("getUsageGraphs", ""));
    assert_eq!(url_of(Operation::GetRawUsageStats), with_query("getRawUsageStats", ""));
    assert_eq!(url_of(Operation::SnapshotList), with_query("snapshot/list", ""));
    assert_eq!(url_of(Operation::MigrateGetLocations), with_query("migrate/getLocations", ""));
    assert_eq!(url_of(Operation::GetSuspensionDetails), with_query("getSuspensionDetails", ""));
    assert_eq!(url_of(Operation::GetRateLimitStatus), with_query("getRateLimitStatus", ""));
    assert!(Operation::SnapshotList.parameters().is_empty());
}

#[test]
fn single_parameters_use_the_service_names() {
    assert_eq!(
        url_of(Operation::ReinstallOs { os: text("debian-12") }),
        with_query("reinstallOS", "&os=debian-12")
    );
    assert_eq!(
        url_of(Operation::SetHostname { newHostname: text("box") }),
        with_query("setHostname", "&newHostname=box")
    );
    assert_eq!(
        url_of(Operation::BasicShellExec { command: text("ls") }),
        with_query("basicShell/exec", "&command=ls")
    );
    assert_eq!(
        url_of(Operation::ShellScriptExec { script: text("reboot") }),
        with_query("shellScript/exec", "&script=reboot")
    );
    assert_eq!(
        url_of(Operation::SnapshotDelete { snapshot: text("a.tgz") }),
        with_query("snapshot/delete", "&snapshot=a.tgz")
    );
    assert_eq!(
        url_of(Operation::SnapshotRestore { snapshot: text("a.tgz") }),
        with_query("snapshot/restore", "&snapshot=a.tgz")
    );
    assert_eq!(
        url_of(Operation::SnapshotExport { snapshot: text("a.tgz") }),
        with_query("snapshot/export", "&snapshot=a.tgz")
    );
    assert_eq!(
        url_of(Operation::Ipv6Delete { ip: text("2001:db8::1") }),
        with_query("ipv6/delete", "&ip=2001:db8::1")
    );
    assert_eq!(
        url_of(Operation::MigrateStart { location: text("USCA_2") }),
        with_query("migrate/start", "&location=USCA_2")
    );
    assert_eq!(
        url_of(Operation::Unsuspend { record_id: text("4711") }),
        with_query("unsuspend", "&record_id=4711")
    );
}

#[test]
fn several_parameters_come_in_declared_order() {
    assert_eq!(
        url_of(Operation::BasicShellCd { currentDir: text("/root"), newDir: text("/tmp") }),
        with_query("basicShell/cd", "&currentDir=/root&newDir=/tmp")
    );
    assert_eq!(
        url_of(Operation::SnapshotImport { sourceVeid: text("99"), sourceToken: text("tok") }),
        with_query("snapshot/import", "&sourceVeid=99&sourceToken=tok")
    );
    assert_eq!(
        url_of(Operation::CloneFromExternalServer {
            externalServerIP: text("5.6.7.8"),
            externalServerSSHport: text("22"),
            externalServerRootPassword: text("hunter2"),
        }),
        with_query(
            "cloneFromExternalServer",
            "&externalServerIP=5.6.7.8&externalServerSSHport=22&externalServerRootPassword=hunter2"
        )
    );
}

#[test]
fn sticky_flag_is_written_as_one_or_zero() {
    assert_eq!(
        url_of(Operation::SnapshotToggleSticky { snapshot: text("a.tgz"), sticky: true }),
        with_query("snapshot/toggleSticky", "&snapshot=a.tgz&sticky=1")
    );
    assert_eq!(
        url_of(Operation::SnapshotToggleSticky { snapshot: text("a.tgz"), sticky: false }),
        with_query("snapshot/toggleSticky", "&snapshot=a.tgz&sticky=0")
    );
}

#[test]
fn absent_optional_parameter_has_no_pair() {
    assert_eq!(
        url_of(Operation::SnapshotCreate { description: None }),
        with_query("snapshot/create", "")
    );
    assert_eq!(url_of(Operation::Ipv6Add { ip: None }), with_query("ipv6/add", ""));
    assert!(Operation::SnapshotCreate { description: None }.parameters().is_empty());
}

#[test]
fn present_optional_parameter_has_its_pair() {
    assert_eq!(
        url_of(Operation::SnapshotCreate { description: Some(text("backup1")) }),
        with_query("snapshot/create", "&description=backup1")
    );
    assert_eq!(
        url_of(Operation::Ipv6Add { ip: Some(text("2001:db8::2")) }),
        with_query("ipv6/add", "&ip=2001:db8::2")
    );
    assert_eq!(
        url_of(Operation::SnapshotCreate { description: Some(text("")) }),
        with_query("snapshot/create", "&description=")
    );
}

#[test]
fn values_stand_as_they_are_given() {
    assert_eq!(
        url_of(Operation::BasicShellExec { command: text("echo a&b=c d") }),
        with_query("basicShell/exec", "&command=echo a&b=c d")
    );
    assert_eq!(
        build_url("", &Operation::Stop, "", ""),
        "/stop?veid=&api_key="
    );
    assert_eq!(
        build_url("http://h", &Operation::Stop, "1&2", "k=é"),
        "http://h/stop?veid=1&2&api_key=k=é"
    );
}

#[test]
fn building_twice_gives_the_same_text() {
    let operation = Operation::SetPtr { ip: text("1.2.3.4"), ptr: text("host.example.com") };
    let first = build_url("https://example.test/v1", &operation, "123", "abc");
    let second = build_url("https://example.test/v1", &operation, "123", "abc");
    assert_eq!(first.as_bytes(), second.as_bytes());
}

#[test]
fn only_the_live_state_query_returns_the_record() {
    assert!(Operation::GetLiveServiceInfo.expects_live_info());
    assert!(!Operation::Start.expects_live_info());
    assert!(!Operation::GetRawUsageStats.expects_live_info());
    assert!(!Operation::Ipv6Add { ip: None }.expects_live_info());
}
