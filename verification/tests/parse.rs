use kiwivm_cli::parse::{check_args_len, parse_sticky, wants_help};
use kiwivm_cli::{Operation, ParseError};

fn line(tokens: &[&str]) -> Vec<String> {
    tokens.iter().map(|token| token.to_string()).collect()
}

fn parsed(tokens: &[&str]) -> Result<Operation, ParseError> {
    Operation::new(line(tokens))
}

fn text(value: &str) -> String {
    value.to_string()
}

fn too_few(required: usize, supplied: usize) -> Result<Operation, ParseError> {
    Err(ParseError::TooFewArguments { required, supplied })
}

#[test]
fn words_without_parameters_name_their_operation() {
    assert_eq!(parsed(&["x", "start"]), Ok(Operation::Start));
    assert_eq!(parsed(&["x", "stop"]), Ok(Operation::Stop));
    assert_eq!(parsed(&["x", "restart"]), Ok(Operation::Restart));
    assert_eq!(parsed(&["x", "kill"]), Ok(Operation::Kill));
    assert_eq!(parsed(&["x", "getLiveServiceInfo"]), Ok(Operation::GetLiveServiceInfo));
    assert_eq!(parsed(&["x", "getAvailableOS"]), Ok(Operation::GetAvailableOS));
    assert_eq!(parsed(&["x", "resetRootPassword"]), Ok(Operation::ResetRootPassword));
    assert_eq!(parsed(&["x", "getUsageGraphs"]), Ok(Operation::GetUsageGraphs));
    assert_eq!(parsed(&["x", "getRawUsageStats"]), Ok(Operation::GetRawUsageStats));
    assert_eq!(parsed(&["x", "snapshot/list"]), Ok(Operation::SnapshotList));
    assert_eq!(parsed(&["x", "migrate/getLocations"]), Ok(Operation::MigrateGetLocations));
    assert_eq!(parsed(&["x", "getSuspensionDetails"]), Ok(Operation::GetSuspensionDetails));
    assert_eq!(parsed(&["x", "getRateLimitStatus"]), Ok(Operation::GetRateLimitStatus));
}

#[test]
fn one_parameter_is_taken_from_the_third_token() {
    assert_eq!(
        parsed(&["x", "reinstallOS", "debian-12"]),
        Ok(Operation::ReinstallOs { os: text("debian-12") })
    );
    assert_eq!(
        parsed(&["x", "setHostname", "box.example.com"]),
        Ok(Operation::SetHostname { newHostname: text("box.example.com") })
    );
    assert_eq!(
        parsed(&["x", "basicShell/exec", "uname -a"]),
        Ok(Operation::BasicShellExec { command: text("uname -a") })
    );
    assert_eq!(
        parsed(&["x", "shellScript/exec", "echo hi"]),
        Ok(Operation::ShellScriptExec { script: text("echo hi") })
    );
    assert_eq!(
        parsed(&["x", "snapshot/delete", "snap.tar.gz"]),
        Ok(Operation::SnapshotDelete { snapshot: text("snap.tar.gz") })
    );
    assert_eq!(
        parsed(&["x", "snapshot/restore", "snap.tar.gz"]),
        Ok(Operation::SnapshotRestore { snapshot: text("snap.tar.gz") })
    );
    assert_eq!(
        parsed(&["x", "snapshot/export", "snap.tar.gz"]),
        Ok(Operation::SnapshotExport { snapshot: text("snap.tar.gz") })
    );
    assert_eq!(
        parsed(&["x", "ipv6/delete", "2001:db8::1"]),
        Ok(Operation::Ipv6Delete { ip: text("2001:db8::1") })
    );
    assert_eq!(
        parsed(&["x", "migrate/start", "USCA_2"]),
        Ok(Operation::MigrateStart { location: text("USCA_2") })
    );
    assert_eq!(
        parsed(&["x", "unsuspend", "4711"]),
        Ok(Operation::Unsuspend { record_id: text("4711") })
    );
}

#[test]
fn several_parameters_keep_their_order() {
    assert_eq!(
        parsed(&["x", "setPTR", "1.2.3.4", "host.example.com"]),
        Ok(Operation::SetPtr { ip: text("1.2.3.4"), ptr: text("host.example.com") })
    );
    assert_eq!(
        parsed(&["x", "basicShell/cd", "/root", "/tmp"]),
        Ok(Operation::BasicShellCd { currentDir: text("/root"), newDir: text("/tmp") })
    );
    assert_eq!(
        parsed(&["x", "snapshot/import", "998877", "tok3n"]),
        Ok(Operation::SnapshotImport { sourceVeid: text("998877"), sourceToken: text("tok3n") })
    );
    assert_eq!(
        parsed(&["x", "cloneFromExternalServer", "5.6.7.8", "22", "hunter2"]),
        Ok(Operation::CloneFromExternalServer {
            externalServerIP: text("5.6.7.8"),
            externalServerSSHport: text("22"),
            externalServerRootPassword: text("hunter2"),
        })
    );
}

#[test]
fn one_missing_parameter_is_counted_in_tokens() {
    for word in [
        "reinstallOS",
        "setHostname",
        "basicShell/exec",
        "shellScript/exec",
        "snapshot/delete",
        "snapshot/restore",
        "snapshot/export",
        "ipv6/delete",
        "migrate/start",
        "unsuspend",
    ] {
        assert_eq!(parsed(&["x", word]), too_few(3, 2), "{}", word);
    }
}

#[test]
fn two_parameter_operations_refuse_none_and_one() {
    for word in ["setPTR", "basicShell/cd", "snapshot/toggleSticky", "snapshot/import"] {
        assert_eq!(parsed(&["x", word]), too_few(4, 2), "{}", word);
        assert_eq!(parsed(&["x", word, "first"]), too_few(4, 3), "{}", word);
    }
}

#[test]
fn clone_refuses_fewer_than_three_parameters() {
    assert_eq!(parsed(&["x", "cloneFromExternalServer"]), too_few(5, 2));
    assert_eq!(parsed(&["x", "cloneFromExternalServer", "5.6.7.8"]), too_few(5, 3));
    assert_eq!(parsed(&["x", "cloneFromExternalServer", "5.6.7.8", "22"]), too_few(5, 4));
}

#[test]
fn sticky_true_sets_the_flag() {
    assert_eq!(
        parsed(&["x", "snapshot/toggleSticky", "snap", "true"]),
        Ok(Operation::SnapshotToggleSticky { snapshot: text("snap"), sticky: true })
    );
    assert_eq!(parse_sticky("true"), Ok(true));
}

#[test]
fn sticky_one_sets_the_flag() {
    assert_eq!(
        parsed(&["x", "snapshot/toggleSticky", "snap", "1"]),
        Ok(Operation::SnapshotToggleSticky { snapshot: text("snap"), sticky: true })
    );
    assert_eq!(parse_sticky("1"), Ok(true));
}

#[test]
fn sticky_false_clears_the_flag() {
    assert_eq!(
        parsed(&["x", "snapshot/toggleSticky", "snap", "false"]),
        Ok(Operation::SnapshotToggleSticky { snapshot: text("snap"), sticky: false })
    );
    assert_eq!(parse_sticky("false"), Ok(false));
}

#[test]
fn sticky_zero_clears_the_flag() {
    assert_eq!(
        parsed(&["x", "snapshot/toggleSticky", "snap", "0"]),
        Ok(Operation::SnapshotToggleSticky { snapshot: text("snap"), sticky: false })
    );
    assert_eq!(parse_sticky("0"), Ok(false));
}

#[test]
fn sticky_maybe_is_refused() {
    assert_eq!(
        parsed(&["x", "snapshot/toggleSticky", "snap", "maybe"]),
        Err(ParseError::InvalidBoolean)
    );
    assert_eq!(parse_sticky("maybe"), Err(ParseError::InvalidBoolean));
    assert_eq!(parse_sticky(""), Err(ParseError::InvalidBoolean));
}

#[test]
fn sticky_flag_is_looked_for_inside_the_token() {
    assert_eq!(parse_sticky("--sticky=true"), Ok(true));
    assert_eq!(parse_sticky("flag0"), Ok(false));
    assert_eq!(parse_sticky("falsehood"), Ok(false));
    assert_eq!(parse_sticky("TRUE"), Err(ParseError::InvalidBoolean));
}

#[test]
fn sticky_yes_wins_over_no() {
    assert_eq!(parse_sticky("false1"), Ok(true));
    assert_eq!(parse_sticky("0true"), Ok(true));
    assert_eq!(parse_sticky("10"), Ok(true));
}

#[test]
fn snapshot_create_without_description() {
    assert_eq!(
        parsed(&["x", "snapshot/create"]),
        Ok(Operation::SnapshotCreate { description: None })
    );
}

#[test]
fn snapshot_create_with_description() {
    assert_eq!(
        parsed(&["x", "snapshot/create", "backup1"]),
        Ok(Operation::SnapshotCreate { description: Some(text("backup1")) })
    );
}

#[test]
fn ipv6_add_never_carries_an_address() {
    assert_eq!(parsed(&["x", "ipv6/add"]), Ok(Operation::Ipv6Add { ip: None }));
    assert_eq!(parsed(&["x", "ipv6/add", "2001:db8::2"]), Ok(Operation::Ipv6Add { ip: None }));
}

#[test]
fn retired_word_is_refused_as_retired() {
    assert_eq!(parsed(&["x", "getServiceInfo"]), Err(ParseError::DeprecatedOperation));
    assert_eq!(
        parsed(&["x", "getServiceInfo", "more", "tokens"]),
        Err(ParseError::DeprecatedOperation)
    );
}

#[test]
fn unknown_word_is_refused() {
    assert_eq!(parsed(&["x", "launch"]), Err(ParseError::UnknownOperation));
    assert_eq!(parsed(&["x", ""]), Err(ParseError::UnknownOperation));
    assert_eq!(parsed(&["x", "Start"]), Err(ParseError::UnknownOperation));
    assert_eq!(parsed(&["x", "start "]), Err(ParseError::UnknownOperation));
    assert_eq!(parsed(&["x", "setPtr", "1.2.3.4", "host"]), Err(ParseError::UnknownOperation));
    assert_eq!(parsed(&["x", "--help"]), Err(ParseError::UnknownOperation));
}

#[test]
fn no_operation_asks_for_help() {
    assert_eq!(parsed(&[]), Err(ParseError::HelpRequested));
    assert_eq!(parsed(&["x"]), Err(ParseError::HelpRequested));
    assert!(wants_help(&line(&[])));
    assert!(wants_help(&line(&["x"])));
}

#[test]
fn help_words_ask_for_help_whatever_follows() {
    assert_eq!(parsed(&["x", "-h"]), Err(ParseError::HelpRequested));
    assert_eq!(parsed(&["x", "help"]), Err(ParseError::HelpRequested));
    assert_eq!(parsed(&["x", "-h", "start"]), Err(ParseError::HelpRequested));
    assert_eq!(parsed(&["x", "help", "getServiceInfo", "x"]), Err(ParseError::HelpRequested));
    assert!(wants_help(&line(&["x", "-h"])));
    assert!(wants_help(&line(&["x", "help", "start"])));
    assert_eq!(ParseError::HelpRequested.exit_code(), 0);
}

#[test]
fn help_is_not_asked_for_by_an_operation() {
    assert!(!wants_help(&line(&["x", "start"])));
    assert!(!wants_help(&line(&["x", "start", "-h"])));
    assert!(!wants_help(&line(&["x", "helpme"])));
    assert_eq!(parsed(&["x", "start", "help"]), Ok(Operation::Start));
}

#[test]
fn tokens_after_the_last_parameter_are_ignored() {
    assert_eq!(parsed(&["x", "start", "now", "please"]), Ok(Operation::Start));
    assert_eq!(
        parsed(&["x", "setPTR", "1.2.3.4", "host.example.com", "extra"]),
        Ok(Operation::SetPtr { ip: text("1.2.3.4"), ptr: text("host.example.com") })
    );
    assert_eq!(
        parsed(&["x", "snapshot/create", "backup1", "backup2"]),
        Ok(Operation::SnapshotCreate { description: Some(text("backup1")) })
    );
    assert_eq!(
        parsed(&["x", "snapshot/toggleSticky", "snap", "0", "maybe"]),
        Ok(Operation::SnapshotToggleSticky { snapshot: text("snap"), sticky: false })
    );
}

#[test]
fn program_name_is_not_looked_at() {
    assert_eq!(parsed(&["help", "stop"]), Ok(Operation::Stop));
    assert_eq!(parsed(&["getServiceInfo", "kill"]), Ok(Operation::Kill));
}

#[test]
fn length_check_reports_both_counts() {
    let args = line(&["x", "setPTR", "1.2.3.4"]);
    assert_eq!(check_args_len(&args, 3), Ok(()));
    assert_eq!(check_args_len(&args, 0), Ok(()));
    assert_eq!(
        check_args_len(&args, 4),
        Err(ParseError::TooFewArguments { required: 4, supplied: 3 })
    );
    assert_eq!(
        check_args_len(&line(&[]), 1),
        Err(ParseError::TooFewArguments { required: 1, supplied: 0 })
    );
}

#[test]
fn spelled_out_operation_reads_back() {
    for sticky in [true, false] {
        let operation = Operation::SnapshotToggleSticky { snapshot: text("snap"), sticky };
        let mut tokens = vec![text("x"), operation.endpoint().to_string()];
        for (_, value) in operation.parameters() {
            tokens.push(value);
        }
        assert_eq!(Operation::new(tokens), Ok(operation));
    }
    let operation = Operation::CloneFromExternalServer {
        externalServerIP: text("5.6.7.8"),
        externalServerSSHport: text("22"),
        externalServerRootPassword: text("hunter2"),
    };
    let mut tokens = vec![text("x"), operation.endpoint().to_string()];
    for (_, value) in operation.parameters() {
        tokens.push(value);
    }
    assert_eq!(Operation::new(tokens), Ok(operation));
}
