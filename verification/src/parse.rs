//! From the words of a command line to one operation.
//!
//! The first token is the program's name and the second names the operation.
//! The operation's parameters follow in the order in which the request carries
//! them. Tokens beyond the last parameter are not looked at.

use crate::error::ParseError;
use crate::operation::{flag_text, Operation, OperationView, Pair};
use crate::text::{contains_text, occurs_in, same_text};
use vstd::prelude::*;
use vstd::string::*;

verus! {

/// The command line asks for the usage text: it names no operation at all, or
/// its second token is `-h` or `help`.
pub open spec fn help_requested(tokens: Seq<Seq<char>>) -> bool {
    tokens.len() < 2 || tokens[1] == "-h"@ || tokens[1] == "help"@
}

/// What a sticky flag's token says: yes where it holds `true` or `1`, else no
/// where it holds `false` or `0`, else nothing.
pub open spec fn sticky_flag(token: Seq<char>) -> Option<bool> {
    if occurs_in("true"@, token) || occurs_in("1"@, token) {
        Some(true)
    } else if occurs_in("false"@, token) || occurs_in("0"@, token) {
        Some(false)
    } else {
        None
    }
}

/// The complaint about a command line that is shorter than the `required`
/// tokens: how many are needed and how many were given.
pub open spec fn too_few(tokens: Seq<Seq<char>>, required: nat) -> ParseError {
    ParseError::TooFewArguments { required: required as usize, supplied: tokens.len() as usize }
}

/// `operation`, on a command line of at least `required` tokens; on a shorter
/// one, the complaint about it.
pub open spec fn with_tokens(
    tokens: Seq<Seq<char>>,
    required: nat,
    operation: OperationView,
) -> Result<OperationView, ParseError> {
    if tokens.len() < required {
        Err(too_few(tokens, required))
    } else {
        Ok(operation)
    }
}

/// The optional token at `index`.
pub open spec fn token_at(tokens: Seq<Seq<char>>, index: int) -> Option<Seq<char>> {
    if 0 <= index < tokens.len() {
        Some(tokens[index])
    } else {
        None
    }
}

/// What `snapshot/toggleSticky` yields: the snapshot's name from the third
/// token and the flag from the fourth.
pub open spec fn toggle_sticky(tokens: Seq<Seq<char>>) -> Result<OperationView, ParseError> {
    if tokens.len() < 4 {
        Err(too_few(tokens, 4))
    } else {
        match sticky_flag(tokens[3]) {
            Some(sticky) => Ok(
                OperationView::SnapshotToggleSticky { snapshot: tokens[2], sticky },
            ),
            None => Err(ParseError::InvalidBoolean),
        }
    }
}

/// The operation that a command line names, or why it names none.
///
/// `ipv6/add` never carries an address: a token after the word is not passed
/// on, so the service always picks the address itself.
pub open spec fn parse(tokens: Seq<Seq<char>>) -> Result<OperationView, ParseError> {
    if help_requested(tokens) {
        Err(ParseError::HelpRequested)
    } else {
        let word = tokens[1];
        if word == "start"@ {
            Ok(OperationView::Start)
        } else if word == "stop"@ {
            Ok(OperationView::Stop)
        } else if word == "restart"@ {
            Ok(OperationView::Restart)
        } else if word == "kill"@ {
            Ok(OperationView::Kill)
        } else if word == "getServiceInfo"@ {
            Err(ParseError::DeprecatedOperation)
        } else if word == "getLiveServiceInfo"@ {
            Ok(OperationView::GetLiveServiceInfo)
        } else if word == "getAvailableOS"@ {
            Ok(OperationView::GetAvailableOS)
        } else if word == "reinstallOS"@ {
            with_tokens(tokens, 3, OperationView::ReinstallOs { os: tokens[2] })
        } else if word == "resetRootPassword"@ {
            Ok(OperationView::ResetRootPassword)
        } else if word == "getUsageGraphs"@ {
            Ok(OperationView::GetUsageGraphs)
        } else if word == "getRawUsageStats"@ {
            Ok(OperationView::GetRawUsageStats)
        } else if word == "setHostname"@ {
            with_tokens(tokens, 3, OperationView::SetHostname { newHostname: tokens[2] })
        } else if word == "setPTR"@ {
            with_tokens(tokens, 4, OperationView::SetPtr { ip: tokens[2], ptr: tokens[3] })
        } else if word == "basicShell/cd"@ {
            with_tokens(
                tokens,
                4,
                OperationView::BasicShellCd { currentDir: tokens[2], newDir: tokens[3] },
            )
        } else if word == "basicShell/exec"@ {
            with_tokens(tokens, 3, OperationView::BasicShellExec { command: tokens[2] })
        } else if word == "shellScript/exec"@ {
            with_tokens(tokens, 3, OperationView::ShellScriptExec { script: tokens[2] })
        } else if word == "snapshot/create"@ {
            Ok(OperationView::SnapshotCreate { description: token_at(tokens, 2) })
        } else if word == "snapshot/list"@ {
            Ok(OperationView::SnapshotList)
        } else if word == "snapshot/delete"@ {
            with_tokens(tokens, 3, OperationView::SnapshotDelete { snapshot: tokens[2] })
        } else if word == "snapshot/restore"@ {
            with_tokens(tokens, 3, OperationView::SnapshotRestore { snapshot: tokens[2] })
        } else if word == "snapshot/toggleSticky"@ {
            toggle_sticky(tokens)
        } else if word == "snapshot/export"@ {
            with_tokens(tokens, 3, OperationView::SnapshotExport { snapshot: tokens[2] })
        } else if word == "snapshot/import"@ {
            with_tokens(
                tokens,
                4,
                OperationView::SnapshotImport { sourceVeid: tokens[2], sourceToken: tokens[3] },
            )
        } else if word == "ipv6/add"@ {
            Ok(OperationView::Ipv6Add { ip: None })
        } else if word == "ipv6/delete"@ {
            with_tokens(tokens, 3, OperationView::Ipv6Delete { ip: tokens[2] })
        } else if word == "migrate/getLocations"@ {
            Ok(OperationView::MigrateGetLocations)
        } else if word == "migrate/start"@ {
            with_tokens(tokens, 3, OperationView::MigrateStart { location: tokens[2] })
        } else if word == "cloneFromExternalServer"@ {
            with_tokens(
                tokens,
                5,
                OperationView::CloneFromExternalServer {
                    externalServerIP: tokens[2],
                    externalServerSSHport: tokens[3],
                    externalServerRootPassword: tokens[4],
                },
            )
        } else if word == "getSuspensionDetails"@ {
            Ok(OperationView::GetSuspensionDetails)
        } else if word == "unsuspend"@ {
            with_tokens(tokens, 3, OperationView::Unsuspend { record_id: tokens[2] })
        } else if word == "getRateLimitStatus"@ {
            Ok(OperationView::GetRateLimitStatus)
        } else {
            Err(ParseError::UnknownOperation)
        }
    }
}

/// An outcome of parsing, with the operation as its view.
pub open spec fn outcome_view(outcome: Result<Operation, ParseError>) -> Result<
    OperationView,
    ParseError,
> {
    match outcome {
        Ok(operation) => Ok(operation@),
        Err(error) => Err(error),
    }
}

/// Whether the command line asks for the usage text.
pub fn wants_help(args: &Vec<String>) -> (help: bool)
    ensures
        help == help_requested(args.deep_view()),
{
    args.len() < 2 || same_text(args[1].as_str(), "-h") || same_text(args[1].as_str(), "help")
}

/// Checks that the command line has at least `len` tokens.
pub fn check_args_len(args: &Vec<String>, len: usize) -> (checked: Result<(), ParseError>)
    ensures
        checked == if args.len() < len {
            Err::<(), ParseError>(
                ParseError::TooFewArguments { required: len, supplied: args.len() },
            )
        } else {
            Ok(())
        },
{
    if args.len() < len {
        Err(ParseError::TooFewArguments { required: len, supplied: args.len() })
    } else {
        Ok(())
    }
}

/// Reads a sticky flag.
pub fn parse_sticky(token: &str) -> (flag: Result<bool, ParseError>)
    ensures
        flag == match sticky_flag(token@) {
            Some(sticky) => Ok::<bool, ParseError>(sticky),
            None => Err(ParseError::InvalidBoolean),
        },
{
    if contains_text(token, "true") || contains_text(token, "1") {
        Ok(true)
    } else if contains_text(token, "false") || contains_text(token, "0") {
        Ok(false)
    } else {
        Err(ParseError::InvalidBoolean)
    }
}

impl Operation {
    /// Reads the operation that a command line names. `args` is the whole
    /// command line, the program's name first.
    pub fn new(args: Vec<String>) -> (outcome: Result<Operation, ParseError>)
        ensures
            outcome_view(outcome) == parse(args.deep_view()),
    {
        if wants_help(&args) {
            return Err(ParseError::HelpRequested);
        }
        let word = args[1].as_str();
        if same_text(word, "start") {
            Ok(Operation::Start)
        } else if same_text(word, "stop") {
            Ok(Operation::Stop)
        } else if same_text(word, "restart") {
            Ok(Operation::Restart)
        } else if same_text(word, "kill") {
            Ok(Operation::Kill)
        } else if same_text(word, "getServiceInfo") {
            Err(ParseError::DeprecatedOperation)
        } else if same_text(word, "getLiveServiceInfo") {
            Ok(Operation::GetLiveServiceInfo)
        } else if same_text(word, "getAvailableOS") {
            Ok(Operation::GetAvailableOS)
        } else if same_text(word, "reinstallOS") {
            check_args_len(&args, 3)?;
            Ok(Operation::ReinstallOs { os: args[2].clone() })
        } else if same_text(word, "resetRootPassword") {
            Ok(Operation::ResetRootPassword)
        } else if same_text(word, "getUsageGraphs") {
            Ok(Operation::GetUsageGraphs)
        } else if same_text(word, "getRawUsageStats") {
            Ok(Operation::GetRawUsageStats)
        } else if same_text(word, "setHostname") {
            check_args_len(&args, 3)?;
            Ok(Operation::SetHostname { newHostname: args[2].clone() })
        } else if same_text(word, "setPTR") {
            check_args_len(&args, 4)?;
            Ok(Operation::SetPtr { ip: args[2].clone(), ptr: args[3].clone() })
        } else if same_text(word, "basicShell/cd") {
            check_args_len(&args, 4)?;
            Ok(Operation::BasicShellCd { currentDir: args[2].clone(), newDir: args[3].clone() })
        } else if same_text(word, "basicShell/exec") {
            check_args_len(&args, 3)?;
            Ok(Operation::BasicShellExec { command: args[2].clone() })
        } else if same_text(word, "shellScript/exec") {
            check_args_len(&args, 3)?;
            Ok(Operation::ShellScriptExec { script: args[2].clone() })
        } else if same_text(word, "snapshot/create") {
            if args.len() > 2 {
                Ok(Operation::SnapshotCreate { description: Some(args[2].clone()) })
            } else {
                Ok(Operation::SnapshotCreate { description: None })
            }
        } else if same_text(word, "snapshot/list") {
            Ok(Operation::SnapshotList)
        } else if same_text(word, "snapshot/delete") {
            check_args_len(&args, 3)?;
            Ok(Operation::SnapshotDelete { snapshot: args[2].clone() })
        } else if same_text(word, "snapshot/restore") {
            check_args_len(&args, 3)?;
            Ok(Operation::SnapshotRestore { snapshot: args[2].clone() })
        } else if same_text(word, "snapshot/toggleSticky") {
            check_args_len(&args, 4)?;
            let sticky = parse_sticky(args[3].as_str())?;
            Ok(Operation::SnapshotToggleSticky { snapshot: args[2].clone(), sticky })
        } else if same_text(word, "snapshot/export") {
            check_args_len(&args, 3)?;
            Ok(Operation::SnapshotExport { snapshot: args[2].clone() })
        } else if same_text(word, "snapshot/import") {
            check_args_len(&args, 4)?;
            Ok(
                Operation::SnapshotImport {
                    sourceVeid: args[2].clone(),
                    sourceToken: args[3].clone(),
                },
            )
        } else if same_text(word, "ipv6/add") {
            Ok(Operation::Ipv6Add { ip: None })
        } else if same_text(word, "ipv6/delete") {
            check_args_len(&args, 3)?;
            Ok(Operation::Ipv6Delete { ip: args[2].clone() })
        } else if same_text(word, "migrate/getLocations") {
            Ok(Operation::MigrateGetLocations)
        } else if same_text(word, "migrate/start") {
            check_args_len(&args, 3)?;
            Ok(Operation::MigrateStart { location: args[2].clone() })
        } else if same_text(word, "cloneFromExternalServer") {
            check_args_len(&args, 5)?;
            Ok(
                Operation::CloneFromExternalServer {
                    externalServerIP: args[2].clone(),
                    externalServerSSHport: args[3].clone(),
                    externalServerRootPassword: args[4].clone(),
                },
            )
        } else if same_text(word, "getSuspensionDetails") {
            Ok(Operation::GetSuspensionDetails)
        } else if same_text(word, "unsuspend") {
            check_args_len(&args, 3)?;
            Ok(Operation::Unsuspend { record_id: args[2].clone() })
        } else if same_text(word, "getRateLimitStatus") {
            Ok(Operation::GetRateLimitStatus)
        } else {
            Err(ParseError::UnknownOperation)
        }
    }
}

/// What tells the words of the command line apart: each one's length, its
/// first character and, where it has one, its tenth. No two words agree in all
/// three.
proof fn lemma_words_differ()
    ensures
        "-h"@.len() == 2 && "-h"@[0] == '-',
        "help"@.len() == 4 && "help"@[0] == 'h',
        "start"@.len() == 5 && "start"@[0] == 's',
        "stop"@.len() == 4 && "stop"@[0] == 's',
        "restart"@.len() == 7 && "restart"@[0] == 'r',
        "kill"@.len() == 4 && "kill"@[0] == 'k',
        "getServiceInfo"@.len() == 14 && "getServiceInfo"@[0] == 'g' && "getServiceInfo"@[9] == 'e',
        "getLiveServiceInfo"@.len() == 18 && "getLiveServiceInfo"@[0] == 'g' && "getLiveServiceInfo"@[9] == 'r',
        "getAvailableOS"@.len() == 14 && "getAvailableOS"@[0] == 'g' && "getAvailableOS"@[9] == 'b',
        "reinstallOS"@.len() == 11 && "reinstallOS"@[0] == 'r' && "reinstallOS"@[9] == 'O',
        "resetRootPassword"@.len() == 17 && "resetRootPassword"@[0] == 'r' && "resetRootPassword"@[9] == 'P',
        "getUsageGraphs"@.len() == 14 && "getUsageGraphs"@[0] == 'g' && "getUsageGraphs"@[9] == 'r',
        "getRawUsageStats"@.len() == 16 && "getRawUsageStats"@[0] == 'g' && "getRawUsageStats"@[9] == 'g',
        "setHostname"@.len() == 11 && "setHostname"@[0] == 's' && "setHostname"@[9] == 'm',
        "setPTR"@.len() == 6 && "setPTR"@[0] == 's',
        "basicShell/cd"@.len() == 13 && "basicShell/cd"@[0] == 'b' && "basicShell/cd"@[9] == 'l',
        "basicShell/exec"@.len() == 15 && "basicShell/exec"@[0] == 'b' && "basicShell/exec"@[9] == 'l',
        "shellScript/exec"@.len() == 16 && "shellScript/exec"@[0] == 's' && "shellScript/exec"@[9] == 'p',
        "snapshot/create"@.len() == 15 && "snapshot/create"@[0] == 's' && "snapshot/create"@[9] == 'c',
        "snapshot/list"@.len() == 13 && "snapshot/list"@[0] == 's' && "snapshot/list"@[9] == 'l',
        "snapshot/delete"@.len() == 15 && "snapshot/delete"@[0] == 's' && "snapshot/delete"@[9] == 'd',
        "snapshot/restore"@.len() == 16 && "snapshot/restore"@[0] == 's' && "snapshot/restore"@[9] == 'r',
        "snapshot/toggleSticky"@.len() == 21 && "snapshot/toggleSticky"@[0] == 's' && "snapshot/toggleSticky"@[9] == 't',
        "snapshot/export"@.len() == 15 && "snapshot/export"@[0] == 's' && "snapshot/export"@[9] == 'e',
        "snapshot/import"@.len() == 15 && "snapshot/import"@[0] == 's' && "snapshot/import"@[9] == 'i',
        "ipv6/add"@.len() == 8 && "ipv6/add"@[0] == 'i',
        "ipv6/delete"@.len() == 11 && "ipv6/delete"@[0] == 'i' && "ipv6/delete"@[9] == 't',
        "migrate/getLocations"@.len() == 20 && "migrate/getLocations"@[0] == 'm' && "migrate/getLocations"@[9] == 'e',
        "migrate/start"@.len() == 13 && "migrate/start"@[0] == 'm' && "migrate/start"@[9] == 't',
        "cloneFromExternalServer"@.len() == 23 && "cloneFromExternalServer"@[0] == 'c' && "cloneFromExternalServer"@[9] == 'E',
        "getSuspensionDetails"@.len() == 20 && "getSuspensionDetails"@[0] == 'g' && "getSuspensionDetails"@[9] == 's',
        "unsuspend"@.len() == 9 && "unsuspend"@[0] == 'u',
        "getRateLimitStatus"@.len() == 18 && "getRateLimitStatus"@[0] == 'g' && "getRateLimitStatus"@[9] == 'm',
{
    reveal_strlit("-h");
    reveal_strlit("help");
    reveal_strlit("start");
    reveal_strlit("stop");
    reveal_strlit("restart");
    reveal_strlit("kill");
    reveal_strlit("getServiceInfo");
    reveal_strlit("getLiveServiceInfo");
    reveal_strlit("getAvailableOS");
    reveal_strlit("reinstallOS");
    reveal_strlit("resetRootPassword");
    reveal_strlit("getUsageGraphs");
    reveal_strlit("getRawUsageStats");
    reveal_strlit("setHostname");
    reveal_strlit("setPTR");
    reveal_strlit("basicShell/cd");
    reveal_strlit("basicShell/exec");
    reveal_strlit("shellScript/exec");
    reveal_strlit("snapshot/create");
    reveal_strlit("snapshot/list");
    reveal_strlit("snapshot/delete");
    reveal_strlit("snapshot/restore");
    reveal_strlit("snapshot/toggleSticky");
    reveal_strlit("snapshot/export");
    reveal_strlit("snapshot/import");
    reveal_strlit("ipv6/add");
    reveal_strlit("ipv6/delete");
    reveal_strlit("migrate/getLocations");
    reveal_strlit("migrate/start");
    reveal_strlit("cloneFromExternalServer");
    reveal_strlit("getSuspensionDetails");
    reveal_strlit("unsuspend");
    reveal_strlit("getRateLimitStatus");
}

/// The values of a list of pairs, in order.
pub open spec fn values(pairs: Seq<Pair>) -> Seq<Seq<char>> {
    Seq::new(pairs.len(), |i: int| pairs[i].1)
}

/// The shortest command line that spells `operation` out: the program's name,
/// the operation's word, and one token for each parameter that the request
/// carries, in the request's order. A flag is written as in the request.
pub open spec fn command_line(program: Seq<char>, operation: OperationView) -> Seq<Seq<char>> {
    seq![program, operation.endpoint()] + values(operation.parameters())
}

/// `operation` as the parser hands it out: `ipv6/add` without its address,
/// every other operation as it is.
pub open spec fn as_parsed(operation: OperationView) -> OperationView {
    match operation {
        OperationView::Ipv6Add { .. } => OperationView::Ipv6Add { ip: None },
        _ => operation,
    }
}

/// The flag as the request writes it reads back as the same flag.
pub proof fn lemma_flag_reads_back(flag: bool)
    ensures
        sticky_flag(flag_text(flag)) == Some(flag),
{
    reveal_strlit("0");
    reveal_strlit("1");
    reveal_strlit("true");
    reveal_strlit("false");
    if flag {
        assert("1"@.subrange(0int, 0int + "1"@.len()) == "1"@);
    } else {
        assert forall|start: int|
            0 <= start && start + "1"@.len() <= "0"@.len() implies #[trigger] "0"@.subrange(
            start,
            start + "1"@.len(),
        ) != "1"@ by {
            assert("0"@.subrange(start, start + "1"@.len())[0] == '0');
        }
        assert("0"@.subrange(0int, 0int + "0"@.len()) == "0"@);
    }
}

/// Every operation can be named, and is read back as it was spelled: the
/// command line that spells an operation out parses to that operation, each
/// field from its own token. The one exception is the address of `ipv6/add`,
/// which the parser drops.
pub proof fn lemma_command_line_parses(program: Seq<char>, operation: OperationView)
    ensures
        parse(command_line(program, operation)) == Ok::<OperationView, ParseError>(
            as_parsed(operation),
        ),
{
    lemma_words_differ();
    if let OperationView::SnapshotToggleSticky { sticky, .. } = operation {
        lemma_flag_reads_back(sticky);
    }
}

/// A command line that names an operation but gives fewer parameters than the
/// operation requires is refused. The refusal counts in tokens, the program's
/// name and the operation's word included: two more are required than the
/// operation has required parameters, and as many were supplied as the
/// command line holds.
pub proof fn lemma_missing_parameters(tokens: Seq<Seq<char>>, operation: OperationView)
    requires
        tokens.len() >= 2,
        tokens[1] == operation.endpoint(),
        tokens.len() - 2 < operation.required_parameters(),
    ensures
        parse(tokens) == Err::<OperationView, ParseError>(
            ParseError::TooFewArguments {
                required: (2 + operation.required_parameters()) as usize,
                supplied: tokens.len() as usize,
            },
        ),
{
    lemma_words_differ();
}

/// The retired word `getServiceInfo` is always refused as retired, whatever
/// follows it: it is never taken for an unknown word, nor for
/// `getLiveServiceInfo`.
pub proof fn lemma_retired_word(tokens: Seq<Seq<char>>)
    requires
        tokens.len() >= 2,
        tokens[1] == "getServiceInfo"@,
    ensures
        parse(tokens) == Err::<OperationView, ParseError>(ParseError::DeprecatedOperation),
{
    lemma_words_differ();
}

/// A command line that names no operation, or has `-h` or `help` where the
/// operation's word would stand, always yields the usage text and the exit
/// code 0, whatever else it holds.
pub proof fn lemma_help_wins(tokens: Seq<Seq<char>>)
    requires
        tokens.len() < 2 || tokens[1] == "-h"@ || tokens[1] == "help"@,
    ensures
        parse(tokens) == Err::<OperationView, ParseError>(ParseError::HelpRequested),
        ParseError::HelpRequested.exit_status() == 0,
{
}

/// Tokens beyond an operation's last parameter are not looked at: where a
/// command line names an operation and gives each of its parameters, the
/// optional one too, more tokens at its end change nothing.
pub proof fn lemma_trailing_tokens_ignored(tokens: Seq<Seq<char>>, extra: Seq<Seq<char>>)
    requires
        parse(tokens) is Ok,
        parse(tokens) == Ok::<OperationView, ParseError>(
            OperationView::SnapshotCreate { description: None },
        ) ==> extra.len() == 0,
    ensures
        parse(tokens + extra) == parse(tokens),
{
}

/// An operation comes only from its own word and from a command line that
/// gives every parameter it cannot do without.
pub proof fn lemma_parsed_operation_is_named(tokens: Seq<Seq<char>>, operation: OperationView)
    requires
        parse(tokens) == Ok::<OperationView, ParseError>(operation),
    ensures
        tokens.len() >= 2 + operation.required_parameters(),
        tokens[1] == operation.endpoint(),
{
}

/// A word that is no operation's word, nor the retired one, nor a request for
/// help, is refused as unknown.
pub proof fn lemma_unknown_word(tokens: Seq<Seq<char>>)
    requires
        !help_requested(tokens),
        tokens[1] != "getServiceInfo"@,
        forall|operation: OperationView| tokens[1] != #[trigger] operation.endpoint(),
    ensures
        parse(tokens) == Err::<OperationView, ParseError>(ParseError::UnknownOperation),
{
    let text = Seq::<char>::empty();
    assert(tokens[1] != OperationView::Start.endpoint());
    assert(tokens[1] != OperationView::Stop.endpoint());
    assert(tokens[1] != OperationView::Restart.endpoint());
    assert(tokens[1] != OperationView::Kill.endpoint());
    assert(tokens[1] != OperationView::GetLiveServiceInfo.endpoint());
    assert(tokens[1] != OperationView::GetAvailableOS.endpoint());
    assert(tokens[1] != OperationView::ReinstallOs { os: text }.endpoint());
    assert(tokens[1] != OperationView::ResetRootPassword.endpoint());
    assert(tokens[1] != OperationView::GetUsageGraphs.endpoint());
    assert(tokens[1] != OperationView::GetRawUsageStats.endpoint());
    assert(tokens[1] != OperationView::SetHostname { newHostname: text }.endpoint());
    assert(tokens[1] != OperationView::SetPtr { ip: text, ptr: text }.endpoint());
    assert(tokens[1] != OperationView::BasicShellCd { currentDir: text, newDir: text }.endpoint());
    assert(tokens[1] != OperationView::BasicShellExec { command: text }.endpoint());
    assert(tokens[1] != OperationView::ShellScriptExec { script: text }.endpoint());
    assert(tokens[1] != OperationView::SnapshotCreate { description: None }.endpoint());
    assert(tokens[1] != OperationView::SnapshotList.endpoint());
    assert(tokens[1] != OperationView::SnapshotDelete { snapshot: text }.endpoint());
    assert(tokens[1] != OperationView::SnapshotRestore { snapshot: text }.endpoint());
    assert(tokens[1] != OperationView::SnapshotToggleSticky {
        snapshot: text,
        sticky: true,
    }.endpoint());
    assert(tokens[1] != OperationView::SnapshotExport { snapshot: text }.endpoint());
    assert(tokens[1] != OperationView::SnapshotImport {
        sourceVeid: text,
        sourceToken: text,
    }.endpoint());
    assert(tokens[1] != OperationView::Ipv6Add { ip: None }.endpoint());
    assert(tokens[1] != OperationView::Ipv6Delete { ip: text }.endpoint());
    assert(tokens[1] != OperationView::MigrateGetLocations.endpoint());
    assert(tokens[1] != OperationView::MigrateStart { location: text }.endpoint());
    assert(tokens[1] != OperationView::CloneFromExternalServer {
        externalServerIP: text,
        externalServerSSHport: text,
        externalServerRootPassword: text,
    }.endpoint());
    assert(tokens[1] != OperationView::GetSuspensionDetails.endpoint());
    assert(tokens[1] != OperationView::Unsuspend { record_id: text }.endpoint());
    assert(tokens[1] != OperationView::GetRateLimitStatus.endpoint());
}

} // verus!
