//! Secondary lookups on Windows: the name, command line and owner of a
//! process, from what PowerShell and `tasklist` print.

use vstd::prelude::*;
use crate::platform::backend::{opt_str, CommandSpec, CommandSpecView};
use crate::text::chars::{chars_of, same_chars, string_of};
use crate::text::number::{decimal, push_decimal};
use crate::text::search::{contains, has_pattern};
use crate::text::split::{append_chars, split_words, texts, trim, trim_text, words, Delim};
use crate::types::opt_text;

verus! {

/// The PowerShell expression that prints the name of process `pid`.
pub open spec fn name_query_of(pid: u32) -> Seq<char> {
    "(Get-Process -Id "@ + decimal(pid as nat) + ").ProcessName"@
}

/// The PowerShell expression that prints the command line of process `pid`.
pub open spec fn command_line_query_of(pid: u32) -> Seq<char> {
    "(Get-CimInstance Win32_Process -Filter \"ProcessId="@ + decimal(pid as nat)
        + "\").CommandLine"@
}

/// The command that evaluates the PowerShell expression `query` with the
/// console's output encoding set to UTF-8.
pub open spec fn ps_command(query: Seq<char>) -> CommandSpecView {
    CommandSpecView {
        program: "powershell"@,
        args: seq![
            "-NoProfile"@,
            "-Command"@,
            "[Console]::OutputEncoding=[Text.UTF8Encoding]::new(); "@ + query,
        ],
    }
}

/// The command that prints the verbose `tasklist` row of process `pid`,
/// without a header.
pub open spec fn tasklist_command_of(pid: u32) -> CommandSpecView {
    CommandSpecView {
        program: "tasklist"@,
        args: seq!["/FI"@, "PID eq "@ + decimal(pid as nat), "/V"@, "/NH"@],
    }
}

/// The name of the variable that holds the account of the current session.
pub open spec fn username_variable() -> Seq<char> {
    "USERNAME"@
}

/// What a PowerShell query answered, from what it printed, `None` where it
/// could not be run: the output without the white space around it. Empty
/// output is no answer.
pub open spec fn ps_answer(stdout: Option<Seq<char>>) -> Option<Seq<char>> {
    match stdout {
        Some(out) => if trim(out).len() == 0 {
            None
        } else {
            Some(trim(out))
        },
        None => None,
    }
}

/// The display name of a process, from what the name query printed: the
/// answer with `.exe` after it.
pub open spec fn process_name(stdout: Option<Seq<char>>) -> Option<Seq<char>> {
    match ps_answer(stdout) {
        Some(name) => Some(name + ".exe"@),
        None => None,
    }
}

/// Whether a `tasklist` column names an account: it is not empty, not the
/// placeholder `N/A`, and names no service account.
pub open spec fn is_account(candidate: Seq<char>) -> bool {
    candidate.len() > 0 && candidate != "N/A"@ && !contains(candidate, "Services"@)
}

/// The account of the current session, from the value of the `USERNAME`
/// variable, `None` where it is not set: that value, and no account where
/// there is none.
pub open spec fn session_user(variable: Option<Seq<char>>) -> Option<Seq<char>> {
    variable
}

/// The owner of a process, from what `tasklist` printed, `None` where it
/// could not be run, and from the `USERNAME` variable.
///
/// The owner is the twelfth white-space separated column of the output if
/// that names an account, and the account of the current session if not;
/// where the session's account is not known either, the owner is absent.
/// Where `tasklist` could not be run the owner is absent too.
pub open spec fn process_user(tasklist: Option<Seq<char>>, variable: Option<Seq<char>>) -> Option<
    Seq<char>,
> {
    match tasklist {
        Some(out) => {
            let columns = words(out, Delim::Whitespace);
            if columns.len() >= 12 && is_account(columns[11]) {
                Some(columns[11])
            } else {
                session_user(variable)
            }
        },
        None => None,
    }
}

/// Builds the PowerShell expression that prints the name of process `pid`.
pub fn name_query(pid: u32) -> (query: String)
    ensures
        query@ == name_query_of(pid),
{
    let mut text = chars_of("(Get-Process -Id ");
    push_decimal(&mut text, pid as u64);
    append_chars(&mut text, &chars_of(").ProcessName"));
    string_of(&text)
}

/// Builds the PowerShell expression that prints the command line of
/// process `pid`.
pub fn command_line_query(pid: u32) -> (query: String)
    ensures
        query@ == command_line_query_of(pid),
{
    let mut text = chars_of("(Get-CimInstance Win32_Process -Filter \"ProcessId=");
    push_decimal(&mut text, pid as u64);
    append_chars(&mut text, &chars_of("\").CommandLine"));
    string_of(&text)
}

/// Builds the command that evaluates the PowerShell expression `query` and
/// prints the result in UTF-8.
pub fn ps_utf8(query: &str) -> (c: CommandSpec)
    ensures
        c@ == ps_command(query@),
{
    let mut script = chars_of("[Console]::OutputEncoding=[Text.UTF8Encoding]::new(); ");
    append_chars(&mut script, &chars_of(query));
    let args = vec!["-NoProfile".to_string(), "-Command".to_string(), string_of(&script)];
    let c = CommandSpec { program: "powershell".to_string(), args };
    assert(c@.args == ps_command(query@).args);
    c
}

/// Builds the command that prints the verbose `tasklist` row of process `pid`.
pub fn tasklist_command(pid: u32) -> (c: CommandSpec)
    ensures
        c@ == tasklist_command_of(pid),
{
    let mut filter = chars_of("PID eq ");
    push_decimal(&mut filter, pid as u64);
    let args = vec!["/FI".to_string(), string_of(&filter), "/V".to_string(), "/NH".to_string()];
    let c = CommandSpec { program: "tasklist".to_string(), args };
    assert(c@.args == tasklist_command_of(pid).args);
    c
}

/// Reads the answer of a PowerShell query from what it printed.
pub fn read_ps_answer(stdout: Option<&str>) -> (r: Option<Vec<char>>)
    ensures
        crate::text::search::option_chars(r) == ps_answer(opt_str(stdout)),
{
    match stdout {
        Some(out) => {
            let answer = trim_text(&chars_of(out));
            if answer.len() == 0 {
                None
            } else {
                Some(answer)
            }
        },
        None => None,
    }
}

/// Reads the display name of a process from what the name query printed.
pub fn get_process_name(stdout: Option<&str>) -> (r: Option<String>)
    ensures
        opt_text(r) == process_name(opt_str(stdout)),
{
    match read_ps_answer(stdout) {
        Some(name) => {
            let mut name = name;
            append_chars(&mut name, &chars_of(".exe"));
            Some(string_of(&name))
        },
        None => None,
    }
}

/// Reads the command line of a process from what the command line query
/// printed.
pub fn get_command_line(stdout: Option<&str>) -> (r: Option<String>)
    ensures
        opt_text(r) == ps_answer(opt_str(stdout)),
{
    match read_ps_answer(stdout) {
        Some(line) => Some(string_of(&line)),
        None => None,
    }
}

/// Names the account of the current session from the value of the
/// `USERNAME` variable; `None` where the variable is not set.
pub fn get_current_user(variable: Option<&str>) -> (user: Option<String>)
    ensures
        opt_text(user) == session_user(opt_str(variable)),
{
    match variable {
        Some(name) => Some(name.to_string()),
        None => None,
    }
}

/// Finds the owner of a process from what `tasklist` printed and from the
/// `USERNAME` variable. A column that is the placeholder `N/A` or names a
/// service account is never the owner: the session's account takes its
/// place, and where that is not known the owner is absent.
pub fn get_process_user(tasklist: Option<&str>, variable: Option<&str>) -> (r: Option<String>)
    ensures
        opt_text(r) == process_user(opt_str(tasklist), opt_str(variable)),
        tasklist is None ==> r is None,
        r matches Some(user) ==> opt_str(variable) == Some(user@) || is_account(user@),
{
    let out = match tasklist {
        Some(out) => out,
        None => {
            return None;
        },
    };
    let columns = split_words(&chars_of(out), &Delim::Whitespace);
    assert(texts(columns@).len() == columns.len());
    if columns.len() >= 12 {
        let candidate = &columns[11];
        assert(texts(columns@)[11] == candidate@);
        if candidate.len() > 0 && !same_chars(candidate, &chars_of("N/A")) && !has_pattern(
            candidate,
            &chars_of("Services"),
        ) {
            return Some(string_of(candidate));
        }
    }
    get_current_user(variable)
}

/// The name, the command line and the owner of a process, in this order,
/// from what the name query, the command line query and `tasklist` printed,
/// each `None` where the command could not be run, and from the `USERNAME`
/// variable. Each is found on its own: one that is missing leaves the
/// others as they are.
pub fn process_info_from_pid(
    name_output: Option<&str>,
    command_output: Option<&str>,
    tasklist_output: Option<&str>,
    variable: Option<&str>,
) -> (r: (Option<String>, Option<String>, Option<String>))
    ensures
        opt_text(r.0) == process_name(opt_str(name_output)),
        opt_text(r.1) == ps_answer(opt_str(command_output)),
        opt_text(r.2) == process_user(opt_str(tasklist_output), opt_str(variable)),
{
    let name = get_process_name(name_output);
    let command = get_command_line(command_output);
    let user = get_process_user(tasklist_output, variable);
    (name, command, user)
}

} // verus!
