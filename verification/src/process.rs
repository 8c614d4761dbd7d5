//! Processes: who listens on a port, whether an application runs, and
//! how to end one or the other.

use crate::command::{
    command, command_of, conclude, concluded, outcome_of, CommandOutput, CommandSpec, CommandView,
    OutcomeView,
};
use crate::error::{failure, outcome_view, ErrorKind, ServiceError, ServiceErrorView};
use crate::platform::Platform;
use crate::text::{
    chars_of, contains_sub, decimal, fields, find_char, has_substring, i32_to_string, index_of,
    joined, lines, lowercase_of, parse_i32, parse_i32_spec, signed_decimal, slice_of, split_chars,
    split_fields, split_lines, split_on, string_of, to_lowercase, trim, trimmed, u64_to_string,
    views,
};
use vstd::prelude::*;

verus! {

/// The command that lists the process listening on a TCP port.
pub open spec fn port_owner_command_of(platform: Platform, port: u16) -> CommandView {
    match platform {
        Platform::Windows => command_of(
            "cmd"@,
            seq![
                "/C"@,
                "netstat -ano | findstr :"@ + decimal(port as nat) + " | findstr LISTENING"@,
            ],
        ),
        _ => command_of(
            "lsof"@,
            seq!["-i"@, ":"@ + decimal(port as nat), "-t"@, "-sTCP:LISTEN"@],
        ),
    }
}

/// The command that lists the process listening on a TCP port.
pub fn port_owner_command(platform: Platform, port: u16) -> (r: CommandSpec)
    ensures
        r@ == port_owner_command_of(platform, port),
{
    let digits = u64_to_string(port as u64);
    match platform {
        Platform::Windows => {
            let head = joined("netstat -ano | findstr :", digits.as_str());
            let line = joined(head.as_str(), " | findstr LISTENING");
            let args = vec!["/C", line.as_str()];
            proof {
                assert(args.deep_view() =~= seq!["/C"@, line@]);
            }
            command("cmd", args)
        },
        _ => {
            let target = joined(":", digits.as_str());
            let args = vec!["-i", target.as_str(), "-t", "-sTCP:LISTEN"];
            proof {
                assert(args.deep_view() =~= seq!["-i"@, target@, "-t"@, "-sTCP:LISTEN"@]);
            }
            command("lsof", args)
        },
    }
}

/// The process id that the listing names: it is read from the first
/// line, which holds nothing else on the platforms that list with
/// `lsof`, and holds it as the last field elsewhere. None where there is
/// no line or no number.
pub open spec fn listed_pid(platform: Platform, stdout: Seq<char>) -> Option<i32> {
    if lines(stdout).len() == 0 {
        None
    } else {
        let line = lines(stdout)[0];
        match platform {
            Platform::Windows => if fields(line).len() == 0 {
                None
            } else {
                parse_i32_spec(trim(fields(line).last()))
            },
            _ => parse_i32_spec(trim(line)),
        }
    }
}

/// What the outcome of the listing command means. Only a command that
/// could not be started is a failure.
pub open spec fn port_owner_of(platform: Platform, outcome: OutcomeView) -> Result<
    Option<i32>,
    ServiceErrorView,
> {
    match outcome {
        OutcomeView::NotStarted(reason) => Err(failure(ErrorKind::PermissionOrTransport, reason)),
        OutcomeView::Finished { success, stdout, stderr } => Ok(listed_pid(platform, stdout)),
    }
}

/// Mathematical form of a result that holds a plain value.
pub open spec fn plain_result<T>(r: Result<T, ServiceError>) -> Result<T, ServiceErrorView> {
    match r {
        Ok(v) => Ok(v),
        Err(e) => Err(e@),
    }
}

/// Finds the process that listens on a port in the outcome of
/// [`port_owner_command`].
pub fn get_process_by_port(platform: Platform, outcome: Result<CommandOutput, String>) -> (r:
    Result<Option<i32>, ServiceError>)
    ensures
        plain_result(r) == port_owner_of(platform, outcome_of(outcome)),
{
    let output = match outcome {
        Ok(output) => output,
        Err(reason) => {
            return Err(ServiceError::new(ErrorKind::PermissionOrTransport, reason));
        },
    };
    let text = chars_of(output.stdout.as_str());
    let all = split_lines(&text);
    if all.len() == 0 {
        return Ok(None);
    }
    let line = &all[0];
    match platform {
        Platform::Windows => {
            let parts = split_fields(line);
            if parts.len() == 0 {
                return Ok(None);
            }
            let last = &parts[parts.len() - 1];
            let digits = trimmed(last);
            Ok(parse_i32(&digits))
        },
        _ => {
            let digits = trimmed(line);
            Ok(parse_i32(&digits))
        },
    }
}

/// The command that ends the process with the given id at once.
pub open spec fn kill_command_of(platform: Platform, pid: i32) -> CommandView {
    match platform {
        Platform::Windows => command_of(
            "taskkill"@,
            seq!["/F"@, "/PID"@, signed_decimal(pid as int)],
        ),
        _ => command_of("kill"@, seq!["-9"@, signed_decimal(pid as int)]),
    }
}

/// The command that ends the process with the given id at once.
pub fn kill_command(platform: Platform, pid: i32) -> (r: CommandSpec)
    ensures
        r@ == kill_command_of(platform, pid),
{
    let digits = i32_to_string(pid);
    match platform {
        Platform::Windows => {
            let args = vec!["/F", "/PID", digits.as_str()];
            proof {
                assert(args.deep_view() =~= seq!["/F"@, "/PID"@, digits@]);
            }
            command("taskkill", args)
        },
        _ => {
            let args = vec!["-9", digits.as_str()];
            proof {
                assert(args.deep_view() =~= seq!["-9"@, digits@]);
            }
            command("kill", args)
        },
    }
}

/// What the outcome of [`kill_command`] means.
pub fn kill_process(outcome: Result<CommandOutput, String>) -> (r: Result<String, ServiceError>)
    ensures
        outcome_view(r) == concluded(outcome_of(outcome), "Process killed successfully"@),
{
    conclude(outcome, "Process killed successfully")
}

/// The command that opens a URL with the platform's default handler. It
/// is started and not waited for.
pub open spec fn open_url_command_of(platform: Platform, url: Seq<char>) -> CommandView {
    match platform {
        Platform::MacOs => command_of("open"@, seq![url]),
        Platform::Windows => command_of("cmd"@, seq!["/C"@, "start"@, ""@, url]),
        Platform::Linux => command_of("xdg-open"@, seq![url]),
    }
}

/// The command that opens a URL with the platform's default handler.
pub fn open_url(platform: Platform, url: &str) -> (r: CommandSpec)
    ensures
        r@ == open_url_command_of(platform, url@),
{
    match platform {
        Platform::MacOs => {
            let args = vec![url];
            proof {
                assert(args.deep_view() =~= seq![url@]);
            }
            command("open", args)
        },
        Platform::Windows => {
            let args = vec!["/C", "start", "", url];
            proof {
                assert(args.deep_view() =~= seq!["/C"@, "start"@, ""@, url@]);
            }
            command("cmd", args)
        },
        Platform::Linux => {
            let args = vec![url];
            proof {
                assert(args.deep_view() =~= seq![url@]);
            }
            command("xdg-open", args)
        },
    }
}

/// A space, a hyphen or an underscore.
pub open spec fn is_separator(c: char) -> bool {
    c == ' ' || c == '-' || c == '_'
}

/// `s` without spaces, hyphens and underscores.
pub open spec fn without_separators(s: Seq<char>) -> Seq<char>
    decreases s.len(),
{
    if s.len() == 0 {
        Seq::empty()
    } else if is_separator(s.last()) {
        without_separators(s.drop_last())
    } else {
        without_separators(s.drop_last()).push(s.last())
    }
}

/// The form in which names are compared: lower case, without spaces,
/// hyphens and underscores.
pub open spec fn normalized(name: Seq<char>) -> Seq<char> {
    without_separators(lowercase_of(name))
}

/// Two names match when, in normalized form, one occurs in the other.
pub open spec fn names_match(a: Seq<char>, b: Seq<char>) -> bool {
    contains_sub(normalized(a), normalized(b)) || contains_sub(normalized(b), normalized(a))
}

/// Executable form of [`normalized`].
pub fn normalize(name: &str) -> (r: Vec<char>)
    ensures
        r@ == normalized(name@),
{
    let lower = to_lowercase(name);
    let all = chars_of(lower.as_str());
    let mut out: Vec<char> = Vec::new();
    let mut i: usize = 0;
    while i < all.len()
        invariant
            i <= all.len(),
            out@ == without_separators(all@.take(i as int)),
        decreases all.len() - i,
    {
        let c = all[i];
        proof {
            assert(all@.take(i + 1).drop_last() == all@.take(i as int));
        }
        if !(c == ' ' || c == '-' || c == '_') {
            out.push(c);
        }
        i = i + 1;
    }
    proof {
        assert(all@.take(all@.len() as int) == all@);
    }
    out
}

/// Some one of the names matches the application's name.
pub open spec fn runs_among(names: Seq<Seq<char>>, app_name: Seq<char>) -> bool {
    exists|i: int| 0 <= i < names.len() && names_match(#[trigger] names[i], app_name)
}

/// Whether an application runs, given the names of the processes that
/// run: it does where some name matches its name.
pub fn app_runs_among(names: &Vec<String>, app_name: &str) -> (r: bool)
    ensures
        r == runs_among(names.deep_view(), app_name@),
{
    let wanted = normalize(app_name);
    let mut i: usize = 0;
    while i < names.len()
        invariant
            i <= names.len(),
            wanted@ == normalized(app_name@),
            forall|j: int| 0 <= j < i ==> !names_match(#[trigger] names.deep_view()[j], app_name@),
        decreases names.len() - i,
    {
        proof {
            assert(names.deep_view()[i as int] == names@[i as int]@);
        }
        let candidate = normalize(names[i].as_str());
        if has_substring(&candidate, &wanted) || has_substring(&wanted, &candidate) {
            return true;
        }
        i = i + 1;
    }
    false
}

/// The command that lists the names of the processes that run.
pub open spec fn app_running_command_of(platform: Platform) -> CommandView {
    match platform {
        Platform::MacOs => command_of(
            "osascript"@,
            seq!["-e"@, "tell application \"System Events\" to name of processes"@],
        ),
        Platform::Windows => command_of("tasklist"@, seq!["/NH"@, "/FO"@, "CSV"@]),
        Platform::Linux => command_of("ps"@, seq!["-e"@, "-o"@, "comm="@]),
    }
}

/// The command that lists the names of the processes that run.
pub fn app_running_command(platform: Platform) -> (r: CommandSpec)
    ensures
        r@ == app_running_command_of(platform),
{
    match platform {
        Platform::MacOs => {
            let args = vec!["-e", "tell application \"System Events\" to name of processes"];
            proof {
                assert(args.deep_view() =~= seq![
                    "-e"@,
                    "tell application \"System Events\" to name of processes"@,
                ]);
            }
            command("osascript", args)
        },
        Platform::Windows => {
            let args = vec!["/NH", "/FO", "CSV"];
            proof {
                assert(args.deep_view() =~= seq!["/NH"@, "/FO"@, "CSV"@]);
            }
            command("tasklist", args)
        },
        Platform::Linux => {
            let args = vec!["-e", "-o", "comm="];
            proof {
                assert(args.deep_view() =~= seq!["-e"@, "-o"@, "comm="@]);
            }
            command("ps", args)
        },
    }
}

/// Each piece without the white space around it.
pub open spec fn trimmed_each(pieces: Seq<Seq<char>>) -> Seq<Seq<char>> {
    pieces.map_values(|piece: Seq<char>| trim(piece))
}

/// What stands between the quotation mark that opens a line and the
/// next one; none where the line opens with none or has no second.
pub open spec fn quoted_head(line: Seq<char>) -> Option<Seq<char>> {
    if line.len() > 0 && line[0] == '"' && index_of(line.drop_first(), '"') < line.len() - 1 {
        Some(line.drop_first().take(index_of(line.drop_first(), '"') as int))
    } else {
        None
    }
}

/// The quoted heads of the lines that have one, in order.
pub open spec fn quoted_heads(rows: Seq<Seq<char>>) -> Seq<Seq<char>>
    decreases rows.len(),
{
    if rows.len() == 0 {
        Seq::empty()
    } else {
        match quoted_head(rows.last()) {
            Some(name) => quoted_heads(rows.drop_last()).push(name),
            None => quoted_heads(rows.drop_last()),
        }
    }
}

/// The names of the processes that a listing tells of: the pieces
/// between commas, the lines, or the first quoted field of each line,
/// as the platform's command prints them.
pub open spec fn process_names(platform: Platform, stdout: Seq<char>) -> Seq<Seq<char>> {
    match platform {
        Platform::MacOs => trimmed_each(split_on(stdout, ',')),
        Platform::Windows => quoted_heads(lines(stdout)),
        Platform::Linux => trimmed_each(lines(stdout)),
    }
}

fn trim_each(pieces: &Vec<Vec<char>>) -> (r: Vec<String>)
    ensures
        r.deep_view() == trimmed_each(views(pieces@)),
{
    let mut out: Vec<String> = Vec::new();
    let mut i: usize = 0;
    while i < pieces.len()
        invariant
            i <= pieces.len(),
            out@.len() == i,
            forall|j: int| 0 <= j < i ==> out@[j]@ == trim(pieces@[j]@),
        decreases pieces.len() - i,
    {
        out.push(string_of(&trimmed(&pieces[i])));
        i = i + 1;
    }
    proof {
        assert(out.deep_view() =~= trimmed_each(views(pieces@)));
    }
    out
}

fn quoted_name(line: &Vec<char>) -> (r: Option<String>)
    ensures
        r.deep_view() == quoted_head(line@),
{
    if line.len() == 0 || line[0] != '"' {
        return None;
    }
    let end = find_char(line, 1, '"');
    proof {
        assert(line@.drop_first() == line@.skip(1));
        assert(line@.skip(1).take(end - 1) == line@.subrange(1, end as int));
    }
    if end < line.len() {
        Some(string_of(&slice_of(line, 1, end)))
    } else {
        None
    }
}

fn quoted_names(rows: &Vec<Vec<char>>) -> (r: Vec<String>)
    ensures
        r.deep_view() == quoted_heads(views(rows@)),
{
    let ghost all = views(rows@);
    let mut out: Vec<String> = Vec::new();
    let mut i: usize = 0;
    proof {
        assert(all.take(0) =~= Seq::<Seq<char>>::empty());
        assert(out.deep_view() =~= quoted_heads(all.take(0)));
    }
    while i < rows.len()
        invariant
            i <= rows.len(),
            all == views(rows@),
            out.deep_view() == quoted_heads(all.take(i as int)),
        decreases rows.len() - i,
    {
        let ghost before = out.deep_view();
        proof {
            assert(all.take(i + 1).drop_last() == all.take(i as int));
            assert(all.take(i + 1).last() == rows@[i as int]@);
        }
        match quoted_name(&rows[i]) {
            Some(name) => {
                out.push(name);
                proof {
                    assert(out.deep_view() =~= before.push(name@));
                }
            },
            None => {},
        }
        i = i + 1;
    }
    proof {
        assert(all.take(rows@.len() as int) == all);
    }
    out
}

/// Reads the names of the processes that run from the output of
/// [`app_running_command`].
pub fn process_names_of(platform: Platform, stdout: &str) -> (r: Vec<String>)
    ensures
        r.deep_view() == process_names(platform, stdout@),
{
    let text = chars_of(stdout);
    match platform {
        Platform::MacOs => trim_each(&split_chars(&text, ',')),
        Platform::Windows => quoted_names(&split_lines(&text)),
        Platform::Linux => trim_each(&split_lines(&text)),
    }
}

/// What the outcome of [`app_running_command`] means: the application
/// runs where the command succeeded and some process that it lists has a
/// matching name. A command that ran and failed shows no application.
pub open spec fn app_running_of(platform: Platform, outcome: OutcomeView, app_name: Seq<char>) -> Result<
    bool,
    ServiceErrorView,
> {
    match outcome {
        OutcomeView::NotStarted(reason) => Err(failure(ErrorKind::PermissionOrTransport, reason)),
        OutcomeView::Finished { success, stdout, stderr } => Ok(
            success && runs_among(process_names(platform, stdout), app_name),
        ),
    }
}

/// Tells from the outcome of [`app_running_command`] whether the
/// application runs.
pub fn check_app_running(
    platform: Platform,
    app_name: &str,
    outcome: Result<CommandOutput, String>,
) -> (r: Result<bool, ServiceError>)
    ensures
        plain_result(r) == app_running_of(platform, outcome_of(outcome), app_name@),
{
    let output = match outcome {
        Ok(output) => output,
        Err(reason) => {
            return Err(ServiceError::new(ErrorKind::PermissionOrTransport, reason));
        },
    };
    if !output.success {
        return Ok(false);
    }
    let names = process_names_of(platform, output.stdout.as_str());
    Ok(app_runs_among(&names, app_name))
}

/// The command that asks an application to quit: the platform's own
/// request where there is one, else the end of every process whose
/// command line holds the name.
pub open spec fn quit_command_of(platform: Platform, app_name: Seq<char>) -> CommandView {
    match platform {
        Platform::MacOs => command_of(
            "osascript"@,
            seq!["-e"@, "quit app \""@ + app_name + "\""@],
        ),
        Platform::Windows => command_of("taskkill"@, seq!["/IM"@, app_name + ".exe"@, "/F"@]),
        Platform::Linux => pkill_command_of(app_name),
    }
}

/// `pkill -f <name>`.
pub open spec fn pkill_command_of(app_name: Seq<char>) -> CommandView {
    command_of("pkill"@, seq!["-f"@, app_name])
}

fn pkill_command(app_name: &str) -> (r: CommandSpec)
    ensures
        r@ == pkill_command_of(app_name@),
{
    let args = vec!["-f", app_name];
    proof {
        assert(args.deep_view() =~= seq!["-f"@, app_name@]);
    }
    command("pkill", args)
}

/// The first command of quitting an application.
pub fn quit_command(platform: Platform, app_name: &str) -> (r: CommandSpec)
    ensures
        r@ == quit_command_of(platform, app_name@),
{
    match platform {
        Platform::MacOs => {
            let head = joined("quit app \"", app_name);
            let script = joined(head.as_str(), "\"");
            let args = vec!["-e", script.as_str()];
            proof {
                assert(args.deep_view() =~= seq!["-e"@, script@]);
            }
            command("osascript", args)
        },
        Platform::Windows => {
            let image = joined(app_name, ".exe");
            let args = vec!["/IM", image.as_str(), "/F"];
            proof {
                assert(args.deep_view() =~= seq!["/IM"@, image@, "/F"@]);
            }
            command("taskkill", args)
        },
        Platform::Linux => pkill_command(app_name),
    }
}

/// What follows the first command of quitting an application.
#[derive(Debug, PartialEq, Eq)]
pub enum QuitStep {
    /// The operation has ended with this result.
    Finish(Result<String, ServiceError>),
    /// The request was refused: run this command next, and keep what the
    /// request wrote to its error stream.
    Fallback { command: CommandSpec, refused_with: String },
}

/// Mathematical form of [`QuitStep`].
pub enum QuitStepView {
    Finish(Result<Seq<char>, ServiceErrorView>),
    Fallback { command: CommandView, refused_with: Seq<char> },
}

impl View for QuitStep {
    type V = QuitStepView;

    open spec fn view(&self) -> QuitStepView {
        match self {
            QuitStep::Finish(r) => QuitStepView::Finish(outcome_view(*r)),
            QuitStep::Fallback { command, refused_with } => QuitStepView::Fallback {
                command: command@,
                refused_with: refused_with@,
            },
        }
    }
}

/// The message that reports that an application has quit.
pub open spec fn quit_done() -> Seq<char> {
    "Application quit successfully"@
}

/// What the outcome of the first command means. A refused request is
/// followed by `pkill` on the platform that has a request of its own,
/// and is a failure elsewhere.
pub open spec fn quit_next(platform: Platform, app_name: Seq<char>, outcome: OutcomeView) -> QuitStepView {
    match outcome {
        OutcomeView::NotStarted(reason) => QuitStepView::Finish(
            Err(failure(ErrorKind::PermissionOrTransport, reason)),
        ),
        OutcomeView::Finished { success, stdout, stderr } => if success {
            QuitStepView::Finish(Ok(quit_done()))
        } else {
            match platform {
                Platform::MacOs => QuitStepView::Fallback {
                    command: pkill_command_of(app_name),
                    refused_with: stderr,
                },
                _ => QuitStepView::Finish(
                    Err(
                        failure(
                            ErrorKind::PermissionOrTransport,
                            "Failed to quit application: "@ + stderr,
                        ),
                    ),
                ),
            }
        },
    }
}

/// What the outcome of the fallback command means. Where it fails too,
/// the failure reports both error streams.
pub open spec fn quit_last(refused_with: Seq<char>, outcome: OutcomeView) -> Result<
    Seq<char>,
    ServiceErrorView,
> {
    match outcome {
        OutcomeView::NotStarted(reason) => Err(failure(ErrorKind::PermissionOrTransport, reason)),
        OutcomeView::Finished { success, stdout, stderr } => if success {
            Ok(quit_done())
        } else {
            Err(
                failure(
                    ErrorKind::PermissionOrTransport,
                    "Failed to quit application. AppleScript: "@ + refused_with + ", pkill: "@
                        + stderr,
                ),
            )
        },
    }
}

/// Decides what follows the outcome of [`quit_command`].
pub fn quit_app(platform: Platform, app_name: &str, outcome: Result<CommandOutput, String>) -> (r:
    QuitStep)
    ensures
        r@ == quit_next(platform, app_name@, outcome_of(outcome)),
{
    let output = match outcome {
        Ok(output) => output,
        Err(reason) => {
            return QuitStep::Finish(
                Err(ServiceError::new(ErrorKind::PermissionOrTransport, reason)),
            );
        },
    };
    if output.success {
        return QuitStep::Finish(Ok("Application quit successfully".to_owned()));
    }
    match platform {
        Platform::MacOs => QuitStep::Fallback {
            command: pkill_command(app_name),
            refused_with: output.stderr,
        },
        _ => {
            let message = joined("Failed to quit application: ", output.stderr.as_str());
            QuitStep::Finish(Err(ServiceError::new(ErrorKind::PermissionOrTransport, message)))
        },
    }
}

/// Decides the result from the outcome of the fallback command.
pub fn quit_app_fallback(refused_with: &str, outcome: Result<CommandOutput, String>) -> (r: Result<
    String,
    ServiceError,
>)
    ensures
        outcome_view(r) == quit_last(refused_with@, outcome_of(outcome)),
{
    let output = match outcome {
        Ok(output) => output,
        Err(reason) => {
            return Err(ServiceError::new(ErrorKind::PermissionOrTransport, reason));
        },
    };
    if output.success {
        return Ok("Application quit successfully".to_owned());
    }
    let a = joined("Failed to quit application. AppleScript: ", refused_with);
    let b = joined(a.as_str(), ", pkill: ");
    let message = joined(b.as_str(), output.stderr.as_str());
    Err(ServiceError::new(ErrorKind::PermissionOrTransport, message))
}

} // verus!
