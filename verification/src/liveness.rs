//! Liveness: which units the supervisor has loaded, whether a port is
//! open, whether a service answers its health check.

use crate::command::{
    command, command_of, outcome_of, CommandOutput, CommandSpec, CommandView, OutcomeView,
};
use crate::http::{
    http_outcome_of, HttpFailure, HttpMethod, HttpOutcomeView, HttpReply, HttpRequest,
    HttpRequestView,
};
use crate::label_map::LabelMap;
use crate::platform::Platform;
use crate::text::{
    chars_of, decimal, fields, is_whitespace_char, is_word, joined, lemma_three_fields, lines,
    parse_i32, parse_i32_spec, slice_of, split_fields, split_lines, string_of, trim_end_suffix,
    trimmed_suffix_len, u64_to_string, views,
};
use vstd::prelude::*;

verus! {

/// The units that the supervisor has loaded, each with its process id
/// where the supervisor tells it.
pub type LoadedTable = LabelMap<Option<i32>>;

/// The command that lists the loaded units, where the platform has one.
pub open spec fn loaded_services_command_of(platform: Platform) -> Option<CommandView> {
    match platform {
        Platform::MacOs => Some(command_of("launchctl"@, seq!["list"@])),
        Platform::Windows => None,
        Platform::Linux => Some(
            command_of(
                "systemctl"@,
                seq!["--user"@, "list-units"@, "--type=service"@, "--no-pager"@, "--plain"@],
            ),
        ),
    }
}

/// The command that lists the loaded units, where the platform has one.
pub fn loaded_services_command(platform: Platform) -> (r: Option<CommandSpec>)
    ensures
        r.deep_view() == loaded_services_command_of(platform),
{
    match platform {
        Platform::MacOs => {
            let args = vec!["list"];
            proof {
                assert(args.deep_view() =~= seq!["list"@]);
            }
            Some(command("launchctl", args))
        },
        Platform::Windows => None,
        Platform::Linux => {
            let args = vec!["--user", "list-units", "--type=service", "--no-pager", "--plain"];
            proof {
                assert(args.deep_view() =~= seq![
                    "--user"@,
                    "list-units"@,
                    "--type=service"@,
                    "--no-pager"@,
                    "--plain"@,
                ]);
            }
            Some(command("systemctl", args))
        },
    }
}

/// The unit that a line of the listing tells of. On the platform whose
/// listing has the columns process id, status and label, a line with
/// fewer than three fields tells of none, and a first field that is no
/// number means that the process id is unknown. On the platform whose
/// listing starts each line with the unit's name, the label is that name
/// without its ending `.service`, and the process id is unknown.
pub open spec fn loaded_row(platform: Platform, line: Seq<char>) -> Option<
    (Seq<char>, Option<i32>),
> {
    let parts = fields(line);
    match platform {
        Platform::MacOs => if parts.len() >= 3 {
            Some((parts[2], parse_i32_spec(parts[0])))
        } else {
            None
        },
        Platform::Windows => None,
        Platform::Linux => if parts.len() > 0 {
            Some((trim_end_suffix(parts[0], ".service"@), None))
        } else {
            None
        },
    }
}

/// A line of the listing with three columns, separated by tabs, tells of
/// the unit whose label is the third column, with the process id that
/// the first column holds where it is a number.
pub proof fn lemma_row_of_three_columns(pid: Seq<char>, status: Seq<char>, label: Seq<char>)
    requires
        pid.len() > 0 && is_word(pid),
        status.len() > 0 && is_word(status),
        label.len() > 0 && is_word(label),
    ensures
        loaded_row(Platform::MacOs, pid + seq!['\t'] + status + seq!['\t'] + label) == Some(
            (label, parse_i32_spec(pid)),
        ),
{
    assert(is_whitespace_char('\t'));
    lemma_three_fields(pid, '\t', status, '\t', label);
}

/// The units that the given lines tell of. A later line replaces an
/// earlier one with the same label.
pub open spec fn loaded_rows(platform: Platform, rows: Seq<Seq<char>>) -> Map<
    Seq<char>,
    Option<i32>,
>
    decreases rows.len(),
{
    if rows.len() == 0 {
        Map::empty()
    } else {
        let before = loaded_rows(platform, rows.drop_last());
        match loaded_row(platform, rows.last()) {
            Some((label, pid)) => before.insert(label, pid),
            None => before,
        }
    }
}

/// The lines of a listing after its heading.
pub open spec fn listing_body(listing: Seq<char>) -> Seq<Seq<char>> {
    if lines(listing).len() == 0 {
        Seq::empty()
    } else {
        lines(listing).drop_first()
    }
}

/// The loaded units according to a listing. Without a listing none is
/// known to be loaded.
pub open spec fn loaded_table(platform: Platform, listing: Option<Seq<char>>) -> Map<
    Seq<char>,
    Option<i32>,
> {
    match listing {
        Some(text) => loaded_rows(platform, listing_body(text)),
        None => Map::empty(),
    }
}

/// Reads the loaded units from the output of
/// [`loaded_services_command`]. `listing` is none where the command
/// could not be run.
pub fn get_loaded_services(platform: Platform, listing: Option<&str>) -> (r: LoadedTable)
    ensures
        r@ == loaded_table(platform, listing.deep_view()),
{
    let mut table: LoadedTable = LabelMap::new();
    let text = match listing {
        Some(text) => chars_of(text),
        None => {
            return table;
        },
    };
    let rows = split_lines(&text);
    if rows.len() == 0 {
        return table;
    }
    let ghost body = listing_body(text@);
    let mut i: usize = 1;
    while i < rows.len()
        invariant
            1 <= i <= rows.len(),
            views(rows@) == lines(text@),
            body == listing_body(text@),
            table@ == loaded_rows(platform, body.take(i - 1)),
        decreases rows.len() - i,
    {
        let row = &rows[i];
        proof {
            assert(body.take(i as int).drop_last() == body.take(i - 1));
        }
        let parts = split_fields(row);
        match platform {
            Platform::MacOs => {
                if parts.len() >= 3 {
                    let pid = parse_i32(&parts[0]);
                    table.insert(string_of(&parts[2]), pid);
                }
            },
            Platform::Windows => {},
            Platform::Linux => {
                if parts.len() > 0 {
                    let suffix = chars_of(".service");
                    let n = trimmed_suffix_len(&parts[0], &suffix);
                    let name = slice_of(&parts[0], 0, n);
                    table.insert(string_of(&name), None);
                }
            },
        }
        i = i + 1;
    }
    proof {
        assert(body.take(rows@.len() - 1) == body);
    }
    table
}

/// How a TCP port is probed: which address to connect to, and for how
/// long to wait.
#[derive(Debug, PartialEq, Eq)]
pub struct PortProbe {
    pub address: String,
    pub timeout_millis: u64,
}

/// The milliseconds allowed to a connection attempt.
pub const PORT_PROBE_MILLIS: u64 = 500;

/// The loopback address of a port.
pub open spec fn loopback_address(port: u16) -> Seq<char> {
    "127.0.0.1:"@ + decimal(port as nat)
}

/// The probe of a port on the loopback interface.
pub fn port_probe(port: u16) -> (r: PortProbe)
    ensures
        r.address@ == loopback_address(port),
        r.timeout_millis == PORT_PROBE_MILLIS,
{
    let digits = u64_to_string(port as u64);
    PortProbe { address: joined("127.0.0.1:", digits.as_str()), timeout_millis: PORT_PROBE_MILLIS }
}

/// Whether the port is open, given what came of the connection attempt
/// that [`port_probe`] describes: it is open exactly where the attempt
/// succeeded. A refusal, a timeout and any other failure mean closed.
pub fn check_port(attempt: Result<(), String>) -> (r: bool)
    ensures
        r == attempt is Ok,
{
    match attempt {
        Ok(()) => true,
        Err(_) => false,
    }
}

/// The seconds allowed to a health check.
pub const HEALTH_TIMEOUT_SECS: u64 = 2;

/// The request that checks the health of a service.
pub open spec fn health_request_of(url: Seq<char>) -> HttpRequestView {
    HttpRequestView {
        method: HttpMethod::Get,
        url,
        headers: Seq::empty(),
        body: None,
        timeout_secs: HEALTH_TIMEOUT_SECS,
    }
}

/// The request that checks the health of a service.
pub fn health_request(url: &str) -> (r: HttpRequest)
    ensures
        r@ == health_request_of(url@),
{
    let headers: Vec<(String, String)> = Vec::new();
    proof {
        assert(headers.deep_view() =~= Seq::<(Seq<char>, Seq<char>)>::empty());
    }
    HttpRequest {
        method: HttpMethod::Get,
        url: url.to_owned(),
        headers,
        body: None,
        timeout_secs: HEALTH_TIMEOUT_SECS,
    }
}

/// A status from 200 to 399.
pub open spec fn is_healthy_status(status: u16) -> bool {
    200 <= status < 400
}

/// The command that checks the health of a service where no client
/// could be set up: it prints the status of the reply.
pub open spec fn health_command_of(url: Seq<char>) -> CommandView {
    command_of(
        "curl"@,
        seq!["-s"@, "-o"@, "/dev/null"@, "-w"@, "%{http_code}"@, "-m"@, "2"@, url],
    )
}

/// What follows the health request.
#[derive(Debug, PartialEq, Eq)]
pub enum HealthStep {
    /// The check has ended with this answer.
    Answer(bool),
    /// No client could be set up: run this command and judge by its
    /// output.
    Fallback(CommandSpec),
}

/// Mathematical form of [`HealthStep`].
pub enum HealthStepView {
    Answer(bool),
    Fallback(CommandView),
}

impl View for HealthStep {
    type V = HealthStepView;

    open spec fn view(&self) -> HealthStepView {
        match self {
            HealthStep::Answer(b) => HealthStepView::Answer(*b),
            HealthStep::Fallback(c) => HealthStepView::Fallback(c@),
        }
    }
}

/// What the outcome of the health request means: a reply is healthy
/// exactly where its status is from 200 to 399; no reply is unhealthy.
/// Where no client could be set up, the check falls back on a command,
/// on the platforms that have it.
pub open spec fn health_next(platform: Platform, url: Seq<char>, outcome: HttpOutcomeView) -> HealthStepView {
    match outcome {
        HttpOutcomeView::Replied { status, body } => HealthStepView::Answer(
            is_healthy_status(status),
        ),
        HttpOutcomeView::NotSent(_) => HealthStepView::Answer(false),
        HttpOutcomeView::NoClient(_) => match platform {
            Platform::Windows => HealthStepView::Answer(false),
            _ => HealthStepView::Fallback(health_command_of(url)),
        },
    }
}

/// Decides what follows the outcome of [`health_request`].
pub fn check_health(platform: Platform, url: &str, outcome: Result<HttpReply, HttpFailure>) -> (r:
    HealthStep)
    ensures
        r@ == health_next(platform, url@, http_outcome_of(outcome)),
{
    match outcome {
        Ok(reply) => HealthStep::Answer(200 <= reply.status && reply.status < 400),
        Err(HttpFailure::Send(_)) => HealthStep::Answer(false),
        Err(HttpFailure::Client(_)) => match platform {
            Platform::Windows => HealthStep::Answer(false),
            _ => {
                let args = vec!["-s", "-o", "/dev/null", "-w", "%{http_code}", "-m", "2", url];
                proof {
                    assert(args.deep_view() =~= seq![
                        "-s"@,
                        "-o"@,
                        "/dev/null"@,
                        "-w"@,
                        "%{http_code}"@,
                        "-m"@,
                        "2"@,
                        url@,
                    ]);
                }
                HealthStep::Fallback(command("curl", args))
            },
        },
    }
}

/// What the outcome of the fallback command means: healthy exactly
/// where the command ran and the status it printed starts with `2` or
/// `3`.
pub open spec fn health_last(outcome: OutcomeView) -> bool {
    match outcome {
        OutcomeView::NotStarted(_) => false,
        OutcomeView::Finished { success, stdout, stderr } => stdout.len() > 0 && (stdout[0] == '2'
            || stdout[0] == '3'),
    }
}

/// Decides the answer from the outcome of the fallback command.
pub fn check_health_fallback(outcome: Result<CommandOutput, String>) -> (r: bool)
    ensures
        r == health_last(outcome_of(outcome)),
{
    match outcome {
        Err(_) => false,
        Ok(output) => {
            let text = chars_of(output.stdout.as_str());
            text.len() > 0 && (text[0] == '2' || text[0] == '3')
        },
    }
}

/// The last `count` lines of a text, or all of them where there are
/// fewer.
pub open spec fn last_lines(content: Seq<char>, count: nat) -> Seq<Seq<char>> {
    let all = lines(content);
    if all.len() > count {
        all.skip(all.len() - count)
    } else {
        all
    }
}

/// The last `count` lines of a log.
pub fn get_service_logs(content: &str, count: usize) -> (r: Vec<String>)
    ensures
        r.deep_view() == last_lines(content@, count as nat),
{
    let text = chars_of(content);
    let all = split_lines(&text);
    let start = if all.len() > count {
        all.len() - count
    } else {
        0
    };
    let mut out: Vec<String> = Vec::new();
    let mut i: usize = start;
    while i < all.len()
        invariant
            start <= i <= all.len(),
            out@.len() == i - start,
            forall|j: int| 0 <= j < i - start ==> out@[j]@ == all@[start + j]@,
        decreases all.len() - i,
    {
        out.push(string_of(&all[i]));
        i = i + 1;
    }
    out
}

} // verus!
