//! What the tool reports for the two remote JSON endpoints: the public-IP
//! lookup and the remote-time lookup. The caller fetches the response body;
//! this module reads the expected member out of it and builds the lines to
//! print, including the local-time line of the time command.
use vstd::prelude::*;
use vstd::string::StringExecFns;

use crate::timefmt::{local_now_parts, local_time_text, time_text_of, TimeParts};

verus! {

/// One line of output, tagged with how it is to be shown.
pub enum Line {
    /// An informational line (verbose output).
    Info(String),
    /// A success line.
    Success(String),
    /// A visible failure line that does not abort the run.
    Failure(String),
}

/// The mathematical image of `Line`.
pub enum LineSpec {
    Info(Seq<char>),
    Success(Seq<char>),
    Failure(Seq<char>),
}

impl View for Line {
    type V = LineSpec;

    open spec fn view(&self) -> LineSpec {
        match self {
            Line::Info(s) => LineSpec::Info(s@),
            Line::Success(s) => LineSpec::Success(s@),
            Line::Failure(s) => LineSpec::Failure(s@),
        }
    }
}

impl DeepView for Line {
    type V = LineSpec;

    open spec fn deep_view(&self) -> LineSpec {
        self.view()
    }
}

/// What one action reports: the lines to print, in order, and a fatal error
/// message when the run must end in failure after them.
pub struct Report {
    pub lines: Vec<Line>,
    pub error: Option<String>,
}

/// The mathematical image of `Report`.
#[verifier::ext_equal]
pub struct ReportSpec {
    pub lines: Seq<LineSpec>,
    pub error: Option<Seq<char>>,
}

impl View for Report {
    type V = ReportSpec;

    open spec fn view(&self) -> ReportSpec {
        ReportSpec {
            lines: self.lines.deep_view(),
            error: match self.error {
                Some(ref e) => Some(e@),
                None => None,
            },
        }
    }
}

/// What looking a member up in a JSON body yields: the parse error's
/// message, or the member shown as text, or nothing for an absent or null
/// member. The outcome is a function of the body and the key alone.
pub uninterp spec fn json_field_value(body: Seq<char>, key: Seq<char>) -> Result<
    Option<Seq<char>>,
    Seq<char>,
>;

/// The image of the wrapper's exec outcome, for stating its contract.
pub open spec fn field_view(f: Result<Option<String>, String>) -> Result<
    Option<Seq<char>>,
    Seq<char>,
> {
    match f {
        Ok(Some(v)) => Ok(Some(v@)),
        Ok(None) => Ok(None),
        Err(e) => Err(e@),
    }
}

/// Relies on json::parse, on indexing a json::JsonValue by member name
/// (null for an absent member or a non-object), on JsonValue::is_null, and
/// on JsonValue's text rendering (a string member is shown without quotes):
/// all are functions of the body and the key alone.
#[verifier::external_body]
fn json_text_field(body: &str, key: &str) -> (r: Result<Option<String>, String>)
    ensures
        field_view(r) == json_field_value(body@, key@),
{
    match json::parse(body) {
        Ok(parsed) => {
            let member = &parsed[key];
            if member.is_null() {
                Ok(None)
            } else {
                Ok(Some(member.to_string()))
            }
        },
        Err(e) => Err(e.to_string()),
    }
}

/// The verbose echo of a remote response body.
pub open spec fn received_line_of(body: Seq<char>) -> Seq<char> {
    "Received response: "@ + body
}

/// The lines the IP action prints for a given lookup outcome: the verbose
/// echo first, then the address or the fixed failure line; a malformed body
/// is fatal after the echo.
pub open spec fn ip_report_of(
    field: Result<Option<Seq<char>>, Seq<char>>,
    body: Seq<char>,
    verbose: bool,
) -> ReportSpec {
    let pre: Seq<LineSpec> = if verbose {
        seq![LineSpec::Info(received_line_of(body))]
    } else {
        Seq::empty()
    };
    match field {
        Err(e) => ReportSpec { lines: pre, error: Some(e) },
        Ok(None) => ReportSpec { lines: pre.push(LineSpec::Failure("Get IP failed."@)), error: None },
        Ok(Some(v)) => ReportSpec {
            lines: pre.push(LineSpec::Success("Your IP address is: "@ + v)),
            error: None,
        },
    }
}

/// The lines the time action prints for a given lookup outcome: the verbose
/// echo, then the remote time or the fixed failure line, then always the
/// local-time line; a malformed body is fatal before the local line.
pub open spec fn time_report_of(
    field: Result<Option<Seq<char>>, Seq<char>>,
    body: Seq<char>,
    verbose: bool,
    local_text: Seq<char>,
) -> ReportSpec {
    let pre: Seq<LineSpec> = if verbose {
        seq![LineSpec::Info(received_line_of(body))]
    } else {
        Seq::empty()
    };
    let local_line = LineSpec::Success("Local  time is: "@ + local_text);
    match field {
        Err(e) => ReportSpec { lines: pre, error: Some(e) },
        Ok(None) => ReportSpec {
            lines: pre.push(LineSpec::Failure("Get remote time failed."@)).push(local_line),
            error: None,
        },
        Ok(Some(v)) => ReportSpec {
            lines: pre.push(LineSpec::Success("Remote time is: "@ + v)).push(local_line),
            error: None,
        },
    }
}

/// Verbose mode puts the raw response body, as an informational line, ahead
/// of everything else a remote report holds; with verbose off no
/// informational line appears at all.
pub proof fn lemma_verbose_remote_echo(
    field: Result<Option<Seq<char>>, Seq<char>>,
    body: Seq<char>,
    verbose: bool,
    local_text: Seq<char>,
)
    ensures
        verbose ==> {
            let r = ip_report_of(field, body, verbose);
            r.lines.len() > 0 && r.lines[0] == LineSpec::Info(received_line_of(body))
        },
        verbose ==> {
            let r = time_report_of(field, body, verbose, local_text);
            r.lines.len() > 0 && r.lines[0] == LineSpec::Info(received_line_of(body))
        },
        !verbose ==> (forall|i: int|
            0 <= i < ip_report_of(field, body, verbose).lines.len() ==> !((#[trigger] ip_report_of(
                field,
                body,
                verbose,
            ).lines[i]) is Info)),
        !verbose ==> (forall|i: int|
            0 <= i < time_report_of(field, body, verbose, local_text).lines.len() ==> !((
            #[trigger] time_report_of(field, body, verbose, local_text).lines[i]) is Info)),
{
}

/// Builds the verbose echo line for a response body.
fn received_line(body: &str) -> (r: String)
    ensures
        r@ == received_line_of(body@),
{
    let mut r = String::from_str("Received response: ");
    r.append(body);
    r
}

/// Builds the IP action's report from the lookup outcome the body gave.
pub fn ip_lines(field: Result<Option<String>, String>, body: &str, verbose: bool) -> (r: Report)
    ensures
        r@ == ip_report_of(field_view(field), body@, verbose),
{
    let mut lines: Vec<Line> = Vec::new();
    if verbose {
        lines.push(Line::Info(received_line(body)));
    }
    let error: Option<String>;
    match field {
        Err(e) => {
            error = Some(e);
        },
        Ok(None) => {
            lines.push(Line::Failure(String::from_str("Get IP failed.")));
            error = None;
        },
        Ok(Some(v)) => {
            let mut msg = String::from_str("Your IP address is: ");
            msg.append(v.as_str());
            lines.push(Line::Success(msg));
            error = None;
        },
    }
    let r = Report { lines, error };
    assert(r@ =~= ip_report_of(field_view(field), body@, verbose));
    r
}

/// Builds the time action's report from the lookup outcome the body gave
/// and one local clock reading.
pub fn time_lines(
    field: Result<Option<String>, String>,
    body: &str,
    verbose: bool,
    parts: &TimeParts,
) -> (r: Report)
    requires
        parts.wf(),
    ensures
        r@ == time_report_of(field_view(field), body@, verbose, time_text_of(*parts)),
{
    let mut lines: Vec<Line> = Vec::new();
    if verbose {
        lines.push(Line::Info(received_line(body)));
    }
    let error: Option<String>;
    match field {
        Err(e) => {
            error = Some(e);
        },
        Ok(None) => {
            lines.push(Line::Failure(String::from_str("Get remote time failed.")));
            let mut local = String::from_str("Local  time is: ");
            local.append(local_time_text(parts).as_str());
            lines.push(Line::Success(local));
            error = None;
        },
        Ok(Some(v)) => {
            let mut msg = String::from_str("Remote time is: ");
            msg.append(v.as_str());
            lines.push(Line::Success(msg));
            let mut local = String::from_str("Local  time is: ");
            local.append(local_time_text(parts).as_str());
            lines.push(Line::Success(local));
            error = None;
        },
    }
    let r = Report { lines, error };
    assert(r@ =~= time_report_of(field_view(field), body@, verbose, time_text_of(*parts)));
    r
}

/// The IP action's report for a fetched response body: what the body's `ip`
/// member holds decides the lines.
pub fn ip_report(body: &str, verbose: bool) -> (r: Report)
    ensures
        r@ == ip_report_of(json_field_value(body@, "ip"@), body@, verbose),
{
    let field = json_text_field(body, "ip");
    ip_lines(field, body, verbose)
}

/// The time action's report for a fetched response body: what the body's
/// `datetime` member holds decides the remote lines, and one reading of the
/// local clock gives the local line.
pub fn time_report(body: &str, verbose: bool) -> (r: Report)
    ensures
        exists|parts: TimeParts|
            #[trigger] parts.wf() && r@ == time_report_of(
                json_field_value(body@, "datetime"@),
                body@,
                verbose,
                time_text_of(parts),
            ),
{
    let field = json_text_field(body, "datetime");
    let parts = local_now_parts();
    let r = time_lines(field, body, verbose, &parts);
    proof {
        assert(parts.wf() && r@ == time_report_of(
            json_field_value(body@, "datetime"@),
            body@,
            verbose,
            time_text_of(parts),
        ));
    }
    r
}

} // verus!
