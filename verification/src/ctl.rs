//! The control mode: the command line, and for each control command what
//! it decides and prints, from the plain values that the daemon gave.
use vstd::prelude::*;
use crate::logbuf::texts;
use crate::state::{opt_view, TuiPrefs, PrefsView};
use crate::text::{
    ascii_lower, ascii_upper, all_ascii, eq_ignore_ascii_case, is_alpha2, str_equal, str_less,
    to_ascii_lower,
};

verus! {

// ---------------------------------------------------------------------------
// The command line.
// ---------------------------------------------------------------------------

/// A control command, with the arguments it takes.
pub enum CtlCommand {
    Start,
    Stop,
    Status,
    Switch { country: Option<String>, immediate: bool },
    ExitConstraint,
    Exits,
    Sessions,
    Logs { count: Option<String> },
    Account,
    Redeem { code: Option<String> },
    Unknown,
}

/// What the command line asks for.
pub enum CliMode {
    Help,
    Control(CtlCommand),
    Interactive,
}

/// The mathematical content of a control command.
pub enum CtlCommandView {
    Start,
    Stop,
    Status,
    Switch { country: Option<Seq<char>>, immediate: bool },
    ExitConstraint,
    Exits,
    Sessions,
    Logs { count: Option<Seq<char>> },
    Account,
    Redeem { code: Option<Seq<char>> },
    Unknown,
}

/// The mathematical content of a command line's request.
pub enum CliModeView {
    Help,
    Control(CtlCommandView),
    Interactive,
}

impl View for CtlCommand {
    type V = CtlCommandView;

    open spec fn view(&self) -> CtlCommandView {
        match self {
            CtlCommand::Start => CtlCommandView::Start,
            CtlCommand::Stop => CtlCommandView::Stop,
            CtlCommand::Status => CtlCommandView::Status,
            CtlCommand::Switch { country, immediate } => CtlCommandView::Switch {
                country: opt_view(*country),
                immediate: *immediate,
            },
            CtlCommand::ExitConstraint => CtlCommandView::ExitConstraint,
            CtlCommand::Exits => CtlCommandView::Exits,
            CtlCommand::Sessions => CtlCommandView::Sessions,
            CtlCommand::Logs { count } => CtlCommandView::Logs { count: opt_view(*count) },
            CtlCommand::Account => CtlCommandView::Account,
            CtlCommand::Redeem { code } => CtlCommandView::Redeem { code: opt_view(*code) },
            CtlCommand::Unknown => CtlCommandView::Unknown,
        }
    }
}

impl View for CliMode {
    type V = CliModeView;

    open spec fn view(&self) -> CliModeView {
        match self {
            CliMode::Help => CliModeView::Help,
            CliMode::Control(c) => CliModeView::Control(c@),
            CliMode::Interactive => CliModeView::Interactive,
        }
    }
}

/// The argument at position `i`, if there is one.
pub open spec fn arg_at(args: Seq<Seq<char>>, i: int) -> Option<Seq<char>> {
    if 0 <= i < args.len() {
        Some(args[i])
    } else {
        None
    }
}

/// The control command that the arguments after `--ctl` name (`status`
/// when none is given).
pub open spec fn ctl_command_of(args: Seq<Seq<char>>) -> CtlCommandView {
    let sub = match arg_at(args, 2) {
        Some(s) => s,
        None => "status"@,
    };
    if sub == "start"@ {
        CtlCommandView::Start
    } else if sub == "stop"@ {
        CtlCommandView::Stop
    } else if sub == "status"@ {
        CtlCommandView::Status
    } else if sub == "switch"@ {
        CtlCommandView::Switch {
            country: match arg_at(args, 3) {
                Some(a) => if a != "--immediate"@ { Some(a) } else { None },
                None => None,
            },
            immediate: exists|i: int| 3 <= i < args.len() && args[i] == "--immediate"@,
        }
    } else if sub == "exit"@ {
        CtlCommandView::ExitConstraint
    } else if sub == "exits"@ {
        CtlCommandView::Exits
    } else if sub == "sessions"@ {
        CtlCommandView::Sessions
    } else if sub == "logs"@ {
        CtlCommandView::Logs { count: arg_at(args, 3) }
    } else if sub == "account"@ {
        CtlCommandView::Account
    } else if sub == "redeem"@ {
        CtlCommandView::Redeem { code: arg_at(args, 3) }
    } else {
        CtlCommandView::Unknown
    }
}

/// What a command line (the program name first) asks for: help for `-h`
/// or `--help`, a control command after `--ctl`, else the interactive client.
pub open spec fn cli_mode_of(args: Seq<Seq<char>>) -> CliModeView {
    if arg_at(args, 1) == Some("-h"@) || arg_at(args, 1) == Some("--help"@) {
        CliModeView::Help
    } else if arg_at(args, 1) == Some("--ctl"@) {
        CliModeView::Control(ctl_command_of(args))
    } else {
        CliModeView::Interactive
    }
}

/// Whether the argument at `i` is the given text.
fn arg_is(args: &Vec<String>, i: usize, lit: &str) -> (r: bool)
    ensures
        r == (arg_at(texts(args@), i as int) == Some(lit@)),
{
    if i < args.len() {
        str_equal(args[i].as_str(), lit)
    } else {
        false
    }
}

/// The argument at `i`, copied.
fn arg_copy(args: &Vec<String>, i: usize) -> (r: Option<String>)
    ensures
        opt_view(r) == arg_at(texts(args@), i as int),
{
    if i < args.len() {
        Some(args[i].clone())
    } else {
        None
    }
}

/// Reads the control command after `--ctl`.
fn parse_ctl_command(args: &Vec<String>) -> (c: CtlCommand)
    ensures
        c@ == ctl_command_of(texts(args@)),
{
    let ghost a = texts(args@);
    let sub: String = match arg_copy(args, 2) {
        Some(s) => s,
        None => String::from_str("status"),
    };
    let s = sub.as_str();
    if str_equal(s, "start") {
        CtlCommand::Start
    } else if str_equal(s, "stop") {
        CtlCommand::Stop
    } else if str_equal(s, "status") {
        CtlCommand::Status
    } else if str_equal(s, "switch") {
        let country = match arg_copy(args, 3) {
            Some(c) => if str_equal(c.as_str(), "--immediate") {
                None
            } else {
                Some(c)
            },
            None => None,
        };
        let mut immediate = false;
        let mut i: usize = 3;
        while i < args.len()
            invariant
                a == texts(args@),
                3 <= i,
                i <= args@.len() || i == 3,
                immediate == (exists|k: int| 3 <= k < i && k < a.len() && a[k] == "--immediate"@),
            decreases args@.len() - i,
        {
            assert(a[i as int] == args@[i as int]@);
            let hit = str_equal(args[i].as_str(), "--immediate");
            let ghost before = immediate;
            if hit {
                immediate = true;
            }
            proof {
                if hit {
                    assert(3 <= i < i + 1 && i < a.len() && a[i as int] == "--immediate"@);
                } else {
                    assert forall|k: int| 3 <= k < i + 1 && k < a.len() && a[k] == "--immediate"@ implies before by {
                        assert(k != i);
                    }
                }
            }
            i = i + 1;
        }
        assert(immediate == (exists|k: int| 3 <= k < a.len() && a[k] == "--immediate"@));
        CtlCommand::Switch { country, immediate }
    } else if str_equal(s, "exit") {
        CtlCommand::ExitConstraint
    } else if str_equal(s, "exits") {
        CtlCommand::Exits
    } else if str_equal(s, "sessions") {
        CtlCommand::Sessions
    } else if str_equal(s, "logs") {
        CtlCommand::Logs { count: arg_copy(args, 3) }
    } else if str_equal(s, "account") {
        CtlCommand::Account
    } else if str_equal(s, "redeem") {
        CtlCommand::Redeem { code: arg_copy(args, 3) }
    } else {
        CtlCommand::Unknown
    }
}

/// Reads a command line (the program name first).
pub fn parse_cli(args: &Vec<String>) -> (m: CliMode)
    ensures
        m@ == cli_mode_of(texts(args@)),
{
    if arg_is(args, 1, "-h") || arg_is(args, 1, "--help") {
        CliMode::Help
    } else if arg_is(args, 1, "--ctl") {
        CliMode::Control(parse_ctl_command(args))
    } else {
        CliMode::Interactive
    }
}


// ---------------------------------------------------------------------------
// Exit constraints and the switch command.
// ---------------------------------------------------------------------------

#[verifier::external_type_specification]
#[verifier::external_body]
pub struct ExCountryCodeParseErr(isocountry::CountryCodeParseErr);

/// The ISO 3166-1 alpha-2 code that `isocountry` finds for a text, case
/// ignored (`CountryCode::for_alpha2_caseless`), if any. The code table is
/// named, not stated.
pub uninterp spec fn iso_alpha2_caseless(s: Seq<char>) -> Option<Seq<char>>;

/// Looks a country up by its alpha-2 code, case ignored
/// (`isocountry::CountryCode::for_alpha2_caseless`), and gives its code as
/// the table writes it (`CountryCode::alpha2`). What is found is named;
/// stated beside it is what the source shows: every code in the table is
/// two ASCII upper-case letters; the lookup upper-cases its input, so for
/// ASCII input the code found is that input in upper case, and a code found
/// is found again from itself and from its lower-case form.
#[verifier::external_body]
fn lookup_alpha2_caseless(s: &str) -> (r: Result<String, isocountry::CountryCodeParseErr>)
    ensures
        (r is Ok) == (iso_alpha2_caseless(s@) is Some),
        r matches Ok(code) ==> Some(code@) == iso_alpha2_caseless(s@) && is_alpha2(code@),
        r matches Ok(code) ==> iso_alpha2_caseless(code@) == Some(code@)
            && iso_alpha2_caseless(ascii_lower(code@)) == Some(code@),
        all_ascii(s@) ==> (r matches Ok(code) ==> code@ == ascii_upper(s@)),
{
    match isocountry::CountryCode::for_alpha2_caseless(s) {
        Ok(code) => Ok(code.alpha2().to_string()),
        Err(e) => Err(e),
    }
}

/// Where traffic may leave the network: any exit, a country (by its alpha-2
/// code), a city of a country, a direct address or a host name.
pub enum ExitConstraint {
    Auto,
    Direct(String),
    Hostname(String),
    Country(String),
    CountryCity(String, String),
}

/// A country of a constraint is a code of the table, written as the table
/// writes it (two ASCII upper-case letters), which the lookup finds again
/// from itself and from its lower-case form.
pub open spec fn table_code(cc: Seq<char>) -> bool {
    &&& is_alpha2(cc)
    &&& iso_alpha2_caseless(cc) == Some(cc)
    &&& iso_alpha2_caseless(ascii_lower(cc)) == Some(cc)
}

/// The countries of a constraint are codes of the table.
pub open spec fn constraint_wf(c: ExitConstraint) -> bool {
    match c {
        ExitConstraint::Country(cc) => table_code(cc@),
        ExitConstraint::CountryCity(cc, _) => table_code(cc@),
        _ => true,
    }
}

/// How a constraint is written for people: `auto`, the country code in
/// lower case (with `-` and the city after it), or the address or host name.
pub open spec fn constraint_text(c: ExitConstraint) -> Seq<char> {
    match c {
        ExitConstraint::Auto => "auto"@,
        ExitConstraint::Country(cc) => ascii_lower(cc@),
        ExitConstraint::CountryCity(cc, city) => ascii_lower(cc@) + "-"@ + city@,
        ExitConstraint::Direct(s) => s@,
        ExitConstraint::Hostname(s) => s@,
    }
}

/// Writes a constraint for people.
pub fn fmt_constraint(c: &ExitConstraint) -> (r: String)
    requires
        constraint_wf(*c),
    ensures
        r@ == constraint_text(*c),
        (c is Auto || c is Country) ==> switch_ok(Some(r@), *c),
{
    proof {
        if let ExitConstraint::Country(cc) = c {
            lemma_code_is_not_auto(cc@);
        }
    }
    match c {
        ExitConstraint::Auto => String::from_str("auto"),
        ExitConstraint::Country(cc) => to_ascii_lower(cc.as_str()),
        ExitConstraint::CountryCity(cc, city) => {
            let mut r = to_ascii_lower(cc.as_str());
            r.append("-");
            r.append(city.as_str());
            r
        },
        ExitConstraint::Direct(s) => s.clone(),
        ExitConstraint::Hostname(s) => s.clone(),
    }
}

/// Whether a text is a code of the table as `table_code` says.
fn is_table_code(cc: &String) -> (b: bool)
    ensures
        b == table_code(cc@),
{
    let cs = crate::text::chars_of(cc.as_str());
    if cs.len() != 2 {
        return false;
    }
    if !('A' <= cs[0] && cs[0] <= 'Z' && 'A' <= cs[1] && cs[1] <= 'Z') {
        return false;
    }
    let same = match lookup_alpha2_caseless(cc.as_str()) {
        Ok(code) => str_equal(code.as_str(), cc.as_str()),
        Err(_) => false,
    };
    if !same {
        return false;
    }
    let lower = to_ascii_lower(cc.as_str());
    match lookup_alpha2_caseless(lower.as_str()) {
        Ok(code) => str_equal(code.as_str(), cc.as_str()),
        Err(_) => false,
    }
}

/// Writes a constraint for people when its countries are codes of the
/// table (`None` otherwise): the text reads back as the same constraint.
pub fn describe_constraint(c: &ExitConstraint) -> (r: Option<String>)
    ensures
        (r is Some) == constraint_wf(*c),
        r matches Some(t) ==> t@ == constraint_text(*c)
            && ((c is Auto || c is Country) ==> switch_ok(Some(t@), *c)),
{
    let ok = match c {
        ExitConstraint::Country(cc) => is_table_code(cc),
        ExitConstraint::CountryCity(cc, _) => is_table_code(cc),
        _ => true,
    };
    if ok {
        Some(fmt_constraint(c))
    } else {
        None
    }
}

/// The constraint that `switch` asks for: `auto` (in any case, and when no
/// argument is given) asks for any exit; anything else must be a country's
/// alpha-2 code, case ignored.
pub open spec fn switch_ok(arg: Option<Seq<char>>, c: ExitConstraint) -> bool {
    let a = match arg {
        Some(a) => a,
        None => "auto"@,
    };
    if ascii_lower(a) == ascii_lower("auto"@) {
        c is Auto
    } else {
        c matches ExitConstraint::Country(cc) && Some(cc@) == iso_alpha2_caseless(a)
    }
}

/// Reads the argument of `switch`. Fails when it is neither `auto` nor a
/// country's code, with the error of the code lookup.
pub fn switch_target(arg: Option<&str>) -> (r: Result<ExitConstraint, isocountry::CountryCodeParseErr>)
    ensures
        r matches Ok(c) ==> switch_ok(opt_str_view(arg), c) && constraint_wf(c),
        r matches Ok(c) ==> switch_ok(Some(constraint_text(c)), c),
        all_ascii(arg_or_auto(opt_str_view(arg))) ==> (r matches Ok(ExitConstraint::Country(cc))
            ==> cc@ == ascii_upper(arg_or_auto(opt_str_view(arg)))),
        r is Err ==> ascii_lower(arg_or_auto(opt_str_view(arg))) != ascii_lower("auto"@)
            && iso_alpha2_caseless(arg_or_auto(opt_str_view(arg))) is None,
        (r is Ok) == (ascii_lower(arg_or_auto(opt_str_view(arg))) == ascii_lower("auto"@)
            || iso_alpha2_caseless(arg_or_auto(opt_str_view(arg))) is Some),
{
    let cc: &str = match arg {
        Some(a) => a,
        None => "auto",
    };
    if eq_ignore_ascii_case(cc, "auto") {
        Ok(ExitConstraint::Auto)
    } else {
        match lookup_alpha2_caseless(cc) {
            Ok(code) => {
                proof {
                    lemma_code_is_not_auto(code@);
                }
                Ok(ExitConstraint::Country(code))
            },
            Err(e) => Err(e),
        }
    }
}

/// What `switch` asks the daemon for, and how it is written for people:
/// the constraint that the argument names (as `switch_target` reads it)
/// and its text, which reads back as the same constraint.
pub fn switch_plan(arg: Option<&str>) -> (r: Result<(ExitConstraint, String), isocountry::CountryCodeParseErr>)
    ensures
        r matches Ok((c, t)) ==> switch_ok(opt_str_view(arg), c) && constraint_wf(c)
            && t@ == constraint_text(c) && switch_ok(Some(t@), c),
        (r is Ok) == (ascii_lower(arg_or_auto(opt_str_view(arg))) == ascii_lower("auto"@)
            || iso_alpha2_caseless(arg_or_auto(opt_str_view(arg))) is Some),
{
    match switch_target(arg) {
        Ok(c) => {
            let t = fmt_constraint(&c);
            Ok((c, t))
        },
        Err(e) => Err(e),
    }
}

/// A lower-cased code of the table is not `auto` in any case.
proof fn lemma_code_is_not_auto(cc: Seq<char>)
    requires
        is_alpha2(cc),
    ensures
        ascii_lower(ascii_lower(cc)) != ascii_lower("auto"@),
{
    reveal_strlit("auto");
    assert(ascii_lower(ascii_lower(cc)).len() == 2);
    assert(ascii_lower("auto"@).len() == 4);
}

/// The characters of an optional string slice.
pub open spec fn opt_str_view(o: Option<&str>) -> Option<Seq<char>> {
    match o {
        Some(s) => Some(s@),
        None => None,
    }
}

/// An argument, or `auto` when there is none.
pub open spec fn arg_or_auto(a: Option<Seq<char>>) -> Seq<char> {
    match a {
        Some(s) => s,
        None => "auto"@,
    }
}

/// What `switch` prints once the daemon took the constraint: with
/// `--immediate`, how many stale sessions were closed; else that existing
/// connections drain.
pub open spec fn switch_message_text(human: Seq<char>, killed: Option<u64>) -> Seq<char> {
    match killed {
        Some(n) => "Switched to "@ + human + ". Killed "@ + crate::text::decimal(n as nat)
            + " stale sessions. No drain period."@,
        None => "Switched to "@ + human + ". Existing TCP connections will drain."@,
    }
}

/// What `switch` prints once the daemon took the constraint.
pub fn switch_message(human: &str, killed: Option<u64>) -> (r: String)
    ensures
        r@ == switch_message_text(human@, killed),
{
    let mut r = String::from_str("Switched to ");
    r.append(human);
    match killed {
        Some(n) => {
            r.append(". Killed ");
            let d = crate::text::u64_to_decimal(n);
            r.append(d.as_str());
            r.append(" stale sessions. No drain period.");
        },
        None => {
            r.append(". Existing TCP connections will drain.");
        },
    }
    r
}

/// `switch` with `auto`, written in any case, asks for any exit.
pub proof fn law_auto_in_any_case(a: Seq<char>, c: ExitConstraint)
    requires
        ascii_lower(a) == ascii_lower("auto"@),
        switch_ok(Some(a), c),
    ensures
        c is Auto,
{
}

// ---------------------------------------------------------------------------
// start and status.
// ---------------------------------------------------------------------------

/// What `start` does.
#[derive(PartialEq, Eq, Structural, Clone, Copy, Debug)]
pub enum StartPlan {
    /// Print `already running`.
    AlreadyRunning,
    /// Print `no account configured` and fail.
    NoAccount,
    /// Start the daemon; first, when the secret is not the one last
    /// connected with, clear the connection cache and save the preferences
    /// with the secret remembered.
    Start { clear_cache: bool },
}

/// What `start` does with the daemon running or not and the saved preferences.
pub open spec fn start_plan_of(running: bool, p: PrefsView) -> StartPlan {
    if running {
        StartPlan::AlreadyRunning
    } else if p.secret.len() == 0 {
        StartPlan::NoAccount
    } else {
        StartPlan::Start { clear_cache: p.last_connected_secret != Some(p.secret) }
    }
}

/// Decides what `start` does.
pub fn start_plan(running: bool, prefs: &TuiPrefs) -> (r: StartPlan)
    ensures
        r == start_plan_of(running, prefs@),
{
    if running {
        return StartPlan::AlreadyRunning;
    }
    if prefs.secret.as_str().is_empty() {
        return StartPlan::NoAccount;
    }
    let changed = match &prefs.last_connected_secret {
        Some(last) => !str_equal(last.as_str(), prefs.secret.as_str()),
        None => true,
    };
    StartPlan::Start { clear_cache: changed }
}

impl TuiPrefs {
    /// The preferences with their secret remembered as the one last
    /// connected with.
    pub fn with_secret_remembered(&self) -> (r: TuiPrefs)
        ensures
            r@ == (PrefsView { last_connected_secret: Some(self.secret@), ..self@ }),
    {
        let mut r = self.duplicate();
        r.last_connected_secret = Some(self.secret.clone());
        r
    }
}

/// The connection of a running daemon, as `status` reports it: the exit of
/// the first session (country name and alpha-2 code) when connected.
pub enum ConnSummary {
    Disconnected,
    Connecting,
    Connected { first_exit: Option<(String, String)> },
}

/// The address the proxies listen on.
pub open spec fn listen_addr(all: bool) -> Seq<char> {
    if all { "0.0.0.0"@ } else { "127.0.0.1"@ }
}

/// The port and address lines of `status`.
pub open spec fn port_lines(p: PrefsView) -> Seq<Seq<char>> {
    seq![
        "socks5_port="@ + p.socks_port,
        "http_port="@ + p.http_port,
        "listen_addr="@ + listen_addr(p.listen_all),
    ]
}

/// What `status` prints: whether the daemon runs (and when it does, the
/// state of its connection and its first exit), the ports and the address.
pub open spec fn status_text(p: PrefsView, conn: Option<ConnSummary>) -> Seq<Seq<char>> {
    match conn {
        None => seq!["running=no"@] + port_lines(p),
        Some(c) => {
            let state = match c {
                ConnSummary::Connected { .. } => "connected"@,
                ConnSummary::Connecting => "connecting"@,
                ConnSummary::Disconnected => "disconnected"@,
            };
            let exit = match c {
                ConnSummary::Connected { first_exit: Some((name, code)) } => seq![
                    "exit="@ + name@ + " ("@ + code@ + ")"@,
                ],
                _ => Seq::empty(),
            };
            seq!["running=yes"@, "conn="@ + state] + port_lines(p) + exit
        },
    }
}

/// A string of one text followed by another.
fn text_of2(a: &str, b: &str) -> (r: String)
    ensures
        r@ == a@ + b@,
{
    let mut r = String::from_str(a);
    r.append(b);
    r
}

/// The lines of `status`, for the saved preferences and, when the daemon
/// runs, its connection.
pub fn status_lines(prefs: &TuiPrefs, conn: &Option<ConnSummary>) -> (lines: Vec<String>)
    ensures
        texts(lines@) == status_text(prefs@, *conn),
{
    let mut lines: Vec<String> = Vec::new();
    match conn {
        None => lines.push(String::from_str("running=no")),
        Some(c) => {
            lines.push(String::from_str("running=yes"));
            let state = match c {
                ConnSummary::Connected { .. } => "connected",
                ConnSummary::Connecting => "connecting",
                ConnSummary::Disconnected => "disconnected",
            };
            lines.push(text_of2("conn=", state));
        },
    }
    lines.push(text_of2("socks5_port=", prefs.socks_port.as_str()));
    lines.push(text_of2("http_port=", prefs.http_port.as_str()));
    lines.push(text_of2("listen_addr=", if prefs.listen_all { "0.0.0.0" } else { "127.0.0.1" }));
    match conn {
        Some(ConnSummary::Connected { first_exit: Some((name, code)) }) => {
            let mut l = text_of2("exit=", name.as_str());
            l.append(" (");
            l.append(code.as_str());
            l.append(")");
            lines.push(l);
        },
        _ => {},
    }
    assert(texts(lines@) =~= status_text(prefs@, *conn));
    lines
}


// ---------------------------------------------------------------------------
// logs.
// ---------------------------------------------------------------------------

/// Whether a character is an ASCII digit.
pub open spec fn is_digit(c: char) -> bool {
    '0' <= c && c <= '9'
}

/// The value of a string of decimal digits.
pub open spec fn digits_value(d: Seq<char>) -> nat
    decreases d.len(),
{
    if d.len() == 0 {
        0
    } else {
        digits_value(d.drop_last()) * 10 + ((d.last() as u32) - 48) as nat
    }
}

/// What `str::parse::<usize>` makes of a text: an optional `+` followed by
/// at least one ASCII digit, whose value fits in `usize`; anything else is
/// refused.
pub open spec fn usize_parse(s: Seq<char>) -> Option<usize> {
    let d = if s.len() > 0 && s[0] == '+' { s.drop_first() } else { s };
    if d.len() > 0 && (forall|i: int| 0 <= i < d.len() ==> is_digit(d[i])) && digits_value(d)
        <= usize::MAX {
        Some(digits_value(d) as usize)
    } else {
        None
    }
}

/// Reads a decimal number (`str::parse::<usize>`), as its documentation
/// describes the accepted texts.
#[verifier::external_body]
fn parse_usize(s: &str) -> (r: Option<usize>)
    ensures
        r == usize_parse(s@),
{
    s.parse::<usize>().ok()
}

/// How many lines `logs` shows: 20 when no count is given, else the count
/// given; `None` for a count that is not a number (a usage error).
pub fn log_count(arg: Option<&str>) -> (r: Option<usize>)
    ensures
        match arg {
            Some(a) => r == usize_parse(a@),
            None => r == Some(20usize),
        },
{
    match arg {
        Some(a) => parse_usize(a),
        None => Some(20),
    }
}

/// The last `n` lines of a log (all of them when there are fewer).
pub fn last_lines(logs: &Vec<String>, n: usize) -> (r: Vec<String>)
    ensures
        texts(r@) == crate::logbuf::keep_last(texts(logs@), n as nat),
{
    let len = logs.len();
    let start = len.saturating_sub(n);
    let mut r: Vec<String> = Vec::new();
    let mut i: usize = start;
    while i < len
        invariant
            len == logs@.len(),
            start <= i <= len,
            texts(r@) == texts(logs@).subrange(start as int, i as int),
        decreases len - i,
    {
        let ghost prev = r@;
        r.push(logs[i].clone());
        assert(texts(r@) =~= texts(prev).push(logs@[i as int]@));
        i = i + 1;
        assert(texts(r@) =~= texts(logs@).subrange(start as int, i as int));
    }
    assert(texts(logs@).subrange(0, len as int) =~= texts(logs@));
    r
}

// ---------------------------------------------------------------------------
// sessions.
// ---------------------------------------------------------------------------

/// A session of a connected daemon: the country of its exit, its protocol,
/// its city and the bridge it goes through, if any.
pub struct SessionSummary {
    pub country: String,
    pub protocol: String,
    pub city: String,
    pub bridge: Option<String>,
}

/// The connection as `sessions` reports it.
pub enum SessionsReport {
    Disconnected,
    Connecting,
    Connected(Vec<SessionSummary>),
}

/// The line of one session.
pub open spec fn session_line(s: SessionSummary) -> Seq<char> {
    "  protocol="@ + s.protocol@ + " city="@ + s.city@ + " bridge="@ + (match s.bridge {
        Some(b) => b@,
        None => "none"@,
    })
}

/// The sessions, among the first `n`, whose exit is in country `c`, in order.
pub open spec fn members(ss: Seq<SessionSummary>, c: Seq<char>, n: int) -> Seq<SessionSummary>
    decreases n,
{
    if n <= 0 {
        Seq::empty()
    } else {
        let rest = members(ss, c, n - 1);
        if ss[n - 1].country@ == c {
            rest.push(ss[n - 1])
        } else {
            rest
        }
    }
}

/// The header of the group of sessions in a country.
pub open spec fn group_header(c: Seq<char>, count: nat) -> Seq<char> {
    "Exit "@ + c + " ("@ + crate::text::decimal(count) + " sessions):"@
}

/// The lines of the group of sessions in country `c`: a header with their
/// number, then one line per session, in order.
pub open spec fn group_lines(ss: Seq<SessionSummary>, c: Seq<char>) -> Seq<Seq<char>> {
    let m = members(ss, c, ss.len() as int);
    seq![group_header(c, m.len())] + m.map_values(|x: SessionSummary| session_line(x))
}

/// The lines of the groups of the given countries, in the order given.
pub open spec fn groups_text(ss: Seq<SessionSummary>, keys: Seq<Seq<char>>) -> Seq<Seq<char>>
    decreases keys.len(),
{
    if keys.len() == 0 {
        Seq::empty()
    } else {
        groups_text(ss, keys.drop_last()) + group_lines(ss, keys.last())
    }
}

/// Whether a country is the country of one of the sessions.
pub open spec fn has_session_in(ss: Seq<SessionSummary>, c: Seq<char>) -> bool {
    exists|k: int| 0 <= k < ss.len() && #[trigger] ss[k].country@ == c
}

/// What `sessions` prints: the state when not connected; when connected,
/// the sessions grouped by country, the countries in increasing order
/// (`keys` is the strictly sorted list of the countries of the sessions).
pub open spec fn sessions_text(r: SessionsReport, keys: Seq<String>) -> Seq<Seq<char>> {
    match r {
        SessionsReport::Disconnected => seq!["Disconnected"@],
        SessionsReport::Connecting => seq!["Connecting"@],
        SessionsReport::Connected(ss) => groups_text(ss@, texts(keys)),
    }
}

/// The sorted list of countries of a set of sessions.
pub open spec fn keys_of(ss: Seq<SessionSummary>, keys: Seq<String>) -> bool {
    &&& crate::refresh::strictly_sorted(keys)
    &&& forall|c: Seq<char>| crate::refresh::listed(keys, c) <==> has_session_in(ss, c)
}

/// The lines of one group.
fn group_of(ss: &Vec<SessionSummary>, c: &String) -> (lines: Vec<String>)
    ensures
        texts(lines@) == group_lines(ss@, c@),
{
    let mut body: Vec<String> = Vec::new();
    let mut i: usize = 0;
    while i < ss.len()
        invariant
            i <= ss@.len(),
            texts(body@) == members(ss@, c@, i as int).map_values(|x: SessionSummary| session_line(x)),
        decreases ss@.len() - i,
    {
        let s = &ss[i];
        let ghost before = body@;
        if str_equal(s.country.as_str(), c.as_str()) {
            let mut l = String::from_str("  protocol=");
            l.append(s.protocol.as_str());
            l.append(" city=");
            l.append(s.city.as_str());
            l.append(" bridge=");
            match &s.bridge {
                Some(b) => l.append(b.as_str()),
                None => l.append("none"),
            }
            body.push(l);
            assert(texts(body@) =~= texts(before).push(session_line(*s)));
        }
        i = i + 1;
        assert(members(ss@, c@, i as int).map_values(|x: SessionSummary| session_line(x))
            =~= texts(body@));
    }
    let count = body.len();
    let mut header = String::from_str("Exit ");
    header.append(c.as_str());
    header.append(" (");
    let d = crate::text::u64_to_decimal(count as u64);
    header.append(d.as_str());
    header.append(" sessions):");
    let mut lines: Vec<String> = Vec::new();
    lines.push(header);
    let mut j: usize = 0;
    while j < body.len()
        invariant
            j <= body@.len(),
            count == body@.len(),
            texts(lines@) == seq![group_header(c@, count as nat)] + texts(body@).subrange(0, j as int),
        decreases body@.len() - j,
    {
        let ghost prev = lines@;
        lines.push(body[j].clone());
        assert(texts(lines@) =~= texts(prev).push(body@[j as int]@));
        j = j + 1;
        assert(texts(lines@) =~= seq![group_header(c@, count as nat)] + texts(body@).subrange(0, j as int));
    }
    assert(texts(body@).subrange(0, j as int) =~= texts(body@));
    lines
}

/// The lines of `sessions`: grouped by the countries of the sessions, in
/// increasing order (a strictly sorted list of countries is determined by
/// the countries it holds: `lemma_sorted_determined`).
pub fn sessions_lines(report: &SessionsReport) -> (r: Vec<String>)
    ensures
        exists|keys: Seq<String>|
            (report matches SessionsReport::Connected(ss) ==> keys_of(ss@, keys))
            && texts(r@) == sessions_text(*report, keys),
{
    match report {
        SessionsReport::Disconnected => {
            let mut v: Vec<String> = Vec::new();
            v.push(String::from_str("Disconnected"));
            assert(texts(v@) =~= seq!["Disconnected"@]);
            assert(texts(v@) == sessions_text(*report, Seq::empty()));
            v
        },
        SessionsReport::Connecting => {
            let mut v: Vec<String> = Vec::new();
            v.push(String::from_str("Connecting"));
            assert(texts(v@) =~= seq!["Connecting"@]);
            assert(texts(v@) == sessions_text(*report, Seq::empty()));
            v
        },
        SessionsReport::Connected(ss) => {
            let mut keys: Vec<String> = Vec::new();
            let mut i: usize = 0;
            while i < ss.len()
                invariant
                    i <= ss@.len(),
                    crate::refresh::strictly_sorted(keys@),
                    forall|c: Seq<char>| crate::refresh::listed(keys@, c) <==> (exists|k: int| 0 <= k < i && #[trigger] ss@[k].country@ == c),
                decreases ss@.len() - i,
            {
                let ghost before = keys@;
                crate::refresh::insert_sorted_unique(&mut keys, &ss[i].country);
                assert forall|c: Seq<char>| crate::refresh::listed(keys@, c) <==> (exists|k: int| 0 <= k < i + 1 && #[trigger] ss@[k].country@ == c) by {
                    if exists|k: int| 0 <= k < i + 1 && #[trigger] ss@[k].country@ == c {
                        let k = choose|k: int| 0 <= k < i + 1 && #[trigger] ss@[k].country@ == c;
                        if k < i {
                            assert(crate::refresh::listed(before, c));
                        }
                    }
                    if crate::refresh::listed(keys@, c) && !crate::refresh::listed(before, c) {
                        assert(ss@[i as int].country@ == c);
                    }
                }
                i = i + 1;
            }
            let mut lines: Vec<String> = Vec::new();
            let mut j: usize = 0;
            while j < keys.len()
                invariant
                    j <= keys@.len(),
                    texts(lines@) == groups_text(ss@, texts(keys@).subrange(0, j as int)),
                decreases keys@.len() - j,
            {
                let g = group_of(ss, &keys[j]);
                let ghost before = lines@;
                let mut k: usize = 0;
                while k < g.len()
                    invariant
                        k <= g@.len(),
                        texts(lines@) == texts(before) + texts(g@).subrange(0, k as int),
                    decreases g@.len() - k,
                {
                    let ghost prev = lines@;
                    lines.push(g[k].clone());
                    assert(texts(lines@) =~= texts(prev).push(g@[k as int]@));
                    k = k + 1;
                    assert(texts(lines@) =~= texts(before) + texts(g@).subrange(0, k as int));
                }
                assert(texts(g@).subrange(0, k as int) =~= texts(g@));
                assert(texts(keys@).subrange(0, j + 1).drop_last() =~= texts(keys@).subrange(0, j as int));
                j = j + 1;
            }
            assert(texts(keys@).subrange(0, j as int) =~= texts(keys@));
            assert(keys_of(ss@, keys@));
            assert(texts(lines@) == sessions_text(*report, keys@));
            lines
        },
    }
}


// ---------------------------------------------------------------------------
// exits.
// ---------------------------------------------------------------------------

/// An exit as `exits` lists it: its country, its city and the account
/// levels that may use it.
pub struct ExitRow {
    pub country: String,
    pub city: String,
    pub allowed_levels: Vec<crate::state::AccountLevel>,
}

/// The order of `exits`: by country, then by city.
pub open spec fn row_lt(a: ExitRow, b: ExitRow) -> bool {
    crate::text::lex_lt(a.country@, b.country@) || (a.country@ == b.country@
        && crate::text::lex_lt(a.city@, b.city@))
}

/// The order of the listing: by country, then by city, then (for equal
/// country and city) by position in the daemon's list.
pub open spec fn listed_before(rows: Seq<ExitRow>, i: int, j: int) -> bool {
    row_lt(rows[i], rows[j]) || (!row_lt(rows[j], rows[i]) && i < j)
}

/// `exits` lists each row once, in the order of `listed_before`.
pub open spec fn listing_order(rows: Seq<ExitRow>, order: Seq<usize>) -> bool {
    &&& order.len() == rows.len()
    &&& forall|k: int| 0 <= k < order.len() ==> (#[trigger] order[k]) < rows.len()
    &&& forall|a: int, b: int| 0 <= a < b < order.len() ==> listed_before(rows, #[trigger] order[a] as int, #[trigger] order[b] as int)
}

proof fn lemma_row_lt_asym(a: ExitRow, b: ExitRow)
    requires
        row_lt(a, b),
    ensures
        !row_lt(b, a),
{
    if crate::text::lex_lt(a.country@, b.country@) {
        crate::text::lemma_lex_lt_asymmetric(a.country@, b.country@);
        if a.country@ == b.country@ {
            crate::text::lemma_lex_lt_irreflexive(a.country@);
        }
    } else {
        crate::text::lemma_lex_lt_asymmetric(a.city@, b.city@);
        crate::text::lemma_lex_lt_irreflexive(a.country@);
    }
}

proof fn lemma_row_lt_trans(a: ExitRow, b: ExitRow, c: ExitRow)
    requires
        row_lt(a, b),
        row_lt(b, c),
    ensures
        row_lt(a, c),
{
    if crate::text::lex_lt(a.country@, b.country@) && crate::text::lex_lt(b.country@, c.country@) {
        crate::text::lemma_lex_lt_transitive(a.country@, b.country@, c.country@);
    } else if a.country@ == b.country@ && b.country@ == c.country@ {
        crate::text::lemma_lex_lt_transitive(a.city@, b.city@, c.city@);
    }
}

/// Rows that neither precede the other have the same country and city.
proof fn lemma_row_lt_total(a: ExitRow, b: ExitRow)
    requires
        !row_lt(a, b),
        !row_lt(b, a),
    ensures
        a.country@ == b.country@,
        a.city@ == b.city@,
{
    if a.country@ != b.country@ {
        crate::text::lemma_lex_lt_total(a.country@, b.country@);
    } else if a.city@ != b.city@ {
        crate::text::lemma_lex_lt_total(a.city@, b.city@);
    }
}

proof fn lemma_listed_before_trans(rows: Seq<ExitRow>, i: int, j: int, k: int)
    requires
        0 <= i < rows.len(),
        0 <= j < rows.len(),
        0 <= k < rows.len(),
        listed_before(rows, i, j),
        listed_before(rows, j, k),
    ensures
        listed_before(rows, i, k),
{
    let (ri, rj, rk) = (rows[i], rows[j], rows[k]);
    if row_lt(ri, rj) && row_lt(rj, rk) {
        lemma_row_lt_trans(ri, rj, rk);
    } else if row_lt(ri, rj) {
        lemma_row_lt_total(rj, rk);
        if row_lt(rk, ri) {
            lemma_row_lt_asym(ri, rj);
        }
    } else if row_lt(rj, rk) {
        lemma_row_lt_total(ri, rj);
        if row_lt(rk, ri) {
            lemma_row_lt_asym(rj, rk);
        }
    } else {
        lemma_row_lt_total(ri, rj);
        lemma_row_lt_total(rj, rk);
        if row_lt(rk, ri) {
            lemma_row_lt_total(rk, ri);
        }
        if row_lt(ri, rk) {
        }
    }
}

/// Whether one row comes before another by country and city.
fn row_less(a: &ExitRow, b: &ExitRow) -> (r: bool)
    ensures
        r == row_lt(*a, *b),
{
    if str_less(a.country.as_str(), b.country.as_str()) {
        true
    } else if str_equal(a.country.as_str(), b.country.as_str()) {
        str_less(a.city.as_str(), b.city.as_str())
    } else {
        false
    }
}

/// The order in which `exits` lists the rows: by country, then by city,
/// rows with the same country and city in the order given (a stable sort).
pub fn exits_order(rows: &Vec<ExitRow>) -> (order: Vec<usize>)
    ensures
        listing_order(rows@, order@),
{
    let mut order: Vec<usize> = Vec::new();
    let mut i: usize = 0;
    while i < rows.len()
        invariant
            i <= rows@.len(),
            order@.len() == i,
            forall|k: int| 0 <= k < order@.len() ==> (#[trigger] order@[k]) < i,
            forall|a: int, b: int| 0 <= a < b < order@.len() ==> listed_before(rows@, #[trigger] order@[a] as int, #[trigger] order@[b] as int),
        decreases rows@.len() - i,
    {
        let mut p: usize = 0;
        while p < order.len() && !row_less(&rows[i], &rows[order[p]])
            invariant
                i < rows@.len(),
                p <= order@.len(),
                forall|k: int| 0 <= k < order@.len() ==> (#[trigger] order@[k]) < i,
                forall|q: int| 0 <= q < p ==> !row_lt(rows@[i as int], rows@[#[trigger] order@[q] as int]),
            decreases order@.len() - p,
        {
            p = p + 1;
        }
        let ghost before = order@;
        order.insert(p, i);
        proof {
            assert(order@ == before.insert(p as int, i));
            assert forall|a: int, b: int| 0 <= a < b < order@.len() implies listed_before(rows@, #[trigger] order@[a] as int, #[trigger] order@[b] as int) by {
                let ii = i as int;
                if b < p {
                    assert(order@[a] == before[a] && order@[b] == before[b]);
                } else if b == p {
                    assert(order@[a] == before[a]);
                    // before[a] < i and rows[i] is not before rows[before[a]]
                    assert(!row_lt(rows@[ii], rows@[before[a] as int]));
                } else if a < p {
                    assert(order@[a] == before[a] && order@[b] == before[b - 1]);
                } else if a == p {
                    assert(order@[b] == before[b - 1]);
                    // rows[i] comes before rows[before[p]], which comes before (or is) before[b-1]
                    assert(row_lt(rows@[ii], rows@[before[p as int] as int]));
                    assert(listed_before(rows@, ii, before[p as int] as int));
                    if b - 1 > p {
                        lemma_listed_before_trans(rows@, ii, before[p as int] as int, before[b - 1] as int);
                    }
                } else {
                    assert(order@[a] == before[a - 1] && order@[b] == before[b - 1]);
                }
            }
            assert forall|k: int| 0 <= k < order@.len() implies (#[trigger] order@[k]) < i + 1 by {
                if k < p {
                    assert(order@[k] == before[k]);
                } else if k > p {
                    assert(order@[k] == before[k - 1]);
                }
            }
        }
        i = i + 1;
    }
    order
}

/// The tier of an exit: `plus` when Plus accounts may use it, else `free`.
pub open spec fn tier_text(levels: Seq<crate::state::AccountLevel>) -> Seq<char> {
    if levels.contains(crate::state::AccountLevel::Plus) { "plus"@ } else { "free"@ }
}

/// The tier of an exit.
pub fn exit_tier(row: &ExitRow) -> (r: String)
    ensures
        r@ == tier_text(row.allowed_levels@),
{
    let mut i: usize = 0;
    while i < row.allowed_levels.len()
        invariant
            i <= row.allowed_levels@.len(),
            forall|k: int| 0 <= k < i ==> row.allowed_levels@[k] != crate::state::AccountLevel::Plus,
        decreases row.allowed_levels@.len() - i,
    {
        if row.allowed_levels[i] == crate::state::AccountLevel::Plus {
            assert(row.allowed_levels@[i as int] == crate::state::AccountLevel::Plus);
            return String::from_str("plus");
        }
        i = i + 1;
    }
    String::from_str("free")
}

// ---------------------------------------------------------------------------
// account and redeem.
// ---------------------------------------------------------------------------

/// A line of a report. Lines that show days of Plus time with a fraction
/// are given as seconds; the caller writes them.
pub enum ReportLine {
    Text(String),
    /// `plus=<expiry> (<days> days remaining)`.
    PlusDaysLeft { expires_unix: u64, remaining_secs: u64 },
    /// `Plus now expires in <days> days.`.
    PlusExpiresIn { remaining_secs: u64 },
}

/// The mathematical content of a report line.
pub enum LineView {
    Text(Seq<char>),
    PlusDaysLeft { expires_unix: u64, remaining_secs: u64 },
    PlusExpiresIn { remaining_secs: u64 },
}

impl View for ReportLine {
    type V = LineView;

    open spec fn view(&self) -> LineView {
        match self {
            ReportLine::Text(t) => LineView::Text(t@),
            ReportLine::PlusDaysLeft { expires_unix, remaining_secs } => LineView::PlusDaysLeft {
                expires_unix: *expires_unix,
                remaining_secs: *remaining_secs,
            },
            ReportLine::PlusExpiresIn { remaining_secs } => LineView::PlusExpiresIn {
                remaining_secs: *remaining_secs,
            },
        }
    }
}

/// The views of report lines.
pub open spec fn line_views(v: Seq<ReportLine>) -> Seq<LineView> {
    v.map_values(|l: ReportLine| l@)
}

/// What the broker reports of an account for `account`: its id, when its
/// Plus time ends and its bandwidth use and limit in MB, if any.
#[derive(Clone, Copy, Debug)]
pub struct AccountSnapshot {
    pub user_id: u64,
    pub plus_expires_unix: Option<u64>,
    pub bandwidth_mb: Option<(u32, u32)>,
}

/// The Plus line of `account`: the expiry and the time left while Plus
/// time remains, else `plus=not plus`.
pub open spec fn plus_line(expires: Option<u64>, now_secs: u64) -> LineView {
    match expires {
        Some(e) => if e > now_secs {
            LineView::PlusDaysLeft { expires_unix: e, remaining_secs: (e - now_secs) as u64 }
        } else {
            LineView::Text("plus=not plus"@)
        },
        None => LineView::Text("plus=not plus"@),
    }
}

/// What `account` prints.
pub open spec fn account_text(info: Option<AccountSnapshot>, now_secs: u64) -> Seq<LineView> {
    match info {
        None => seq![LineView::Text("user_id=<none>"@), LineView::Text("plus=not plus"@)],
        Some(a) => seq![
            LineView::Text("user_id="@ + crate::text::decimal(a.user_id as nat)),
            plus_line(a.plus_expires_unix, now_secs),
        ] + match a.bandwidth_mb {
            Some((used, limit)) => seq![
                LineView::Text("bw_used_mb="@ + crate::text::decimal(used as nat)),
                LineView::Text("bw_limit_mb="@ + crate::text::decimal(limit as nat)),
            ],
            None => Seq::empty(),
        },
    }
}

/// A text line of a report, of a literal and a number.
fn numbered_line(label: &str, n: u64) -> (l: ReportLine)
    ensures
        l@ == LineView::Text(label@ + crate::text::decimal(n as nat)),
{
    let mut t = String::from_str(label);
    let d = crate::text::u64_to_decimal(n);
    t.append(d.as_str());
    ReportLine::Text(t)
}

/// The lines of `account` at `now_secs`.
pub fn account_lines(info: Option<AccountSnapshot>, now_secs: u64) -> (lines: Vec<ReportLine>)
    ensures
        line_views(lines@) == account_text(info, now_secs),
{
    let mut lines: Vec<ReportLine> = Vec::new();
    match info {
        None => {
            lines.push(ReportLine::Text(String::from_str("user_id=<none>")));
            lines.push(ReportLine::Text(String::from_str("plus=not plus")));
        },
        Some(a) => {
            lines.push(numbered_line("user_id=", a.user_id));
            match a.plus_expires_unix {
                Some(e) if e > now_secs => lines.push(
                    ReportLine::PlusDaysLeft { expires_unix: e, remaining_secs: e - now_secs },
                ),
                _ => lines.push(ReportLine::Text(String::from_str("plus=not plus"))),
            }
            match a.bandwidth_mb {
                Some((used, limit)) => {
                    lines.push(numbered_line("bw_used_mb=", used as u64));
                    lines.push(numbered_line("bw_limit_mb=", limit as u64));
                },
                None => {},
            }
        },
    }
    assert(line_views(lines@) =~= account_text(info, now_secs));
    lines
}

/// The code that `redeem` redeems: its argument, when one is given and
/// not empty (else the command is misused).
pub fn redeem_code_arg(arg: Option<&str>) -> (r: Option<String>)
    ensures
        match arg {
            Some(c) => if c@.len() > 0 { r is Some && r->0@ == c@ } else { r is None },
            None => r is None,
        },
{
    match arg {
        Some(c) => if c.is_empty() {
            None
        } else {
            Some(String::from_str(c))
        },
        None => None,
    }
}

/// What `redeem` prints once the voucher was redeemed for `days` days, and
/// (when the account could be read again) how much Plus time is left.
pub open spec fn redeem_text(days: i32, after: Option<Option<u64>>, now_secs: u64) -> Seq<LineView> {
    seq![
        LineView::Text(
            "Redeemed successfully. "@ + crate::text::signed_decimal(days as int) + " days added."@,
        ),
    ] + match after {
        Some(Some(e)) => if e > now_secs {
            seq![LineView::PlusExpiresIn { remaining_secs: (e - now_secs) as u64 }]
        } else {
            seq![LineView::Text("Plus status: not plus"@)]
        },
        Some(None) => seq![LineView::Text("Plus status: not plus"@)],
        None => Seq::empty(),
    }
}

/// The lines of `redeem` at `now_secs`; `after` is the Plus expiry that the
/// account shows after the redemption, when it could be read.
pub fn redeem_lines(days: i32, after: Option<Option<u64>>, now_secs: u64) -> (lines: Vec<ReportLine>)
    ensures
        line_views(lines@) == redeem_text(days, after, now_secs),
{
    let mut lines: Vec<ReportLine> = Vec::new();
    let mut t = String::from_str("Redeemed successfully. ");
    let d = crate::text::i32_to_decimal(days);
    t.append(d.as_str());
    t.append(" days added.");
    lines.push(ReportLine::Text(t));
    match after {
        Some(Some(e)) if e > now_secs => lines.push(
            ReportLine::PlusExpiresIn { remaining_secs: e - now_secs },
        ),
        Some(_) => lines.push(ReportLine::Text(String::from_str("Plus status: not plus"))),
        None => {},
    }
    assert(line_views(lines@) =~= redeem_text(days, after, now_secs));
    lines
}


/// `start` with the daemon stopped and an account set up clears the
/// connection cache exactly when the secret is not the one last connected
/// with: after a switch of account (another secret), and when no secret was
/// ever connected with; not when the same secret connects again.
pub proof fn law_start_clears_cache_on_new_secret(p: PrefsView, t: Seq<char>)
    requires
        p.secret.len() > 0,
    ensures
        p.last_connected_secret == Some(t) && t != p.secret ==> start_plan_of(false, p)
            == (StartPlan::Start { clear_cache: true }),
        p.last_connected_secret == Some(p.secret) ==> start_plan_of(false, p)
            == (StartPlan::Start { clear_cache: false }),
        p.last_connected_secret is None ==> start_plan_of(false, p) == (StartPlan::Start {
            clear_cache: true,
        }),
        start_plan_of(true, p) == StartPlan::AlreadyRunning,
{
}

/// `start` without an account set up refuses, whatever else is saved.
pub proof fn law_start_needs_account(p: PrefsView)
    requires
        p.secret.len() == 0,
    ensures
        start_plan_of(false, p) == StartPlan::NoAccount,
{
}

/// The `conn=` line of `status` names the connection's state: each state
/// has its own line (`conn=disconnected`, `conn=connecting`,
/// `conn=connected`), so distinct states give distinct lines.
pub proof fn law_status_names_connection_state(p: PrefsView, first_exit: Option<(String, String)>)
    ensures
        status_text(p, Some(ConnSummary::Disconnected))[1] == "conn=disconnected"@,
        status_text(p, Some(ConnSummary::Connecting))[1] == "conn=connecting"@,
        status_text(p, Some(ConnSummary::Connected { first_exit }))[1] == "conn=connected"@,
        status_text(p, Some(ConnSummary::Disconnected))[1] != status_text(p, Some(ConnSummary::Connecting))[1],
        status_text(p, Some(ConnSummary::Disconnected))[1] != status_text(p, Some(ConnSummary::Connected { first_exit }))[1],
        status_text(p, Some(ConnSummary::Connecting))[1] != status_text(p, Some(ConnSummary::Connected { first_exit }))[1],
        status_text(p, Some(ConnSummary::Disconnected))[0] == "running=yes"@,
        status_text(p, None)[0] == "running=no"@,
{
    reveal_strlit("conn=");
    reveal_strlit("disconnected");
    reveal_strlit("connecting");
    reveal_strlit("connected");
    reveal_strlit("conn=disconnected");
    reveal_strlit("conn=connecting");
    reveal_strlit("conn=connected");
    assert(("conn="@ + "disconnected"@) =~= "conn=disconnected"@);
    assert(("conn="@ + "connecting"@) =~= "conn=connecting"@);
    assert(("conn="@ + "connected"@) =~= "conn=connected"@);
    assert(status_text(p, Some(ConnSummary::Disconnected))[1] == "conn="@ + "disconnected"@);
    assert(status_text(p, Some(ConnSummary::Connecting))[1] == "conn="@ + "connecting"@);
    assert(status_text(p, Some(ConnSummary::Connected { first_exit }))[1] == "conn="@ + "connected"@);
}

} // verus!
