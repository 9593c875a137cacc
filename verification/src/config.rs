//! Where a daemon listens and how its clients find it.

use vstd::prelude::*;

use crate::failure::{seen, Failure};
use crate::table::view_opt;
use crate::text::{
    begins_with, decimal, drop_trailing, from_chars, lower, opt_text, same_text, starts_with, text,
    text_or,
    to_chars, to_decimal, to_lower, trim, trim_end_char, trimmed,
};
use crate::time::Timestamp;

verus! {

pub const DEFAULT_MYCODEX_LAUNCHER: &'static str = "F:\\Users\\schu\\bin\\mycodex.bat";

/// Where a running daemon can be reached.
#[derive(Debug)]
pub struct RuntimeEndpointRecord {
    pub ws_addr: String,
    pub control_addr: String,
    pub pid: u32,
    pub started_at: Timestamp,
}

/// A text that is to name the address of a socket, with the address that it was
/// parsed to.
#[derive(Debug)]
pub struct AddressText {
    pub given: String,
    /// The address in its usual spelling; none where the text is no address.
    pub parsed: Option<String>,
}

#[verifier::ext_equal]
pub struct AddressModel {
    pub given: Seq<char>,
    pub parsed: Option<Seq<char>>,
}

impl View for AddressText {
    type V = AddressModel;

    open spec fn view(&self) -> AddressModel {
        AddressModel { given: self.given@, parsed: opt_text(self.parsed) }
    }
}

/// The record that a daemon left, with its two addresses parsed.
#[derive(Debug)]
pub struct RecordedEndpoint {
    pub ws: AddressText,
    pub control: AddressText,
    pub pid: u32,
    /// Whether the process is still there.
    pub live: bool,
}

#[verifier::ext_equal]
pub struct RecordedModel {
    pub ws: AddressModel,
    pub control: AddressModel,
    pub pid: u32,
    pub live: bool,
}

impl View for RecordedEndpoint {
    type V = RecordedModel;

    open spec fn view(&self) -> RecordedModel {
        RecordedModel {
            ws: self.ws@,
            control: self.control@,
            pid: self.pid,
            live: self.live,
        }
    }
}

/// The two addresses of a daemon.
#[derive(Debug)]
pub struct Binds {
    pub ws_bind: String,
    pub control_bind: String,
}

impl View for Binds {
    type V = (Seq<char>, Seq<char>);

    open spec fn view(&self) -> (Seq<char>, Seq<char>) {
        (self.ws_bind@, self.control_bind@)
    }
}

pub open spec fn is_digit(c: char) -> bool {
    '0' <= c <= '9'
}

/// The number that the digits write.
pub open spec fn value_of(s: Seq<char>) -> nat
    decreases s.len(),
{
    if s.len() == 0 {
        0
    } else {
        10 * value_of(s.drop_last()) + (s.last() as nat - '0' as nat) as nat
    }
}

/// The digits behind a leading plus sign.
pub open spec fn unsigned_part(s: Seq<char>) -> Seq<char> {
    if s.len() > 0 && s[0] == '+' {
        s.skip(1)
    } else {
        s
    }
}

/// The number that a text writes: digits, with or without a plus sign in front,
/// that fit.
pub open spec fn number_in(s: Seq<char>) -> Option<u64> {
    let digits = unsigned_part(s);
    if digits.len() > 0 && (forall|i: int| 0 <= i < digits.len() ==> is_digit(#[trigger] digits[i]))
        && value_of(digits) <= u64::MAX {
        Some(value_of(digits) as u64)
    } else {
        None
    }
}

pub fn parse_number(s: &str) -> (r: Option<u64>)
    ensures
        r == number_in(s@),
{
    let v = to_chars(s);
    let from: usize = if v.len() > 0 && v[0] == '+' {
        1
    } else {
        0
    };
    let ghost digits = unsigned_part(s@);
    assert(digits =~= s@.skip(from as int));
    if from == v.len() {
        return None;
    }
    let mut n: u64 = 0;
    let mut fits = true;
    let mut i: usize = from;
    assert(digits.take(0) =~= Seq::empty());
    while i < v.len()
        invariant
            from <= i <= v.len(),
            v@ == s@,
            digits == s@.skip(from as int),
            digits == unsigned_part(s@),
            digits.len() > 0,
            forall|j: int| 0 <= j < i - from ==> is_digit(#[trigger] digits[j]),
            fits ==> n == value_of(digits.take(i - from)),
            !fits ==> value_of(digits.take(i - from)) > u64::MAX,
        decreases v.len() - i,
    {
        let c: char = v[i];
        assert(digits[i - from] == c);
        if !('0' <= c && c <= '9') {
            assert(!is_digit(digits[i - from]));
            return None;
        }
        let d: u64 = (c as u32 - '0' as u32) as u64;
        proof {
            let head = digits.take(i - from + 1);
            assert(head.drop_last() =~= digits.take(i - from));
            assert(head.last() == c);
        }
        if fits {
            if n > (u64::MAX - d) / 10 {
                fits = false;
            } else {
                n = n * 10 + d;
            }
        }
        i += 1;
    }
    assert(digits.take(i - from) =~= digits);
    if fits {
        Some(n)
    } else {
        None
    }
}

/// A timeout in seconds: the number given, where it is one and not zero.
pub open spec fn seconds_or(value: Option<Seq<char>>, fallback: u64) -> u64 {
    match value {
        Some(s) => match number_in(s) {
            Some(n) => if n > 0 {
                n
            } else {
                fallback
            },
            None => fallback,
        },
        None => fallback,
    }
}

fn read_seconds(value: &Option<String>, fallback: u64) -> (r: u64)
    ensures
        r == seconds_or(opt_text(*value), fallback),
{
    match value {
        Some(s) => match parse_number(s.as_str()) {
            Some(n) => if n > 0 {
                n
            } else {
                fallback
            },
            None => fallback,
        },
        None => fallback,
    }
}

/// What the environment says, with the paths already resolved.
pub struct ConfigEnv {
    pub root_dir: String,
    pub data_dir: String,
    pub db_path: String,
    pub runtime_endpoint_path: String,
    pub dashboard_runtime_script_path: String,
    pub codex_launcher: Option<String>,
    /// Whether the custom launcher is installed.
    pub custom_launcher: bool,
    pub app_server_start_timeout: Option<String>,
    pub managed_bootstrap_timeout: Option<String>,
}

/// The configuration of a daemon or a client.
#[derive(Debug)]
pub struct AppConfig {
    pub root_dir: String,
    pub data_dir: String,
    pub db_path: String,
    pub runtime_endpoint_path: String,
    pub dashboard_runtime_script_path: String,
    pub ws_bind: String,
    pub control_bind: String,
    pub codex_launcher: String,
    pub app_server_start_timeout_seconds: u64,
    pub managed_bootstrap_timeout_seconds: u64,
}

#[verifier::ext_equal]
pub struct ConfigModel {
    pub root_dir: Seq<char>,
    pub data_dir: Seq<char>,
    pub db_path: Seq<char>,
    pub runtime_endpoint_path: Seq<char>,
    pub dashboard_runtime_script_path: Seq<char>,
    pub ws_bind: Seq<char>,
    pub control_bind: Seq<char>,
    pub codex_launcher: Seq<char>,
    pub app_server_start_timeout_seconds: u64,
    pub managed_bootstrap_timeout_seconds: u64,
}

impl View for AppConfig {
    type V = ConfigModel;

    open spec fn view(&self) -> ConfigModel {
        ConfigModel {
            root_dir: self.root_dir@,
            data_dir: self.data_dir@,
            db_path: self.db_path@,
            runtime_endpoint_path: self.runtime_endpoint_path@,
            dashboard_runtime_script_path: self.dashboard_runtime_script_path@,
            ws_bind: self.ws_bind@,
            control_bind: self.control_bind@,
            codex_launcher: self.codex_launcher@,
            app_server_start_timeout_seconds: self.app_server_start_timeout_seconds,
            managed_bootstrap_timeout_seconds: self.managed_bootstrap_timeout_seconds,
        }
    }
}

/// The launcher that is used where none is named: the custom one, where it is installed.
pub open spec fn default_launcher(custom: bool) -> Seq<char> {
    if custom {
        DEFAULT_MYCODEX_LAUNCHER@
    } else {
        "codex"@
    }
}

pub fn default_codex_launcher(custom: bool) -> (r: String)
    ensures
        r@ == default_launcher(custom),
{
    if custom {
        text(DEFAULT_MYCODEX_LAUNCHER)
    } else {
        text("codex")
    }
}

/// The configuration before its addresses are known.
pub open spec fn base_config(env: ConfigEnv) -> ConfigModel {
    ConfigModel {
        root_dir: env.root_dir@,
        data_dir: env.data_dir@,
        db_path: env.db_path@,
        runtime_endpoint_path: env.runtime_endpoint_path@,
        dashboard_runtime_script_path: env.dashboard_runtime_script_path@,
        ws_bind: "127.0.0.1:0"@,
        control_bind: "127.0.0.1:0"@,
        codex_launcher: text_or(
            opt_text(env.codex_launcher),
            default_launcher(env.custom_launcher),
        ),
        app_server_start_timeout_seconds: seconds_or(opt_text(env.app_server_start_timeout), 20),
        managed_bootstrap_timeout_seconds: seconds_or(opt_text(env.managed_bootstrap_timeout), 90),
    }
}

/// The address that was parsed, or the complaint that there is none.
pub open spec fn address_or(a: AddressModel, complaint: Seq<char>) -> Result<Seq<char>, Seq<char>> {
    match a.parsed {
        Some(address) => Ok(address),
        None => Err(complaint),
    }
}

fn take_address(a: AddressText, complaint: String) -> (r: Result<String, Failure>)
    ensures
        seen(r) == address_or(a@, complaint@),
{
    match a.parsed {
        Some(address) => Ok(address),
        None => Err(Failure::new(complaint)),
    }
}

/// Both addresses, where both were parsed; else the complaint about the first that
/// was not.
pub open spec fn both_addresses(
    ws: Result<Seq<char>, Seq<char>>,
    control: Result<Seq<char>, Seq<char>>,
) -> Result<(Seq<char>, Seq<char>), Seq<char>> {
    match (ws, control) {
        (Err(e), _) => Err(e),
        (Ok(_), Err(e)) => Err(e),
        (Ok(w), Ok(c)) => Ok((w, c)),
    }
}

fn take_both(ws: Result<String, Failure>, control: Result<String, Failure>) -> (r: Result<
    Binds,
    Failure,
>)
    ensures
        seen(r) == both_addresses(seen(ws), seen(control)),
{
    match ws {
        Err(e) => Err(e),
        Ok(ws_bind) => match control {
            Err(e) => Err(e),
            Ok(control_bind) => Ok(Binds { ws_bind, control_bind }),
        },
    }
}

/// The addresses of `AGENTTOOL_WS_BIND` and `AGENTTOOL_CONTROL_BIND`.
pub open spec fn named_binds(ws: AddressModel, control: AddressModel) -> Result<
    (Seq<char>, Seq<char>),
    Seq<char>,
> {
    both_addresses(
        address_or(ws, "failed to parse AGENTTOOL_WS_BIND"@),
        address_or(control, "failed to parse AGENTTOOL_CONTROL_BIND"@),
    )
}

fn take_named(ws: AddressText, control: AddressText) -> (r: Result<Binds, Failure>)
    ensures
        seen(r) == named_binds(ws@, control@),
{
    take_both(
        take_address(ws, text("failed to parse AGENTTOOL_WS_BIND")),
        take_address(control, text("failed to parse AGENTTOOL_CONTROL_BIND")),
    )
}

/// The addresses that a client is told to use: both, or none.
pub open spec fn client_override(ws: Option<AddressModel>, control: Option<AddressModel>) -> Result<
    Option<(Seq<char>, Seq<char>)>,
    Seq<char>,
> {
    match (ws, control) {
        (Some(w), Some(c)) => match named_binds(w, c) {
            Ok(binds) => Ok(Some(binds)),
            Err(e) => Err(e),
        },
        (None, None) => Ok(None),
        _ => Err(
            "AGENTTOOL_WS_BIND and AGENTTOOL_CONTROL_BIND must be provided together for explicit client override"@,
        ),
    }
}

pub fn explicit_client_binds(ws: Option<AddressText>, control: Option<AddressText>) -> (r: Result<
    Option<Binds>,
    Failure,
>)
    ensures
        client_override(view_opt(ws), view_opt(control)) == match r {
            Ok(o) => Ok(view_opt(o)),
            Err(e) => Err(e.message@),
        },
{
    match (ws, control) {
        (Some(w), Some(c)) => match take_named(w, c) {
            Ok(binds) => Ok(Some(binds)),
            Err(e) => Err(e),
        },
        (None, None) => Ok(None),
        _ => Err(
            Failure::new(
                text(
                    "AGENTTOOL_WS_BIND and AGENTTOOL_CONTROL_BIND must be provided together for explicit client override",
                ),
            ),
        ),
    }
}

/// The addresses that a daemon left, where it still lives.
pub open spec fn recorded_binds(endpoint: RecordedModel) -> Result<
    (Seq<char>, Seq<char>),
    Seq<char>,
> {
    if endpoint.live {
        both_addresses(
            address_or(
                endpoint.ws,
                "failed to parse runtime websocket endpoint "@ + endpoint.ws.given,
            ),
            address_or(
                endpoint.control,
                "failed to parse runtime control endpoint "@ + endpoint.control.given,
            ),
        )
    } else {
        Err(
            "AgentTool runtime endpoint is stale: pid "@ + decimal(
                endpoint.pid as nat,
            ) + " is not a live agentd instance"@,
        )
    }
}

/// The addresses of the daemon that left the record.
pub fn recorded_client_binds(endpoint: RecordedEndpoint) -> (r: Result<Binds, Failure>)
    ensures
        seen(r) == recorded_binds(endpoint@),
{
    if !endpoint.live {
        return Err(
            Failure::new(
                text("AgentTool runtime endpoint is stale: pid ").concat(
                    to_decimal(endpoint.pid as u64).as_str(),
                ).concat(" is not a live agentd instance"),
            ),
        );
    }
    let no_ws = text("failed to parse runtime websocket endpoint ").concat(
        endpoint.ws.given.as_str(),
    );
    let no_control = text("failed to parse runtime control endpoint ").concat(
        endpoint.control.given.as_str(),
    );
    take_both(take_address(endpoint.ws, no_ws), take_address(endpoint.control, no_control))
}

/// The addresses that a client talks to: those that it is told to use, else those of
/// the record that a living daemon has left, where one could be read.
pub open spec fn client_binds(
    ws: Option<AddressModel>,
    control: Option<AddressModel>,
    endpoint: Option<RecordedModel>,
    path: Seq<char>,
) -> Result<(Seq<char>, Seq<char>), Seq<char>> {
    match client_override(ws, control) {
        Err(e) => Err(e),
        Ok(Some(binds)) => Ok(binds),
        Ok(None) => match endpoint {
            Some(e) => recorded_binds(e),
            None => Err("failed to load AgentTool runtime endpoint from "@ + path),
        },
    }
}

/// The configuration with these addresses.
pub open spec fn config_at(
    env: ConfigEnv,
    binds: Result<(Seq<char>, Seq<char>), Seq<char>>,
) -> Result<ConfigModel, Seq<char>> {
    match binds {
        Ok(b) => Ok(ConfigModel { ws_bind: b.0, control_bind: b.1, ..base_config(env) }),
        Err(e) => Err(e),
    }
}

/// The address, or any free port of this machine where none is given.
pub open spec fn free_port_or(a: Option<AddressModel>) -> AddressModel {
    match a {
        Some(a) => a,
        None => AddressModel { given: "127.0.0.1:0"@, parsed: Some("127.0.0.1:0"@) },
    }
}

fn take_or_free_port(a: Option<AddressText>) -> (r: AddressText)
    ensures
        r@ == free_port_or(view_opt(a)),
{
    match a {
        Some(a) => a,
        None => AddressText { given: text("127.0.0.1:0"), parsed: Some(text("127.0.0.1:0")) },
    }
}

impl AppConfig {
    pub fn load_base(env: ConfigEnv) -> (r: AppConfig)
        ensures
            r@ == base_config(env),
    {
        let codex_launcher = match env.codex_launcher {
            Some(s) => s,
            None => default_codex_launcher(env.custom_launcher),
        };
        AppConfig {
            root_dir: env.root_dir,
            data_dir: env.data_dir,
            db_path: env.db_path,
            runtime_endpoint_path: env.runtime_endpoint_path,
            dashboard_runtime_script_path: env.dashboard_runtime_script_path,
            ws_bind: text("127.0.0.1:0"),
            control_bind: text("127.0.0.1:0"),
            codex_launcher,
            app_server_start_timeout_seconds: read_seconds(&env.app_server_start_timeout, 20),
            managed_bootstrap_timeout_seconds: read_seconds(&env.managed_bootstrap_timeout, 90),
        }
    }

    /// The configuration of a daemon: it listens on the addresses that are given,
    /// else on any free port.
    pub fn load_agentd(
        env: ConfigEnv,
        ws: Option<AddressText>,
        control: Option<AddressText>,
    ) -> (r: Result<AppConfig, Failure>)
        ensures
            seen(r) == config_at(
                env,
                named_binds(free_port_or(view_opt(ws)), free_port_or(view_opt(control))),
            ),
    {
        let binds = match take_named(take_or_free_port(ws), take_or_free_port(control)) {
            Ok(binds) => binds,
            Err(e) => {
                return Err(e);
            },
        };
        let mut config = AppConfig::load_base(env);
        config.ws_bind = binds.ws_bind;
        config.control_bind = binds.control_bind;
        Ok(config)
    }

    /// The configuration of a client: it talks to the addresses that it is told to
    /// use, else to the daemon whose record was read.
    pub fn load_client(
        env: ConfigEnv,
        ws: Option<AddressText>,
        control: Option<AddressText>,
        endpoint: Option<RecordedEndpoint>,
    ) -> (r: Result<AppConfig, Failure>)
        ensures
            seen(r) == config_at(
                env,
                client_binds(
                    view_opt(ws),
                    view_opt(control),
                    view_opt(endpoint),
                    env.runtime_endpoint_path@,
                ),
            ),
    {
        let binds = match explicit_client_binds(ws, control) {
            Err(e) => {
                return Err(e);
            },
            Ok(Some(binds)) => binds,
            Ok(None) => match endpoint {
                Some(e) => match recorded_client_binds(e) {
                    Ok(binds) => binds,
                    Err(e) => {
                        return Err(e);
                    },
                },
                None => {
                    return Err(
                        Failure::new(
                            text("failed to load AgentTool runtime endpoint from ").concat(
                                env.runtime_endpoint_path.as_str(),
                            ),
                        ),
                    );
                },
            },
        };
        let mut config = AppConfig::load_base(env);
        config.ws_bind = binds.ws_bind;
        config.control_bind = binds.control_bind;
        Ok(config)
    }

    /// Whether a daemon that ends takes the record with it: only its own.
    pub fn clear_runtime_endpoint_if_matches(
        existing: &Option<RuntimeEndpointRecord>,
        pid: u32,
    ) -> (r: bool)
        ensures
            r == (existing matches Some(e) && e.pid == pid),
    {
        match existing {
            Some(e) => e.pid == pid,
            None => false,
        }
    }
}

/// A client gets a configuration exactly when it is told two addresses that were
/// parsed, or is told none and a living daemon has left two such addresses; it then
/// talks to these.
pub proof fn client_talks_to_parsed_addresses(
    env: ConfigEnv,
    ws: Option<AddressModel>,
    control: Option<AddressModel>,
    endpoint: Option<RecordedModel>,
    path: Seq<char>,
)
    ensures
        ({
            let r = config_at(env, client_binds(ws, control, endpoint, path));
            let told = ws is Some && control is Some;
            let untold = ws is None && control is None;
            let w = if told {
                ws->Some_0.parsed
            } else {
                endpoint->Some_0.ws.parsed
            };
            let c = if told {
                control->Some_0.parsed
            } else {
                endpoint->Some_0.control.parsed
            };
            &&& r is Ok <==> (told || (untold && endpoint is Some && endpoint->Some_0.live))
                && w is Some && c is Some
            &&& r matches Ok(config) ==> Some(config.ws_bind) == w && Some(config.control_bind) == c
        }),
{
}

/// The script that tells a dashboard where the daemon is.
pub open spec fn dashboard_script(payload: Option<Seq<char>>) -> Seq<char> {
    match payload {
        Some(p) => "window.__AGENTTOOL_RUNTIME_ENDPOINT__ = "@ + p + ";\n"@,
        None => "window.__AGENTTOOL_RUNTIME_ENDPOINT__ = null;\n"@,
    }
}

pub fn dashboard_runtime_script(payload: &Option<String>) -> (r: String)
    ensures
        r@ == dashboard_script(opt_text(*payload)),
{
    match payload {
        Some(p) => text("window.__AGENTTOOL_RUNTIME_ENDPOINT__ = ").concat(p.as_str()).concat(
            ";\n",
        ),
        None => text("window.__AGENTTOOL_RUNTIME_ENDPOINT__ = null;\n"),
    }
}

/// The text without the characters at its start that are the given one.
pub open spec fn drop_leading(s: Seq<char>, c: char) -> Seq<char>
    decreases s.len(),
{
    if s.len() > 0 && s[0] == c {
        drop_leading(s.skip(1), c)
    } else {
        s
    }
}

fn trim_start_char(s: &str, c: char) -> (r: String)
    ensures
        r@ == drop_leading(s@, c),
{
    let v = to_chars(s);
    let mut i: usize = 0;
    assert(s@.skip(0) =~= s@);
    while i < v.len() && v[i] == c
        invariant
            i <= v.len(),
            v@ == s@,
            drop_leading(s@.skip(i as int), c) == drop_leading(s@, c),
        decreases v.len() - i,
    {
        assert(s@.skip(i as int).skip(1) =~= s@.skip(i + 1));
        i += 1;
    }
    let r = from_chars(&v, i, v.len());
    assert(r@ =~= s@.skip(i as int));
    r
}

/// The text up to the first `",`.
pub open spec fn first_field(s: Seq<char>) -> Seq<char>
    decreases s.len(),
{
    if s.len() < 2 {
        s
    } else if s[0] == '"' && s[1] == ',' {
        Seq::empty()
    } else {
        seq![s[0]] + first_field(s.skip(1))
    }
}

fn take_first_field(s: &str) -> (r: String)
    ensures
        r@ == first_field(s@),
{
    let v = to_chars(s);
    let mut i: usize = 0;
    assert(s@.skip(0) =~= s@);
    assert(s@.take(0) + first_field(s@) =~= first_field(s@));
    while i < v.len()
        invariant
            i <= v.len(),
            v@ == s@,
            first_field(s@) == s@.take(i as int) + first_field(s@.skip(i as int)),
        decreases v.len() - i,
    {
        if i + 1 < v.len() && v[i] == '"' && v[i + 1] == ',' {
            assert(s@.skip(i as int)[0] == '"' && s@.skip(i as int)[1] == ',');
            assert(s@.take(i as int) + Seq::<char>::empty() =~= s@.take(i as int));
            return from_chars(&v, 0, i);
        }
        proof {
            let rest = s@.skip(i as int);
            if rest.len() < 2 {
                assert(rest =~= seq![s@[i as int]]);
                assert(s@.skip(i + 1) =~= Seq::empty());
                assert(first_field(s@.skip(i + 1)) =~= Seq::empty());
                assert(s@.take(i as int) + rest =~= s@.take(i + 1) + first_field(s@.skip(i + 1)));
            } else {
                assert(rest.skip(1) =~= s@.skip(i + 1));
                assert(s@.take(i as int) + (seq![rest[0]] + first_field(rest.skip(1))) =~= s@.take(
                    i + 1,
                ) + first_field(s@.skip(i + 1)));
            }
        }
        i += 1;
    }
    assert(s@.skip(i as int) =~= Seq::empty());
    assert(s@.take(i as int) + Seq::<char>::empty() =~= s@);
    let r = from_chars(&v, 0, v.len());
    assert(r@ =~= s@);
    r
}

/// Whether a task list of one process, as comma-separated values, shows a daemon.
pub open spec fn lists_daemon(output: Seq<char>) -> bool {
    let line = trimmed(output);
    let name = drop_trailing(drop_leading(first_field(drop_leading(line, '"')), '"'), '"');
    line.len() > 0 && !begins_with(line, "INFO:"@) && lower(name) == "agentd.exe"@
}

pub fn is_agentd_listed(output: &str) -> (r: bool)
    ensures
        r == lists_daemon(output@),
{
    let line = trim(output);
    if line.as_str().is_empty() || starts_with(line.as_str(), "INFO:") {
        return false;
    }
    let bare = trim_start_char(line.as_str(), '"');
    let field = take_first_field(bare.as_str());
    let open = trim_start_char(field.as_str(), '"');
    let name = trim_end_char(open.as_str(), '"');
    same_text(to_lower(name.as_str()).as_str(), "agentd.exe")
}

} // verus!
