//! What is taken from the surroundings: the configuration, the windows of the agents, and
//! which paths belong to a repository.

use vstd::prelude::*;

use crate::backend::{codex_home, is_safe_char, listen_url, not_ready, safe_segment};
use crate::config::{
    base_config, config_at, dashboard_script, drop_leading, first_field, free_port_or,
    lists_daemon, named_binds, seconds_or, AddressModel, ConfigEnv, DEFAULT_MYCODEX_LAUNCHER,
};
use crate::draft::{path_key, within_root};
use crate::panes::{end_check, ended, inspected, is_registered_pane, ProcessModel};
use crate::sessions::VisiblePaneStopOutcome;
use crate::text::{
    backslashed, begins_with, decimal, drop_space, drop_trailing, finishes_with, holds_part, is_space,
    lower, lower_char, skip_space, trimmed,
};

verus! {

/// The configuration has its paths from the surroundings, each in the field of its name; the
/// launcher that is named, else the custom one where it is installed, else codex; and as
/// timeouts the numbers that are given, else twenty and ninety seconds.
pub proof fn configuration_is_taken_from_the_surroundings(env: ConfigEnv)
    ensures
        ({
            let c = base_config(env);
            &&& c.root_dir == env.root_dir@
            &&& c.data_dir == env.data_dir@
            &&& c.db_path == env.db_path@
            &&& c.runtime_endpoint_path == env.runtime_endpoint_path@
            &&& c.dashboard_runtime_script_path == env.dashboard_runtime_script_path@
            &&& env.codex_launcher matches Some(l) ==> c.codex_launcher == l@
            &&& env.codex_launcher is None && env.custom_launcher ==> c.codex_launcher
                == DEFAULT_MYCODEX_LAUNCHER@
            &&& env.codex_launcher is None && !env.custom_launcher ==> c.codex_launcher == "codex"@
            &&& env.app_server_start_timeout is None ==> c.app_server_start_timeout_seconds == 20
            &&& env.app_server_start_timeout matches Some(s) ==> c.app_server_start_timeout_seconds
                == seconds_or(Some(s@), 20)
            &&& env.managed_bootstrap_timeout is None ==> c.managed_bootstrap_timeout_seconds == 90
            &&& env.managed_bootstrap_timeout matches Some(s)
                ==> c.managed_bootstrap_timeout_seconds == seconds_or(Some(s@), 90)
            &&& c.app_server_start_timeout_seconds > 0 && c.managed_bootstrap_timeout_seconds > 0
        }),
{
}

/// A daemon listens where it is told to, on each of its two addresses, and on a free port of
/// this machine where it is told nothing; an address that cannot be read is refused.
pub proof fn daemon_listens_where_it_is_told(
    env: ConfigEnv,
    ws: Option<AddressModel>,
    control: Option<AddressModel>,
)
    ensures
        ({
            let r = config_at(env, named_binds(free_port_or(ws), free_port_or(control)));
            &&& r is Ok <==> (ws matches Some(a) ==> a.parsed is Some) && (control matches Some(a)
                ==> a.parsed is Some)
            &&& r matches Ok(c) ==> {
                &&& ws matches Some(a) ==> a.parsed == Some(c.ws_bind)
                &&& ws is None ==> c.ws_bind == "127.0.0.1:0"@
                &&& control matches Some(a) ==> a.parsed == Some(c.control_bind)
                &&& control is None ==> c.control_bind == "127.0.0.1:0"@
                &&& c.db_path == env.db_path@ && c.data_dir == env.data_dir@ && c.root_dir
                    == env.root_dir@
            }
        }),
{
}

/// The script of a dashboard sets the endpoint to what it is given, and to null where there
/// is none.
pub proof fn script_sets_the_endpoint(payload: Option<Seq<char>>)
    ensures
        payload matches Some(p) ==> dashboard_script(payload)
            == "window.__AGENTTOOL_RUNTIME_ENDPOINT__ = "@ + p + ";\n"@,
        payload is None ==> dashboard_script(payload)
            == "window.__AGENTTOOL_RUNTIME_ENDPOINT__ = null;\n"@,
{
}

/// A window is ended only where its process is the one that was registered, is a shell, and
/// was started to enter this very agent's shell or view.
pub proof fn only_the_agents_window_is_ended(process: ProcessModel, agent: Seq<char>, pid: u32)
    ensures
        end_check(process, agent, pid) is Ok <==> is_registered_pane(process, agent, pid),
        is_registered_pane(process, agent, pid) ==> {
            &&& process.process_id == pid
            &&& process.name matches Some(n) && (lower(n) == "powershell.exe"@ || lower(n)
                == "pwsh.exe"@)
            &&& process.command_line matches Some(line) && holds_part(lower(line), "-agentname"@)
                && holds_part(lower(line), lower(agent)) && (holds_part(
                lower(line),
                "enter-agentshell.ps1"@,
            ) || holds_part(lower(line), "enter-agentview.ps1"@))
            &&& process.executable_path matches Some(path) ==> path.len() == 0 || holds_part(
                lower(path),
                "\\windows\\system32\\windowspowershell\\"@,
            ) || finishes_with(lower(path), "\\powershell.exe"@) || finishes_with(
                lower(path),
                "\\pwsh.exe"@,
            )
        },
{
    reveal_strlit("");
    reveal_strlit("powershell.exe");
    reveal_strlit("pwsh.exe");
    assert(lower(""@).len() == 0);
    assert("powershell.exe"@.len() > 0);
    assert("pwsh.exe"@.len() > 0);
}

/// A process that was registered, is a shell without a known path, and was started to enter
/// the agent's shell or view, is the agent's window.
pub proof fn agents_window_is_known(
    process: ProcessModel,
    agent: Seq<char>,
    name: Seq<char>,
    line: Seq<char>,
)
    requires
        process.name == Some(name),
        lower(name) == "powershell.exe"@ || lower(name) == "pwsh.exe"@,
        process.executable_path is None,
        process.command_line == Some(line),
        holds_part(lower(line), "enter-agentshell.ps1"@) || holds_part(
            lower(line),
            "enter-agentview.ps1"@,
        ),
        holds_part(lower(line), "-agentname"@),
        holds_part(lower(line), lower(agent)),
    ensures
        is_registered_pane(process, agent, process.process_id),
{
    reveal_strlit("");
    reveal_strlit("-agentname");
    assert(lower(""@) =~= ""@);
    let at = choose|at: int| crate::text::part_at(lower(line), "-agentname"@, at);
    assert(lower(line).len() >= "-agentname"@.len());
}

/// An inspection that succeeded gives what it printed, one with the code for a process that
/// is gone gives nothing, and any other is an error.
pub proof fn inspection_is_understood(
    code: Option<i32>,
    stdout: Seq<char>,
    stderr: Seq<char>,
    status: Seq<char>,
    agent: Seq<char>,
    pid: u32,
)
    ensures
        ({
            let r = inspected(code, stdout, stderr, status, agent, pid);
            &&& code == Some(3i32) ==> r == Ok::<Option<Seq<char>>, Seq<char>>(None)
            &&& code == Some(0i32) && trimmed(stdout).len() > 0 ==> r == Ok::<
                Option<Seq<char>>,
                Seq<char>,
            >(Some(trimmed(stdout)))
            &&& code == Some(0i32) && trimmed(stdout).len() == 0 ==> r is Err
            &&& code != Some(0i32) && code != Some(3i32) ==> r is Err
        }),
{
}

/// An attempt to end a window worked, or the window is gone anyway, or it is an error.
pub proof fn end_of_a_window_is_understood(success: bool, still_there: bool, status: Seq<char>)
    ensures
        success ==> ended(success, still_there, status) == Ok::<VisiblePaneStopOutcome, Seq<char>>(
            VisiblePaneStopOutcome::StopRequested,
        ),
        !success && !still_there ==> ended(success, still_there, status) == Ok::<
            VisiblePaneStopOutcome,
            Seq<char>,
        >(VisiblePaneStopOutcome::AlreadyGone),
        !success && still_there ==> ended(success, still_there, status) is Err,
{
}

/// A slash of either kind.
pub open spec fn is_slash(c: char) -> bool {
    c == '/' || c == '\\'
}

/// The path has neither white space around it nor a slash at its end.
pub open spec fn is_plain_path(s: Seq<char>) -> bool {
    s.len() > 0 && !is_space(s[0]) && !is_space(s.last()) && !is_slash(s.last())
}

proof fn lemma_plain_key(s: Seq<char>)
    requires
        is_plain_path(s),
    ensures
        path_key(s) == lower(backslashed(s)),
        path_key(s).len() == s.len(),
        forall|i: int|
            0 <= i < s.len() ==> (#[trigger] path_key(s)[i] == '\\' <==> is_slash(s[i])),
{
    assert(skip_space(s) == s);
    assert(drop_space(s) == s);
    let b = backslashed(s);
    assert(b.last() == s.last());
    assert(drop_trailing(b, '\\') == b);
    let l = lower(b);
    assert(l.last() == lower_char(b.last()));
    assert forall|i: int| 0 <= i < s.len() implies (#[trigger] l[i] == '\\' <==> is_slash(s[i])) by {
        assert(l[i] == lower_char(b[i]));
        lemma_backslash_is_small(b[i]);
    }
    assert(l.last() != '\\');
    assert(drop_trailing(l, '\\') == l);
}

proof fn lemma_backslash_is_small(c: char)
    ensures
        lower_char(c) == '\\' <==> c == '\\',
{
}

/// A path below a directory is within it, with a slash of either kind between them and
/// whatever the capitals are; a path that merely begins with the same letters is not.
pub proof fn path_below_is_within(root: Seq<char>, slash: char, name: Seq<char>)
    requires
        is_plain_path(root),
        is_plain_path(name),
    ensures
        within_root(root, root),
        is_slash(slash) ==> within_root(root + seq![slash] + name, root),
        within_root(lower(root), root),
        !is_slash(name[0]) ==> !within_root(root + name, root),
{
    let below = root + seq![slash] + name;
    let beside = root + name;
    let key = path_key(root);
    lemma_plain_key(root);
    assert(below.last() == name.last());
    assert(below[0] == root[0]);
    lemma_plain_key(below);
    assert(beside.last() == name.last());
    assert(beside[0] == root[0]);
    lemma_plain_key(beside);
    if is_slash(slash) {
        let k = path_key(below);
        assert forall|i: int| 0 <= i < root.len() implies k[i] == key[i] by {
            assert(below[i] == root[i]);
            assert(backslashed(below)[i] == backslashed(root)[i]);
        }
        assert(below[root.len() as int] == slash);
        assert(k[root.len() as int] == '\\');
        assert(k.take((root.len() + 1) as int) =~= key.push('\\'));
    }
    if !is_slash(name[0]) {
        let k = path_key(beside);
        assert(k.len() > key.len());
        assert(beside[root.len() as int] == name[0]);
        assert(k[root.len() as int] != '\\');
        if begins_with(k, key.push('\\')) {
            assert(k.take((root.len() + 1) as int)[root.len() as int] == '\\');
        }
    }
    let small = lower(root);
    lemma_small_is_plain(root);
    lemma_plain_key(small);
    assert(path_key(small) =~= key) by {
        assert forall|i: int| 0 <= i < root.len() implies path_key(small)[i] == key[i] by {
            assert(small[i] == lower_char(root[i]));
        }
    }
}

proof fn lemma_small_is_plain(s: Seq<char>)
    requires
        is_plain_path(s),
    ensures
        is_plain_path(lower(s)),
{
    let l = lower(s);
    assert(l[0] == lower_char(s[0]));
    assert(l.last() == lower_char(s.last()));
}

proof fn lemma_first_field(name: Seq<char>, rest: Seq<char>)
    requires
        forall|i: int| 0 <= i < name.len() ==> #[trigger] name[i] != '"',
    ensures
        first_field(name + seq!['"', ','] + rest) == name,
    decreases name.len(),
{
    let s = name + seq!['"', ','] + rest;
    if name.len() == 0 {
        assert(s[0] == '"' && s[1] == ',');
        assert(first_field(s) =~= name);
    } else {
        let less = name.skip(1);
        assert(s.skip(1) =~= less + seq!['"', ','] + rest);
        assert forall|i: int| 0 <= i < less.len() implies #[trigger] less[i] != '"' by {
            assert(less[i] == name[i + 1]);
        }
        lemma_first_field(less, rest);
        assert(s[0] == name[0]);
        assert(seq![name[0]] + less =~= name);
    }
}

/// A list of one process shows a daemon exactly where the name that stands first in it is the
/// daemon's, whatever its capitals are and whatever comes after it.
pub proof fn daemon_is_known_by_its_name(name: Seq<char>, rest: Seq<char>)
    requires
        name.len() > 0,
        forall|i: int| 0 <= i < name.len() ==> #[trigger] name[i] != '"',
        rest.len() > 0,
        !is_space(rest.last()),
    ensures
        lists_daemon(seq!['"'] + name + seq!['"', ','] + rest) <==> lower(name) == "agentd.exe"@,
{
    let s = seq!['"'] + name + seq!['"', ','] + rest;
    assert(s[0] == '"');
    assert(s.last() == rest.last());
    assert(skip_space(s) == s);
    assert(drop_space(s) == s);
    let inner = name + seq!['"', ','] + rest;
    assert(s.skip(1) =~= inner);
    assert(inner[0] == name[0]);
    assert(drop_leading(inner, '"') == inner);
    assert(drop_leading(s, '"') == inner);
    lemma_first_field(name, rest);
    assert(drop_leading(name, '"') == name);
    assert(name.last() == name[name.len() - 1]);
    assert(drop_trailing(name, '"') == name);
    reveal_strlit("INFO:");
    if begins_with(s, "INFO:"@) {
        assert(s.take(5)[0] == 'I');
    }
}

/// The name of an agent as a file name keeps every letter, digit, `_`, `-` and `.` where it
/// was and has `_` in place of anything else; a name of which nothing else would be left is
/// `agent`.
pub proof fn agents_name_is_made_safe(name: Seq<char>, k: int)
    ensures
        ({
            let safe = safe_segment(name);
            let kept = |c: char|
                'a' <= c <= 'z' || 'A' <= c <= 'Z' || '0' <= c <= '9' || c == '-' || c == '.';
            &&& (0 <= k < name.len() && kept(name[k])) ==> safe.len() == name.len() && forall|
                i: int,
            |
                0 <= i < name.len() ==> (#[trigger] safe[i] == if kept(name[i]) {
                    name[i]
                } else {
                    '_'
                })
            &&& (forall|i: int| 0 <= i < name.len() ==> !kept(#[trigger] name[i])) ==> safe
                == "agent"@
        }),
{
    let safe = name.map_values(|c: char| if is_safe_char(c) { c } else { '_' });
    if 0 <= k < name.len() {
        assert(safe[k] == if is_safe_char(name[k]) {
            name[k]
        } else {
            '_'
        });
    }
}

/// The home of an agent's codex lies below the root that is named; else in the user's profile;
/// else among the temporary files.
pub proof fn home_of_codex_is_chosen(
    name: Seq<char>,
    root: Option<Seq<char>>,
    profile: Option<Seq<char>>,
    temp: Seq<char>,
)
    ensures
        ({
            let home = codex_home(name, root, profile, temp);
            &&& home.last() == safe_segment(name)
            &&& root matches Some(r) ==> home.len() == 2 && home[0] == r
            &&& (root is None && profile is Some) ==> home.len() == 5 && home[0]
                == profile->Some_0 && home[1] == "codextemp"@ && home[2] == ".codex"@ && home[3]
                == "agents"@
            &&& (root is None && profile is None) ==> home.len() == 3 && home[0] == temp && home[1]
                == "agenttool-codex-home"@
        }),
{
}

/// An app server listens on this machine, each port at its own address.
pub proof fn server_listens_on_its_port(a: u16, b: u16)
    ensures
        listen_url(a) == "ws://127.0.0.1:"@ + decimal(a as nat),
        listen_url(a) == listen_url(b) ==> a == b,
{
    if listen_url(a) == listen_url(b) {
        let n = "ws://127.0.0.1:"@.len() as int;
        assert(listen_url(a).skip(n) =~= decimal(a as nat));
        assert(listen_url(b).skip(n) =~= decimal(b as nat));
        crate::words::numbers_are_told_apart(a as nat, b as nat);
    }
}

/// A server that does not answer is tried again until it is too late, and then given up with
/// the last error, where there was one.
pub proof fn server_is_tried_until_too_late(
    url: Seq<char>,
    error: Option<Seq<char>>,
    late: bool,
)
    ensures
        not_ready(url, error, late) is Ok <==> !late,
        late && error is Some ==> not_ready(url, error, late)->Err_0 == "managed app-server at "@
            + url + " did not become ready: "@ + error->Some_0,
        late && error is None ==> not_ready(url, error, late)->Err_0 == "managed app-server at "@
            + url + " did not become ready before timeout"@,
{
}

} // verus!
