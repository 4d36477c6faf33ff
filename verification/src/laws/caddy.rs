//! Which routes there are, letter by letter, and how the proxy comes to have
//! them.

use crate::caddy::{
    caddyfile, command_word, config_on_disk, out_of_date, reload_failure_text, route, routes,
    CaddyCommand, CaddyReload, ReloadAction, ReloadEvent, ReloadFailure, ReloadPhase,
    CADDY_PAUSE_NANOS, CADDY_TIMEOUT_NANOS,
};
use crate::laws::text::{law_numerals_are_the_only_ones, law_numerals_read_back, numeral_of};
use crate::state::ProcessState;
use crate::text::{decimal, joined};
use vstd::prelude::*;
use vstd::utf8::encode_utf8;

verus! {

/// The route of a project leads from its name to its port, whatever the two are:
/// reading the numeral of the upstream gives the port.
pub proof fn law_route_leads_to_the_port(name: Seq<char>, port: u16, n: Seq<char>)
    requires
        numeral_of(n, port as nat),
    ensures
        route(name, port) == "http://"@ + name
            + ".localhost:1300 {\n    reverse_proxy localhost:"@ + n + "\n}"@,
{
    law_numerals_are_the_only_ones(n, port as nat);
}

/// A project's routes to two ports are never the same.
pub proof fn law_ports_have_routes_of_their_own(name: Seq<char>, a: u16, b: u16)
    requires
        route(name, a) == route(name, b),
    ensures
        a == b,
{
    let head = "http://"@ + name + ".localhost:1300 {\n    reverse_proxy localhost:"@;
    let na = decimal(a as nat);
    let nb = decimal(b as nat);
    law_numerals_read_back(a as nat);
    law_numerals_read_back(b as nat);
    law_route_leads_to_the_port(name, a, na);
    law_route_leads_to_the_port(name, b, nb);
    let ra = route(name, a);
    let rb = route(name, b);
    assert(ra.len() == head.len() + na.len() + "\n}"@.len());
    assert(rb.len() == head.len() + nb.len() + "\n}"@.len());
    assert(ra.subrange(head.len() as int, (head.len() + na.len()) as int) =~= na);
    assert(rb.subrange(head.len() as int, (head.len() + nb.len()) as int) =~= nb);
    law_numerals_are_the_only_ones(na, a as nat);
}

/// The routes, told project by project: no project, no route; one more project
/// adds its route at the end if it has a port, and nothing if it has none.
pub proof fn law_each_port_adds_its_route(
    entries: Seq<(Seq<char>, ProcessState)>,
    name: Seq<char>,
    ps: ProcessState,
    n: Seq<char>,
)
    requires
        ps.port matches Some(port) ==> numeral_of(n, port as nat),
    ensures
        routes(Seq::<(Seq<char>, ProcessState)>::empty()).len() == 0,
        routes(entries.push((name, ps))) == if ps.port is Some {
            routes(entries).push(
                "http://"@ + name + ".localhost:1300 {\n    reverse_proxy localhost:"@ + n
                    + "\n}"@,
            )
        } else {
            routes(entries)
        },
{
    reveal(Seq::filter);
    let longer = entries.push((name, ps));
    assert(longer.drop_last() =~= entries);
    assert(longer.last() == (name, ps));
    if let Some(port) = ps.port {
        law_route_leads_to_the_port(name, port, n);
        assert(routes(longer) =~= routes(entries).push(route(name, port)));
    }
}

/// The config is its routes, an empty line between each two.
pub proof fn law_config_is_its_routes(entries: Seq<(Seq<char>, ProcessState)>)
    ensures
        caddyfile(entries) == joined(routes(entries), seq!['\n', '\n']),
{
    reveal_strlit("\n\n");
    assert("\n\n"@ =~= seq!['\n', '\n']);
}

/// A config on disk is up to date exactly if it is, byte for byte, the one that
/// the started projects call for; one that is not there counts as empty.
pub proof fn law_up_to_date_is_byte_for_byte(
    entries: Seq<(Seq<char>, ProcessState)>,
    disk: Vec<u8>,
)
    ensures
        out_of_date(entries, config_on_disk(Some(disk))) <==> disk@ != encode_utf8(
            joined(routes(entries), seq!['\n', '\n']),
        ),
        out_of_date(entries, config_on_disk(None)) <==> Seq::<u8>::empty() != encode_utf8(
            joined(routes(entries), seq!['\n', '\n']),
        ),
{
    law_config_is_its_routes(entries);
}

/// Bringing routes to the proxy, step by step: the config is written, then the
/// proxy told to reload, and only if it does not is it told to start.
pub proof fn law_routes_are_written_then_taken_over(content: String)
    ensures
        ({
            let write = CaddyReload { content, phase: ReloadPhase::WriteFile };
            let reload = write.after(ReloadEvent::FileWritten(true));
            let start = reload.after(ReloadEvent::CaddyRan(false));
            &&& write.action() == ReloadAction::WriteFile(content)
            &&& write.after(ReloadEvent::FileWritten(false)).action() == ReloadAction::Fail(
                ReloadFailure::NotWritten,
            )
            &&& reload.action() == ReloadAction::RunCaddy(CaddyCommand::Reload)
            &&& reload.after(ReloadEvent::CaddyRan(true)).action() == ReloadAction::Succeed
            &&& reload.after(ReloadEvent::CaddyBroken) == start
            &&& start.action() == ReloadAction::RunCaddy(CaddyCommand::Start)
            &&& start.after(ReloadEvent::CaddyRan(true)).action() == ReloadAction::Succeed
            &&& start.after(ReloadEvent::CaddyRan(false)).action() == ReloadAction::Fail(
                ReloadFailure::NotStarted,
            )
            &&& start.after(ReloadEvent::CaddyBroken).action() == ReloadAction::Fail(
                ReloadFailure::NotRun,
            )
        }),
{
}

/// Taking the last route away, step by step: if there is a config, the proxy is
/// told to stop, and whether it does or not the config is removed.
pub proof fn law_proxy_without_routes_is_stopped(content: String, stopped: bool)
    ensures
        ({
            let look = CaddyReload { content, phase: ReloadPhase::LookForFile };
            let stop = look.after(ReloadEvent::FileExists(true));
            let remove = stop.after(ReloadEvent::CaddyRan(stopped));
            &&& look.action() == ReloadAction::LookForFile
            &&& look.after(ReloadEvent::FileExists(false)).action() == ReloadAction::Succeed
            &&& stop.action() == ReloadAction::RunCaddy(CaddyCommand::Stop)
            &&& stop.after(ReloadEvent::CaddyBroken) == remove
            &&& remove.action() == ReloadAction::RemoveFile
            &&& remove.after(ReloadEvent::FileRemoved(true)).action() == ReloadAction::Succeed
            &&& remove.after(ReloadEvent::FileRemoved(false)).action() == ReloadAction::Fail(
                ReloadFailure::NotRemoved,
            )
        }),
{
}

/// Only an answer to what was asked moves things on, and the config stays the
/// same.
pub proof fn law_only_answers_move_a_reload_on(reload: CaddyReload, event: ReloadEvent)
    ensures
        reload.after(event).content == reload.content,
        reload.after(event) != reload ==> match reload.action() {
            ReloadAction::LookForFile => event is FileExists,
            ReloadAction::RunCaddy(_) => event is CaddyRan || event is CaddyBroken,
            ReloadAction::RemoveFile => event is FileRemoved,
            ReloadAction::WriteFile(_) => event is FileWritten,
            _ => false,
        },
{
}

/// The words that `caddy` knows, how long it has, and what is told when it
/// fails.
pub proof fn law_caddy_is_told_in_its_words(content: String, path: Seq<char>)
    ensures
        command_word(CaddyCommand::Stop) == "stop"@,
        command_word(CaddyCommand::Reload) == "reload"@,
        command_word(CaddyCommand::Start) == "start"@,
        CADDY_TIMEOUT_NANOS == 5 * 1_000_000_000,
        CADDY_PAUSE_NANOS == 50 * 1_000_000,
        ({
            let told = |why: ReloadFailure|
                reload_failure_text(CaddyReload { content, phase: ReloadPhase::Failed(why) }, path);
            &&& told(ReloadFailure::NotRemoved) is None
            &&& told(ReloadFailure::NotWritten) == Some("failed to write Caddyfile to "@ + path)
            &&& told(ReloadFailure::NotStarted) == Some("caddy start did not complete in time"@)
            &&& told(ReloadFailure::NotRun) is None
        }),
{
}

} // verus!
