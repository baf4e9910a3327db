//! What holds for a whole connection.
use vstd::prelude::*;

use crate::error::{ChannelError, FaultKind, FsError};
use crate::json::Json;
use crate::laws::prefetch::same_string;
use crate::laws::requests::{has_fields, lemma_fields};
use crate::path::{file_name_of, join};
use crate::protocol::{Request, Step};
use crate::remote::{AgentChannel, RemoteFileSystem, RemoteSysInfo};
use crate::text::decimal;

verus! {

/// A connection is described by the channel and the name that it was made with.
pub proof fn law_connection_is_described(
    channel: AgentChannel,
    name: String,
    fs: RemoteFileSystem,
    told: &str,
    info: Option<&str>,
    up: bool,
    remote_up: bool,
    id: Option<u64>,
    uid: u32,
)
    requires
        call_ensures(RemoteFileSystem::new, (channel, name), fs),
        call_ensures(RemoteFileSystem::connection_string, (&fs,), told),
        call_ensures(RemoteFileSystem::remote_connection_info, (&fs,), info),
        call_ensures(RemoteFileSystem::is_connected, (&fs,), up),
        call_ensures(RemoteFileSystem::is_remote_connected, (&fs,), remote_up),
        call_ensures(RemoteFileSystem::remote_channel_id, (&fs,), id),
        call_ensures(RemoteFileSystem::current_uid, (&fs,), uid),
    ensures
        told@ == name@,
        info matches Some(i) && i@ == name@,
        up == channel.connected,
        remote_up == channel.connected,
        id == Some(channel.id),
        uid == 0,
{
}

/// Whatever else it knows, a connection tells its name, its channel and its state.
pub proof fn law_connection_is_told(
    fs: &RemoteFileSystem,
    told: &str,
    info: Option<&str>,
    up: bool,
    remote_up: bool,
    id: Option<u64>,
    uid: u32,
)
    requires
        call_ensures(RemoteFileSystem::connection_string, (fs,), told),
        call_ensures(RemoteFileSystem::remote_connection_info, (fs,), info),
        call_ensures(RemoteFileSystem::is_connected, (fs,), up),
        call_ensures(RemoteFileSystem::is_remote_connected, (fs,), remote_up),
        call_ensures(RemoteFileSystem::remote_channel_id, (fs,), id),
        call_ensures(RemoteFileSystem::current_uid, (fs,), uid),
    ensures
        told@ == fs@.connection,
        info matches Some(i) && i@ == told@,
        up == fs@.channel.connected,
        remote_up == up,
        id == Some(fs@.channel.id),
        uid == 0,
{
}

/// A channel that went up or down is up or down; nothing else changes.
pub proof fn law_connection_state_is_noted(
    fs: &mut RemoteFileSystem,
    connected: bool,
    up: bool,
    remote_up: bool,
)
    requires
        call_ensures(RemoteFileSystem::set_connected, (fs, connected), ()),
        call_ensures(RemoteFileSystem::is_connected, (&*final(fs),), up),
        call_ensures(RemoteFileSystem::is_remote_connected, (&*final(fs),), remote_up),
    ensures
        up == connected,
        remote_up == connected,
        final(fs)@.channel.id == old(fs)@.channel.id,
        final(fs)@.connection == old(fs)@.connection,
        final(fs)@.sys_info == old(fs)@.sys_info,
        final(fs)@.prewarm == old(fs)@.prewarm,
{
}

/// Whether `facts` are what the agent answered: the home directory where it names
/// one, and the directory for temporary files, `/tmp` where it names none.
pub open spec fn are_facts_of(facts: RemoteSysInfo, answer: Json) -> bool {
    &&& match facts.home {
        Some(home) => answer@.str_field("home"@) == Some(home@),
        None => answer@.str_field("home"@) is None,
    }
    &&& match answer@.str_field("temp_dir"@) {
        Some(dir) => facts.temp_dir@ == dir,
        None => facts.temp_dir@ == "/tmp"@,
    }
}

/// Whether two facts are the same.
pub open spec fn same_facts(a: RemoteSysInfo, b: RemoteSysInfo) -> bool {
    &&& same_string(a.home, b.home)
    &&& a.temp_dir@ == b.temp_dir@
}

/// Facts are read as the agent answers them.
pub proof fn law_facts_are_the_answer(
    answer: &Json,
    facts: RemoteSysInfo,
    copy: RemoteSysInfo,
    dir: String,
    fallback: String,
)
    requires
        call_ensures(RemoteFileSystem::parse_sys_info, (answer,), facts),
        call_ensures(RemoteSysInfo::copied, (&facts,), copy),
        call_ensures(RemoteFileSystem::parse_temp_dir_from_info, (Some(answer),), dir),
        call_ensures(RemoteFileSystem::parse_temp_dir_from_info, (None,), fallback),
    ensures
        are_facts_of(facts, *answer),
        are_facts_of(copy, *answer),
        dir@ == facts.temp_dir@,
        fallback@ == "/tmp"@,
{
}

/// Whether `q` asks for the facts.
pub open spec fn asks_for_facts(q: Request) -> bool {
    has_fields(q, "info"@, Seq::empty())
}

/// A new connection knows no facts: each operation that needs them asks for them.
pub proof fn law_new_connection_knows_no_facts(
    channel: AgentChannel,
    name: String,
    fs: RemoteFileSystem,
    prime: Option<Request>,
    known: Step<RemoteSysInfo>,
)
    requires
        call_ensures(RemoteFileSystem::new, (channel, name), fs),
        call_ensures(RemoteFileSystem::prime_sys_info, (&fs,), prime),
        call_ensures(RemoteFileSystem::sys_info, (&fs,), known),
    ensures
        prime matches Some(q) && asks_for_facts(q),
        known matches Step::Ask(q) && asks_for_facts(q),
{
    if let Some(q) = prime {
        lemma_fields(q);
    }
    if let Step::Ask(q) = known {
        lemma_fields(q);
    }
}

/// Whoever needs the facts asks exactly where they are not known.
pub proof fn law_facts_are_asked_for_where_unknown(
    fs: &RemoteFileSystem,
    dest: &str,
    process_id: u32,
    nanos: u128,
    known: Step<RemoteSysInfo>,
    prime: Option<Request>,
    home: Step<Result<String, FsError>>,
    temp: Step<String>,
)
    requires
        call_ensures(RemoteFileSystem::sys_info, (fs,), known),
        call_ensures(RemoteFileSystem::prime_sys_info, (fs,), prime),
        call_ensures(RemoteFileSystem::home_dir, (fs,), home),
        call_ensures(RemoteFileSystem::unique_temp_path, (fs, dest, process_id, nanos), temp),
    ensures
        known is Ready <==> prime is None,
        known is Ready <==> home is Ready,
        known is Ready <==> temp is Ready,
        known matches Step::Ask(q) ==> asks_for_facts(q),
        prime matches Some(q) ==> asks_for_facts(q),
        home matches Step::Ask(q) ==> asks_for_facts(q),
        temp matches Step::Ask(q) ==> asks_for_facts(q),
{
    if let Step::Ask(q) = known {
        lemma_fields(q);
    }
    if let Some(q) = prime {
        lemma_fields(q);
    }
    if let Step::Ask(q) = home {
        lemma_fields(q);
    }
    if let Step::Ask(q) = temp {
        lemma_fields(q);
    }
}

/// Whether `home` is the home directory in `facts`; without one it is not found.
pub open spec fn is_home_in(home: Result<String, FsError>, facts: Option<RemoteSysInfo>) -> bool {
    match home {
        Ok(path) => facts matches Some(f) && f.home matches Some(h) && h@ == path@,
        Err(FsError::Fault { kind, message }) => {
            &&& facts matches Some(f) ==> f.home is None
            &&& kind == FaultKind::NotFound
            &&& message@ == "remote home directory unknown"@
        },
        Err(FsError::Link(_)) => false,
    }
}

/// Whether `path` is a temporary file for `dest`: it lies in the directory for
/// temporary files, `/tmp` where no facts are known, and its name is that of `dest`
/// with the process id and the time behind it.
pub open spec fn is_temp_for(
    path: String,
    facts: Option<RemoteSysInfo>,
    dest: &str,
    process_id: u32,
    nanos: u128,
) -> bool {
    forall|dir: &str, leaf: &str, name: Option<String>, whole: String|
        ({
            &&& match facts {
                Some(f) => dir@ == f.temp_dir@,
                None => dir@ == "/tmp"@,
            }
            &&& #[trigger] call_ensures(file_name_of, (dest,), name)
            &&& leaf@ == (match name {
                Some(n) => n@,
                None => "fresh-save"@,
            }) + "-"@ + decimal(process_id as nat) + "-"@ + decimal(nanos as nat) + ".tmp"@
            &&& #[trigger] call_ensures(join, (dir, leaf), whole)
        }) ==> path@ == whole@
}

/// Where the facts are known, the home directory and temporary paths come from them.
pub proof fn law_known_facts_are_used(
    fs: &RemoteFileSystem,
    dest: &str,
    process_id: u32,
    nanos: u128,
    facts: RemoteSysInfo,
    home: Result<String, FsError>,
    temp: String,
)
    requires
        call_ensures(RemoteFileSystem::sys_info, (fs,), Step::Ready(facts)),
        call_ensures(RemoteFileSystem::home_dir, (fs,), Step::Ready(home)),
        call_ensures(
            RemoteFileSystem::unique_temp_path,
            (fs, dest, process_id, nanos),
            Step::Ready(temp),
        ),
    ensures
        is_home_in(home, Some(facts)),
        is_temp_for(temp, Some(facts), dest, process_id, nanos),
{
}

/// The answer to the priming question is learned where nothing was known, and only
/// there; nothing else changes.
pub proof fn law_primed_facts_are_learned(
    fs: &mut RemoteFileSystem,
    answer: Json,
    done: Result<(), FsError>,
    before: Step<RemoteSysInfo>,
    after: Step<RemoteSysInfo>,
)
    requires
        call_ensures(RemoteFileSystem::prime_sys_info_reply, (fs, Ok(answer)), done),
        call_ensures(RemoteFileSystem::sys_info, (&*old(fs),), before),
        call_ensures(RemoteFileSystem::sys_info, (&*final(fs),), after),
    ensures
        done is Ok,
        before is Ask ==> (after matches Step::Ready(facts) && are_facts_of(facts, answer)),
        before matches Step::Ready(known) ==> (after matches Step::Ready(facts) && same_facts(
            facts,
            known,
        )),
        final(fs)@.channel == old(fs)@.channel,
        final(fs)@.connection == old(fs)@.connection,
        final(fs)@.prewarm == old(fs)@.prewarm,
{
}

/// Whoever asked for the facts gets those of the answer, and they are learned where
/// nothing was known, and only there; nothing else changes.
pub proof fn law_asked_facts_are_learned(
    fs: &mut RemoteFileSystem,
    reply: Result<Json, ChannelError>,
    facts: Option<RemoteSysInfo>,
    before: Step<RemoteSysInfo>,
    after: Step<RemoteSysInfo>,
)
    requires
        call_ensures(RemoteFileSystem::sys_info_reply, (fs, reply), facts),
        call_ensures(RemoteFileSystem::sys_info, (&*old(fs),), before),
        call_ensures(RemoteFileSystem::sys_info, (&*final(fs),), after),
    ensures
        match reply {
            Ok(answer) => facts matches Some(f) && are_facts_of(f, answer),
            Err(_) => facts is None,
        },
        match (reply, before) {
            (Ok(answer), Step::Ask(_)) => after matches Step::Ready(f) && are_facts_of(f, answer),
            (Err(_), Step::Ask(_)) => after is Ask,
            (_, Step::Ready(known)) => after matches Step::Ready(f) && same_facts(f, known),
        },
        final(fs)@.channel == old(fs)@.channel,
        final(fs)@.connection == old(fs)@.connection,
        final(fs)@.prewarm == old(fs)@.prewarm,
{
}

/// Asking for the home directory learns the facts as asking for them does, and gives
/// the home directory in them.
pub proof fn law_home_comes_with_the_facts(
    fs: &mut RemoteFileSystem,
    same: &mut RemoteFileSystem,
    reply: Result<Json, ChannelError>,
    home: Result<String, FsError>,
    facts: Option<RemoteSysInfo>,
)
    requires
        call_ensures(RemoteFileSystem::home_dir_reply, (fs, reply), home),
        call_ensures(RemoteFileSystem::sys_info_reply, (same, reply), facts),
        old(fs)@ == old(same)@,
    ensures
        is_home_in(home, facts),
        final(fs)@ == final(same)@,
{
}

/// Asking for a temporary path learns the facts as asking for them does, and gives a
/// path according to them.
pub proof fn law_temp_path_comes_with_the_facts(
    fs: &mut RemoteFileSystem,
    same: &mut RemoteFileSystem,
    reply: Result<Json, ChannelError>,
    dest: &str,
    process_id: u32,
    nanos: u128,
    path: String,
    facts: Option<RemoteSysInfo>,
)
    requires
        call_ensures(
            RemoteFileSystem::unique_temp_path_reply,
            (fs, reply, dest, process_id, nanos),
            path,
        ),
        call_ensures(RemoteFileSystem::sys_info_reply, (same, reply), facts),
        old(fs)@ == old(same)@,
    ensures
        is_temp_for(path, facts, dest, process_id, nanos),
        final(fs)@ == final(same)@,
{
}

} // verus!
