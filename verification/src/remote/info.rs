//! The facts that hold for a whole connection, asked for once and then kept:
//! the remote home directory and the directory for temporary files.
use vstd::prelude::*;

use crate::error::{fault, io_error_of, ChannelError, FaultKind, FsError, FsErrorView};
use crate::json::{Json, JsonView};
use crate::path::{file_name, file_name_of, join, joined};
use crate::protocol::{Params, ParamsView, Request, RequestView, Step};
use crate::remote::{info_view, RemoteFileSystem, RemoteSysInfo, RemoteView, SysInfoView};
use crate::text::{decimal, push_decimal};

verus! {

/// The temporary directory that an `info` answer names, `/tmp` where it names
/// none or there is no answer.
pub open spec fn temp_dir_of(info: Option<JsonView>) -> Seq<char> {
    match info {
        Some(answer) => match answer.str_field("temp_dir"@) {
            Some(dir) => dir,
            None => "/tmp"@,
        },
        None => "/tmp"@,
    }
}

/// What an `info` answer says.
pub open spec fn sys_info_of(info: JsonView) -> SysInfoView {
    SysInfoView { home: info.str_field("home"@), temp_dir: temp_dir_of(Some(info)) }
}

/// The question for the connection's facts.
pub open spec fn info_request() -> RequestView {
    RequestView { method: "info"@, params: ParamsView::Fields(Seq::empty()) }
}

impl RemoteView {
    /// The state after `info` came in: the first answer stays.
    pub open spec fn with_info(self, info: SysInfoView) -> RemoteView {
        match self.sys_info {
            Some(_) => self,
            None => RemoteView { sys_info: Some(info), ..self },
        }
    }

    /// The state after an answer to the question for the connection's facts.
    pub open spec fn after_info_reply(self, reply: Result<Json, ChannelError>) -> RemoteView {
        match reply {
            Ok(answer) => self.with_info(sys_info_of(answer@)),
            Err(_) => self,
        }
    }
}

/// The facts that a reply gives.
pub open spec fn replied_info(reply: Result<Json, ChannelError>) -> Option<SysInfoView> {
    match reply {
        Ok(answer) => Some(sys_info_of(answer@)),
        Err(_) => None,
    }
}

/// The home directory that the facts name.
pub open spec fn home_of(info: Option<SysInfoView>) -> Result<Seq<char>, FsErrorView> {
    match info {
        Some(i) => match i.home {
            Some(home) => Ok(home),
            None => Err(unknown_home()),
        },
        None => Err(unknown_home()),
    }
}

pub open spec fn unknown_home() -> FsErrorView {
    FsErrorView::Fault { kind: FaultKind::NotFound, message: "remote home directory unknown"@ }
}

/// The value of a text result.
pub open spec fn text_result(r: Result<String, FsError>) -> Result<Seq<char>, FsErrorView> {
    match r {
        Ok(s) => Ok(s@),
        Err(e) => Err(e@),
    }
}

/// A name for a temporary file next to which `dest` is written: it holds the
/// file name, the process id and a time stamp, and lies in the temporary
/// directory.
pub open spec fn temp_path(
    info: Option<SysInfoView>,
    dest: Seq<char>,
    process_id: u32,
    nanos: u128,
) -> Seq<char> {
    let dir = match info {
        Some(i) => i.temp_dir,
        None => "/tmp"@,
    };
    let name = match file_name(dest) {
        Some(n) => n,
        None => "fresh-save"@,
    };
    joined(
        dir,
        name + "-"@ + decimal(process_id as nat) + "-"@ + decimal(nanos as nat) + ".tmp"@,
    )
}

impl RemoteSysInfo {
    /// A copy of these facts.
    pub fn copied(&self) -> (copy: RemoteSysInfo)
        ensures
            copy@ == self@,
    {
        RemoteSysInfo {
            home: match &self.home {
                Some(home) => Some(home.clone()),
                None => None,
            },
            temp_dir: self.temp_dir.clone(),
        }
    }
}

fn ask_info() -> (question: Request)
    ensures
        question@ == info_request(),
{
    let fields: Vec<(String, Json)> = Vec::new();
    let question = Request { method: "info", params: Params::Fields(fields) };
    assert(crate::json::object_view(fields@) =~= Seq::empty());
    question
}

fn home_from(info: Option<&RemoteSysInfo>) -> (home: Result<String, FsError>)
    ensures
        text_result(home) == match info {
            Some(i) => home_of(Some(i@)),
            None => home_of(None),
        },
{
    match info {
        Some(i) => match &i.home {
            Some(home) => Ok(home.clone()),
            None => Err(fault(FaultKind::NotFound, "remote home directory unknown")),
        },
        None => Err(fault(FaultKind::NotFound, "remote home directory unknown")),
    }
}

fn temp_path_in(dir: &str, dest: &str, process_id: u32, nanos: u128) -> (path: String)
    ensures
        path@ == joined(
            dir@,
            (match file_name(dest@) {
                Some(n) => n,
                None => "fresh-save"@,
            }) + "-"@ + decimal(process_id as nat) + "-"@ + decimal(nanos as nat) + ".tmp"@,
        ),
{
    let mut name = match file_name_of(dest) {
        Some(n) => n,
        None => "fresh-save".to_owned(),
    };
    name.append("-");
    push_decimal(&mut name, process_id as u128);
    name.append("-");
    push_decimal(&mut name, nanos);
    name.append(".tmp");
    join(dir, name.as_str())
}

impl RemoteFileSystem {
    /// The temporary directory that an `info` answer names, `/tmp` where it
    /// names none or there is no answer.
    pub fn parse_temp_dir_from_info(info: Option<&Json>) -> (dir: String)
        ensures
            dir@ == match info {
                Some(answer) => temp_dir_of(Some(answer@)),
                None => temp_dir_of(None),
            },
    {
        match info {
            Some(answer) => match answer.str_field("temp_dir") {
                Some(dir) => dir.to_owned(),
                None => "/tmp".to_owned(),
            },
            None => "/tmp".to_owned(),
        }
    }

    /// What an `info` answer says.
    pub fn parse_sys_info(info: &Json) -> (facts: RemoteSysInfo)
        ensures
            facts@ == sys_info_of(info@),
    {
        RemoteSysInfo {
            home: match info.str_field("home") {
                Some(home) => Some(home.to_owned()),
                None => None,
            },
            temp_dir: Self::parse_temp_dir_from_info(Some(info)),
        }
    }

    /// The question that primes the connection's facts; nothing to ask once they
    /// are known.
    pub fn prime_sys_info(&self) -> (question: Option<Request>)
        ensures
            match self@.sys_info {
                Some(_) => question is None,
                None => question matches Some(q) && q@ == info_request(),
            },
    {
        match &self.sys_info {
            Some(_) => None,
            None => Some(ask_info()),
        }
    }

    /// Takes in the answer to the priming question. A link that fails to answer
    /// fails the priming.
    pub fn prime_sys_info_reply(&mut self, reply: Result<Json, ChannelError>) -> (done: Result<
        (),
        FsError,
    >)
        ensures
            final(self)@ == old(self)@.after_info_reply(reply),
            match reply {
                Ok(_) => done is Ok,
                Err(e) => done matches Err(x) && x@ == io_error_of(e@),
            },
    {
        match reply {
            Ok(answer) => {
                let facts = Self::parse_sys_info(&answer);
                if self.sys_info.is_none() {
                    self.sys_info = Some(facts);
                }
                Ok(())
            },
            Err(e) => Err(Self::to_io_error(e)),
        }
    }

    /// The connection's facts where they are known, else the question for them.
    pub fn sys_info(&self) -> (step: Step<RemoteSysInfo>)
        ensures
            match self@.sys_info {
                Some(known) => step matches Step::Ready(facts) && facts@ == known,
                None => step matches Step::Ask(q) && q@ == info_request(),
            },
    {
        match &self.sys_info {
            Some(known) => Step::Ready(known.copied()),
            None => Step::Ask(ask_info()),
        }
    }

    /// Takes in the answer to the question for the connection's facts, and gives
    /// what it said. Facts that are already known stay.
    pub fn sys_info_reply(&mut self, reply: Result<Json, ChannelError>) -> (facts: Option<
        RemoteSysInfo,
    >)
        ensures
            final(self)@ == old(self)@.after_info_reply(reply),
            info_view(facts) == replied_info(reply),
    {
        match reply {
            Ok(answer) => {
                let facts = Self::parse_sys_info(&answer);
                if self.sys_info.is_none() {
                    self.sys_info = Some(facts.copied());
                }
                Some(facts)
            },
            Err(_) => None,
        }
    }

    /// The remote home directory, asked for only where the facts are not known.
    pub fn home_dir(&self) -> (step: Step<Result<String, FsError>>)
        ensures
            match self@.sys_info {
                Some(known) => step matches Step::Ready(home) && text_result(home) == home_of(
                    Some(known),
                ),
                None => step matches Step::Ask(q) && q@ == info_request(),
            },
    {
        match &self.sys_info {
            Some(known) => Step::Ready(home_from(Some(known))),
            None => Step::Ask(ask_info()),
        }
    }

    /// The remote home directory, from the answer to the question for it.
    pub fn home_dir_reply(&mut self, reply: Result<Json, ChannelError>) -> (home: Result<
        String,
        FsError,
    >)
        ensures
            final(self)@ == old(self)@.after_info_reply(reply),
            text_result(home) == home_of(replied_info(reply)),
    {
        match self.sys_info_reply(reply) {
            Some(facts) => home_from(Some(&facts)),
            None => home_from(None),
        }
    }

    /// A name for a temporary file of `dest` on the remote side. The process id
    /// and the time stamp keep it apart from others.
    pub fn unique_temp_path(&self, dest: &str, process_id: u32, nanos: u128) -> (step: Step<String>)
        ensures
            match self@.sys_info {
                Some(known) => step matches Step::Ready(path) && path@ == temp_path(
                    Some(known),
                    dest@,
                    process_id,
                    nanos,
                ),
                None => step matches Step::Ask(q) && q@ == info_request(),
            },
    {
        match &self.sys_info {
            Some(known) => Step::Ready(
                temp_path_in(known.temp_dir.as_str(), dest, process_id, nanos),
            ),
            None => Step::Ask(ask_info()),
        }
    }

    /// A name for a temporary file of `dest`, from the answer to the question
    /// for the connection's facts. Without an answer the file goes to `/tmp`.
    pub fn unique_temp_path_reply(
        &mut self,
        reply: Result<Json, ChannelError>,
        dest: &str,
        process_id: u32,
        nanos: u128,
    ) -> (path: String)
        ensures
            final(self)@ == old(self)@.after_info_reply(reply),
            path@ == temp_path(replied_info(reply), dest@, process_id, nanos),
    {
        match self.sys_info_reply(reply) {
            Some(facts) => temp_path_in(facts.temp_dir.as_str(), dest, process_id, nanos),
            None => temp_path_in("/tmp", dest, process_id, nanos),
        }
    }
}

/// Once the connection's facts are known, no later answer changes them: the home
/// directory and the temporary directory are served without asking again.
pub proof fn law_info_is_kept(state: RemoteView, reply: Result<Json, ChannelError>)
    requires
        state.sys_info is Some,
    ensures
        state.after_info_reply(reply) == state,
{
}

/// One answered question is enough: after it the facts are known, and they are
/// those of the answer.
pub proof fn law_info_is_learned(state: RemoteView, answer: Json)
    requires
        state.sys_info is None,
    ensures
        state.after_info_reply(Ok(answer)).sys_info == Some(sys_info_of(answer@)),
{
}

} // verus!
