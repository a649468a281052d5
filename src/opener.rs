use vstd::prelude::*;

use crate::paths::{data_local_dir, is_joined2, join2, lemma_components};
use crate::result::{RobloxStudioError, RobloxStudioResult};
use crate::task::{task_name, RobloxStudioTask};

verus! {

/// The loopback address, the default host of a server session.
pub open spec fn default_server_addr() -> Seq<u8> {
    seq![127u8, 0u8, 0u8, 1u8]
}

/// The default port of a server session.
pub const DEFAULT_SERVER_PORT: u16 = 50608;

/// The character of one decimal digit.
pub open spec fn digit(d: nat) -> char {
    ((d + 48) as u32) as char
}

/// The decimal digits of `n`, without sign or leading zeros.
pub open spec fn decimal(n: nat) -> Seq<char>
    decreases n,
{
    if n < 10 {
        seq![digit(n)]
    } else {
        decimal(n / 10).push(digit(n % 10))
    }
}

/// An IPv4 address in dotted decimal notation.
pub open spec fn dotted(a: Seq<u8>) -> Seq<char> {
    decimal(a[0] as nat) + seq!['.'] + decimal(a[1] as nat) + seq!['.'] + decimal(a[2] as nat)
        + seq!['.'] + decimal(a[3] as nat)
}

/// One argument pair: the key, then its value.
pub open spec fn pair(key: Seq<char>, value: Seq<char>) -> Seq<Seq<char>> {
    seq![key, value]
}

/// The creator, universe and place ids, all zero, that session tasks need.
pub open spec fn zero_pairs() -> Seq<Seq<char>> {
    pair("-creatorType"@, "0"@) + pair("-creatorId"@, "0"@) + pair("-universeId"@, "0"@) + pair(
        "-placeId"@,
        "0"@,
    )
}

/// The arguments of a server or client session at `addr` and `port`.
pub open spec fn session_pairs(task: RobloxStudioTask, addr: Seq<u8>, port: u16) -> Seq<
    Seq<char>,
> {
    pair("-task"@, task_name(task)) + pair("-server"@, dotted(addr)) + pair(
        "-port"@,
        decimal(port as nat),
    ) + zero_pairs()
}

/// The arguments that editing an online place adds.
pub open spec fn place_pairs(universe_id: u64, place_id: u64) -> Seq<Seq<char>> {
    pair("-task"@, task_name(RobloxStudioTask::EditPlace)) + pair(
        "-universeId"@,
        decimal(universe_id as nat),
    ) + pair("-placeId"@, decimal(place_id as nat))
}

/// The arguments that editing the local place file at `path` adds.
pub open spec fn file_pairs(path: Seq<char>) -> Seq<Seq<char>> {
    pair("-task"@, task_name(RobloxStudioTask::EditFile)) + pair("-localPlaceFile"@, path)
}

/// The argument that asks a server to start `n` clients with it.
pub open spec fn clients_pair(n: u8) -> Seq<Seq<char>> {
    pair("-numtestserverplayersuponstartup"@, decimal(n as nat))
}

/// A local file, as the operating system resolved it to its canonical,
/// absolute form.
#[derive(Debug, Clone)]
pub enum ResolvedPath {
    /// The canonical path, as text.
    Text(String),
    /// The canonical path is not valid text; a lossy rendering of it.
    NotText(String),
    /// The path could not be resolved; why.
    Failed(String),
}

/// How copying a place file to the server place file went.
#[derive(Debug, Clone)]
pub enum StagedPlace {
    /// The place file was copied.
    Copied,
    /// The place file could not be resolved; why.
    SourceUnresolved(String),
    /// The local data directory, and with it the target, is unknown.
    DataDirMissing,
    /// The copy failed; why.
    CopyFailed(String),
}

/// Starting a server with clients yields exactly the arguments of starting
/// the same server from the same opener, followed by the one pair that gives
/// the number of clients in decimal.
pub proof fn lemma_clients_extend_server(
    o: RobloxStudioOpener,
    server: RobloxStudioOpener,
    with_clients: RobloxStudioOpener,
    n: u8,
)
    requires
        o.extended(server, session_pairs(RobloxStudioTask::StartServer, o.addr(), o.port())),
        o.extended(
            with_clients,
            session_pairs(RobloxStudioTask::StartServer, o.addr(), o.port()) + clients_pair(n),
        ),
    ensures
        server.extended(with_clients, clients_pair(n)),
{
    assert(with_clients.arg_list() =~= server.arg_list() + clients_pair(n));
}

/// The one-character text of the decimal digit `d`.
fn digit_str(d: u64) -> (r: &'static str)
    requires
        d < 10,
    ensures
        r@ == seq![digit(d as nat)],
{
    proof {
        reveal_strlit("0");
        reveal_strlit("1");
        reveal_strlit("2");
        reveal_strlit("3");
        reveal_strlit("4");
        reveal_strlit("5");
        reveal_strlit("6");
        reveal_strlit("7");
        reveal_strlit("8");
        reveal_strlit("9");
    }
    let r = match d {
        0 => "0",
        1 => "1",
        2 => "2",
        3 => "3",
        4 => "4",
        5 => "5",
        6 => "6",
        7 => "7",
        8 => "8",
        _ => "9",
    };
    assert(r@ =~= seq![digit(d as nat)]);
    r
}

/// The decimal digits of `n`, without sign or leading zeros.
fn decimal_string(n: u64) -> (r: String)
    ensures
        r@ == decimal(n as nat),
    decreases n,
{
    if n < 10 {
        String::from_str(digit_str(n))
    } else {
        let mut r = decimal_string(n / 10);
        r.append(digit_str(n % 10));
        r
    }
}

fn dotted_string(a: [u8; 4]) -> (r: String)
    ensures
        r@ == dotted(a@),
{
    let mut r = decimal_string(a[0] as u64);
    let mut i: usize = 1;
    while i < 4
        invariant
            1 <= i <= 4,
            a@.len() == 4,
            r@ == (if i == 1 {
                decimal(a@[0] as nat)
            } else if i == 2 {
                decimal(a@[0] as nat) + seq!['.'] + decimal(a@[1] as nat)
            } else if i == 3 {
                decimal(a@[0] as nat) + seq!['.'] + decimal(a@[1] as nat) + seq!['.'] + decimal(
                    a@[2] as nat,
                )
            } else {
                dotted(a@)
            }),
        decreases 4 - i,
    {
        proof {
            reveal_strlit(".");
        }
        r.append(".");
        let d = decimal_string(a[i] as u64);
        r.append(d.as_str());
        i = i + 1;
    }
    r
}

/// The view of a list of arguments.
pub open spec fn texts(v: Seq<String>) -> Seq<Seq<char>> {
    v.map_values(|s: String| s@)
}

/// Opens Roblox Studio with the arguments of one task, built up by chained
/// calls.
#[derive(Debug, Clone)]
pub struct RobloxStudioOpener {
    args: Vec<String>,
    server_addr: [u8; 4],
    server_port: u16,
}

impl RobloxStudioOpener {
    /// The arguments built so far, each key followed by its value.
    pub closed spec fn arg_list(self) -> Seq<Seq<char>> {
        texts(self.args@)
    }

    /// The server address in use.
    pub closed spec fn addr(self) -> Seq<u8> {
        self.server_addr@
    }

    /// The server port in use.
    pub closed spec fn port(self) -> u16 {
        self.server_port
    }

    /// `self` with `more` appended to its arguments, and nothing else changed.
    pub open spec fn extended(self, r: Self, more: Seq<Seq<char>>) -> bool {
        &&& r.arg_list() == self.arg_list() + more
        &&& r.addr() == self.addr()
        &&& r.port() == self.port()
    }

    /// Creates an opener with no arguments, for the loopback address and the
    /// default port.
    pub fn new() -> (r: Self)
        ensures
            r.arg_list() == Seq::<Seq<char>>::empty(),
            r.addr() == default_server_addr(),
            r.port() == DEFAULT_SERVER_PORT,
    {
        let r = RobloxStudioOpener {
            args: Vec::new(),
            server_addr: [127u8, 0u8, 0u8, 1u8],
            server_port: DEFAULT_SERVER_PORT,
        };
        assert(r.arg_list() =~= Seq::<Seq<char>>::empty());
        assert(r.addr() =~= default_server_addr());
        r
    }

    /// Adds a key-value argument pair. The more specific methods are to be
    /// preferred where one fits.
    pub fn with_arg(self, key: &str, value: &str) -> (r: Self)
        ensures
            self.extended(r, pair(key@, value@)),
    {
        let mut r = self;
        r.args.push(key.to_owned());
        r.args.push(value.to_owned());
        assert(r.arg_list() =~= self.arg_list() + pair(key@, value@));
        r
    }

    /// Adds the creator, universe and place id arguments, all zero.
    fn with_zeros(self) -> (r: Self)
        ensures
            self.extended(r, zero_pairs()),
    {
        let r = self.with_arg("-creatorType", "0").with_arg("-creatorId", "0").with_arg(
            "-universeId",
            "0",
        ).with_arg("-placeId", "0");
        assert(r.arg_list() =~= self.arg_list() + zero_pairs());
        r
    }

    /// Sets the server address that `start_server`, `start_server_with_clients`
    /// and `start_client` use, in place of the loopback address.
    pub fn with_server_addr(self, server_addr: [u8; 4]) -> (r: Self)
        ensures
            r.arg_list() == self.arg_list(),
            r.addr() == server_addr@,
            r.port() == self.port(),
    {
        let mut r = self;
        r.server_addr = server_addr;
        r
    }

    /// Sets the server port that `start_server`, `start_server_with_clients`
    /// and `start_client` use, in place of the default port.
    pub fn with_server_port(self, server_port: u16) -> (r: Self)
        ensures
            r.arg_list() == self.arg_list(),
            r.addr() == self.addr(),
            r.port() == server_port,
    {
        let mut r = self;
        r.server_port = server_port;
        r
    }

    /// Edits the online place `place_id` of the universe `universe_id`.
    pub fn open_place(self, universe_id: u64, place_id: u64) -> (r: Self)
        ensures
            self.extended(r, place_pairs(universe_id, place_id)),
    {
        let u = decimal_string(universe_id);
        let p = decimal_string(place_id);
        let r = self.with_arg("-task", RobloxStudioTask::EditPlace.name()).with_arg(
            "-universeId",
            u.as_str(),
        ).with_arg("-placeId", p.as_str());
        assert(r.arg_list() =~= self.arg_list() + place_pairs(universe_id, place_id));
        r
    }

    /// Edits a local place file, given as the system resolved it.
    pub fn open_file(self, file: ResolvedPath) -> (r: RobloxStudioResult<Self>)
        ensures
            file matches ResolvedPath::Text(p) ==> (r matches Ok(o) && self.extended(
                o,
                file_pairs(p@),
            )),
            file matches ResolvedPath::NotText(p) ==> (r matches Err(
                RobloxStudioError::PathToString(q),
            ) && q@ == p@),
            file matches ResolvedPath::Failed(e) ==> (r matches Err(
                RobloxStudioError::PathCanonicalize(d),
            ) && d@ == e@),
    {
        match file {
            ResolvedPath::Text(p) => {
                let r = self.with_arg("-task", RobloxStudioTask::EditFile.name()).with_arg(
                    "-localPlaceFile",
                    p.as_str(),
                );
                assert(r.arg_list() =~= self.arg_list() + file_pairs(p@));
                Ok(r)
            },
            ResolvedPath::NotText(p) => Err(RobloxStudioError::PathToString(p)),
            ResolvedPath::Failed(e) => Err(RobloxStudioError::PathCanonicalize(e)),
        }
    }

    /// Adds the arguments of a session task at the configured address and port.
    fn with_session(self, task: RobloxStudioTask) -> (r: Self)
        ensures
            self.extended(r, session_pairs(task, self.addr(), self.port())),
    {
        let addr = dotted_string(self.server_addr);
        let port = decimal_string(self.server_port as u64);
        let r = self.with_arg("-task", task.name()).with_arg("-server", addr.as_str()).with_arg(
            "-port",
            port.as_str(),
        ).with_zeros();
        assert(r.arg_list() =~= self.arg_list() + session_pairs(task, self.addr(), self.port()));
        r
    }

    /// The file from which a server session reads its place:
    /// `Roblox/server.rbxl` under the local data directory `local_data`.
    pub fn server_place_file_in(local_data: Option<String>) -> (r: RobloxStudioResult<String>)
        ensures
            local_data is None ==> r matches Err(RobloxStudioError::LocalDataDirMissing),
            local_data matches Some(d) ==> (r matches Ok(f) && is_joined2(
                d@,
                "Roblox"@,
                "server.rbxl"@,
                f@,
            )),
    {
        match local_data {
            Some(d) => {
                proof {
                    lemma_components();
                }
                Ok(join2(d.as_str(), "Roblox", "server.rbxl"))
            },
            None => Err(RobloxStudioError::LocalDataDirMissing),
        }
    }

    /// The file from which a server session reads its place, under the user's
    /// local data directory.
    pub fn server_place_file() -> (r: RobloxStudioResult<String>)
        ensures
            r is Err ==> r matches Err(RobloxStudioError::LocalDataDirMissing),
            r matches Ok(f) ==> exists|d: Seq<char>|
                is_joined2(d, "Roblox"@, "server.rbxl"@, f@),
    {
        let d = data_local_dir();
        let r = Self::server_place_file_in(d);
        proof {
            if r is Ok {
                assert(is_joined2(d->0@, "Roblox"@, "server.rbxl"@, r->Ok_0@));
            }
        }
        r
    }

    /// Starts a server with a place file, once that file has been copied to
    /// `server_place_file()`; `staged` tells how the copy went.
    pub fn start_server(self, staged: StagedPlace) -> (r: RobloxStudioResult<Self>)
        ensures
            staged is Copied ==> (r matches Ok(o) && self.extended(
                o,
                session_pairs(RobloxStudioTask::StartServer, self.addr(), self.port()),
            )),
            staged matches StagedPlace::SourceUnresolved(e) ==> (r matches Err(
                RobloxStudioError::PathCanonicalize(d),
            ) && d@ == e@),
            staged is DataDirMissing ==> r matches Err(RobloxStudioError::LocalDataDirMissing),
            staged matches StagedPlace::CopyFailed(e) ==> (r matches Err(
                RobloxStudioError::LocalDataDirCopyPlace(d),
            ) && d@ == e@),
    {
        match staged {
            StagedPlace::Copied => Ok(self.with_session(RobloxStudioTask::StartServer)),
            StagedPlace::SourceUnresolved(e) => Err(RobloxStudioError::PathCanonicalize(e)),
            StagedPlace::DataDirMissing => Err(RobloxStudioError::LocalDataDirMissing),
            StagedPlace::CopyFailed(e) => Err(RobloxStudioError::LocalDataDirCopyPlace(e)),
        }
    }

    /// Starts a server as `start_server` does, and `num_clients` clients with it.
    pub fn start_server_with_clients(self, staged: StagedPlace, num_clients: u8) -> (r:
        RobloxStudioResult<Self>)
        ensures
            staged is Copied ==> (r matches Ok(o) && self.extended(
                o,
                session_pairs(RobloxStudioTask::StartServer, self.addr(), self.port())
                    + clients_pair(num_clients),
            )),
            staged matches StagedPlace::SourceUnresolved(e) ==> (r matches Err(
                RobloxStudioError::PathCanonicalize(d),
            ) && d@ == e@),
            staged is DataDirMissing ==> r matches Err(RobloxStudioError::LocalDataDirMissing),
            staged matches StagedPlace::CopyFailed(e) ==> (r matches Err(
                RobloxStudioError::LocalDataDirCopyPlace(d),
            ) && d@ == e@),
    {
        let ghost copied = staged is Copied;
        let ghost before = self;
        match self.start_server(staged) {
            Ok(o) => {
                let n = decimal_string(num_clients as u64);
                let r = o.with_arg("-numtestserverplayersuponstartup", n.as_str());
                proof {
                    if copied {
                        assert(r.arg_list() =~= before.arg_list() + (session_pairs(
                            RobloxStudioTask::StartServer,
                            before.addr(),
                            before.port(),
                        ) + clients_pair(num_clients)));
                    }
                }
                Ok(r)
            },
            Err(e) => Err(e),
        }
    }

    /// Starts a client that connects to a server already running at the
    /// configured address and port.
    pub fn start_client(self) -> (r: Self)
        ensures
            self.extended(r, session_pairs(RobloxStudioTask::StartClient, self.addr(), self.port())),
    {
        self.with_session(RobloxStudioTask::StartClient)
    }

    /// The arguments built so far, each key followed by its value.
    pub fn args(&self) -> (r: &Vec<String>)
        ensures
            texts(r@) == self.arg_list(),
    {
        &self.args
    }
}

impl Default for RobloxStudioOpener {
    fn default() -> (r: Self)
        ensures
            r.arg_list() == Seq::<Seq<char>>::empty(),
            r.addr() == default_server_addr(),
            r.port() == DEFAULT_SERVER_PORT,
    {
        Self::new()
    }
}

} // verus!
