//! Sessions of the SFTP server that a phone browses this machine with.
//!
//! One server process runs for each device that asked for it. The session
//! table says which processes to stop and start.
use crate::base::paths;
use crate::base::Error;
use crate::ordered::TextMap;
use crate::plugins;
use crate::plugins::battery;
use crate::text;
use vstd::prelude::*;

verus! {

/// Environment variable overriding the resolved server binary.
pub const SFTP_SERVER_OVERRIDE_ENV: &'static str = "HANDFAST_SFTP_SERVER";

/// Seconds that teardown waits for a process to be reaped.
pub const REAP_TIMEOUT: u64 = 5;

/// Common locations of the server binary, in the order in which they are
/// probed.
pub open spec fn candidate_paths() -> Seq<Seq<char>> {
    seq![
        "/usr/lib/openssh/sftp-server"@,
        "/usr/lib/ssh/sftp-server"@,
        "/usr/libexec/openssh/sftp-server"@,
        "/usr/lib/sftp-server"@,
        "/usr/libexec/sftp-server"@,
        "/usr/sbin/sftp-server"@,
    ]
}

/// Common locations of the server binary.
pub fn candidates() -> (r: Vec<&'static str>)
    ensures
        plugins::literals(r@) == candidate_paths(),
{
    let r: Vec<&'static str> = vec![
        "/usr/lib/openssh/sftp-server",
        "/usr/lib/ssh/sftp-server",
        "/usr/libexec/openssh/sftp-server",
        "/usr/lib/sftp-server",
        "/usr/libexec/sftp-server",
        "/usr/sbin/sftp-server",
    ];
    assert(plugins::literals(r@) =~= candidate_paths());
    r
}

/// The places where a search path leads to the server binary.
pub open spec fn places_in(dirs: Seq<Seq<char>>) -> Seq<Seq<char>> {
    dirs.map_values(|dir: Seq<char>| paths::below(dir, "sftp-server"@))
}

/// The places where the search path `path` leads to the server binary.
pub fn path_places(path: &str) -> (r: Vec<String>)
    ensures
        text::texts(r@) == places_in(text::split(path@, seq![':'])),
{
    let colon: [char; 1] = [':'];
    assert(colon@ =~= seq![':']);
    let dirs = text::split_text(path, &colon);
    let ghost wanted = places_in(text::texts(dirs@));
    let mut out: Vec<String> = Vec::new();
    let mut i: usize = 0;
    assert(text::texts(out@) =~= wanted.take(0));
    while i < dirs.len()
        invariant
            i <= dirs.len(),
            wanted == places_in(text::texts(dirs@)),
            text::texts(out@) == wanted.take(i as int),
        decreases dirs.len() - i,
    {
        let ghost before = text::texts(out@);
        out.push(paths::join(dirs[i].as_str(), "sftp-server"));
        proof {
            assert(text::texts(out@) =~= before.push(wanted[i as int]));
            assert(wanted.take(i + 1) =~= wanted.take(i as int).push(wanted[i as int]));
        }
        i += 1;
    }
    assert(wanted.take(i as int) =~= wanted);
    out
}

/// The first candidate that is present, from position `i` on.
pub open spec fn first_present(present: Seq<bool>, i: int) -> Option<int>
    decreases present.len() - i,
{
    if i < 0 || i >= present.len() {
        None
    } else if present[i] {
        Some(i)
    } else {
        first_present(present, i + 1)
    }
}

/// The server binary: the override where one is set, else the first common
/// location that is present, else what the search path gave.
pub open spec fn located_binary(
    overridden: Option<Seq<char>>,
    present: Seq<bool>,
    from_path: Option<Seq<char>>,
) -> Option<Seq<char>> {
    match overridden {
        Some(o) if o.len() > 0 => Some(o),
        _ => match first_present(present, 0) {
            Some(i) => Some(candidate_paths()[i]),
            None => from_path,
        },
    }
}

/// The message where no server binary is found.
pub open spec fn missing_binary_text() -> Seq<char> {
    "sftp server binary not found; install the package providing sftp-server (e.g. openssh-sftp-server) searched at ["@
        + text::joined(candidate_paths(), ", "@) + "], or point $"@ + SFTP_SERVER_OVERRIDE_ENV@
        + " at the binary"@
}

fn missing_binary() -> (r: Error)
    ensures
        match r {
            Error::Other(m) => m@ == missing_binary_text(),
            _ => false,
        },
{
    let places = candidates();
    let mut listed: Vec<String> = Vec::new();
    let mut i: usize = 0;
    while i < places.len()
        invariant
            i <= places.len(),
            text::texts(listed@) == plugins::literals(places@).take(i as int),
        decreases places.len() - i,
    {
        let ghost before = text::texts(listed@);
        listed.push(places[i].to_owned());
        proof {
            let l = plugins::literals(places@);
            assert(l[i as int] == places@[i as int]@);
            assert(text::texts(listed@) =~= before.push(l[i as int]));
            assert(l.take(i + 1) =~= l.take(i as int).push(l[i as int]));
        }
        i += 1;
    }
    assert(plugins::literals(places@).take(i as int) =~= plugins::literals(places@));
    Error::Other(
        "sftp server binary not found; install the package providing sftp-server (e.g. openssh-sftp-server) searched at [".to_owned().concat(
            text::join(&listed, ", ").as_str(),
        ).concat("], or point $").concat(SFTP_SERVER_OVERRIDE_ENV).concat(" at the binary"),
    )
}

/// Resolves the server binary. `present` tells of the common locations, in
/// their order, which of them hold a file; `from_path` is the first file that
/// the search path gave.
pub fn locate_server_binary(
    overridden: Option<String>,
    present: &Vec<bool>,
    from_path: Option<String>,
) -> (r: Result<String, Error>)
    requires
        present@.len() == candidate_paths().len(),
    ensures
        match (
            r,
            located_binary(
                battery::optional_text(overridden),
                present@,
                battery::optional_text(from_path),
            ),
        ) {
            (Ok(path), Some(p)) => path@ == p,
            (Err(Error::Other(m)), None) => m@ == missing_binary_text(),
            _ => false,
        },
{
    if let Some(path) = overridden {
        if !path.as_str().is_empty() {
            return Ok(path);
        }
    }
    let places = candidates();
    let mut i: usize = 0;
    while i < present.len()
        invariant
            i <= present.len(),
            present@.len() == candidate_paths().len(),
            plugins::literals(places@) == candidate_paths(),
            first_present(present@, 0) == first_present(present@, i as int),
            match battery::optional_text(overridden) {
                Some(o) => o.len() == 0,
                None => true,
            },
        decreases present.len() - i,
    {
        if present[i] {
            assert(plugins::literals(places@)[i as int] == places@[i as int]@);
            return Ok(places[i].to_owned());
        }
        i += 1;
    }
    match from_path {
        Some(path) => Ok(path),
        None => Err(missing_binary()),
    }
}

/// The directory to export: `HOME`, else `USERPROFILE`; an empty one is none.
pub open spec fn exported(home: Option<Seq<char>>, profile: Option<Seq<char>>) -> Option<Seq<char>> {
    match (home, profile) {
        (Some(h), _) if h.len() > 0 => Some(h),
        (_, Some(p)) if p.len() > 0 => Some(p),
        _ => None,
    }
}

/// The directory to export.
pub fn home_dir(home: Option<String>, profile: Option<String>) -> (r: Option<String>)
    ensures
        battery::optional_text(r) == exported(
            battery::optional_text(home),
            battery::optional_text(profile),
        ),
{
    if let Some(h) = home {
        if !h.as_str().is_empty() {
            return Some(h);
        }
    }
    if let Some(p) = profile {
        if !p.as_str().is_empty() {
            return Some(p);
        }
    }
    None
}

/// How the start of a server process went.
#[derive(Debug, Clone, PartialEq, Eq)]
pub enum Launch {
    /// The process runs.
    Running,
    /// The process could not be started.
    SpawnFailed(String),
    /// The process ended at once, with this status.
    Exited(String),
    /// The process could not be looked at.
    ProbeFailed(String),
}

/// The sessions once room is made for a new one: a device has one at most.
pub open spec fn cleared(sessions: Map<Seq<char>, u16>, device_id: Seq<char>, port: u16) -> Map<
    Seq<char>,
    u16,
> {
    if port == 0 {
        sessions
    } else {
        sessions.remove(device_id)
    }
}

/// The sessions after the launch of a server.
pub open spec fn launched(
    sessions: Map<Seq<char>, u16>,
    device_id: Seq<char>,
    port: u16,
    launch: Launch,
) -> Map<Seq<char>, u16> {
    match launch {
        Launch::Running => sessions.insert(device_id, port),
        _ => sessions,
    }
}

/// A device whose server runs has a session at the port of that server, one
/// whose server does not run has none, and the sessions of other devices stay.
pub proof fn law_sessions_stand_for_running_servers(
    sessions: Map<Seq<char>, u16>,
    device_id: Seq<char>,
    port: u16,
    launch: Launch,
    other: Seq<char>,
)
    requires
        port != 0,
        other != device_id,
    ensures
        ({
            let after = launched(cleared(sessions, device_id, port), device_id, port, launch);
            &&& after.contains_key(device_id) <==> launch is Running
            &&& launch is Running ==> after[device_id] == port
            &&& after.contains_key(other) <==> sessions.contains_key(other)
            &&& sessions.contains_key(other) ==> after[other] == sessions[other]
            &&& cleared(sessions, device_id, 0) == sessions
        }),
{
}

/// The message where a session is asked for before its port is bound.
pub const PORT_ZERO: &'static str =
    "refusing to start sftp session on port 0; the listener must bind first";

/// Owns the sessions.
#[derive(Debug)]
pub struct SftpManager {
    active_sessions: TextMap<u16>,
}

impl SftpManager {
    /// The port of each active session.
    pub closed spec fn sessions(&self) -> Map<Seq<char>, u16> {
        self.active_sessions@
    }

    /// A table without sessions.
    pub fn new() -> (r: Self)
        ensures
            r.sessions() == Map::<Seq<char>, u16>::empty(),
    {
        SftpManager { active_sessions: TextMap::new() }
    }

    /// Makes room for a session. An already-running session of the device is
    /// taken out of the table; the result tells whether its process is to be
    /// stopped.
    pub fn begin_session(&mut self, device_id: &str, port: u16) -> (r: Result<bool, Error>)
        ensures
            final(self).sessions() == cleared(old(self).sessions(), device_id@, port),
            if port == 0 {
                match r {
                    Err(Error::Other(m)) => m@ == PORT_ZERO@,
                    _ => false,
                }
            } else {
                r == Ok::<bool, Error>(old(self).sessions().contains_key(device_id@))
            },
    {
        if port == 0 {
            return Err(Error::Other(PORT_ZERO.to_owned()));
        }
        let replaced = self.active_sessions.remove(device_id);
        Ok(replaced.is_some())
    }

    /// Records the session whose process was launched.
    pub fn start_session(
        &mut self,
        device_id: &str,
        port: u16,
        binary: &str,
        launch: &Launch,
    ) -> (r: Result<(), Error>)
        ensures
            final(self).sessions() == launched(old(self).sessions(), device_id@, port, *launch),
            match (r, *launch) {
                (Ok(()), Launch::Running) => true,
                (Err(Error::Other(m)), Launch::SpawnFailed(why)) => m@ == "sftp server '"@ + binary@
                    + "' failed to spawn: "@ + why@,
                (Err(Error::Other(m)), Launch::Exited(status)) => m@ == "sftp server '"@ + binary@
                    + "' exited immediately ("@ + status@ + ")"@,
                (Err(Error::Io(m)), Launch::ProbeFailed(why)) => m@ == why@,
                _ => false,
            },
    {
        match launch {
            Launch::Running => {
                let _ = self.active_sessions.insert(device_id.to_owned(), port);
                Ok(())
            },
            Launch::SpawnFailed(why) => Err(
                Error::Other(
                    "sftp server '".to_owned().concat(binary).concat("' failed to spawn: ").concat(
                        why.as_str(),
                    ),
                ),
            ),
            Launch::Exited(status) => Err(
                Error::Other(
                    "sftp server '".to_owned().concat(binary).concat(
                        "' exited immediately (",
                    ).concat(status.as_str()).concat(")"),
                ),
            ),
            Launch::ProbeFailed(why) => Err(Error::Io(why.clone())),
        }
    }

    /// Ends the session of a device; tells whether there was one, whose
    /// process is then to be stopped.
    pub fn stop_session(&mut self, device_id: &str) -> (r: bool)
        ensures
            final(self).sessions() == old(self).sessions().remove(device_id@),
            r == old(self).sessions().contains_key(device_id@),
    {
        let stopped = self.active_sessions.remove(device_id);
        stopped.is_some()
    }

    /// Whether a session of the device is active.
    pub fn is_active(&self, device_id: &str) -> (r: bool)
        ensures
            r == self.sessions().contains_key(device_id@),
    {
        self.active_sessions.contains_key(device_id)
    }

    /// The port of the device's session, if one is active.
    pub fn session_port(&self, device_id: &str) -> (r: Option<u16>)
        ensures
            r == if self.sessions().contains_key(device_id@) {
                Some(self.sessions()[device_id@])
            } else {
                None
            },
    {
        match self.active_sessions.get(device_id) {
            Some(port) => Some(*port),
            None => None,
        }
    }
}

impl Default for SftpManager {
    fn default() -> (r: Self)
        ensures
            r.sessions() == Map::<Seq<char>, u16>::empty(),
    {
        SftpManager::new()
    }
}

/// The server binary is the one that the user named; without that, the first
/// of the common places that holds one; without that, what the search path
/// gave. Where there is none of these, there is no binary.
pub proof fn law_binaries_are_found_in_order(
    named: Seq<char>,
    present: Seq<bool>,
    i: int,
    from_path: Option<Seq<char>>,
)
    requires
        present.len() == candidate_paths().len(),
        0 <= i <= present.len(),
        forall|j: int| 0 <= j < i ==> !#[trigger] present[j],
        i < present.len() ==> present[i],
    ensures
        named.len() > 0 ==> located_binary(Some(named), present, from_path) == Some(named),
        i < present.len() ==> located_binary(None, present, from_path) == Some(
            candidate_paths()[i],
        ) && located_binary(Some(Seq::empty()), present, from_path) == Some(candidate_paths()[i]),
        i == present.len() ==> located_binary(None, present, from_path) == from_path
            && located_binary(Some(Seq::empty()), present, from_path) == from_path,
{
    lemma_first_present(present, 0, i);
}

proof fn lemma_first_present(present: Seq<bool>, from: int, i: int)
    requires
        0 <= from <= i <= present.len(),
        forall|j: int| from <= j < i ==> !#[trigger] present[j],
        i < present.len() ==> present[i],
    ensures
        first_present(present, from) == if i < present.len() {
            Some(i)
        } else {
            None
        },
    decreases i - from,
{
    if from < i {
        assert(!present[from]);
        lemma_first_present(present, from + 1, i);
    }
}

/// What is exported is the home directory, and the profile directory where no
/// home is set; an empty one does not count.
pub proof fn law_the_home_directory_is_exported(h: Seq<char>, p: Seq<char>)
    requires
        h.len() > 0,
        p.len() > 0,
    ensures
        exported(Some(h), Some(p)) == Some(h),
        exported(Some(h), None) == Some(h),
        exported(None, Some(p)) == Some(p),
        exported(Some(Seq::empty()), Some(p)) == Some(p),
        exported(None, None) is None,
        exported(Some(Seq::empty()), None) is None,
{
}

} // verus!
