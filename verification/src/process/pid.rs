//! The run directory: one `<pid>.json` record per running instance, beside
//! its status socket `<pid>.sock` and its log `<pid>.log`.

use vstd::prelude::*;
use crate::path::{home_dir, joined, join_path, stem_and_extension, split_extension};
use crate::process::error::DaemonError;
use crate::text::{decimal, u64_to_decimal, parse_unsigned, parse_unsigned_str, trim, trim_str, int_error_message, IntErrorKind};

verus! {

/// What an instance records about itself: its process, its transport and,
/// for HTTP, its port.
#[derive(Debug, Clone, PartialEq, Eq)]
pub struct InstanceInfo {
    pub pid: u32,
    pub transport: String,
    pub port: Option<u16>,
}

/// The run directory under a home directory: `<home>/.mcp-gateway/run`.
pub open spec fn run_dir_under(home: Seq<char>) -> Seq<char> {
    joined(joined(home, ".mcp-gateway"@), "run"@)
}

/// Returns the run directory under `home`.
pub fn run_dir_in(home: &str) -> (d: String)
    ensures
        d@ == run_dir_under(home@),
{
    let base = join_path(home, ".mcp-gateway");
    join_path(base.as_str(), "run")
}

/// The run directory under the user's home directory, when it is known.
pub fn default_run_dir() -> (d: Option<String>)
    ensures
        d matches Some(dir) ==> exists|home: Seq<char>| dir@ == #[trigger] run_dir_under(home),
{
    match home_dir() {
        Some(h) => Some(run_dir_in(h.as_str())),
        None => None,
    }
}

/// The message with which a missing home directory is reported.
pub open spec fn no_home_message() -> Seq<char> {
    "cannot determine home directory"@
}

/// The run directory to create, or the failure for an unknown home directory.
pub fn ensure_run_dir_at(run_dir: Option<String>) -> (r: Result<String, DaemonError>)
    ensures
        match run_dir {
            Some(d) => r == Ok::<String, DaemonError>(d),
            None => r matches Err(DaemonError::PidWrite { message }) && message@ == no_home_message(),
        },
{
    match run_dir {
        Some(d) => Ok(d),
        None => Err(DaemonError::PidWrite { message: String::from_str("cannot determine home directory") }),
    }
}

/// The run directory under the user's home directory, or the failure when
/// the home directory is unknown.
pub fn ensure_run_dir() -> (r: Result<String, DaemonError>)
    ensures
        r matches Ok(dir) ==> exists|home: Seq<char>| dir@ == #[trigger] run_dir_under(home),
        r matches Err(e) ==> e matches DaemonError::PidWrite { message } && message@ == no_home_message(),
{
    ensure_run_dir_at(default_run_dir())
}

/// The failure reported when the run directory cannot be created.
pub fn run_dir_create_error(reason: &str) -> (e: DaemonError)
    ensures
        e matches DaemonError::PidWrite { message } && message@ == "cannot create run directory: "@ + reason@,
{
    let mut m = String::from_str("cannot create run directory: ");
    m.append(reason);
    DaemonError::PidWrite { message: m }
}

/// The file `<run_dir>/<pid><suffix>`.
pub open spec fn pid_file(run_dir: Seq<char>, pid: u32, suffix: Seq<char>) -> Seq<char> {
    joined(run_dir, decimal(pid as nat) + suffix)
}

fn pid_file_path(run_dir: &str, pid: u32, suffix: &str) -> (p: String)
    ensures
        p@ == pid_file(run_dir@, pid, suffix@),
{
    let mut name = u64_to_decimal(pid as u64);
    name.append(suffix);
    join_path(run_dir, name.as_str())
}

/// The record of instance `pid`: `<run_dir>/<pid>.json`.
pub fn instance_path(run_dir: &str, pid: u32) -> (p: String)
    ensures
        p@ == pid_file(run_dir@, pid, ".json"@),
{
    pid_file_path(run_dir, pid, ".json")
}

/// The status socket of instance `pid`: `<run_dir>/<pid>.sock`.
pub fn sock_path(run_dir: &str, pid: u32) -> (p: String)
    ensures
        p@ == pid_file(run_dir@, pid, ".sock"@),
{
    pid_file_path(run_dir, pid, ".sock")
}

/// The log of instance `pid`: `<run_dir>/<pid>.log`.
pub fn log_path(run_dir: &str, pid: u32) -> (p: String)
    ensures
        p@ == pid_file(run_dir@, pid, ".log"@),
{
    pid_file_path(run_dir, pid, ".log")
}

/// The files removed when an instance is gone: its record and its socket
/// (the log stays, for a look after the fact).
pub open spec fn instance_files(run_dir: Seq<char>, pid: u32) -> Seq<Seq<char>> {
    seq![pid_file(run_dir, pid, ".json"@), pid_file(run_dir, pid, ".sock"@)]
}

/// Returns the files removed when instance `pid` is gone.
pub fn instance_files_of(run_dir: &str, pid: u32) -> (v: Vec<String>)
    ensures
        v@.len() == 2,
        v@[0]@ == instance_files(run_dir@, pid)[0],
        v@[1]@ == instance_files(run_dir@, pid)[1],
{
    let mut v = Vec::new();
    v.push(instance_path(run_dir, pid));
    v.push(sock_path(run_dir, pid));
    v
}

/// The instance records among the run directory's file names, each with the
/// process it names, in order.
pub open spec fn record_entries(names: Seq<String>) -> Seq<(Seq<char>, u32)>
    decreases names.len(),
{
    if names.len() == 0 {
        Seq::empty()
    } else {
        let rest = record_entries(names.drop_last());
        match recorded_pid(names.last()@) {
            Some(pid) => rest.push((names.last()@, pid)),
            None => rest,
        }
    }
}

/// Names and processes as text and numbers.
pub open spec fn entry_views(v: Seq<(String, u32)>) -> Seq<(Seq<char>, u32)> {
    v.map_values(|e: (String, u32)| (e.0@, e.1))
}

/// Returns the instance records among `names`, each with its process.
pub fn record_entries_of(names: &Vec<String>) -> (v: Vec<(String, u32)>)
    ensures
        entry_views(v@) == record_entries(names@),
{
    let mut v: Vec<(String, u32)> = Vec::new();
    let n = names.len();
    let mut i: usize = 0;
    while i < n
        invariant
            i <= n,
            n == names@.len(),
            entry_views(v@) == record_entries(names@.take(i as int)),
        decreases n - i,
    {
        assert(names@.take(i + 1).drop_last() =~= names@.take(i as int));
        assert(names@.take(i + 1).last() == names@[i as int]);
        match instance_file_pid(names[i].as_str()) {
            Some(pid) => {
                let ghost before = v@;
                v.push((names[i].clone(), pid));
                assert(entry_views(v@) =~= entry_views(before).push((names@[i as int]@, pid)));
            },
            None => {},
        }
        i = i + 1;
    }
    assert(names@.take(n as int) =~= names@);
    v
}

/// The records of the processes found alive, as paths in the run directory,
/// in the order they were probed.
pub open spec fn live_records(run_dir: Seq<char>, found: Seq<(String, u32, bool)>) -> Seq<Seq<char>>
    decreases found.len(),
{
    if found.len() == 0 {
        Seq::empty()
    } else {
        let rest = live_records(run_dir, found.drop_last());
        let (name, _, alive) = found.last();
        if alive { rest.push(joined(run_dir, name@)) } else { rest }
    }
}

/// The files of the instances whose process is gone: the record as it was
/// listed, then the socket of its process, for each in the order they were
/// probed.
pub open spec fn stale_files(run_dir: Seq<char>, found: Seq<(String, u32, bool)>) -> Seq<Seq<char>>
    decreases found.len(),
{
    if found.len() == 0 {
        Seq::empty()
    } else {
        let rest = stale_files(run_dir, found.drop_last());
        let (name, pid, alive) = found.last();
        if alive { rest } else { rest + seq![joined(run_dir, name@), pid_file(run_dir, pid, ".sock"@)] }
    }
}

/// Parts the probed instance records of the run directory (each listed name
/// with its process and whether that is alive): the records of live
/// processes, which are read, and the files of the gone ones, which are
/// removed (their logs stay).
pub fn classify_instances(run_dir: &str, found: &Vec<(String, u32, bool)>) -> (r: (Vec<String>, Vec<String>))
    ensures
        r.0@.map_values(|p: String| p@) == live_records(run_dir@, found@),
        r.1@.map_values(|p: String| p@) == stale_files(run_dir@, found@),
{
    let mut live: Vec<String> = Vec::new();
    let mut stale: Vec<String> = Vec::new();
    let n = found.len();
    let mut i: usize = 0;
    while i < n
        invariant
            i <= n,
            n == found@.len(),
            live@.map_values(|p: String| p@) == live_records(run_dir@, found@.take(i as int)),
            stale@.map_values(|p: String| p@) == stale_files(run_dir@, found@.take(i as int)),
        decreases n - i,
    {
        assert(found@.take(i + 1).drop_last() =~= found@.take(i as int));
        assert(found@.take(i + 1).last() == found@[i as int]);
        let entry = &found[i];
        let record = join_path(run_dir, entry.0.as_str());
        if entry.2 {
            let ghost before = live@;
            live.push(record);
            assert(live@.map_values(|p: String| p@) =~= before.map_values(|p: String| p@).push(joined(run_dir@, entry.0@)));
        } else {
            let ghost before = stale@;
            let sock = sock_path(run_dir, entry.1);
            stale.push(record);
            stale.push(sock);
            assert(stale@.map_values(|p: String| p@)
                =~= before.map_values(|p: String| p@) + seq![joined(run_dir@, entry.0@), pid_file(run_dir@, entry.1, ".sock"@)]);
        }
        i = i + 1;
    }
    assert(found@.take(n as int) =~= found@);
    (live, stale)
}

/// Whether `info` is an instance meant by `port`: the one on that port, or
/// any instance when no port is given.
pub open spec fn on_port(info: InstanceInfo, port: Option<u16>) -> bool {
    match port {
        Some(p) => info.port == Some(p),
        None => true,
    }
}

/// The message for a choice that several running instances fit.
pub open spec fn several_instances_message() -> Seq<char> {
    "several instances are running, choose one with --port"@
}

/// The one instance meant (the one on `port`, or the only one running), as
/// its place in `instances`: none fitting is not running, several fitting
/// ask the user to choose.
pub fn choose_instance(instances: &Vec<InstanceInfo>, port: Option<u16>) -> (r: Result<usize, DaemonError>)
    ensures
        match r {
            Ok(i) => i < instances@.len() && on_port(instances@[i as int], port)
                && forall|j: int| 0 <= j < instances@.len() && j != i ==> !on_port(#[trigger] instances@[j], port),
            Err(DaemonError::NotRunning) => forall|j: int| 0 <= j < instances@.len() ==> !on_port(#[trigger] instances@[j], port),
            Err(DaemonError::UserInput(m)) => m@ == several_instances_message()
                && exists|j: int, k: int| 0 <= j < k < instances@.len()
                    && on_port(#[trigger] instances@[j], port) && on_port(#[trigger] instances@[k], port),
            Err(_) => false,
        },
{
    let n = instances.len();
    let mut found: Option<usize> = None;
    let mut i: usize = 0;
    while i < n
        invariant
            i <= n,
            n == instances@.len(),
            match found {
                Some(f) => f < i && on_port(instances@[f as int], port)
                    && forall|j: int| 0 <= j < i && j != f ==> !on_port(#[trigger] instances@[j], port),
                None => forall|j: int| 0 <= j < i ==> !on_port(#[trigger] instances@[j], port),
            },
        decreases n - i,
    {
        let fits = match port {
            Some(p) => instances[i].port == Some(p),
            None => true,
        };
        if fits {
            match found {
                Some(f) => {
                    assert(on_port(instances@[f as int], port) && on_port(instances@[i as int], port));
                    return Err(DaemonError::UserInput(String::from_str("several instances are running, choose one with --port")));
                },
                None => {
                    found = Some(i);
                },
            }
        }
        i = i + 1;
    }
    match found {
        Some(f) => Ok(f),
        None => Err(DaemonError::NotRunning),
    }
}

/// The JSON text of a record: `{"pid":P,"transport":"T"}`, with `,"port":N`
/// before the closing brace when there is a port.
pub open spec fn instance_json_text(info: InstanceInfo) -> Seq<char> {
    let head = "{\"pid\":"@ + decimal(info.pid as nat) + ",\"transport\":\""@ + info.transport@ + "\""@;
    match info.port {
        Some(port) => head + ",\"port\":"@ + decimal(port as nat) + "}"@,
        None => head + "}"@,
    }
}

impl InstanceInfo {
    /// The JSON text written to the instance's record.
    pub fn to_json(&self) -> (j: String)
        ensures
            j@ == instance_json_text(*self),
    {
        let mut j = String::from_str("{\"pid\":");
        j.append(u64_to_decimal(self.pid as u64).as_str());
        j.append(",\"transport\":\"");
        j.append(self.transport.as_str());
        j.append("\"");
        match self.port {
            Some(port) => {
                j.append(",\"port\":");
                j.append(u64_to_decimal(port as u64).as_str());
                j.append("}");
            },
            None => {
                j.append("}");
            },
        }
        j
    }
}

/// The instance a file of the run directory records: a name `<pid>.json`
/// whose stem reads as a `u32`.
pub open spec fn recorded_pid(name: Seq<char>) -> Option<u32> {
    let (stem, ext) = stem_and_extension(name);
    if ext == Some("json"@) {
        match parse_unsigned(stem, u32::MAX as nat) {
            Ok(v) => Some(v as u32),
            Err(_) => None,
        }
    } else {
        None
    }
}

/// Returns the instance that the run-directory file `name` records, if any.
pub fn instance_file_pid(name: &str) -> (r: Option<u32>)
    ensures
        r == recorded_pid(name@),
{
    let (stem, ext) = split_extension(name);
    match ext {
        Some(e) => {
            proof { reveal_strlit("json"); }
            if e.as_str().unicode_len() == 4 && e.as_str().get_char(0) == 'j' && e.as_str().get_char(1) == 's'
                && e.as_str().get_char(2) == 'o' && e.as_str().get_char(3) == 'n' {
                assert(e@ =~= "json"@);
                match parse_unsigned_str(stem.as_str(), 0xffff_ffff) {
                    Ok(v) => Some(v as u32),
                    Err(_) => None,
                }
            } else {
                assert(e@ != "json"@);
                None
            }
        },
        None => None,
    }
}

/// Whether `pid` can name a process that a signal can reach: positive and
/// within the range of `pid_t`.
pub open spec fn valid_pid(pid: u32) -> bool {
    0 < pid && pid <= i32::MAX
}

/// Whether `pid` can name a process; others are never probed or signalled.
pub fn is_valid_pid(pid: u32) -> (b: bool)
    ensures
        b == valid_pid(pid),
{
    pid > 0 && pid <= 0x7fff_ffff
}

/// Whether `s` lists instances in increasing order of process.
pub open spec fn sorted_by_pid(s: Seq<InstanceInfo>) -> bool {
    forall|i: int, j: int| 0 <= i < j < s.len() ==> s[i].pid <= s[j].pid
}

/// The instances of `s` that name process `pid`, in their order.
pub open spec fn with_pid(s: Seq<InstanceInfo>, pid: u32) -> Seq<InstanceInfo> {
    s.filter(|i: InstanceInfo| i.pid == pid)
}

/// A sequence without any instance of `pid` keeps none of them.
proof fn lemma_with_pid_none(s: Seq<InstanceInfo>, pid: u32)
    requires
        forall|k: int| 0 <= k < s.len() ==> #[trigger] s[k].pid != pid,
    ensures
        with_pid(s, pid) == Seq::<InstanceInfo>::empty(),
    decreases s.len(),
{
    if s.len() > 0 {
        lemma_with_pid_none(s.drop_last(), pid);
        assert(s =~= s.drop_last().push(s.last()));
        s.drop_last().lemma_filter_push(s.last(), |i: InstanceInfo| i.pid == pid);
    } else {
        assert(with_pid(s, pid) =~= Seq::<InstanceInfo>::empty()) by { reveal(Seq::filter); }
    }
}

/// Inserting `x` before every instance whose process is not below its own
/// puts it first among the instances of its process.
proof fn lemma_with_pid_insert(r: Seq<InstanceInfo>, j: int, x: InstanceInfo, pid: u32)
    requires
        0 <= j <= r.len(),
        forall|k: int| 0 <= k < j ==> #[trigger] r[k].pid < x.pid,
    ensures
        with_pid(r.insert(j, x), pid) == if x.pid == pid { seq![x] + with_pid(r, pid) } else { with_pid(r, pid) },
{
    let f = |i: InstanceInfo| i.pid == pid;
    let a = r.take(j);
    let b = r.skip(j);
    assert(r.insert(j, x) =~= a + (seq![x] + b));
    assert(r =~= a + b);
    Seq::filter_distributes_over_add(a, seq![x] + b, f);
    Seq::filter_distributes_over_add(a, b, f);
    b.lemma_filter_prepend(x, f);
    if x.pid == pid {
        assert forall|k: int| 0 <= k < a.len() implies #[trigger] a[k].pid != pid by {
            assert(a[k] == r[k]);
        }
        lemma_with_pid_none(a, pid);
        assert(with_pid(r.insert(j, x), pid) =~= seq![x] + with_pid(r, pid));
    } else {
        assert(with_pid(r.insert(j, x), pid) =~= with_pid(r, pid));
    }
}

/// Orders instances by process, as the listing shows them; instances with the
/// same process keep their order.
pub fn sort_instances(v: Vec<InstanceInfo>) -> (r: Vec<InstanceInfo>)
    ensures
        sorted_by_pid(r@),
        r@.to_multiset() == v@.to_multiset(),
        forall|pid: u32| #[trigger] with_pid(r@, pid) == with_pid(v@, pid),
{
    let mut v = v;
    let ghost orig = v@;
    let mut r: Vec<InstanceInfo> = Vec::new();
    proof {
        broadcast use vstd::multiset::group_multiset_axioms;
        vstd::seq_lib::to_multiset_len(r@);
        assert(r@.to_multiset().len() == 0);
        assert(r@.to_multiset() =~= vstd::multiset::Multiset::empty());
        assert(r@.to_multiset().add(v@.to_multiset()) =~= orig.to_multiset());
        assert forall|pid: u32| #[trigger] with_pid(orig, pid) == with_pid(v@, pid) + with_pid(r@, pid) by {
            lemma_with_pid_none(r@, pid);
            assert(with_pid(v@, pid) + with_pid(r@, pid) =~= with_pid(v@, pid));
        }
    }
    while v.len() > 0
        invariant
            sorted_by_pid(r@),
            r@.to_multiset().add(v@.to_multiset()) == orig.to_multiset(),
            forall|pid: u32| #[trigger] with_pid(orig, pid) == with_pid(v@, pid) + with_pid(r@, pid),
        decreases v@.len(),
    {
        let ghost v_before = v@;
        let x = v.pop().unwrap();
        proof {
            assert(v_before == v@.push(x));
            vstd::seq_lib::to_multiset_build(v@, x);
        }
        let mut j: usize = 0;
        while j < r.len() && r[j].pid < x.pid
            invariant
                j <= r@.len(),
                forall|k: int| 0 <= k < j ==> r@[k].pid < x.pid,
            decreases r@.len() - j,
        {
            j = j + 1;
        }
        let ghost r_before = r@;
        r.insert(j, x);
        proof {
            vstd::seq_lib::to_multiset_insert(r_before, j as int, x);
            assert(r@ == r_before.insert(j as int, x));
            assert forall|a: int, b: int| 0 <= a < b < r@.len() implies r@[a].pid <= r@[b].pid by {
                if b < j {
                } else if b == j {
                } else if a < j {
                    assert(r@[b] == r_before[b - 1]);
                } else if a == j {
                    assert(r@[b] == r_before[b - 1]);
                    assert(j < r_before.len());
                    assert(r_before[j as int].pid >= x.pid);
                } else {
                    assert(r@[a] == r_before[a - 1]);
                    assert(r@[b] == r_before[b - 1]);
                }
            }
            assert(r@.to_multiset().add(v@.to_multiset()) =~= orig.to_multiset());
            assert forall|pid: u32| #[trigger] with_pid(orig, pid) == with_pid(v@, pid) + with_pid(r@, pid) by {
                lemma_with_pid_insert(r_before, j as int, x, pid);
                v@.lemma_filter_push(x, |i: InstanceInfo| i.pid == pid);
                if x.pid == pid {
                    assert(with_pid(v_before, pid) + with_pid(r_before, pid)
                        =~= with_pid(v@, pid) + (seq![x] + with_pid(r_before, pid)));
                } else {
                    assert(with_pid(v_before, pid) == with_pid(v@, pid));
                }
            }
        }
    }
    proof {
        broadcast use vstd::multiset::group_multiset_axioms;
        vstd::seq_lib::to_multiset_len(v@);
        assert(v@.to_multiset().len() == 0);
        assert(v@.to_multiset() =~= vstd::multiset::Multiset::empty());
        assert(r@.to_multiset() =~= r@.to_multiset().add(v@.to_multiset()));
        assert forall|pid: u32| #[trigger] with_pid(r@, pid) == with_pid(orig, pid) by {
            lemma_with_pid_none(v@, pid);
            assert(with_pid(v@, pid) + with_pid(r@, pid) =~= with_pid(r@, pid));
        }
    }
    r
}

/// What a PID record holds, surrounding white space aside.
pub open spec fn pid_in(contents: Seq<char>) -> Result<u32, IntErrorKind> {
    match parse_unsigned(trim(contents), u32::MAX as nat) {
        Ok(v) => Ok(v as u32),
        Err(k) => Err(k),
    }
}

/// Reads the process number a PID record holds.
pub fn pid_from_contents(contents: &str) -> (r: Result<u32, DaemonError>)
    ensures
        match pid_in(contents@) {
            Ok(v) => r == Ok::<u32, DaemonError>(v),
            Err(k) => r matches Err(DaemonError::PidRead { message }) && message@ == int_error_message(k),
        },
{
    match parse_unsigned_str(trim_str(contents), 0xffff_ffff) {
        Ok(v) => Ok(v as u32),
        Err(k) => Err(DaemonError::PidRead { message: k.message() }),
    }
}

/// The arguments of `kill` that send `signal` to `pid`: `-<signal>` and the
/// process number.
pub open spec fn kill_args(pid: u32, signal: Seq<char>) -> Seq<Seq<char>> {
    seq!["-"@ + signal, decimal(pid as nat)]
}

/// The message for a process number that no signal is sent to.
pub open spec fn invalid_pid_message(pid: u32) -> Seq<char> {
    "invalid PID "@ + decimal(pid as nat)
}

/// The arguments of `kill` for sending `signal` to `pid`, or the failure for a
/// process number that is not valid.
pub fn signal_args(pid: u32, signal: &str) -> (r: Result<Vec<String>, DaemonError>)
    ensures
        valid_pid(pid) ==> (r matches Ok(v) && v@.len() == 2 && v@[0]@ == kill_args(pid, signal@)[0]
            && v@[1]@ == kill_args(pid, signal@)[1]),
        !valid_pid(pid) ==> (r matches Err(DaemonError::SignalFailed { message }) && message@ == invalid_pid_message(pid)),
{
    if !is_valid_pid(pid) {
        let mut m = String::from_str("invalid PID ");
        m.append(u64_to_decimal(pid as u64).as_str());
        return Err(DaemonError::SignalFailed { message: m });
    }
    let mut flag = String::from_str("-");
    flag.append(signal);
    let mut v = Vec::new();
    v.push(flag);
    v.push(u64_to_decimal(pid as u64));
    Ok(v)
}

/// The message for a `kill` that did not succeed.
pub open spec fn kill_failed_message(pid: u32, signal: Seq<char>) -> Seq<char> {
    "kill -"@ + signal + " "@ + decimal(pid as nat) + " failed"@
}

/// What sending `signal` to `pid` comes to, given whether `kill` succeeded.
pub fn signal_outcome(pid: u32, signal: &str, success: bool) -> (r: Result<(), DaemonError>)
    ensures
        success ==> r is Ok,
        !success ==> (r matches Err(DaemonError::SignalFailed { message }) && message@ == kill_failed_message(pid, signal@)),
{
    if success {
        Ok(())
    } else {
        let mut m = String::from_str("kill -");
        m.append(signal);
        m.append(" ");
        m.append(u64_to_decimal(pid as u64).as_str());
        m.append(" failed");
        Err(DaemonError::SignalFailed { message: m })
    }
}

/// What a PID record says of a running gateway: the process it names if that
/// process is alive, and whether the record is stale and goes.
pub struct RecordCheck {
    pub running: Option<u32>,
    pub remove_record: bool,
}

/// Judges a PID record (`None` when there is none) given whether the process
/// it names is alive.
pub fn judge_record(recorded: Option<u32>, alive: bool) -> (c: RecordCheck)
    ensures
        c.running == (if alive { recorded } else { None::<u32> }),
        c.remove_record == (recorded is Some && !alive),
{
    match recorded {
        Some(pid) => if alive {
            RecordCheck { running: Some(pid), remove_record: false }
        } else {
            RecordCheck { running: None, remove_record: true }
        },
        None => RecordCheck { running: None, remove_record: false },
    }
}

/// The record written for an instance is found again by its process number
/// when the run directory is listed, and what a PID record holds is read
/// back as the same number.
pub proof fn law_instance_file_roundtrip(pid: u32)
    ensures
        recorded_pid(decimal(pid as nat) + ".json"@) == Some(pid),
        pid_in(decimal(pid as nat)) == Ok::<u32, IntErrorKind>(pid),
{
    let d = decimal(pid as nat);
    let name = d + ".json"@;
    reveal_strlit(".json");
    crate::text::lemma_decimal_digits(pid as nat);
    crate::text::lemma_trim_decimal(pid as nat);
    crate::text::lemma_parse_decimal(pid as nat, u32::MAX as nat);
    crate::path::lemma_last_index_of(name, '.');
    assert(name[d.len() as int] == '.');
    assert forall|j: int| d.len() < j < name.len() implies name[j] != '.' by {}
    match crate::path::last_index_of(name, '.') {
        Some(i) => {
            if i < d.len() {
                assert(name[i] == d[i]);
            }
            assert(i == d.len());
        },
        None => {},
    }
    assert(name.take(d.len() as int) =~= d);
    reveal_strlit("json");
    reveal_strlit(".json");
    assert(name.skip(d.len() as int + 1) =~= "json"@);
}

/// The directory part that `joined` puts before a relative name.
spec fn join_prefix(dir: Seq<char>) -> Seq<char> {
    if dir.len() == 0 {
        Seq::empty()
    } else if dir.last() == '/' {
        dir
    } else {
        dir + "/"@
    }
}

/// A per-instance file name is relative, so joining puts the directory part
/// before it.
proof fn lemma_pid_file_joined(run_dir: Seq<char>, pid: u32, suffix: Seq<char>)
    ensures
        pid_file(run_dir, pid, suffix) == join_prefix(run_dir) + (decimal(pid as nat) + suffix),
{
    crate::text::lemma_decimal_digits(pid as nat);
    let name = decimal(pid as nat) + suffix;
    assert(name[0] == decimal(pid as nat)[0]);
    assert(crate::text::is_ascii_digit(name[0]));
}

/// Each instance has a socket of its own: the sockets of two different
/// processes are never the same file.
pub proof fn law_socket_paths_distinct(run_dir: Seq<char>, a: u32, b: u32)
    requires
        a != b,
    ensures
        pid_file(run_dir, a, ".sock"@) != pid_file(run_dir, b, ".sock"@),
{
    lemma_pid_file_joined(run_dir, a, ".sock"@);
    lemma_pid_file_joined(run_dir, b, ".sock"@);
    let pre = join_prefix(run_dir);
    let da = decimal(a as nat);
    let db = decimal(b as nat);
    let s = ".sock"@;
    if pid_file(run_dir, a, s) == pid_file(run_dir, b, s) {
        assert((pre + (da + s)).skip(pre.len() as int) =~= da + s);
        assert((pre + (db + s)).skip(pre.len() as int) =~= db + s);
        assert((da + s).take(da.len() as int) =~= da);
        assert((db + s).take(db.len() as int) =~= db);
        assert(da.len() == db.len());
        assert(da == db);
        law_instance_file_roundtrip(a);
        law_instance_file_roundtrip(b);
    }
}

/// An instance's socket is its record with the extension `sock` in place of
/// `json`.
pub proof fn law_socket_beside_record(run_dir: Seq<char>, pid: u32)
    ensures
        pid_file(run_dir, pid, ".sock"@)
            == pid_file(run_dir, pid, ".json"@).take(pid_file(run_dir, pid, ".json"@).len() - 4) + "sock"@,
{
    lemma_pid_file_joined(run_dir, pid, ".sock"@);
    lemma_pid_file_joined(run_dir, pid, ".json"@);
    reveal_strlit(".sock");
    reveal_strlit(".json");
    reveal_strlit("sock");
    let pre = join_prefix(run_dir);
    let d = decimal(pid as nat);
    let rec = pre + (d + ".json"@);
    assert(rec.take(rec.len() - 4) =~= pre + (d + "."@)) by { reveal_strlit("."); }
    assert(pre + (d + ".sock"@) =~= pre + (d + "."@) + "sock"@) by { reveal_strlit("."); }
}

} // verus!
