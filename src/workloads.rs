//! Turning listed pods into workloads: prefix selection, age and status
//! derivation, port tables and the resolution of configuration and secret
//! sources.
use vstd::prelude::*;
use crate::codec::{
    decimal, decimal_text, decode_base64, has_prefix, standard_base64_decoded, utf8_text,
};
use crate::messages::{ApiError, ErrorKind};
use crate::model::{port_pairs, text_pairs, ShortKContainer, WorkloadStatus};
use vstd::utf8::{decode_utf8, valid_utf8};

verus! {

/// A declared container port: its protocol, if given, and its number.
pub struct PortRecord {
    pub protocol: Option<String>,
    pub port: u16,
}

/// One `envFrom` entry of a container: which object it draws values from.
pub enum EnvSource {
    ConfigMap(String),
    Secret(String),
    Other,
}

/// Which of the container state variants are present.
#[derive(Clone, Copy)]
pub struct StateRecord {
    pub running: bool,
    pub waiting: bool,
    pub terminated: bool,
}

/// The observed status of one container.
#[derive(Clone, Copy)]
pub struct StatusRecord {
    pub restart_count: u32,
    pub state: Option<StateRecord>,
}

/// What the worker reads of one container's specification.
pub struct ContainerRecord {
    pub image: Option<String>,
    pub ports: Vec<PortRecord>,
    pub env_from: Vec<EnvSource>,
}

/// What the worker reads of one listed pod. `age_seconds` is the time elapsed
/// since its creation, where the pod carries a creation time.
pub struct PodRecord {
    pub name: Option<String>,
    pub age_seconds: Option<i64>,
    pub containers: Vec<ContainerRecord>,
    pub statuses: Vec<StatusRecord>,
}

/// The pod's id starts with `prefix`.
pub open spec fn name_matches(p: PodRecord, prefix: Seq<char>) -> bool {
    p.name matches Some(n) && prefix.is_prefix_of(n@)
}

/// The pods of `s` whose id starts with `prefix`, in their order.
pub open spec fn kept(s: Seq<PodRecord>, prefix: Seq<char>) -> Seq<PodRecord>
    decreases s.len(),
{
    if s.len() == 0 {
        Seq::empty()
    } else if name_matches(s[0], prefix) {
        seq![s[0]] + kept(s.drop_first(), prefix)
    } else {
        kept(s.drop_first(), prefix)
    }
}

/// Keeps the pods whose id starts with `prefix` (case-sensitive; the empty
/// prefix keeps every named pod), in their listed order.
pub fn retain_prefix(pods: Vec<PodRecord>, prefix: &str) -> (r: Vec<PodRecord>)
    ensures
        r@ == kept(pods@, prefix@),
{
    let mut rest = pods;
    let mut out: Vec<PodRecord> = Vec::new();
    while rest.len() > 0
        invariant
            out@ + kept(rest@, prefix@) == kept(pods@, prefix@),
        decreases rest.len(),
    {
        let ghost before = rest@;
        let p = rest.remove(0);
        assert(rest@ == before.drop_first());
        let keep = match &p.name {
            Some(n) => has_prefix(n.as_str(), prefix),
            None => false,
        };
        if keep {
            out.push(p);
            assert(out@ + kept(rest@, prefix@) == (out@.drop_last() + seq![before[0]]) + kept(
                before.drop_first(),
                prefix@,
            ));
            assert(out@ + kept(rest@, prefix@) =~= out@.drop_last() + kept(before, prefix@));
        } else {
            assert(kept(before, prefix@) == kept(rest@, prefix@));
        }
    }
    assert(kept(rest@, prefix@) =~= Seq::<PodRecord>::empty());
    assert(out@ =~= out@ + Seq::<PodRecord>::empty());
    out
}

/// The age shown for a workload `secs` seconds old: whole days, the hours
/// beyond them and the minutes beyond those. A negative age (a creation time
/// ahead of the local clock) counts as zero.
pub open spec fn age_spec(secs: int) -> Seq<char> {
    let s: int = if secs < 0 { 0 } else { secs };
    decimal((s / 86400) as nat) + "d, "@ + decimal(((s / 3600) % 24) as nat) + "h, "@
        + decimal(((s / 60) % 60) as nat) + "m"@
}

pub fn age_text(secs: i64) -> (r: String)
    ensures
        r@ == age_spec(secs as int),
{
    let s: u64 = if secs < 0 { 0 } else { secs as u64 };
    let mut r = decimal_text(s / 86400);
    r.append("d, ");
    let h = decimal_text((s / 3600) % 24);
    r.append(h.as_str());
    r.append("h, ");
    let m = decimal_text((s / 60) % 60);
    r.append(m.as_str());
    r.append("m");
    r
}

/// The status that a container state shows: a terminated state wins over a
/// waiting one, which wins over a running one.
pub open spec fn state_status(st: Option<StateRecord>) -> WorkloadStatus {
    match st {
        Some(s) => if s.terminated {
            WorkloadStatus::Terminated
        } else if s.waiting {
            WorkloadStatus::Waiting
        } else if s.running {
            WorkloadStatus::Running
        } else {
            WorkloadStatus::Unknown
        },
        None => WorkloadStatus::Unknown,
    }
}

/// Status and restart count from the first container status, if any.
pub open spec fn status_spec(s: Seq<StatusRecord>) -> (WorkloadStatus, u32) {
    if s.len() == 0 {
        (WorkloadStatus::Unknown, 0)
    } else {
        (state_status(s[0].state), s[0].restart_count)
    }
}

pub fn status_of(statuses: &Vec<StatusRecord>) -> (r: (WorkloadStatus, u32))
    ensures
        r == status_spec(statuses@),
{
    if statuses.len() == 0 {
        return (WorkloadStatus::Unknown, 0);
    }
    let first = statuses[0];
    let status = match first.state {
        Some(s) => if s.terminated {
            WorkloadStatus::Terminated
        } else if s.waiting {
            WorkloadStatus::Waiting
        } else if s.running {
            WorkloadStatus::Running
        } else {
            WorkloadStatus::Unknown
        },
        None => WorkloadStatus::Unknown,
    };
    (status, first.restart_count)
}


/// The port table of a container: every declared port by protocol, in
/// declaration order, or `None` where a port names no protocol.
pub open spec fn ports_spec(s: Seq<PortRecord>) -> Option<Seq<(Seq<char>, u16)>> {
    if forall|i: int| 0 <= i < s.len() ==> (#[trigger] s[i]).protocol is Some {
        Some(s.map_values(|p: PortRecord| (p.protocol->Some_0@, p.port)))
    } else {
        None
    }
}

pub fn port_table(ports: &Vec<PortRecord>) -> (r: Option<Vec<(String, u16)>>)
    ensures
        match r {
            Some(t) => ports_spec(ports@) == Some(port_pairs(t@)),
            None => ports_spec(ports@) is None,
        },
{
    let mut out: Vec<(String, u16)> = Vec::new();
    let mut i: usize = 0;
    while i < ports.len()
        invariant
            i <= ports.len(),
            out@.len() == i,
            forall|j: int| 0 <= j < i ==> (#[trigger] ports@[j]).protocol is Some,
            forall|j: int|
                0 <= j < i ==> (#[trigger] out@[j]).0@ == ports@[j].protocol->Some_0@
                    && out@[j].1 == ports@[j].port,
        decreases ports.len() - i,
    {
        match &ports[i].protocol {
            Some(proto) => {
                out.push((proto.clone(), ports[i].port));
            },
            None => {
                return None;
            },
        }
        i = i + 1;
    }
    assert(port_pairs(out@) =~= ports@.map_values(
        |p: PortRecord| (p.protocol->Some_0@, p.port),
    ));
    Some(out)
}

/// A secret value as stored: the text of its base64 decoding, or `None` where
/// it is not base64 or its bytes are not UTF-8.
pub open spec fn decoded_value(v: Seq<char>) -> Option<Seq<char>> {
    match standard_base64_decoded(v) {
        Some(b) => if valid_utf8(b) {
            Some(decode_utf8(b))
        } else {
            None
        },
        None => None,
    }
}

/// A secret's data with every value decoded, or `None` where one value does
/// not decode.
pub open spec fn decoded_table(t: Seq<(Seq<char>, Seq<char>)>) -> Option<
    Seq<(Seq<char>, Seq<char>)>,
> {
    if forall|i: int| 0 <= i < t.len() ==> (#[trigger] decoded_value(t[i].1)) is Some {
        Some(t.map_values(|p: (Seq<char>, Seq<char>)| (p.0, decoded_value(p.1)->Some_0)))
    } else {
        None
    }
}

/// Decodes every value of a secret's data, keeping the keys and their order.
pub fn decode_secret_data(data: &Vec<(String, String)>) -> (r: Option<Vec<(String, String)>>)
    ensures
        match r {
            Some(t) => decoded_table(text_pairs(data@)) == Some(text_pairs(t@)),
            None => decoded_table(text_pairs(data@)) is None,
        },
{
    let ghost src = text_pairs(data@);
    let mut out: Vec<(String, String)> = Vec::new();
    let mut i: usize = 0;
    while i < data.len()
        invariant
            i <= data.len(),
            src == text_pairs(data@),
            out@.len() == i,
            forall|j: int| 0 <= j < i ==> (#[trigger] decoded_value(src[j].1)) is Some,
            forall|j: int|
                0 <= j < i ==> (#[trigger] out@[j]).0@ == src[j].0 && Some(out@[j].1@)
                    == decoded_value(src[j].1),
        decreases data.len() - i,
    {
        let bytes = decode_base64(data[i].1.as_str());
        match bytes {
            Some(b) => match utf8_text(b) {
                Some(text) => {
                    out.push((data[i].0.clone(), text));
                },
                None => {
                    assert(decoded_value(src[i as int].1) is None);
                    return None;
                },
            },
            None => {
                assert(decoded_value(src[i as int].1) is None);
                return None;
            },
        }
        i = i + 1;
    }
    assert(text_pairs(out@) =~= src.map_values(
        |p: (Seq<char>, Seq<char>)| (p.0, decoded_value(p.1)->Some_0),
    ));
    Some(out)
}

/// A copy of a string table.
pub fn copy_table(t: &Vec<(String, String)>) -> (r: Vec<(String, String)>)
    ensures
        text_pairs(r@) == text_pairs(t@),
{
    let mut out: Vec<(String, String)> = Vec::new();
    let mut i: usize = 0;
    while i < t.len()
        invariant
            i <= t.len(),
            out@.len() == i,
            forall|j: int| 0 <= j < i ==> (#[trigger] out@[j]).0@ == t@[j].0@ && out@[j].1@ == t@[j].1@,
        decreases t.len() - i,
    {
        out.push((t[i].0.clone(), t[i].1.clone()));
        i = i + 1;
    }
    assert(text_pairs(out@) =~= text_pairs(t@));
    out
}


/// The data fetched for each `envFrom` entry, in order: `None` where the
/// referenced object holds no data (or the entry references no object).
pub type FetchedSources = Vec<Option<Vec<(String, String)>>>;

pub type TextTable = Seq<(Seq<char>, Seq<char>)>;

/// Configuration and decoded secrets after the first `n` entries: a
/// configuration map's data replaces the configuration seen so far, a secret's
/// decoded data replaces the secrets; `None` once a secret value does not
/// decode.
pub open spec fn resolved(
    env: Seq<EnvSource>,
    data: Seq<Option<Vec<(String, String)>>>,
    n: nat,
) -> Option<(TextTable, TextTable)>
    decreases n,
{
    if n == 0 {
        Some((Seq::empty(), Seq::empty()))
    } else {
        match resolved(env, data, (n - 1) as nat) {
            None => None,
            Some(cs) => match env[n - 1] {
                EnvSource::ConfigMap(_) => match data[n - 1] {
                    Some(d) => Some((text_pairs(d@), cs.1)),
                    None => Some(cs),
                },
                EnvSource::Secret(_) => match data[n - 1] {
                    Some(d) => match decoded_table(text_pairs(d@)) {
                        Some(t) => Some((cs.0, t)),
                        None => None,
                    },
                    None => Some(cs),
                },
                EnvSource::Other => Some(cs),
            },
        }
    }
}

/// The resolution of all entries, or `None` where the fetched data do not
/// line up with the entries or a secret value does not decode.
pub open spec fn sources_spec(env: Seq<EnvSource>, data: Seq<Option<Vec<(String, String)>>>) -> Option<
    (TextTable, TextTable),
> {
    if env.len() != data.len() {
        None
    } else {
        resolved(env, data, env.len())
    }
}

/// Resolves the configuration and secret values of a container from the data
/// fetched for its `envFrom` entries.
pub fn resolve_sources(env: &Vec<EnvSource>, fetched: &FetchedSources) -> (r: Option<
    (Vec<(String, String)>, Vec<(String, String)>),
>)
    ensures
        match r {
            Some(cs) => sources_spec(env@, fetched@) == Some(
                (text_pairs(cs.0@), text_pairs(cs.1@)),
            ),
            None => sources_spec(env@, fetched@) is None,
        },
{
    if env.len() != fetched.len() {
        return None;
    }
    let mut cfm: Vec<(String, String)> = Vec::new();
    let mut sm: Vec<(String, String)> = Vec::new();
    assert(text_pairs(cfm@) =~= Seq::empty());
    assert(text_pairs(sm@) =~= Seq::empty());
    let mut i: usize = 0;
    while i < env.len()
        invariant
            i <= env.len(),
            env.len() == fetched.len(),
            resolved(env@, fetched@, i as nat) == Some((text_pairs(cfm@), text_pairs(sm@))),
        decreases env.len() - i,
    {
        match &env[i] {
            EnvSource::ConfigMap(_) => {
                if let Some(d) = &fetched[i] {
                    cfm = copy_table(d);
                }
            },
            EnvSource::Secret(_) => {
                if let Some(d) = &fetched[i] {
                    match decode_secret_data(d) {
                        Some(t) => {
                            sm = t;
                        },
                        None => {
                            assert(resolved(env@, fetched@, (i + 1) as nat) is None);
                            proof {
                                lemma_resolved_stays_failed(env@, fetched@, (i + 1) as nat, env@.len());
                            }
                            return None;
                        },
                    }
                }
            },
            EnvSource::Other => {},
        }
        i = i + 1;
    }
    Some((cfm, sm))
}

/// Once resolution fails it stays failed.
proof fn lemma_resolved_stays_failed(
    env: Seq<EnvSource>,
    data: Seq<Option<Vec<(String, String)>>>,
    n: nat,
    m: nat,
)
    requires
        n <= m,
        resolved(env, data, n) is None,
    ensures
        resolved(env, data, m) is None,
    decreases m - n,
{
    if n < m {
        lemma_resolved_stays_failed(env, data, n, (m - 1) as nat);
    }
}

/// The workload as seen by the consumer, in mathematical terms.
pub struct WorkloadView {
    pub pod_name: Seq<char>,
    pub age: Seq<char>,
    pub image: Seq<char>,
    pub status: WorkloadStatus,
    pub restarts: u32,
    pub ports: Seq<(Seq<char>, u16)>,
    pub config_map: TextTable,
    pub secrets: TextTable,
}

impl ShortKContainer {
    pub open spec fn view_of(&self) -> WorkloadView {
        WorkloadView {
            pod_name: self.pod_name@,
            age: self.age@,
            image: self.image@,
            status: self.status,
            restarts: self.restarts,
            ports: port_pairs(self.ports@),
            config_map: text_pairs(self.config_map@),
            secrets: text_pairs(self.secrets@),
        }
    }
}

/// The workload built from a pod and the data fetched for its first
/// container's `envFrom` entries; `None` where the pod lacks an id, a
/// creation time, a container, an image or a port protocol, or where its
/// sources do not resolve.
pub open spec fn workload_spec(pod: PodRecord, fetched: Seq<Option<Vec<(String, String)>>>) -> Option<
    WorkloadView,
> {
    if pod.name is None || pod.age_seconds is None || pod.containers.len() == 0 {
        None
    } else {
        let c = pod.containers@[0];
        if c.image is None || ports_spec(c.ports@) is None || sources_spec(c.env_from@, fetched) is None {
            None
        } else {
            let st = status_spec(pod.statuses@);
            let cs = sources_spec(c.env_from@, fetched)->Some_0;
            Some(
                WorkloadView {
                    pod_name: pod.name->Some_0@,
                    age: age_spec(pod.age_seconds->Some_0 as int),
                    image: c.image->Some_0@,
                    status: st.0,
                    restarts: st.1,
                    ports: ports_spec(c.ports@)->Some_0,
                    config_map: cs.0,
                    secrets: cs.1,
                },
            )
        }
    }
}

/// Builds the workload of one listed pod; a malformed pod or an undecodable
/// secret is a lookup error.
pub fn build_workload(pod: &PodRecord, fetched: &FetchedSources) -> (r: Result<ShortKContainer, ApiError>)
    ensures
        match r {
            Ok(w) => workload_spec(*pod, fetched@) == Some(w.view_of()),
            Err(e) => workload_spec(*pod, fetched@) is None && e.kind == ErrorKind::LookupError,
        },
{
    let name = match &pod.name {
        Some(n) => n.clone(),
        None => {
            return Err(ApiError::new(ErrorKind::LookupError, "pod has no name"));
        },
    };
    let secs = match pod.age_seconds {
        Some(s) => s,
        None => {
            return Err(ApiError::new(ErrorKind::LookupError, "pod has no creation time"));
        },
    };
    if pod.containers.len() == 0 {
        return Err(ApiError::new(ErrorKind::LookupError, "pod has no container"));
    }
    let c = &pod.containers[0];
    let image = match &c.image {
        Some(im) => im.clone(),
        None => {
            return Err(ApiError::new(ErrorKind::LookupError, "container has no image"));
        },
    };
    let ports = match port_table(&c.ports) {
        Some(t) => t,
        None => {
            return Err(ApiError::new(ErrorKind::LookupError, "port without protocol"));
        },
    };
    let (cfm, sm) = match resolve_sources(&c.env_from, fetched) {
        Some(cs) => cs,
        None => {
            return Err(ApiError::new(ErrorKind::LookupError, "configuration sources do not resolve"));
        },
    };
    let (status, restarts) = status_of(&pod.statuses);
    let age = age_text(secs);
    Ok(ShortKContainer::new(name, age, image, status, restarts, ports, cfm, sm))
}


/// Builds the workload list of the selected pods, in their order, from the
/// data fetched for each of them; the first pod that does not build fails the
/// whole list.
pub fn collect_workloads(pods: &Vec<PodRecord>, fetched: &Vec<FetchedSources>) -> (r: Result<
    Vec<ShortKContainer>,
    ApiError,
>)
    ensures
        match r {
            Ok(ws) => {
                &&& pods@.len() == fetched@.len()
                &&& ws@.len() == pods@.len()
                &&& forall|i: int|
                    0 <= i < pods@.len() ==> workload_spec(pods@[i], fetched@[i]@) == Some(
                        (#[trigger] ws@[i]).view_of(),
                    )
            },
            Err(e) => {
                &&& e.kind == ErrorKind::LookupError
                &&& (pods@.len() != fetched@.len() || exists|i: int|
                    0 <= i < pods@.len() && (#[trigger] workload_spec(pods@[i], fetched@[i]@)) is None)
            },
        },
{
    if pods.len() != fetched.len() {
        return Err(ApiError::new(ErrorKind::LookupError, "sources do not match the pods"));
    }
    let mut out: Vec<ShortKContainer> = Vec::new();
    let mut i: usize = 0;
    while i < pods.len()
        invariant
            i <= pods.len(),
            pods@.len() == fetched@.len(),
            out@.len() == i,
            forall|j: int|
                0 <= j < i ==> workload_spec(pods@[j], fetched@[j]@) == Some(
                    (#[trigger] out@[j]).view_of(),
                ),
        decreases pods.len() - i,
    {
        match build_workload(&pods[i], &fetched[i]) {
            Ok(w) => {
                out.push(w);
            },
            Err(e) => {
                assert(workload_spec(pods@[i as int], fetched@[i as int]@) is None);
                return Err(e);
            },
        }
        i = i + 1;
    }
    Ok(out)
}


/// The empty prefix keeps every named pod, in order.
pub proof fn lemma_empty_prefix_keeps_all(s: Seq<PodRecord>)
    requires
        forall|i: int| 0 <= i < s.len() ==> (#[trigger] s[i]).name is Some,
    ensures
        kept(s, Seq::empty()) == s,
    decreases s.len(),
{
    if s.len() > 0 {
        assert(Seq::<char>::empty().is_prefix_of(s[0].name->Some_0@));
        assert forall|i: int| 0 <= i < s.drop_first().len() implies (#[trigger] s.drop_first()[i]).name is Some by {
            assert(s.drop_first()[i] == s[i + 1]);
        }
        lemma_empty_prefix_keeps_all(s.drop_first());
        assert(seq![s[0]] + s.drop_first() =~= s);
    }
}

/// Every kept pod's id starts with the prefix, and no matching pod is dropped:
/// the kept pods are exactly the matching ones, in their listed order.
pub proof fn lemma_kept_are_the_matching(s: Seq<PodRecord>, prefix: Seq<char>)
    ensures
        forall|i: int| 0 <= i < kept(s, prefix).len() ==> name_matches(#[trigger] kept(s, prefix)[i], prefix),
        kept(s, prefix) == s.filter(|p: PodRecord| name_matches(p, prefix)),
    decreases s.len(),
{
    if s.len() > 0 {
        lemma_kept_are_the_matching(s.drop_first(), prefix);
        let f = |p: PodRecord| name_matches(p, prefix);
        assert(s == seq![s[0]] + s.drop_first());
        s.drop_first().lemma_filter_prepend(s[0], f);
        if !name_matches(s[0], prefix) {
            assert(Seq::<PodRecord>::empty() + s.drop_first().filter(f) =~= s.drop_first().filter(f));
        }
        if name_matches(s[0], prefix) {
            assert forall|i: int| 0 <= i < kept(s, prefix).len() implies name_matches(#[trigger] kept(s, prefix)[i], prefix) by {
                if i > 0 {
                    assert(kept(s, prefix)[i] == kept(s.drop_first(), prefix)[i - 1]);
                }
            }
        }
    } else {
        assert(s.filter(|p: PodRecord| name_matches(p, prefix)) =~= Seq::<PodRecord>::empty()) by {
            reveal(Seq::filter);
        }
    }
}

} // verus!
