//! Value objects handed across the buses: workloads and the consumer-side
//! state that holds them.
use vstd::prelude::*;
use crate::codec::{decimal, decimal_text};

verus! {

/// The state of a workload's first container.
#[derive(Clone, Copy, Debug, PartialEq, Eq, Structural)]
pub enum WorkloadStatus {
    Running,
    Waiting,
    Terminated,
    Unknown,
}

impl WorkloadStatus {
    /// The status as the consumer shows it.
    pub fn label(&self) -> (r: String)
        ensures
            r@ == self.label_spec(),
    {
        match self {
            WorkloadStatus::Running => String::from_str("Running"),
            WorkloadStatus::Waiting => String::from_str("Waiting"),
            WorkloadStatus::Terminated => String::from_str("Terminated"),
            WorkloadStatus::Unknown => String::from_str("Unknown"),
        }
    }

    pub open spec fn label_spec(&self) -> Seq<char> {
        match self {
            WorkloadStatus::Running => "Running"@,
            WorkloadStatus::Waiting => "Waiting"@,
            WorkloadStatus::Terminated => "Terminated"@,
            WorkloadStatus::Unknown => "Unknown"@,
        }
    }
}

/// A pair of strings seen as a pair of character sequences.
pub open spec fn text_pair(p: (String, String)) -> (Seq<char>, Seq<char>) {
    (p.0@, p.1@)
}

/// A string-keyed table seen as a sequence of character-sequence pairs.
pub open spec fn text_pairs(t: Seq<(String, String)>) -> Seq<(Seq<char>, Seq<char>)> {
    t.map_values(|p: (String, String)| text_pair(p))
}

/// A port table seen as a sequence of (protocol, port) pairs.
pub open spec fn port_pairs(t: Seq<(String, u16)>) -> Seq<(Seq<char>, u16)> {
    t.map_values(|p: (String, u16)| (p.0@, p.1))
}

/// One workload as the consumer receives it.
///
/// `ports` lists the first container's declared ports by protocol, in
/// declaration order; `config_map` and `secrets` hold the resolved
/// configuration and the decoded secret values.
#[derive(Debug)]
pub struct ShortKContainer {
    pub pod_name: String,
    pub age: String,
    pub image: String,
    pub status: WorkloadStatus,
    pub restarts: u32,
    pub ports: Vec<(String, u16)>,
    pub config_map: Vec<(String, String)>,
    pub secrets: Vec<(String, String)>,
    pub forward_ons: bool,
}

impl ShortKContainer {
    pub fn new(
        pod_name: String,
        age: String,
        image: String,
        status: WorkloadStatus,
        restarts: u32,
        ports: Vec<(String, u16)>,
        config_map: Vec<(String, String)>,
        secrets: Vec<(String, String)>,
    ) -> (r: Self)
        ensures
            r.pod_name@ == pod_name@,
            r.age@ == age@,
            r.image@ == image@,
            r.status == status,
            r.restarts == restarts,
            r.ports@ == ports@,
            r.config_map@ == config_map@,
            r.secrets@ == secrets@,
            !r.forward_ons,
    {
        ShortKContainer {
            pod_name,
            age,
            image,
            status,
            restarts,
            ports,
            config_map,
            secrets,
            forward_ons: false,
        }
    }
}


impl Default for ShortKContainer {
    /// A placeholder workload.
    fn default() -> (r: Self)
        ensures
            r.pod_name@ == Seq::<char>::empty(),
            r.age@ == "age"@,
            r.image@ == "image"@,
            r.status == WorkloadStatus::Unknown,
            r.restarts == 1945,
            r.ports@.len() == 0,
            r.config_map@.len() == 0,
            r.secrets@.len() == 0,
            !r.forward_ons,
    {
        ShortKContainer {
            pod_name: String::new(),
            age: String::from_str("age"),
            image: String::from_str("image"),
            status: WorkloadStatus::Unknown,
            restarts: 1945,
            ports: Vec::new(),
            config_map: Vec::new(),
            secrets: Vec::new(),
            forward_ons: false,
        }
    }
}

/// The log window of a workload.
pub struct LogWindow {
    pub name: String,
    pub log_text: Option<String>,
}

impl LogWindow {
    pub fn new(name: String) -> (r: Self)
        ensures
            r.name@ == name@,
            r.log_text is None,
    {
        LogWindow { name, log_text: None }
    }
}

/// A pop-up window, known by its id.
pub struct PopUp {
    pub id: String,
}

impl PopUp {
    pub fn get_id(&self) -> (r: String)
        ensures
            r@ == self.id@,
    {
        self.id.clone()
    }
}

/// The workloads laid out as columns, and which of them are open.
pub struct ContainerLayouts {
    pub demos: Vec<ShortKContainer>,
    pub open: Vec<String>,
}

/// The consumer's state: the last workload list, the text of its input
/// fields, and which windows and forwards are open. `forwards` and
/// `opened_windows` hold each name at most once.
pub struct ShortKAppState {
    pub pods: Vec<ShortKContainer>,
    pub filter_pod_prefix: String,
    pub conf_file_path: String,
    pub namespace: String,
    pub forwards: Vec<(String, bool)>,
    pub log_windows: Vec<PopUp>,
    pub opened_windows: Vec<String>,
    pub about_is_open: bool,
    pub containers: ContainerLayouts,
}

impl ShortKAppState {
    /// A state showing `pods`, with empty input fields and nothing open.
    pub fn new(pods: Vec<ShortKContainer>) -> (r: Self)
        ensures
            r.pods@ == pods@,
            r.filter_pod_prefix@ == Seq::<char>::empty(),
            r.conf_file_path@ == Seq::<char>::empty(),
            r.namespace@ == Seq::<char>::empty(),
            r.forwards@.len() == 0,
            r.log_windows@.len() == 0,
            r.opened_windows@.len() == 0,
            !r.about_is_open,
            r.containers.demos@.len() == 0,
            r.containers.open@.len() == 0,
    {
        ShortKAppState {
            pods,
            filter_pod_prefix: String::new(),
            conf_file_path: String::new(),
            namespace: String::new(),
            forwards: Vec::new(),
            log_windows: Vec::new(),
            opened_windows: Vec::new(),
            about_is_open: false,
            containers: ContainerLayouts { demos: Vec::new(), open: Vec::new() },
        }
    }
}

impl Default for ShortKAppState {
    /// A state with placeholder input fields and nothing open.
    fn default() -> (r: Self)
        ensures
            r.pods@.len() == 0,
            r.filter_pod_prefix@ == "yyy"@,
            r.conf_file_path@ == "zzz"@,
            r.namespace@ == "xxx"@,
            r.forwards@.len() == 0,
            r.log_windows@.len() == 0,
            r.opened_windows@.len() == 0,
            !r.about_is_open,
    {
        ShortKAppState {
            pods: Vec::new(),
            filter_pod_prefix: String::from_str("yyy"),
            conf_file_path: String::from_str("zzz"),
            namespace: String::from_str("xxx"),
            forwards: Vec::new(),
            log_windows: Vec::new(),
            opened_windows: Vec::new(),
            about_is_open: false,
            containers: ContainerLayouts { demos: Vec::new(), open: Vec::new() },
        }
    }
}

/// The state behind the consumer's main window.
pub struct MegaWrapper {
    pub state: ShortKAppState,
}

/// The names held by a list of window names.
pub open spec fn names(v: Seq<String>) -> Set<Seq<char>> {
    v.map_values(|s: String| s@).to_set()
}

/// No name occurs twice.
pub open spec fn distinct_names(v: Seq<String>) -> bool {
    forall|i: int, j: int| 0 <= i < j < v.len() ==> (#[trigger] v[i])@ != (#[trigger] v[j])@
}

/// Marks the window `key` open or closed in `open`.
pub fn set_open(open: &mut Vec<String>, key: &str, is_open: bool)
    ensures
        names(final(open)@) == if is_open {
            names(old(open)@).insert(key@)
        } else {
            names(old(open)@).remove(key@)
        },
        distinct_names(old(open)@) ==> distinct_names(final(open)@),
{
    let k = String::from_str(key);
    let ghost before = open@;
    let mut kept: Vec<String> = Vec::new();
    let mut found = false;
    let mut i: usize = 0;
    while i < open.len()
        invariant
            i <= open.len(),
            open@ == before,
            k@ == key@,
            names(kept@) == names(before.subrange(0, i as int)).remove(key@),
            found <==> names(before.subrange(0, i as int)).contains(key@),
            forall|j: int| 0 <= j < kept@.len() ==> exists|m: int| 0 <= m < i && (#[trigger] kept@[j])@ == (#[trigger] before[m])@,
            forall|j: int, m: int| 0 <= j < kept@.len() && i <= m < before.len() && distinct_names(before) ==> (#[trigger] kept@[j])@ != (#[trigger] before[m])@,
            distinct_names(before) ==> distinct_names(kept@),
        decreases open.len() - i,
    {
        let ghost pre = before.subrange(0, i as int);
        proof {
            assert(before.subrange(0, i + 1) == pre.push(before[i as int]));
            pre.map_values(|s: String| s@).lemma_push_to_set_commute(before[i as int]@);
            assert(pre.push(before[i as int]).map_values(|s: String| s@) == pre.map_values(|s: String| s@).push(before[i as int]@));
            kept@.map_values(|s: String| s@).lemma_push_to_set_commute(before[i as int]@);
        }
        if open[i] == k {
            found = true;
        } else {
            let ghost kb = kept@;
            kept.push(open[i].clone());
            assert(kept@.map_values(|s: String| s@) == kb.map_values(|s: String| s@).push(before[i as int]@));
        }
        i = i + 1;
    }
    assert(before.subrange(0, before.len() as int) == before);
    if is_open {
        if found {
            assert(names(before).insert(key@) == names(before));
        } else {
            open.push(k);
            proof {
                before.map_values(|s: String| s@).lemma_push_to_set_commute(key@);
                assert(open@.map_values(|s: String| s@) == before.map_values(|s: String| s@).push(key@));
                if distinct_names(before) {
                    assert forall|a: int, b: int| 0 <= a < b < open@.len() implies (#[trigger] open@[a])@ != (#[trigger] open@[b])@ by {
                        if b == before.len() {
                            assert(names(before).contains(before[a]@)) by {
                                assert(before.map_values(|s: String| s@)[a] == before[a]@);
                            }
                        }
                    }
                }
            }
        }
    } else {
        *open = kept;
    }
}

/// One `key:value` line.
pub open spec fn entry_line(k: Seq<char>, v: Seq<char>) -> Seq<char> {
    k + ":"@ + v
}

/// The lines joined by newlines.
pub open spec fn joined(lines: Seq<Seq<char>>) -> Seq<char>
    decreases lines.len(),
{
    if lines.len() == 0 {
        Seq::empty()
    } else if lines.len() == 1 {
        lines[0]
    } else {
        joined(lines.drop_last()) + "\n"@ + lines.last()
    }
}

/// The entries of a counter table as `key:value` lines, joined by newlines.
pub fn join_multiline(map: &Vec<(String, u32)>) -> (r: String)
    ensures
        r@ == joined(map@.map_values(|e: (String, u32)| entry_line(e.0@, decimal(e.1 as nat)))),
{
    let ghost lines = map@.map_values(|e: (String, u32)| entry_line(e.0@, decimal(e.1 as nat)));
    let mut out = String::new();
    let mut i: usize = 0;
    while i < map.len()
        invariant
            i <= map.len(),
            lines == map@.map_values(|e: (String, u32)| entry_line(e.0@, decimal(e.1 as nat))),
            out@ == joined(lines.subrange(0, i as int)),
        decreases map.len() - i,
    {
        if i > 0 {
            out.append("\n");
        }
        out.append(map[i].0.as_str());
        out.append(":");
        let v = decimal_text(map[i].1 as u64);
        out.append(v.as_str());
        proof {
            let sub = lines.subrange(0, i + 1);
            assert(sub.drop_last() == lines.subrange(0, i as int));
            assert(sub.last() == lines[i as int]);
            if i == 0 {
                assert(out@ =~= lines[0]);
            } else {
                assert(out@ =~= joined(sub.drop_last()) + "\n"@ + sub.last());
            }
        }
        i = i + 1;
    }
    assert(lines.subrange(0, map@.len() as int) == lines);
    out
}

/// The entries of a string table as `key:value` lines, joined by newlines.
pub fn join_multiline2(map: &Vec<(String, String)>) -> (r: String)
    ensures
        r@ == joined(map@.map_values(|e: (String, String)| entry_line(e.0@, e.1@))),
{
    let ghost lines = map@.map_values(|e: (String, String)| entry_line(e.0@, e.1@));
    let mut out = String::new();
    let mut i: usize = 0;
    while i < map.len()
        invariant
            i <= map.len(),
            lines == map@.map_values(|e: (String, String)| entry_line(e.0@, e.1@)),
            out@ == joined(lines.subrange(0, i as int)),
        decreases map.len() - i,
    {
        if i > 0 {
            out.append("\n");
        }
        out.append(map[i].0.as_str());
        out.append(":");
        out.append(map[i].1.as_str());
        proof {
            let sub = lines.subrange(0, i + 1);
            assert(sub.drop_last() == lines.subrange(0, i as int));
            assert(sub.last() == lines[i as int]);
            if i == 0 {
                assert(out@ =~= lines[0]);
            } else {
                assert(out@ =~= joined(sub.drop_last()) + "\n"@ + sub.last());
            }
        }
        i = i + 1;
    }
    assert(lines.subrange(0, map@.len() as int) == lines);
    out
}

} // verus!
