//! The consumer's column board: how polled results and pin actions change the
//! workloads it shows.
use vstd::prelude::*;
use crate::messages::UIData;
use crate::model::{joined, ShortKContainer};

verus! {

/// The workload ids of a column list.
pub open spec fn ids(s: Seq<ShortKContainer>) -> Seq<Seq<char>> {
    s.map_values(|w: ShortKContainer| w.pod_name@)
}

/// The workloads of `s` that are not pinned, in order.
pub open spec fn unpinned(s: Seq<ShortKContainer>, pinned: Seq<Seq<char>>) -> Seq<ShortKContainer>
    decreases s.len(),
{
    if s.len() == 0 {
        Seq::empty()
    } else if pinned.contains(s[0].pod_name@) {
        unpinned(s.drop_first(), pinned)
    } else {
        seq![s[0]] + unpinned(s.drop_first(), pinned)
    }
}

/// The columns of the latest workload list, the pinned columns, and the log
/// text shown in the log windows.
pub struct ColumnBoard {
    pub columns: Vec<ShortKContainer>,
    pub pinned: Vec<ShortKContainer>,
    pub log_text: Option<String>,
    pub last_error: Option<String>,
}

impl ColumnBoard {
    pub fn new() -> (r: Self)
        ensures
            r.columns@.len() == 0,
            r.pinned@.len() == 0,
            r.log_text is None,
            r.last_error is None,
    {
        ColumnBoard { columns: Vec::new(), pinned: Vec::new(), log_text: None, last_error: None }
    }

    /// Whether a workload with this id is pinned.
    pub fn is_pinned(&self, id: &String) -> (r: bool)
        ensures
            r == ids(self.pinned@).contains(id@),
    {
        let mut i: usize = 0;
        while i < self.pinned.len()
            invariant
                i <= self.pinned.len(),
                forall|j: int| 0 <= j < i ==> (#[trigger] self.pinned@[j]).pod_name@ != id@,
            decreases self.pinned.len() - i,
        {
            if self.pinned[i].pod_name == *id {
                assert(ids(self.pinned@)[i as int] == id@);
                return true;
            }
            i = i + 1;
        }
        assert forall|j: int| 0 <= j < ids(self.pinned@).len() implies ids(self.pinned@)[j] != id@ by {
            assert(ids(self.pinned@)[j] == self.pinned@[j].pod_name@);
        }
        false
    }

    /// Applies one polled result: a workload list replaces the columns, leaving
    /// out pinned workloads; log lines become the log text, one per line; an
    /// error is kept for display. The pinned columns never change.
    pub fn apply(&mut self, data: UIData)
        ensures
            final(self).pinned@ == old(self).pinned@,
            match data {
                UIData::Pods(ws) => {
                    &&& final(self).columns@ == unpinned(ws@, ids(old(self).pinned@))
                    &&& final(self).log_text == old(self).log_text
                },
                UIData::Logs(lines) => {
                    &&& final(self).columns@ == old(self).columns@
                    &&& final(self).log_text matches Some(t) && t@ == joined(
                        lines@.map_values(|l: String| l@),
                    )
                },
                UIData::Error(e) => {
                    &&& final(self).columns@ == old(self).columns@
                    &&& final(self).log_text == old(self).log_text
                    &&& final(self).last_error matches Some(m) && m@ == e.message@
                },
            },
    {
        match data {
            UIData::Pods(ws) => {
                let mut rest = ws;
                let ghost all = rest@;
                let ghost pins = ids(self.pinned@);
                let mut out: Vec<ShortKContainer> = Vec::new();
                while rest.len() > 0
                    invariant
                        pins == ids(self.pinned@),
                        out@ + unpinned(rest@, pins) == unpinned(all, pins),
                    decreases rest.len(),
                {
                    let ghost before = rest@;
                    let w = rest.remove(0);
                    assert(rest@ == before.drop_first());
                    if !self.is_pinned(&w.pod_name) {
                        out.push(w);
                        assert(out@ + unpinned(rest@, pins) =~= out@.drop_last() + unpinned(before, pins));
                    }
                }
                assert(out@ + unpinned(rest@, pins) =~= out@);
                self.columns = out;
            },
            UIData::Logs(lines) => {
                let mut text = String::new();
                let ghost views = lines@.map_values(|l: String| l@);
                let mut i: usize = 0;
                while i < lines.len()
                    invariant
                        i <= lines.len(),
                        views == lines@.map_values(|l: String| l@),
                        text@ == joined(views.subrange(0, i as int)),
                    decreases lines.len() - i,
                {
                    if i > 0 {
                        text.append("\n");
                    }
                    text.append(lines[i].as_str());
                    proof {
                        let sub = views.subrange(0, i + 1);
                        assert(sub.drop_last() == views.subrange(0, i as int));
                        assert(sub.last() == views[i as int]);
                        if i == 0 {
                            assert(text@ =~= views[0]);
                        } else {
                            assert(text@ =~= joined(sub.drop_last()) + "\n"@ + sub.last());
                        }
                    }
                    i = i + 1;
                }
                assert(views.subrange(0, lines@.len() as int) == views);
                self.log_text = Some(text);
            },
            UIData::Error(e) => {
                self.last_error = Some(e.message);
            },
        }
    }

    /// Pins the first column with this id: it leaves the columns, keeping the
    /// others in order, and joins the pinned ones. Without such a column
    /// nothing changes; `false` is returned.
    pub fn pin(&mut self, id: &String) -> (r: bool)
        ensures
            r == ids(old(self).columns@).contains(id@),
            r ==> exists|i: int|
                0 <= i < old(self).columns@.len() && (#[trigger] old(self).columns@[i]).pod_name@ == id@
                    && (forall|j: int| 0 <= j < i ==> (#[trigger] old(self).columns@[j]).pod_name@ != id@)
                    && final(self).columns@ == old(self).columns@.remove(i)
                    && final(self).pinned@ == old(self).pinned@.push(old(self).columns@[i]),
            !r ==> final(self).columns@ == old(self).columns@ && final(self).pinned@ == old(
                self).pinned@,
            final(self).log_text == old(self).log_text,
    {
        let mut i: usize = 0;
        while i < self.columns.len()
            invariant
                i <= self.columns.len(),
                self.columns@ == old(self).columns@,
                self.pinned@ == old(self).pinned@,
                self.log_text == old(self).log_text,
                forall|j: int| 0 <= j < i ==> (#[trigger] self.columns@[j]).pod_name@ != id@,
            decreases self.columns.len() - i,
        {
            if self.columns[i].pod_name == *id {
                assert(ids(self.columns@)[i as int] == id@);
                let w = self.columns.remove(i);
                self.pinned.push(w);
                return true;
            }
            i = i + 1;
        }
        assert forall|j: int| 0 <= j < ids(self.columns@).len() implies ids(self.columns@)[j] != id@ by {
            assert(ids(self.columns@)[j] == self.columns@[j].pod_name@);
        }
        false
    }
}

} // verus!
