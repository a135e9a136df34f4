use vstd::prelude::*;

verus! {

#[derive(Debug, Clone, Copy, PartialEq, Eq, Structural)]
pub enum RecordingKind {
    Terminal,
    Traffic,
}

impl RecordingKind {
    /// The value under which the kind is stored.
    pub open spec fn tag_spec(self) -> Seq<char> {
        match self {
            RecordingKind::Terminal => "terminal"@,
            RecordingKind::Traffic => "traffic"@,
        }
    }

    pub fn tag(&self) -> (r: &'static str)
        ensures
            r@ == self.tag_spec(),
    {
        match self {
            RecordingKind::Terminal => "terminal",
            RecordingKind::Traffic => "traffic",
        }
    }
}

/// The row of one recording. Times are in seconds since the epoch; a row
/// without an end time is a recording that did not end cleanly, or has not
/// ended yet.
#[derive(Debug, Clone, PartialEq, Eq)]
pub struct Model {
    pub id: u128,
    pub name: String,
    pub started: i64,
    pub ended: Option<i64>,
    pub session_id: u128,
    pub kind: RecordingKind,
}

impl Model {
    /// Whether the recording was closed. A row without an end time stands
    /// for a recording that was cut short, not for one that is running.
    pub fn ended_cleanly(&self) -> (r: bool)
        ensures
            r == self.ended.is_some(),
    {
        self.ended.is_some()
    }
}

/// Why the table refused a statement.
#[derive(Debug, Clone, Copy, PartialEq, Eq, Structural)]
pub enum TableError {
    /// A row with that id, or with that session and name, is there already.
    Duplicate,
    /// No row has that id.
    Missing,
}

/// The rows of all recordings: ids are unique, and so is each pair of
/// session and name.
pub struct RecordingTable {
    rows: Vec<Model>,
}

/// The row at `row` with its end time set to `at`, unless it has one.
pub open spec fn ended_row(row: Model, at: i64) -> Model {
    Model {
        ended: match row.ended {
            Some(t) => Some(t),
            None => Some(at),
        },
        ..row
    }
}

impl RecordingTable {
    pub closed spec fn rows(self) -> Seq<Model> {
        self.rows@
    }

    pub open spec fn wf(self) -> bool {
        forall|i: int, j: int|
            0 <= i < j < self.rows().len() ==> (#[trigger] self.rows()[i]).id != (#[trigger] self.rows()[j]).id && !(
            self.rows()[i].session_id == self.rows()[j].session_id && self.rows()[i].name@ == self.rows()[j].name@)
    }

    pub open spec fn has_id(self, id: u128) -> bool {
        exists|i: int| 0 <= i < self.rows().len() && (#[trigger] self.rows()[i]).id == id
    }

    pub open spec fn has_pair(self, session_id: u128, name: Seq<char>) -> bool {
        exists|i: int|
            0 <= i < self.rows().len() && (#[trigger] self.rows()[i]).session_id == session_id
                && self.rows()[i].name@ == name
    }

    /// Exactly one row carries the session and the name.
    pub open spec fn single_pair(self, session_id: u128, name: Seq<char>) -> bool {
        &&& self.has_pair(session_id, name)
        &&& forall|i: int, j: int|
            0 <= i < self.rows().len() && 0 <= j < self.rows().len() && (#[trigger] self.rows()[i]).session_id
                == session_id && self.rows()[i].name@ == name && (#[trigger] self.rows()[j]).session_id
                == session_id && self.rows()[j].name@ == name ==> i == j
    }

    /// Position of the row with that id, where there is one.
    pub open spec fn position(self, id: u128) -> int {
        choose|i: int| 0 <= i < self.rows().len() && (#[trigger] self.rows()[i]).id == id
    }

    pub fn new() -> (r: Self)
        ensures
            r.wf(),
            r.rows().len() == 0,
    {
        RecordingTable { rows: Vec::new() }
    }

    pub fn len(&self) -> (n: usize)
        ensures
            n == self.rows().len(),
    {
        self.rows.len()
    }

    /// Whether ids and pairs of session and name are unique, found by comparing the rows.
    pub fn is_well_formed(&self) -> (r: bool)
        ensures
            r == self.wf(),
    {
        let mut j: usize = 0;
        while j < self.rows.len()
            invariant
                j <= self.rows().len(),
                forall|a: int, b: int|
                    0 <= a < b < j ==> (#[trigger] self.rows()[a]).id != (#[trigger] self.rows()[b]).id && !(
                    self.rows()[a].session_id == self.rows()[b].session_id && self.rows()[a].name@
                        == self.rows()[b].name@),
            decreases self.rows().len() - j,
        {
            let mut i: usize = 0;
            while i < j
                invariant
                    i <= j < self.rows().len(),
                    forall|a: int|
                        0 <= a < i ==> (#[trigger] self.rows()[a]).id != self.rows()[j as int].id && !(
                        self.rows()[a].session_id == self.rows()[j as int].session_id && self.rows()[a].name@
                            == self.rows()[j as int].name@),
                decreases j - i,
            {
                let first = &self.rows[i];
                let second = &self.rows[j];
                if first.id == second.id || (first.session_id == second.session_id && first.name == second.name) {
                    proof {
                        let x = self.rows()[i as int];
                        let y = self.rows()[j as int];
                        assert(x.id == y.id || (x.session_id == y.session_id && x.name@ == y.name@));
                    }
                    return false;
                }
                i += 1;
            }
            j += 1;
        }
        true
    }

    /// The row at position `i`, in the order of insertion.
    pub fn get(&self, i: usize) -> (r: Option<&Model>)
        ensures
            i < self.rows().len() ==> r == Some(&self.rows()[i as int]),
            i >= self.rows().len() ==> r.is_none(),
    {
        if i < self.rows.len() {
            Some(&self.rows[i])
        } else {
            None
        }
    }

    fn find_id(&self, id: u128) -> (r: Option<usize>)
        requires
            self.wf(),
        ensures
            match r {
                Some(i) => i < self.rows().len() && self.rows()[i as int].id == id && self.has_id(id)
                    && self.position(id) == i,
                None => !self.has_id(id),
            },
    {
        let mut i: usize = 0;
        while i < self.rows.len()
            invariant
                self.wf(),
                i <= self.rows().len(),
                forall|k: int| 0 <= k < i ==> (#[trigger] self.rows()[k]).id != id,
            decreases self.rows().len() - i,
        {
            if self.rows[i].id == id {
                proof {
                    let p = self.position(id);
                    if p < i {
                        assert(self.rows()[p].id != self.rows()[i as int].id);
                    } else if i < p {
                        assert(self.rows()[i as int].id != self.rows()[p].id);
                    }
                }
                return Some(i);
            }
            i += 1;
        }
        None
    }

    fn clashes(&self, row: &Model) -> (r: bool)
        ensures
            r == (self.has_id(row.id) || self.has_pair(row.session_id, row.name@)),
    {
        let mut i: usize = 0;
        while i < self.rows.len()
            invariant
                i <= self.rows().len(),
                forall|k: int|
                    0 <= k < i ==> (#[trigger] self.rows()[k]).id != row.id && !(self.rows()[k].session_id
                        == row.session_id && self.rows()[k].name@ == row.name@),
            decreases self.rows().len() - i,
        {
            let here = &self.rows[i];
            if here.id == row.id || (here.session_id == row.session_id && here.name == row.name) {
                return true;
            }
            i += 1;
        }
        false
    }

    /// Adds the row, unless its id or its pair of session and name is taken.
    pub fn insert(&mut self, row: Model) -> (r: Result<(), TableError>)
        requires
            old(self).wf(),
        ensures
            final(self).wf(),
            r is Err <==> old(self).has_id(row.id) || old(self).has_pair(row.session_id, row.name@),
            r is Err ==> r == Err::<(), TableError>(TableError::Duplicate) && final(self).rows() == old(self).rows(),
            r is Ok ==> final(self).rows() == old(self).rows().push(row),
    {
        if self.clashes(&row) {
            return Err(TableError::Duplicate);
        }
        let ghost before = self.rows();
        self.rows.push(row);
        proof {
            assert forall|i: int, j: int| 0 <= i < j < self.rows().len() implies (#[trigger] self.rows()[i]).id != (
            #[trigger] self.rows()[j]).id && !(self.rows()[i].session_id == self.rows()[j].session_id
                && self.rows()[i].name@ == self.rows()[j].name@) by {
                assert(self.rows()[i] == before[i]);
                if j < before.len() {
                    assert(self.rows()[j] == before[j]);
                }
            }
        }
        Ok(())
    }

    /// Sets the end time of the row with that id, unless it has one already.
    pub fn set_ended(&mut self, id: u128, at: i64) -> (r: Result<(), TableError>)
        requires
            old(self).wf(),
        ensures
            final(self).wf(),
            r is Ok <==> old(self).has_id(id),
            r is Err ==> r == Err::<(), TableError>(TableError::Missing) && final(self).rows() == old(self).rows(),
            r is Ok ==> final(self).rows() == old(self).rows().update(
                old(self).position(id),
                ended_row(old(self).rows()[old(self).position(id)], at),
            ),
    {
        match self.find_id(id) {
            None => Err(TableError::Missing),
            Some(i) => {
                let ghost before = self.rows();
                let here = &self.rows[i];
                let ended = match here.ended {
                    Some(t) => Some(t),
                    None => Some(at),
                };
                let row = Model {
                    id: here.id,
                    name: here.name.clone(),
                    started: here.started,
                    ended,
                    session_id: here.session_id,
                    kind: here.kind,
                };
                self.rows.set(i, row);
                proof {
                    assert(self.rows() =~= before.update(i as int, ended_row(before[i as int], at)));
                    assert forall|a: int, b: int| 0 <= a < b < self.rows().len() implies (
                    #[trigger] self.rows()[a]).id != (#[trigger] self.rows()[b]).id && !(self.rows()[a].session_id
                        == self.rows()[b].session_id && self.rows()[a].name@ == self.rows()[b].name@) by {
                        assert(self.rows()[a].id == before[a].id && self.rows()[a].name@ == before[a].name@);
                        assert(self.rows()[b].id == before[b].id && self.rows()[b].name@ == before[b].name@);
                    }
                }
                Ok(())
            },
        }
    }
}

} // verus!
