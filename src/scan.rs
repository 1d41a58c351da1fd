use vstd::prelude::*;

use crate::error::HyperVError;
use crate::field::FieldValue;

verus! {

/// One advance of a forward-only result cursor, as the name scan sees it.
#[derive(Debug, PartialEq, Eq)]
pub enum CursorStep {
    /// No row came: the stream ended, or the advance itself failed.
    Exhausted,
    /// A row came; this is the outcome of extracting the name field from it.
    Row(Result<FieldValue, HyperVError>),
}

/// Whether a step yields a name and so lets the scan go on.
pub open spec fn yields_name(step: CursorStep) -> bool {
    step matches CursorStep::Row(Ok(FieldValue::Text(_)))
}

/// Whether a scan that has seen `steps` still asks for rows.
pub open spec fn scan_open(steps: Seq<CursorStep>) -> bool {
    forall|i: int| 0 <= i < steps.len() ==> yields_name(#[trigger] steps[i])
}

/// The names that a cursor walk yields: the name of each row, in cursor
/// order, up to the first step that yields none. That step ends the walk;
/// it is an error only where the extraction failed hard. Later steps are
/// never looked at.
pub open spec fn scan_names(steps: Seq<CursorStep>) -> Result<Seq<Seq<char>>, HyperVError>
    decreases steps.len(),
{
    if steps.len() == 0 {
        Ok(Seq::empty())
    } else {
        match steps[0] {
            CursorStep::Row(Ok(FieldValue::Text(s))) => match scan_names(steps.drop_first()) {
                Ok(rest) => Ok(seq![s@] + rest),
                Err(e) => Err(e),
            },
            CursorStep::Row(Err(e)) => Err(e),
            _ => Ok(Seq::empty()),
        }
    }
}

/// The outcome of one enumeration: a rejected query fails with no names;
/// otherwise the cursor walk decides.
pub open spec fn enumeration(query: Result<(), i32>, steps: Seq<CursorStep>) -> Result<
    Seq<Seq<char>>,
    HyperVError,
> {
    match query {
        Err(c) => Err(HyperVError::Query(c)),
        Ok(_) => scan_names(steps),
    }
}

/// The character sequences of a list of strings.
pub open spec fn strings_view(v: Seq<String>) -> Seq<Seq<char>> {
    v.map_values(|s: String| s@)
}

proof fn lemma_scan_push_open(steps: Seq<CursorStep>, step: CursorStep)
    requires
        scan_open(steps),
    ensures
        scan_names(steps) is Ok,
        scan_names(steps.push(step)) == match step {
            CursorStep::Row(Ok(FieldValue::Text(s))) => Ok(scan_names(steps)->Ok_0.push(s@)),
            CursorStep::Row(Err(e)) => Err(e),
            _ => Ok(scan_names(steps)->Ok_0),
        },
    decreases steps.len(),
{
    if steps.len() > 0 {
        let tail = steps.drop_first();
        assert(steps.push(step).drop_first() =~= tail.push(step));
        assert(scan_open(tail)) by {
            assert forall|i: int| 0 <= i < tail.len() implies yields_name(#[trigger] tail[i]) by {
                assert(tail[i] == steps[i + 1]);
            }
        }
        lemma_scan_push_open(tail, step);
        assert(yields_name(steps[0]));
        assert(steps.push(step)[0] == steps[0]);
        if let CursorStep::Row(Ok(FieldValue::Text(s))) = steps[0] {
            let rest = scan_names(tail)->Ok_0;
            assert(scan_names(steps) == Ok::<Seq<Seq<char>>, HyperVError>(seq![s@] + rest));
            match step {
                CursorStep::Row(Ok(FieldValue::Text(t))) => {
                    assert(scan_names(tail.push(step)) == Ok::<Seq<Seq<char>>, HyperVError>(
                        rest.push(t@),
                    ));
                    assert(seq![s@] + rest.push(t@) =~= (seq![s@] + rest).push(t@));
                },
                CursorStep::Row(Err(e)) => {
                    assert(scan_names(tail.push(step)) == Err::<Seq<Seq<char>>, HyperVError>(e));
                },
                _ => {
                    assert(scan_names(tail.push(step)) == Ok::<Seq<Seq<char>>, HyperVError>(rest));
                },
            }
        }
    } else {
        assert(steps.push(step) =~= seq![step]);
        assert(seq![step].drop_first() =~= Seq::<CursorStep>::empty());
        assert(scan_names(seq![step].drop_first()) == Ok::<Seq<Seq<char>>, HyperVError>(
            Seq::empty(),
        ));
        match step {
            CursorStep::Row(Ok(FieldValue::Text(t))) => {
                assert(seq![t@] + Seq::<Seq<char>>::empty() =~= Seq::<Seq<char>>::empty().push(
                    t@,
                ));
            },
            _ => {},
        }
    }
}

proof fn lemma_scan_push_closed(steps: Seq<CursorStep>, step: CursorStep)
    requires
        !scan_open(steps),
    ensures
        scan_names(steps.push(step)) == scan_names(steps),
    decreases steps.len(),
{
    let tail = steps.drop_first();
    assert(steps.push(step).drop_first() =~= tail.push(step));
    assert(steps.push(step)[0] == steps[0]);
    if yields_name(steps[0]) {
        assert(!scan_open(tail)) by {
            if scan_open(tail) {
                assert forall|i: int| 0 <= i < steps.len() implies yields_name(#[trigger] steps[i]) by {
                    if i > 0 {
                        assert(steps[i] == tail[i - 1]);
                    }
                }
            }
        }
        lemma_scan_push_closed(tail, step);
    }
}

/// A query whose cursor yields no row at all (the first advance finds
/// nothing) produces an empty list of names and no error.
pub proof fn lemma_no_rows_no_names(steps: Seq<CursorStep>)
    requires
        steps.len() > 0 ==> steps[0] is Exhausted,
    ensures
        enumeration(Ok(()), steps) == Ok::<Seq<Seq<char>>, HyperVError>(Seq::empty()),
{
}

/// Rows that all lack the name field produce an empty list of names and no
/// error.
pub proof fn lemma_nameless_rows_no_names(steps: Seq<CursorStep>)
    requires
        forall|i: int|
            0 <= i < steps.len() ==> #[trigger] steps[i] == CursorStep::Row(
                Ok::<FieldValue, HyperVError>(FieldValue::Absent),
            ) || steps[i] is Exhausted,
    ensures
        enumeration(Ok(()), steps) == Ok::<Seq<Seq<char>>, HyperVError>(Seq::empty()),
{
    if steps.len() > 0 {
        assert(steps[0] == CursorStep::Row(Ok::<FieldValue, HyperVError>(FieldValue::Absent))
            || steps[0] is Exhausted);
    }
}

enum ScanState {
    Active,
    Finished,
    Failed(HyperVError),
}

/// The names collected from one query's cursor.
///
/// The caller runs the query and hands its status to [`NameScan::start`];
/// then, while [`NameScan::wants_rows`] holds, it advances the cursor,
/// extracts the name field of the row that came, and hands the outcome to
/// [`NameScan::accept`]. [`NameScan::finish`] gives the enumeration's result.
pub struct NameScan {
    names: Vec<String>,
    state: ScanState,
    query: Ghost<Result<(), i32>>,
    steps: Ghost<Seq<CursorStep>>,
}

impl NameScan {
    /// The status of the query that this scan walks.
    pub closed spec fn query(self) -> Result<(), i32> {
        self.query@
    }

    /// Every step handed to the scan, in order.
    pub closed spec fn steps(self) -> Seq<CursorStep> {
        self.steps@
    }

    /// Whether the scan still asks for rows.
    pub closed spec fn open(self) -> bool {
        self.state is Active
    }

    /// The scan's internal consistency, which every operation keeps.
    pub closed spec fn wf(self) -> bool {
        match self.state {
            ScanState::Active => {
                &&& self.query@ is Ok
                &&& scan_open(self.steps@)
                &&& scan_names(self.steps@) == Ok::<Seq<Seq<char>>, HyperVError>(
                    strings_view(self.names@),
                )
            },
            ScanState::Finished => {
                &&& self.query@ is Ok
                &&& !scan_open(self.steps@)
                &&& scan_names(self.steps@) == Ok::<Seq<Seq<char>>, HyperVError>(
                    strings_view(self.names@),
                )
            },
            ScanState::Failed(e) => {
                &&& self.query@ is Err || !scan_open(self.steps@)
                &&& enumeration(self.query@, self.steps@) == Err::<Seq<Seq<char>>, HyperVError>(e)
            },
        }
    }

    /// Starts a scan over the cursor of a query whose execution reported
    /// `query` (the failure code where the namespace rejected it).
    pub fn start(query: Result<(), i32>) -> (r: NameScan)
        ensures
            r.wf(),
            r.query() == query,
            r.steps() == Seq::<CursorStep>::empty(),
            r.open() == query is Ok,
    {
        let state = match query {
            Ok(_) => ScanState::Active,
            Err(c) => ScanState::Failed(HyperVError::Query(c)),
        };
        let names: Vec<String> = Vec::new();
        assert(strings_view(names@) =~= Seq::<Seq<char>>::empty());
        NameScan {
            names,
            state,
            query: Ghost(query),
            steps: Ghost(Seq::empty()),
        }
    }

    /// Whether the caller should advance the cursor and hand over another step.
    pub fn wants_rows(&self) -> (r: bool)
        requires
            self.wf(),
        ensures
            r == self.open(),
    {
        match self.state {
            ScanState::Active => true,
            _ => false,
        }
    }

    /// Takes one cursor step. A step handed over after the scan stopped
    /// changes nothing but the record of steps. Returns whether the scan
    /// still asks for rows.
    pub fn accept(&mut self, step: CursorStep) -> (more: bool)
        requires
            old(self).wf(),
        ensures
            final(self).wf(),
            final(self).query() == old(self).query(),
            final(self).steps() == old(self).steps().push(step),
            final(self).open() == (old(self).open() && yields_name(step)),
            more == final(self).open(),
    {
        let ghost before = self.steps@;
        let ghost g = step;
        self.steps = Ghost(before.push(g));
        proof {
            if scan_open(before) {
                lemma_scan_push_open(before, g);
            } else {
                lemma_scan_push_closed(before, g);
            }
        }
        match self.state {
            ScanState::Active => {
                assert(self.steps@ == before.push(g));
                match step {
                    CursorStep::Row(Ok(FieldValue::Text(s))) => {
                        self.names.push(s);
                        assert(strings_view(self.names@) =~= strings_view(
                            old(self).names@,
                        ).push(s@));
                        assert(scan_open(self.steps@)) by {
                            assert forall|i: int| 0 <= i < self.steps@.len() implies yields_name(
                                #[trigger] self.steps@[i],
                            ) by {
                                if i < before.len() {
                                    assert(self.steps@[i] == before[i]);
                                }
                            }
                        }
                        true
                    },
                    CursorStep::Row(Err(e)) => {
                        assert(!yields_name(self.steps@[before.len() as int]));
                        self.state = ScanState::Failed(e);
                        false
                    },
                    _ => {
                        assert(!yields_name(self.steps@[before.len() as int]));
                        self.state = ScanState::Finished;
                        false
                    },
                }
            },
            _ => {
                assert(self.query@ is Err || !scan_open(self.steps@)) by {
                    if self.query@ is Ok {
                        let i = choose|i: int| 0 <= i < before.len() && !yields_name(before[i]);
                        assert(self.steps@[i] == before[i]);
                    }
                }
                false
            },
        }
    }

    /// The enumeration's result: the names in cursor order, or the error that
    /// ended it (no names then).
    pub fn finish(self) -> (r: Result<Vec<String>, HyperVError>)
        requires
            self.wf(),
        ensures
            match r {
                Ok(v) => enumeration(self.query(), self.steps()) == Ok::<
                    Seq<Seq<char>>,
                    HyperVError,
                >(strings_view(v@)),
                Err(e) => enumeration(self.query(), self.steps()) == Err::<
                    Seq<Seq<char>>,
                    HyperVError,
                >(e),
            },
    {
        match self.state {
            ScanState::Failed(e) => Err(e),
            _ => Ok(self.names),
        }
    }
}

} // verus!
