//! The restriction planner: for a list of equality restrictions and an
//! entity's indexes, picks the engine's access path, the restrictions that the
//! engine seeks with, and those that are checked again on each fetched row.
use vstd::prelude::*;
use crate::model::{Restriction, StIndexDef};

verus! {

/// The access path that a plan chose.
#[derive(Debug, Clone, Copy, PartialEq, Eq, Structural)]
pub enum AccessPath {
    /// The index at this position covers the restrictions exactly, in order.
    Composite(usize),
    /// The index at the first position leads with the column of the
    /// restriction at the second position.
    Partial(usize, usize),
    /// No index: the engine walks the whole table.
    FullScan,
}

/// A plan: the access path, the restrictions sent to the engine, and the
/// residual restrictions checked on every fetched row.
#[derive(Debug)]
pub struct Plan {
    pub path: AccessPath,
    pub seek: Vec<Restriction>,
    pub residual: Vec<Restriction>,
}

/// The index's columns are the restrictions' columns, position by position.
pub open spec fn composite_fits(rs: Seq<Restriction>, ix: StIndexDef) -> bool {
    &&& ix.cols@.len() == rs.len()
    &&& forall|i: int| 0 <= i < rs.len() ==> rs[i].name@ == (#[trigger] ix.cols@[i])@
}

/// The first index at or after position `k` that fits the restrictions exactly.
pub open spec fn composite_from(rs: Seq<Restriction>, ixs: Seq<StIndexDef>, k: int) -> Option<int>
    decreases ixs.len() - k,
{
    if k < 0 || k >= ixs.len() {
        None
    } else if composite_fits(rs, ixs[k]) {
        Some(k)
    } else {
        composite_from(rs, ixs, k + 1)
    }
}

/// The first restriction at or after position `i` on column `col`.
pub open spec fn restriction_on_from(rs: Seq<Restriction>, col: Seq<char>, i: int) -> Option<int>
    decreases rs.len() - i,
{
    if i < 0 || i >= rs.len() {
        None
    } else if rs[i].name@ == col {
        Some(i)
    } else {
        restriction_on_from(rs, col, i + 1)
    }
}

/// The first index at or after position `k` whose leading column some
/// restriction names, with the first such restriction.
pub open spec fn partial_from(rs: Seq<Restriction>, ixs: Seq<StIndexDef>, k: int) -> Option<(int, int)>
    decreases ixs.len() - k,
{
    if k < 0 || k >= ixs.len() {
        None
    } else if ixs[k].cols@.len() > 0 && restriction_on_from(rs, ixs[k].cols@[0]@, 0) is Some {
        Some((k, restriction_on_from(rs, ixs[k].cols@[0]@, 0)->Some_0))
    } else {
        partial_from(rs, ixs, k + 1)
    }
}

/// The access path for restrictions `rs` over indexes `ixs`: the first exact
/// composite match; failing that, with more than one restriction, the first
/// index whose leading column is restricted; failing that, a full scan.
pub open spec fn planned_path(rs: Seq<Restriction>, ixs: Seq<StIndexDef>) -> AccessPath {
    match composite_from(rs, ixs, 0) {
        Some(k) => AccessPath::Composite(k as usize),
        None => if rs.len() > 1 {
            match partial_from(rs, ixs, 0) {
                Some(ki) => AccessPath::Partial(ki.0 as usize, ki.1 as usize),
                None => AccessPath::FullScan,
            }
        } else {
            AccessPath::FullScan
        },
    }
}

/// The restrictions that the engine seeks with on `path`.
pub open spec fn planned_seek(rs: Seq<Restriction>, path: AccessPath) -> Seq<Restriction> {
    match path {
        AccessPath::Composite(_) => rs,
        AccessPath::Partial(_, i) => seq![rs[i as int]],
        AccessPath::FullScan => Seq::empty(),
    }
}

/// The restrictions checked again on each row fetched along `path`.
pub open spec fn planned_residual(rs: Seq<Restriction>, path: AccessPath) -> Seq<Restriction> {
    match path {
        AccessPath::Composite(_) => Seq::empty(),
        AccessPath::Partial(_, i) => rs.remove(i as int),
        AccessPath::FullScan => rs,
    }
}

proof fn lemma_composite_found(rs: Seq<Restriction>, ixs: Seq<StIndexDef>, k: int)
    requires
        composite_from(rs, ixs, k) is Some,
    ensures
        ({
            let j = composite_from(rs, ixs, k)->Some_0;
            &&& k <= j < ixs.len()
            &&& composite_fits(rs, ixs[j])
            &&& forall|m: int| k <= m < j ==> !composite_fits(rs, #[trigger] ixs[m])
        }),
    decreases ixs.len() - k,
{
    if !composite_fits(rs, ixs[k]) {
        lemma_composite_found(rs, ixs, k + 1);
    }
}

proof fn lemma_restriction_found(rs: Seq<Restriction>, col: Seq<char>, i: int)
    requires
        restriction_on_from(rs, col, i) is Some,
    ensures
        ({
            let j = restriction_on_from(rs, col, i)->Some_0;
            &&& i <= j < rs.len()
            &&& rs[j].name@ == col
        }),
    decreases rs.len() - i,
{
    if rs[i].name@ != col {
        lemma_restriction_found(rs, col, i + 1);
    }
}

proof fn lemma_partial_found(rs: Seq<Restriction>, ixs: Seq<StIndexDef>, k: int)
    requires
        partial_from(rs, ixs, k) is Some,
    ensures
        ({
            let ki = partial_from(rs, ixs, k)->Some_0;
            &&& k <= ki.0 < ixs.len()
            &&& 0 <= ki.1 < rs.len()
            &&& ixs[ki.0].cols@.len() > 0
            &&& rs[ki.1].name@ == ixs[ki.0].cols@[0]@
        }),
    decreases ixs.len() - k,
{
    if ixs[k].cols@.len() > 0 && restriction_on_from(rs, ixs[k].cols@[0]@, 0) is Some {
        lemma_restriction_found(rs, ixs[k].cols@[0]@, 0);
    } else {
        lemma_partial_found(rs, ixs, k + 1);
    }
}

proof fn lemma_composite_exists(rs: Seq<Restriction>, ixs: Seq<StIndexDef>, k: int, j: int)
    requires
        0 <= k <= j < ixs.len(),
        composite_fits(rs, ixs[j]),
    ensures
        composite_from(rs, ixs, k) is Some,
        composite_from(rs, ixs, k)->Some_0 <= j,
    decreases j - k,
{
    if k < j && !composite_fits(rs, ixs[k]) {
        lemma_composite_exists(rs, ixs, k + 1, j);
    }
}

/// Of two indexes that both fit the restrictions exactly, the plan never takes
/// the one declared later: it takes the first fitting index, at or before the
/// earlier of the two.
pub proof fn lemma_first_composite_wins(
    rs: Seq<Restriction>,
    ixs: Seq<StIndexDef>,
    j1: int,
    j2: int,
)
    requires
        ixs.len() <= usize::MAX,
        0 <= j1 < j2 < ixs.len(),
        composite_fits(rs, ixs[j1]),
        composite_fits(rs, ixs[j2]),
    ensures
        planned_path(rs, ixs) is Composite,
        planned_path(rs, ixs)->Composite_0 as int <= j1,
        composite_fits(rs, ixs[planned_path(rs, ixs)->Composite_0 as int]),
        forall|m: int|
            0 <= m < planned_path(rs, ixs)->Composite_0 as int ==> !composite_fits(rs, #[trigger] ixs[m]),
{
    lemma_composite_exists(rs, ixs, 0, j1);
    lemma_composite_found(rs, ixs, 0);
}

/// The positions that a planned path names are positions of the inputs.
pub proof fn lemma_path_in_bounds(rs: Seq<Restriction>, ixs: Seq<StIndexDef>)
    requires
        rs.len() <= usize::MAX,
        ixs.len() <= usize::MAX,
    ensures
        planned_path(rs, ixs) matches AccessPath::Composite(k) ==> k < ixs.len(),
        planned_path(rs, ixs) matches AccessPath::Partial(k, i) ==> k < ixs.len() && i < rs.len(),
{
    if composite_from(rs, ixs, 0) is Some {
        lemma_composite_found(rs, ixs, 0);
    } else if partial_from(rs, ixs, 0) is Some {
        lemma_partial_found(rs, ixs, 0);
    }
}

/// The restrictions that a plan seeks with are restrictions of its input.
pub proof fn lemma_seek_from_input(rs: Seq<Restriction>, ixs: Seq<StIndexDef>)
    requires
        rs.len() <= usize::MAX,
        ixs.len() <= usize::MAX,
    ensures
        forall|j: int|
            0 <= j < planned_seek(rs, planned_path(rs, ixs)).len() ==> exists|m: int|
                0 <= m < rs.len() && #[trigger] planned_seek(rs, planned_path(rs, ixs))[j] == rs[m],
{
    lemma_path_in_bounds(rs, ixs);
    let path = planned_path(rs, ixs);
    let seek = planned_seek(rs, path);
    assert forall|j: int| 0 <= j < seek.len() implies exists|m: int|
        0 <= m < rs.len() && #[trigger] seek[j] == rs[m] by {
        match path {
            AccessPath::Composite(_) => {
                assert(seek[j] == rs[j]);
            },
            AccessPath::Partial(_, i) => {
                assert(seek[j] == rs[i as int]);
            },
            AccessPath::FullScan => {},
        }
    }
}

impl Restriction {
    /// A copy of this restriction.
    pub fn copy(&self) -> (r: Restriction)
        ensures
            r == *self,
    {
        Restriction { name: self.name.clone(), value: self.value.clone(), assign: self.assign }
    }
}

/// Copies of all restrictions of `rs` but the one at `skip` (none when `skip`
/// is past the end).
fn copy_except(rs: &Vec<Restriction>, skip: usize) -> (r: Vec<Restriction>)
    ensures
        skip < rs@.len() ==> r@ == rs@.remove(skip as int),
        skip >= rs@.len() ==> r@ == rs@,
{
    let mut out: Vec<Restriction> = Vec::new();
    let mut i: usize = 0;
    while i < rs.len()
        invariant
            0 <= i <= rs@.len(),
            skip < i ==> out@ == rs@.subrange(0, i as int).remove(skip as int),
            skip >= i ==> out@ == rs@.subrange(0, i as int),
        decreases rs@.len() - i,
    {
        if i != skip {
            out.push(rs[i].copy());
        }
        proof {
            let s = rs@.subrange(0, i + 1);
            assert(s == rs@.subrange(0, i as int).push(rs@[i as int]));
            if skip < i {
                assert(s.remove(skip as int) == rs@.subrange(0, i as int).remove(skip as int).push(rs@[i as int]));
            } else if skip == i {
                assert(s.remove(skip as int) == rs@.subrange(0, i as int));
            }
        }
        i = i + 1;
    }
    proof {
        assert(rs@.subrange(0, rs@.len() as int) == rs@);
    }
    out
}

/// Whether `ix` covers `rs` exactly, column by column.
fn fits_composite(rs: &Vec<Restriction>, ix: &StIndexDef) -> (r: bool)
    ensures
        r == composite_fits(rs@, *ix),
{
    if ix.cols.len() != rs.len() {
        return false;
    }
    let mut i: usize = 0;
    while i < rs.len()
        invariant
            ix.cols@.len() == rs@.len(),
            0 <= i <= rs@.len(),
            forall|j: int| 0 <= j < i ==> rs@[j].name@ == (#[trigger] ix.cols@[j])@,
        decreases rs@.len() - i,
    {
        if rs[i].name != ix.cols[i] {
            return false;
        }
        i = i + 1;
    }
    true
}

/// Position of the first restriction on column `col`.
fn find_restriction(rs: &Vec<Restriction>, col: &String) -> (r: Option<usize>)
    ensures
        r matches Some(i) ==> restriction_on_from(rs@, col@, 0) == Some(i as int),
        r is None ==> restriction_on_from(rs@, col@, 0) is None,
{
    let mut i: usize = 0;
    while i < rs.len()
        invariant
            0 <= i <= rs@.len(),
            restriction_on_from(rs@, col@, 0) == restriction_on_from(rs@, col@, i as int),
        decreases rs@.len() - i,
    {
        if rs[i].name == *col {
            return Some(i);
        }
        i = i + 1;
    }
    None
}

/// Plans an equality query: see `planned_path`, `planned_seek` and
/// `planned_residual`.
pub fn plan(restrictions: &Vec<Restriction>, indexes: &Vec<StIndexDef>) -> (p: Plan)
    ensures
        p.path == planned_path(restrictions@, indexes@),
        p.seek@ == planned_seek(restrictions@, p.path),
        p.residual@ == planned_residual(restrictions@, p.path),
{
    let ghost rs = restrictions@;
    let ghost ixs = indexes@;
    let mut k: usize = 0;
    while k < indexes.len()
        invariant
            0 <= k <= ixs.len(),
            rs == restrictions@,
            ixs == indexes@,
            composite_from(rs, ixs, 0) == composite_from(rs, ixs, k as int),
        decreases ixs.len() - k,
    {
        if fits_composite(restrictions, &indexes[k]) {
            let seek = copy_except(restrictions, restrictions.len());
            return Plan { path: AccessPath::Composite(k), seek, residual: Vec::new() };
        }
        k = k + 1;
    }
    if restrictions.len() > 1 {
        let mut k: usize = 0;
        while k < indexes.len()
            invariant
                0 <= k <= ixs.len(),
                rs == restrictions@,
                ixs == indexes@,
                rs.len() > 1,
                composite_from(rs, ixs, 0) is None,
                partial_from(rs, ixs, 0) == partial_from(rs, ixs, k as int),
            decreases ixs.len() - k,
        {
            let ix = &indexes[k];
            if ix.cols.len() > 0 {
                match find_restriction(restrictions, &ix.cols[0]) {
                    Some(i) => {
                        proof {
                            lemma_restriction_found(rs, ix.cols@[0]@, 0);
                        }
                        let mut seek: Vec<Restriction> = Vec::new();
                        seek.push(restrictions[i].copy());
                        let residual = copy_except(restrictions, i);
                        return Plan { path: AccessPath::Partial(k, i), seek, residual };
                    },
                    None => {},
                }
            }
            k = k + 1;
        }
    }
    let residual = copy_except(restrictions, restrictions.len());
    Plan { path: AccessPath::FullScan, seek: Vec::new(), residual }
}

/// The engine's selector for `path`: the declared slot of the chosen index, or
/// `-1` for a full scan.
pub fn index_selector(path: AccessPath, indexes: &Vec<StIndexDef>) -> (r: i32)
    ensures
        path is FullScan ==> r == -1,
        path matches AccessPath::Composite(k) ==> (k < indexes@.len() ==> r == indexes@[k as int].idx_slot),
        path matches AccessPath::Partial(k, _) ==> (k < indexes@.len() ==> r == indexes@[k as int].idx_slot),
{
    match path {
        AccessPath::Composite(k) => if k < indexes.len() { indexes[k].idx_slot as i32 } else { -1 },
        AccessPath::Partial(k, _) => if k < indexes.len() { indexes[k].idx_slot as i32 } else { -1 },
        AccessPath::FullScan => -1,
    }
}

} // verus!
