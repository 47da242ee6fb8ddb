//! Shared constraint planner for the three virtual tables.
//!
//! Each table exposes exactly one hidden "parent key" column (the raw
//! document bytes for the pages table, the page handle for the object
//! tables). A scan is plannable only when the query supplies a usable
//! equality constraint on that column; the matching constraint is bound to
//! argument slot 1 and omitted from post-filter re-checks. A plan without
//! such a constraint is rejected outright instead of degrading to an
//! unindexed full scan.

use vstd::prelude::*;

verus! {

/// Comparison operator of a candidate filter constraint, mirroring the
/// operators the query engine can propose.
#[derive(Clone, Copy, PartialEq, Eq, Structural, Debug)]
pub enum ConstraintOp {
    Eq,
    Gt,
    Le,
    Lt,
    Ge,
    Match,
    Like,
    Glob,
    Regexp,
    Ne,
    IsNot,
    IsNotNull,
    IsNull,
    Is,
    Limit,
    Offset,
    Function(u8),
}

/// One candidate filter constraint as offered by the query planner:
/// the column it tests, the operator (when recognised), and whether the
/// engine allows this scan to rely on it.
#[derive(Clone, Copy, PartialEq, Eq, Structural, Debug)]
pub struct ConstraintInfo {
    pub column: i32,
    pub op: Option<ConstraintOp>,
    pub usable: bool,
}

/// How the accepted plan uses one constraint: the argument slot its value
/// is passed in (if any), and whether the engine may skip re-checking it.
#[derive(Clone, Copy, PartialEq, Eq, Structural, Debug)]
pub struct ConstraintUsage {
    pub argv_index: Option<i32>,
    pub omit: bool,
}

/// An accepted scan plan: per-constraint usage, the plan identifier, and
/// the fixed cost/row estimates (no statistics exist for these tables).
#[derive(Clone, PartialEq, Debug)]
pub struct ScanPlan {
    pub usage: Vec<ConstraintUsage>,
    pub idx_num: i32,
    pub estimated_cost: i64,
    pub estimated_rows: i64,
}

/// Why a scan was rejected at planning time.
#[derive(Clone, Copy, PartialEq, Eq, Structural, Debug)]
pub enum PlanError {
    /// A constraint tests the parent-key column but is unusable or not an
    /// equality test.
    UnusableParentKey,
    /// No constraint tests the parent-key column at all.
    MissingParentKey,
}

/// A usable equality constraint on the parent-key column: the one kind of
/// constraint that makes a scan plannable.
pub open spec fn is_parent_eq(c: ConstraintInfo, key: i32) -> bool {
    c.column == key && c.usable && c.op == Some(ConstraintOp::Eq)
}

/// A constraint that names the parent-key column but cannot serve as the
/// scan's key: its presence rejects the whole plan.
pub open spec fn is_parent_violation(c: ConstraintInfo, key: i32) -> bool {
    c.column == key && !(c.usable && c.op == Some(ConstraintOp::Eq))
}

pub open spec fn has_parent_eq(cs: Seq<ConstraintInfo>, key: i32) -> bool {
    exists|i: int| 0 <= i < cs.len() && is_parent_eq(cs[i], key)
}

pub open spec fn has_parent_violation(cs: Seq<ConstraintInfo>, key: i32) -> bool {
    exists|i: int| 0 <= i < cs.len() && is_parent_violation(cs[i], key)
}

/// The usage the planner assigns to one constraint: a parent-key equality
/// constraint is bound to argument slot 1 and omitted from re-checks;
/// every other constraint is left to the engine.
pub open spec fn usage_for(c: ConstraintInfo, key: i32) -> ConstraintUsage {
    if is_parent_eq(c, key) {
        ConstraintUsage { argv_index: Some(1), omit: true }
    } else {
        ConstraintUsage { argv_index: None, omit: false }
    }
}

/// The planner's full contract, as a relation between its input and its
/// result.
pub open spec fn plan_matches(
    cs: Seq<ConstraintInfo>,
    key: i32,
    r: Result<ScanPlan, PlanError>,
) -> bool {
    &&& (r is Err <==> has_parent_violation(cs, key) || !has_parent_eq(cs, key))
    &&& (r == Result::<ScanPlan, PlanError>::Err(PlanError::UnusableParentKey) <==> has_parent_violation(cs, key))
    &&& (r == Result::<ScanPlan, PlanError>::Err(PlanError::MissingParentKey) <==> !has_parent_violation(cs, key)
        && !has_parent_eq(cs, key))
    &&& (r is Ok ==> {
        let p = r->Ok_0;
        &&& has_parent_eq(cs, key)
        &&& !has_parent_violation(cs, key)
        &&& p.usage@.len() == cs.len()
        &&& forall|i: int| 0 <= i < cs.len() ==> p.usage@[i] == usage_for(cs[i], key)
        &&& p.idx_num == 2
        &&& p.estimated_cost == 100000
        &&& p.estimated_rows == 100000
    })
}

/// Decide whether a scan over a table whose hidden parent-key column is
/// `key` can run under the offered constraints, and how each constraint is
/// used if so.
pub fn plan_scan(constraints: &Vec<ConstraintInfo>, key: i32) -> (r: Result<ScanPlan, PlanError>)
    ensures
        plan_matches(constraints@, key, r),
{
    let mut usage: Vec<ConstraintUsage> = Vec::new();
    let mut found = false;
    let n = constraints.len();
    let mut i: usize = 0;
    while i < n
        invariant
            n == constraints@.len(),
            0 <= i <= n,
            usage@.len() == i,
            forall|j: int| 0 <= j < i ==> usage@[j] == usage_for(constraints@[j], key),
            found <==> has_parent_eq(constraints@.subrange(0, i as int), key),
            !has_parent_violation(constraints@.subrange(0, i as int), key),
        decreases n - i,
    {
        let c = constraints[i];
        if c.column == key {
            let is_eq = match c.op {
                Some(ConstraintOp::Eq) => true,
                _ => false,
            };
            if c.usable && is_eq {
                usage.push(ConstraintUsage { argv_index: Some(1), omit: true });
                found = true;
            } else {
                proof {
                    assert(is_parent_violation(constraints@[i as int], key));
                }
                return Err(PlanError::UnusableParentKey);
            }
        } else {
            usage.push(ConstraintUsage { argv_index: None, omit: false });
        }
        proof {
            assert(constraints@.subrange(0, i + 1 as int).drop_last() =~= constraints@.subrange(
                0,
                i as int,
            ));
            assert(constraints@.subrange(0, i + 1 as int).last() == constraints@[i as int]);
        }
        i = i + 1;
    }
    proof {
        assert(constraints@.subrange(0, n as int) =~= constraints@);
    }
    if !found {
        return Err(PlanError::MissingParentKey);
    }
    Ok(ScanPlan { usage, idx_num: 2, estimated_cost: 100000, estimated_rows: 100000 })
}

/// A scan plan that offers no usable equality constraint on the hidden
/// parent-key column is rejected at planning time: the planner never
/// accepts it, so the table can never silently produce zero or all rows
/// for such a query.
pub proof fn plan_rejects_without_parent_eq(
    cs: Seq<ConstraintInfo>,
    key: i32,
    r: Result<ScanPlan, PlanError>,
)
    requires
        forall|i: int| 0 <= i < cs.len() ==> !is_parent_eq(cs[i], key),
        plan_matches(cs, key, r),
    ensures
        r is Err,
{
    assert(!has_parent_eq(cs, key));
    if !has_parent_violation(cs, key) {
        assert(r == Result::<ScanPlan, PlanError>::Err(PlanError::MissingParentKey));
    }
}

} // verus!
