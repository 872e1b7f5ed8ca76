//! Assembly of whole query results: convert every row of a result set into a
//! typed record, take only the first row as an optional record, and carry
//! the acknowledgement of a statement that returns no rows.
//!
//! The rows arrive here already fetched, in server-return order; running the
//! query against a connection is the caller's affair.

use vstd::prelude::*;

use crate::row::{result_matches, MapError, Row};
use crate::FromRow;

verus! {

/// Convert a whole result set, row by row and in order, into a sequence of
/// records.  All rows convert or the whole call fails: the error of the
/// first row that does not convert is returned and no partial sequence is
/// handed out.  An empty result set yields an empty sequence, not an error.
pub fn query_many<T: FromRow>(rows: Vec<Row>) -> (r: Result<Vec<T>, MapError>)
    ensures
        r is Ok <==> (forall|i: int|
            0 <= i < rows@.len() ==> #[trigger] T::spec_from_row(rows@[i]) is Ok),
        r matches Ok(v) ==> v@.len() == rows@.len() && (forall|i: int|
            0 <= i < rows@.len() ==> (#[trigger] T::spec_from_row(rows@[i]) matches Ok(t)
                && v@[i] == t)),
        r matches Err(e) ==> (exists|i: int|
            0 <= i < rows@.len() && (#[trigger] T::spec_from_row(rows@[i]) matches Err(se) && e@
                == se) && (forall|j: int| 0 <= j < i ==> T::spec_from_row(rows@[j]) is Ok)),
        rows@.len() == 0 ==> (r matches Ok(v) && v@.len() == 0),
{
    let ghost all = rows@;
    let mut rows = rows;
    let mut items: Vec<T> = Vec::new();
    proof {
        assert(all.skip(0) =~= all);
    }
    #[verifier::loop_isolation(false)]
    while rows.len() > 0
        invariant
            items@.len() + rows@.len() == all.len(),
            rows@ == all.skip(items@.len() as int),
            forall|j: int|
                0 <= j < items@.len() ==> (#[trigger] T::spec_from_row(all[j]) matches Ok(t)
                    && items@[j] == t),
        decreases rows@.len(),
    {
        let ghost k = items@.len() as int;
        proof {
            assert(rows@[0] == all[k]);
            assert(rows@.remove(0) =~= all.skip(k + 1));
        }
        let row = rows.remove(0);
        match T::from_row(row) {
            Ok(t) => {
                items.push(t);
            },
            Err(e) => {
                proof {
                    assert(T::spec_from_row(all[k]) matches Err(se) && e@ == se);
                    assert(!(T::spec_from_row(all[k]) is Ok));
                }
                return Err(e);
            },
        }
    }
    proof {
        assert(items@.len() == all.len());
    }
    Ok(items)
}

/// Convert only the first row of a result set, if there is one.  An empty
/// result set yields the "absent" state, not an error; a non-empty one
/// yields the mapped first row only, whatever rows follow it; a first row
/// that does not convert is still an error.
pub fn query_first_or_none<T: FromRow>(rows: Vec<Row>) -> (r: Result<Option<T>, MapError>)
    ensures
        rows@.len() == 0 ==> (r matches Ok(o) && o is None),
        rows@.len() > 0 ==> match T::spec_from_row(rows@[0]) {
            Ok(t) => r matches Ok(o) && o == Some(t),
            Err(se) => r matches Err(e) && e@ == se,
        },
{
    let mut rows = rows;
    if rows.len() == 0 {
        Ok(None)
    } else {
        let first = rows.remove(0);
        match T::from_row(first) {
            Ok(t) => Ok(Some(t)),
            Err(e) => Err(e),
        }
    }
}

/// The sum of a sequence of row counts.
pub open spec fn sum_of(counts: Seq<u64>) -> int
    decreases counts.len(),
{
    if counts.len() == 0 {
        0
    } else {
        sum_of(counts.drop_last()) + counts.last()
    }
}

/// A prefix never sums to more than the whole sequence of counts.
proof fn lemma_sum_of_prefix(counts: Seq<u64>, n: int)
    requires
        0 <= n <= counts.len(),
    ensures
        sum_of(counts.take(n)) <= sum_of(counts),
    decreases counts.len() - n,
{
    if n == counts.len() {
        assert(counts.take(n) =~= counts);
    } else {
        assert(counts.take(n + 1).drop_last() =~= counts.take(n));
        lemma_sum_of_prefix(counts, n + 1);
    }
}

/// The acknowledgement of a statement that produces no rows: the number of
/// records each part of the statement affected, and no typed payload.
#[derive(Debug)]
pub struct ExecutionAck {
    pub rows_affected: Vec<u64>,
}

impl ExecutionAck {
    /// The total number of affected records.
    pub open spec fn spec_total(self) -> int {
        sum_of(self.rows_affected@)
    }

    /// The total number of affected records, over all parts of the
    /// statement.
    pub fn total(&self) -> (r: u64)
        requires
            self.spec_total() <= u64::MAX,
        ensures
            r == self.spec_total(),
    {
        let n = self.rows_affected.len();
        let mut acc: u64 = 0;
        let mut i: usize = 0;
        proof {
            assert(self.rows_affected@.take(0) =~= Seq::<u64>::empty());
        }
        while i < n
            invariant
                n == self.rows_affected@.len(),
                i <= n,
                acc == sum_of(self.rows_affected@.take(i as int)),
                sum_of(self.rows_affected@) <= u64::MAX,
            decreases n - i,
        {
            proof {
                assert(self.rows_affected@.take(i as int + 1).drop_last() =~= self.rows_affected@
                    .take(i as int));
                assert(self.rows_affected@.take(i as int + 1).last() == self.rows_affected@[
                    i as int]);
                lemma_sum_of_prefix(self.rows_affected@, i as int + 1);
            }
            acc = acc + self.rows_affected[i];
            i += 1;
        }
        proof {
            assert(self.rows_affected@.take(n as int) =~= self.rows_affected@);
        }
        acc
    }
}

} // verus!
