use crate::clock::{clock_elapsed_micros, clock_start};
use crate::error::BenchmarkError;
use crate::models::TableKind;
use crate::store::Store;
use vstd::prelude::*;

verus! {

/// Pattern four, the range-query probe: for each relative time window —
/// measured backward from the store's notion of now — issue one scan of the
/// block table for all rows at or after the window's start, and record the
/// wall-clock latency of that single call. The output pairs every window
/// with its latency, one pair per window and in exactly the input order,
/// because downstream reporting addresses the results positionally.
pub fn probe_ranges<S: Store>(store: &mut S, windows: &Vec<u64>) -> (r: Result<
    Vec<(u64, u64)>,
    BenchmarkError,
>)
    ensures
        forall|j: TableKind| #[trigger] final (store).table(j) == old(store).table(j),
        r matches Ok(lat) ==> {
            &&& lat@.len() == windows@.len()
            &&& forall|i: int| 0 <= i < lat@.len() ==> (#[trigger] lat@[i]).0 == windows@[i]
        },
        windows@.len() == 0 ==> r is Ok,
{
    let mut out: Vec<(u64, u64)> = Vec::new();
    let n = windows.len();
    let mut i: usize = 0;
    while i < n
        invariant
            n == windows@.len(),
            i <= n,
            out@.len() == i,
            forall|j: TableKind| #[trigger] store.table(j) == old(store).table(j),
            forall|x: int| 0 <= x < i ==> (#[trigger] out@[x]).0 == windows@[x],
        decreases n - i,
    {
        let w = windows[i];
        let t = clock_start();
        match store.query_window(TableKind::Blocks, w) {
            Ok(_rows) => {},
            Err(e) => {
                return Err(e);
            },
        }
        let lat = clock_elapsed_micros(&t);
        out.push((w, lat));
        i = i + 1;
    }
    Ok(out)
}

} // verus!
