//! Routing applicator: turns an emitted step volume into the per-cell
//! routing writes, and reduces the per-write outcomes to the set of input
//! channels whose routing must be committed to the hardware.
//!
//! The engine never talks to the hardware itself: the caller performs each
//! returned write, records which ones succeeded, and commits each channel
//! named by [`commit_channels`].  Each write and each commit is attempted
//! independently, so one failing cell never blocks the others.

use vstd::prelude::*;

use crate::channels::{InputChannel, OutputChannel};
use crate::config::{DuckingConfig, RouteCell};

verus! {

/// One routing write: set the cell at (`input`, `output`) to `volume`.
#[derive(Clone, Copy, Debug, PartialEq, Eq, Structural)]
pub struct RouteWrite {
    pub input: InputChannel,
    pub output: OutputChannel,
    pub volume: u8,
}

/// The writes an emission of `volume` produces: one per configured routing
/// cell, in configuration order.
pub open spec fn planned_writes(cfg: DuckingConfig, volume: u8) -> Seq<RouteWrite> {
    cfg.output_routing@.map(
        |i: int, c: RouteCell| RouteWrite { input: c.input, output: c.output, volume: volume },
    )
}

/// Builds the routing writes for an emitted volume: every duck-affected
/// cell receives it, regardless of how any individual write will fare.
pub fn plan_route_writes(cfg: &DuckingConfig, volume: u8) -> (writes: Vec<RouteWrite>)
    ensures
        writes@ == planned_writes(*cfg, volume),
{
    let n = cfg.output_routing.len();
    let mut writes: Vec<RouteWrite> = Vec::new();
    let mut k: usize = 0;
    while k < n
        invariant
            n == cfg.output_routing@.len(),
            k <= n,
            writes@ == planned_writes(*cfg, volume).take(k as int),
        decreases n - k,
    {
        let cell = cfg.output_routing[k];
        writes.push(RouteWrite { input: cell.input, output: cell.output, volume });
        proof {
            assert(writes@ =~= planned_writes(*cfg, volume).take(k + 1));
        }
        k += 1;
    }
    proof {
        assert(writes@ =~= planned_writes(*cfg, volume));
    }
    writes
}

/// Whether some write in `writes[..upto]` succeeded for `input`.
pub open spec fn committed_before(
    writes: Seq<RouteWrite>,
    results: Seq<bool>,
    upto: int,
    input: InputChannel,
) -> bool {
    exists|k: int| 0 <= k < upto && (#[trigger] writes[k]).input == input && results[k]
}

/// Reduces per-write outcomes to the channels to commit: an input channel
/// is committed exactly when at least one of its cells was written
/// successfully, and each channel appears once.  A failed write on one cell
/// therefore never withholds the commit that another cell of the same or
/// of a different channel has earned.
pub fn commit_channels(writes: &Vec<RouteWrite>, results: &Vec<bool>) -> (channels: Vec<
    InputChannel,
>)
    requires
        writes@.len() == results@.len(),
    ensures
        forall|c: InputChannel|
            channels@.contains(c) == committed_before(writes@, results@, writes@.len() as int, c),
        forall|i: int, j: int| 0 <= i < j < channels@.len() ==> channels@[i] != channels@[j],
{
    let n = writes.len();
    let mut channels: Vec<InputChannel> = Vec::new();
    let mut k: usize = 0;
    while k < n
        invariant
            n == writes@.len(),
            results@.len() == n,
            k <= n,
            forall|c: InputChannel|
                channels@.contains(c) == committed_before(writes@, results@, k as int, c),
            forall|i: int, j: int| 0 <= i < j < channels@.len() ==> channels@[i] != channels@[j],
        decreases n - k,
    {
        let input = writes[k].input;
        if results[k] && !channel_listed(&channels, input) {
            let ghost pre = channels@;
            channels.push(input);
            proof {
                assert forall|c: InputChannel|
                    channels@.contains(c) == committed_before(writes@, results@, k + 1, c) by {
                    if c == input {
                        assert(channels@[pre.len() as int] == input);
                        assert((#[trigger] writes@[k as int]).input == c && results@[k as int]);
                    } else {
                        if channels@.contains(c) {
                            let j = choose|j: int|
                                0 <= j < channels@.len() && channels@[j] == c;
                            assert(j < pre.len());
                            assert(pre[j] == c);
                            assert(pre.contains(c));
                            assert(committed_before(writes@, results@, k as int, c));
                        }
                        if committed_before(writes@, results@, k + 1, c) {
                            let i = choose|i: int|
                                0 <= i < k + 1 && (#[trigger] writes@[i]).input == c
                                    && results@[i];
                            assert(i != k);
                            assert(committed_before(writes@, results@, k as int, c));
                            assert(pre.contains(c));
                            let j = choose|j: int| 0 <= j < pre.len() && pre[j] == c;
                            assert(channels@[j] == c);
                            assert(channels@.contains(c));
                        }
                    }
                }
                assert forall|i: int, j: int|
                    0 <= i < j < channels@.len() implies channels@[i] != channels@[j] by {
                    if j == pre.len() {
                        assert(channels@[i] == pre[i]);
                        assert(!pre.contains(input));
                    }
                }
            }
        } else {
            proof {
                assert forall|c: InputChannel|
                    channels@.contains(c) == committed_before(writes@, results@, k + 1, c) by {
                    if committed_before(writes@, results@, k + 1, c) {
                        let i = choose|i: int|
                            0 <= i < k + 1 && (#[trigger] writes@[i]).input == c && results@[i];
                        if i == k {
                            assert(c == input && results@[k as int]);
                            assert(channels@.contains(input));
                        } else {
                            assert(committed_before(writes@, results@, k as int, c));
                        }
                    }
                    if channels@.contains(c) {
                        let i = choose|i: int|
                            0 <= i < k && (#[trigger] writes@[i]).input == c && results@[i];
                        assert(committed_before(writes@, results@, k + 1, c));
                    }
                }
            }
        }
        k += 1;
    }
    channels
}

/// Whether `input` already stands in the commit list.
fn channel_listed(channels: &Vec<InputChannel>, input: InputChannel) -> (b: bool)
    ensures
        b == channels@.contains(input),
{
    let n = channels.len();
    let mut k: usize = 0;
    while k < n
        invariant
            n == channels@.len(),
            k <= n,
            forall|i: int| 0 <= i < k ==> channels@[i] != input,
        decreases n - k,
    {
        if channels[k] == input {
            return true;
        }
        k += 1;
    }
    false
}

} // verus!
