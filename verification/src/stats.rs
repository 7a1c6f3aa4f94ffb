use std::collections::VecDeque;
use vstd::prelude::*;
use vstd::string::*;
use crate::text_util::{decimal, decimal_string};

verus! {

/// How the memory is used, in bytes.
#[derive(Debug, Clone)]
pub struct MemoryDetails {
    pub used: u64,
    pub free: u64,
    pub total: u64,
    pub cached: u64,
    pub buffers: u64,
    pub swap_used: u64,
    pub swap_total: u64,
}

/// A disk and how full it is, in bytes.
#[derive(Debug, Clone)]
pub struct DiskStats {
    pub name: String,
    pub mount_point: String,
    pub total_space: u64,
    pub available_space: u64,
    pub read_bytes: u64,
    pub write_bytes: u64,
}

/// The bytes that went through a network interface since it came up.
#[derive(Debug, Clone)]
pub struct InterfaceTotals {
    pub name: String,
    pub received: u64,
    pub transmitted: u64,
}

/// The bytes that went through an interface, both ways.
pub open spec fn traffic(interface: InterfaceTotals) -> nat {
    (interface.received + interface.transmitted) as nat
}

/// Whether interface `i` is the primary one: none has more traffic, and
/// none before it has as much.
pub open spec fn is_primary(interfaces: Seq<InterfaceTotals>, i: int) -> bool {
    &&& 0 <= i < interfaces.len()
    &&& forall|j: int|
        0 <= j < interfaces.len() ==> traffic(#[trigger] interfaces[j]) <= traffic(interfaces[i])
    &&& forall|j: int| 0 <= j < i ==> traffic(#[trigger] interfaces[j]) < traffic(interfaces[i])
}

/// The samples after one more was taken: the new one comes last, and the
/// oldest leaves where there would be more than `max_samples`.
pub open spec fn with_sample<T>(samples: Seq<T>, sample: T, max_samples: nat) -> Seq<T> {
    let all = samples.push(sample);
    if all.len() > max_samples {
        all.drop_first()
    } else {
        all
    }
}

/// The time that the machine has been up, in words: days, hours and
/// minutes, without the larger units that are 0; `N/A` for no time.
pub open spec fn uptime_label(seconds: nat) -> Seq<char> {
    let days = seconds / 86400;
    let hours = (seconds % 86400) / 3600;
    let minutes = (seconds % 3600) / 60;
    if seconds == 0 {
        "N/A"@
    } else if days > 0 {
        decimal(days) + "d "@ + decimal(hours) + "h "@ + decimal(minutes) + "m"@
    } else if hours > 0 {
        decimal(hours) + "h "@ + decimal(minutes) + "m"@
    } else {
        decimal(minutes) + "m"@
    }
}

/// The memory's figures; what is cached and what is in buffers is not
/// known and counts as 0.
pub fn memory_details(used: u64, free: u64, total: u64, swap_used: u64, swap_total: u64) -> (m:
    MemoryDetails)
    ensures
        m.used == used,
        m.free == free,
        m.total == total,
        m.cached == 0,
        m.buffers == 0,
        m.swap_used == swap_used,
        m.swap_total == swap_total,
{
    MemoryDetails {
        used,
        free,
        total,
        cached: used.saturating_sub(used),
        buffers: 0,
        swap_used,
        swap_total,
    }
}

/// The interface that the rates are measured on: the one with the most
/// traffic, the first of them where several have as much.
pub fn primary_interface(interfaces: &Vec<InterfaceTotals>) -> (primary: Option<usize>)
    ensures
        match primary {
            Some(i) => is_primary(interfaces@, i as int),
            None => interfaces@.len() == 0,
        },
{
    let n: usize = interfaces.len();
    if n == 0 {
        return None;
    }
    let mut best: usize = 0;
    let mut most: u128 = interfaces[0].received as u128 + interfaces[0].transmitted as u128;
    let mut i: usize = 1;
    while i < n
        invariant
            1 <= i <= n,
            n == interfaces@.len(),
            best < i,
            most == traffic(interfaces@[best as int]),
            forall|j: int| 0 <= j < i ==> traffic(#[trigger] interfaces@[j]) <= most,
            forall|j: int| 0 <= j < best ==> traffic(#[trigger] interfaces@[j]) < most,
        decreases n - i,
    {
        let total: u128 = interfaces[i].received as u128 + interfaces[i].transmitted as u128;
        if total > most {
            most = total;
            best = i;
        }
        i += 1;
    }
    Some(best)
}

/// Takes one more sample into a history of at most `max_samples`.
pub fn push_sample<T>(samples: &mut VecDeque<T>, sample: T, max_samples: usize)
    ensures
        final(samples)@ == with_sample(old(samples)@, sample, max_samples as nat),
{
    samples.push_back(sample);
    if samples.len() > max_samples {
        let _ = samples.pop_front();
    }
}

/// Writes the time that the machine has been up.
pub fn uptime_text(seconds: u64) -> (text: String)
    ensures
        text@ == uptime_label(seconds as nat),
{
    if seconds == 0 {
        return "N/A".to_owned();
    }
    let days: u64 = seconds / 86400;
    let hours: u64 = (seconds % 86400) / 3600;
    let minutes: u64 = (seconds % 3600) / 60;
    let mut text = String::new();
    if days > 0 {
        text.append(decimal_string(days).as_str());
        text.append("d ");
        text.append(decimal_string(hours).as_str());
        text.append("h ");
    } else if hours > 0 {
        text.append(decimal_string(hours).as_str());
        text.append("h ");
    }
    text.append(decimal_string(minutes).as_str());
    text.append("m");
    assert(text@ =~= uptime_label(seconds as nat));
    text
}

/// Whether `order` lists the interfaces by traffic: every interface once,
/// one with more traffic before one with less, and of two with as much
/// the one that the list has first.
pub open spec fn is_traffic_order(interfaces: Seq<InterfaceTotals>, order: Seq<usize>) -> bool {
    &&& order.len() == interfaces.len()
    &&& forall|a: int| 0 <= a < order.len() ==> (#[trigger] order[a]) < interfaces.len()
    &&& forall|a: int, b: int|
        0 <= a < b < order.len() ==> comes_before(interfaces, #[trigger] order[a], #[trigger] order[b])
}

/// Whether interface `i` stands before interface `j` in the order by
/// traffic: it has more traffic, or as much and the earlier place.
pub open spec fn comes_before(interfaces: Seq<InterfaceTotals>, i: usize, j: usize) -> bool {
    traffic(interfaces[i as int]) > traffic(interfaces[j as int]) || (traffic(
        interfaces[i as int],
    ) == traffic(interfaces[j as int]) && i < j)
}

/// The traffic of interface `i`.
fn traffic_of(interfaces: &Vec<InterfaceTotals>, i: usize) -> (total: u128)
    requires
        i < interfaces@.len(),
    ensures
        total == traffic(interfaces@[i as int]),
{
    interfaces[i].received as u128 + interfaces[i].transmitted as u128
}

/// The places of the interfaces in the order by traffic, the busiest
/// first; interfaces with as much traffic keep their order.
pub fn traffic_order(interfaces: &Vec<InterfaceTotals>) -> (order: Vec<usize>)
    ensures
        is_traffic_order(interfaces@, order@),
{
    let n: usize = interfaces.len();
    let mut order: Vec<usize> = Vec::new();
    let mut i: usize = 0;
    while i < n
        invariant
            i <= n,
            n == interfaces@.len(),
            order@.len() == i,
            forall|a: int| 0 <= a < order@.len() ==> (#[trigger] order@[a]) < i,
            forall|a: int, b: int|
                0 <= a < b < order@.len() ==> comes_before(
                    interfaces@,
                    #[trigger] order@[a],
                    #[trigger] order@[b],
                ),
        decreases n - i,
    {
        let total: u128 = traffic_of(interfaces, i);
        let mut p: usize = 0;
        while p < order.len() && traffic_of(interfaces, order[p]) >= total
            invariant
                p <= order@.len(),
                i < n,
                n == interfaces@.len(),
                order@.len() == i,
                total == traffic(interfaces@[i as int]),
                forall|a: int| 0 <= a < order@.len() ==> (#[trigger] order@[a]) < i,
                forall|a: int|
                    0 <= a < p ==> traffic(interfaces@[(#[trigger] order@[a]) as int]) >= total,
            decreases order@.len() - p,
        {
            p += 1;
        }
        let ghost before = order@;
        order.insert(p, i);
        proof {
            assert forall|a: int, b: int| 0 <= a < b < order@.len() implies comes_before(
                interfaces@,
                #[trigger] order@[a],
                #[trigger] order@[b],
            ) by {
                if b < p {
                    assert(order@[a] == before[a] && order@[b] == before[b]);
                } else if b == p {
                    assert(order@[a] == before[a]);
                } else if a < p {
                    assert(order@[a] == before[a] && order@[b] == before[b - 1]);
                } else if a == p {
                    assert(order@[b] == before[b - 1]);
                    if p < b - 1 {
                        assert(comes_before(interfaces@, before[p as int], before[b - 1]));
                    }
                } else {
                    assert(order@[a] == before[a - 1] && order@[b] == before[b - 1]);
                }
            }
            assert forall|a: int| 0 <= a < order@.len() implies (#[trigger] order@[a]) < i + 1 by {
                if a < p {
                    assert(order@[a] == before[a]);
                } else if a > p {
                    assert(order@[a] == before[a - 1]);
                }
            }
        }
        i += 1;
    }
    order
}

/// An order by traffic lists no interface twice.
pub proof fn lemma_traffic_order_is_a_permutation(
    interfaces: Seq<InterfaceTotals>,
    order: Seq<usize>,
)
    requires
        is_traffic_order(interfaces, order),
    ensures
        forall|a: int, b: int| 0 <= a < b < order.len() ==> order[a] != order[b],
{
    assert forall|a: int, b: int| 0 <= a < b < order.len() implies order[a] != order[b] by {
        assert(comes_before(interfaces, order[a], order[b]));
    }
}

/// The busiest interface of an order by traffic is the primary interface.
pub proof fn lemma_order_starts_with_primary(interfaces: Seq<InterfaceTotals>, order: Seq<usize>)
    requires
        is_traffic_order(interfaces, order),
        interfaces.len() > 0,
    ensures
        forall|j: int|
            0 <= j < order.len() ==> traffic(interfaces[(#[trigger] order[j]) as int]) <= traffic(
                interfaces[order[0] as int],
            ),
{
    assert forall|j: int| 0 <= j < order.len() implies traffic(
        interfaces[(#[trigger] order[j]) as int],
    ) <= traffic(interfaces[order[0] as int]) by {
        if j > 0 {
            assert(comes_before(interfaces, order[0], order[j]));
        }
    }
}

} // verus!
