use vstd::prelude::*;

verus! {

/// The port `p` is a real TCP port in the probed range `[start, start + available.len())`
/// and the probe found it free (`available[i]` is the probe of `start + i`).
pub open spec fn port_is_free(available: Seq<bool>, start: int, p: int) -> bool {
    &&& start <= p < start + available.len()
    &&& p <= u16::MAX
    &&& available[p - start]
}

/// Some port of the probed range is free.
pub open spec fn some_port_free(available: Seq<bool>, start: int) -> bool {
    exists|p: int| port_is_free(available, start, p)
}

/// `p` is the lowest free port of the probed range.
pub open spec fn lowest_free_port(available: Seq<bool>, start: int, p: int) -> bool {
    &&& port_is_free(available, start, p)
    &&& forall|q: int| start <= q < p ==> !port_is_free(available, start, q)
}

/// Picks the first free port of `[start_port, start_port + max_attempts)` in ascending order.
/// `available[i]` tells whether a listener could bind `start_port + i`; numbers past the
/// last TCP port are never chosen.
pub fn find_available_port(start_port: u16, max_attempts: u16, available: &Vec<bool>) -> (r: Option<u16>)
    requires
        available@.len() == max_attempts,
    ensures
        r matches Some(p) ==> lowest_free_port(available@, start_port as int, p as int),
        r is None <==> !some_port_free(available@, start_port as int),
{
    let mut i: u16 = 0;
    while i < max_attempts
        invariant
            i <= max_attempts,
            available@.len() == max_attempts,
            forall|q: int|
                start_port <= q < start_port + i ==> !port_is_free(available@, start_port as int, q),
        decreases max_attempts - i,
    {
        if start_port as u32 + i as u32 > u16::MAX as u32 {
            return None;
        }
        if available[i as usize] {
            let p: u16 = start_port + i;
            assert(port_is_free(available@, start_port as int, p as int));
            return Some(p);
        }
        i = i + 1;
    }
    None
}

} // verus!
