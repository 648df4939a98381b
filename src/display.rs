//! Choices about the display: which GL configuration to use and at what rate
//! the browser renders.
use vstd::prelude::*;

verus! {

/// Frame rate used when no monitor reports its refresh rate.
pub const DEFAULT_REFRESH_RATE: u32 = 30;

/// Whether `i` is the first index of a largest value of `samples`.
pub open spec fn is_first_max(samples: Seq<u8>, i: int) -> bool {
    &&& 0 <= i < samples.len()
    &&& forall|j: int| 0 <= j < samples.len() ==> samples[j] <= samples[i]
    &&& forall|j: int| 0 <= j < i ==> samples[j] < samples[i]
}

/// Of the offered GL configurations, given by their multisample counts, the
/// first one with the most samples; `None` when none is offered.
pub fn pick_config(samples: &Vec<u8>) -> (r: Option<usize>)
    ensures
        samples@.len() == 0 ==> r is None,
        samples@.len() > 0 ==> (r matches Some(i) && is_first_max(samples@, i as int)),
{
    if samples.len() == 0 {
        return None;
    }
    let mut best: usize = 0;
    let mut i: usize = 1;
    while i < samples.len()
        invariant
            0 < samples@.len(),
            best < i <= samples@.len(),
            forall|j: int| 0 <= j < i ==> samples@[j] <= samples@[best as int],
            forall|j: int| 0 <= j < best ==> samples@[j] < samples@[best as int],
        decreases samples@.len() - i,
    {
        if samples[i] > samples[best] {
            best = i;
        }
        i = i + 1;
    }
    Some(best)
}

/// The rate in hertz of the first monitor that reports one, from the
/// monitors' rates in millihertz; the default when none does.
pub open spec fn refresh_rate_spec(rates: Seq<Option<u32>>) -> u32
    decreases rates.len(),
{
    if rates.len() == 0 {
        DEFAULT_REFRESH_RATE
    } else {
        match rates[0] {
            Some(m) => m / 1000,
            None => refresh_rate_spec(rates.drop_first()),
        }
    }
}

pub fn refresh_rate(rates: &Vec<Option<u32>>) -> (r: u32)
    ensures
        r == refresh_rate_spec(rates@),
{
    let mut i: usize = 0;
    assert(rates@.skip(0) =~= rates@);
    while i < rates.len()
        invariant
            i <= rates@.len(),
            refresh_rate_spec(rates@) == refresh_rate_spec(rates@.skip(i as int)),
        decreases rates@.len() - i,
    {
        proof {
            assert(rates@.skip(i as int).drop_first() =~= rates@.skip(i + 1));
        }
        if let Some(m_hz) = rates[i] {
            return m_hz / 1000;
        }
        i = i + 1;
    }
    proof {
        assert(rates@.skip(i as int) =~= Seq::<Option<u32>>::empty());
    }
    DEFAULT_REFRESH_RATE
}

} // verus!
