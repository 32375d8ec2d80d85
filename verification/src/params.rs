//! The store of automatable parameter values shared between the audio,
//! main and UI threads. The instrument has a single parameter, the output
//! gain. A value is carried as the bit pattern of a single-precision
//! float, so a read returns exactly the bits last written: no value is
//! clamped, re-validated or otherwise altered on its way through.
use vstd::prelude::*;

use crate::events::Event;

verus! {

/// Identifier of the single automatable parameter, the output gain.
pub const PARAM_GAIN_ID: u32 = 0;

/// Bit pattern of the single-precision value 0.5, the gain's default.
pub const GAIN_DEFAULT_BITS: u32 = 0x3F00_0000;

/// The parameter store. One cell per parameter, each an independent
/// scalar; here the single gain cell. The value is an f32 bit pattern.
///
/// The shared, wait-free cell that the threads exchange at run time wraps
/// this model in an atomic; the transition logic below is what every such
/// cell does with a write or a read.
#[derive(Clone, Copy, PartialEq, Eq, Structural, Debug)]
pub struct Params {
    /// Current gain value, as an f32 bit pattern.
    pub gain: u32,
}

impl Params {
    /// The store after a write of `value_bits` to `param_id`: the gain
    /// cell takes the bits as given; an unknown id is a silent no-op.
    pub open spec fn spec_set(self, param_id: u32, value_bits: u32) -> Params {
        if param_id == PARAM_GAIN_ID {
            Params { gain: value_bits }
        } else {
            self
        }
    }

    /// What a read of `param_id` returns: the stored bits for a known id,
    /// nothing for an unknown one.
    pub open spec fn spec_get(self, param_id: u32) -> Option<u32> {
        if param_id == PARAM_GAIN_ID {
            Some(self.gain)
        } else {
            None
        }
    }

    /// The store after one event: a parameter-change event with a specific
    /// id is a write; every other event leaves the store unchanged.
    pub open spec fn spec_apply_event(self, e: Event) -> Params {
        match e {
            Event::ParamValue { param_id: Some(id), value_bits } => self.spec_set(id, value_bits),
            _ => self,
        }
    }

    /// The store after a whole batch of events, applied in delivery order.
    pub open spec fn spec_apply_events(self, events: Seq<Event>) -> Params
        decreases events.len(),
    {
        if events.len() == 0 {
            self
        } else {
            self.spec_apply_event(events[0]).spec_apply_events(events.skip(1))
        }
    }

    /// A fresh store holding the gain's default value.
    pub fn new() -> (r: Params)
        ensures
            r.gain == GAIN_DEFAULT_BITS,
    {
        Params { gain: GAIN_DEFAULT_BITS }
    }

    /// Current gain bits.
    pub fn gain(&self) -> (r: u32)
        ensures
            r == self.gain,
    {
        self.gain
    }

    /// Overwrite the gain bits. Last writer wins; the bits are stored as
    /// given, in range or not.
    pub fn set_gain(&mut self, value_bits: u32)
        ensures
            *final(self) == (Params { gain: value_bits }),
    {
        self.gain = value_bits;
    }

    /// Read the value of the parameter `param_id`; `None` for an id this
    /// instrument does not own.
    pub fn get(&self, param_id: u32) -> (r: Option<u32>)
        ensures
            r == self.spec_get(param_id),
    {
        if param_id == PARAM_GAIN_ID {
            Some(self.gain)
        } else {
            None
        }
    }

    /// Write `value_bits` to the parameter `param_id`. An unknown id is a
    /// silent no-op, not an error: host batches may carry foreign ids.
    pub fn set(&mut self, param_id: u32, value_bits: u32)
        ensures
            *final(self) == old(self).spec_set(param_id, value_bits),
    {
        if param_id == PARAM_GAIN_ID {
            self.gain = value_bits;
        }
    }

    /// Route one host parameter-change event to its cell: a wildcard id is
    /// ignored, a specific id is a write (no-op if foreign).
    pub fn handle_param_value_event(&mut self, param_id: Option<u32>, value_bits: u32)
        ensures
            *final(self) == old(self).spec_apply_event(
                Event::ParamValue { param_id, value_bits },
            ),
    {
        match param_id {
            Some(id) => self.set(id, value_bits),
            None => {},
        }
    }

    /// Apply every parameter-change event of a batch to the store, in
    /// delivery order, ignoring all other event kinds. This is the
    /// parameter-flush path the host drives outside audio processing.
    pub fn flush(&mut self, events: &Vec<Event>)
        ensures
            *final(self) == old(self).spec_apply_events(events@),
    {
        let ghost initial: Params = *self;
        let n: usize = events.len();
        let mut i: usize = 0;
        while i < n
            invariant
                n == events@.len(),
                i <= n,
                *self == initial.spec_apply_events(events@.take(i as int)),
            decreases n - i,
        {
            match events[i] {
                Event::ParamValue { param_id, value_bits } => {
                    self.handle_param_value_event(param_id, value_bits);
                },
                _ => {},
            }
            proof {
                assert(events@.take(i + 1) =~= events@.take(i as int).push(events@[i as int]));
                lemma_apply_events_snoc(initial, events@.take(i as int), events@[i as int]);
            }
            i = i + 1;
        }
        proof {
            assert(events@.take(n as int) =~= events@);
        }
    }
}

impl Default for Params {
    /// A fresh store holding the gain's default value.
    fn default() -> (r: Params)
        ensures
            r.gain == GAIN_DEFAULT_BITS,
    {
        Params::new()
    }
}

/// Applying a batch and then one more event is applying the batch with the
/// event appended.
pub proof fn lemma_apply_events_snoc(p: Params, events: Seq<Event>, e: Event)
    ensures
        p.spec_apply_events(events.push(e)) == p.spec_apply_events(events).spec_apply_event(e),
    decreases events.len(),
{
    if events.len() == 0 {
        assert(events.push(e)[0] == e);
        assert(events.push(e).skip(1) =~= Seq::<Event>::empty());
        assert(p.spec_apply_events(events.push(e)) == p.spec_apply_event(e).spec_apply_events(
            Seq::<Event>::empty(),
        ));
        assert(p.spec_apply_event(e).spec_apply_events(Seq::<Event>::empty()) == p.spec_apply_event(
            e,
        ));
        assert(p.spec_apply_events(events) == p);
    } else {
        assert(events.push(e)[0] == events[0]);
        assert(events.push(e).skip(1) =~= events.skip(1).push(e));
        lemma_apply_events_snoc(p.spec_apply_event(events[0]), events.skip(1), e);
    }
}

/// Law: for the valid parameter identifier, reading right after writing
/// returns exactly the value written, for every bit pattern, whether or
/// not it lies in the parameter's declared range.
pub proof fn lemma_get_after_set(p: Params, param_id: u32, value_bits: u32)
    requires
        param_id == PARAM_GAIN_ID,
    ensures
        p.spec_set(param_id, value_bits).spec_get(param_id) == Some(value_bits),
{
}

} // verus!
