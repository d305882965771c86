use vstd::prelude::*;

use crate::error::DecodeError;

verus! {

/// The value most recently stored under `key` in `entries`, if any.
pub open spec fn lookup(entries: Seq<(u32, u64)>, key: u32) -> Option<u64>
    decreases entries.len(),
{
    if entries.len() == 0 {
        None
    } else if entries.last().0 == key {
        Some(entries.last().1)
    } else {
        lookup(entries.drop_last(), key)
    }
}

/// Per-decode state: the declared length of the whole message, in bits, and
/// the values of earlier fields that later fields are sized by.
pub struct Context {
    data_size: u32,
    entries: Vec<(u32, u64)>,
}

impl Context {
    /// The declared length of the message, in bits.
    pub closed spec fn declared_bits(&self) -> u32 {
        self.data_size
    }

    /// The stored values, keyed by symbolic field name.
    pub closed spec fn values(&self) -> Map<u32, u64> {
        Map::new(|k: u32| lookup(self.entries@, k) is Some, |k: u32| lookup(self.entries@, k)->0)
    }

    /// A context for a message of `data_size` bits with nothing stored yet.
    pub fn new(data_size: u32) -> (r: Context)
        ensures
            r.declared_bits() == data_size,
            r.values() == Map::<u32, u64>::empty(),
    {
        let r = Context { data_size, entries: Vec::new() };
        assert(r.values() =~= Map::<u32, u64>::empty());
        r
    }

    /// The declared length of the message, in bits.
    pub fn data_size(&self) -> (r: u32)
        ensures
            r == self.declared_bits(),
    {
        self.data_size
    }

    /// Stores `value` under `key`, replacing what was there.
    pub fn set(&mut self, key: u32, value: u64)
        ensures
            final(self).declared_bits() == old(self).declared_bits(),
            final(self).values() == old(self).values().insert(key, value),
    {
        self.entries.push((key, value));
        proof {
            let e = self.entries@;
            assert(e.drop_last() == old(self).entries@);
            assert(self.values() =~= old(self).values().insert(key, value));
        }
    }

    /// The value stored under `key`; `InternalDefinitionError` where nothing
    /// was stored, which is a fault of the format definition, not of the input.
    pub fn get(&self, key: u32) -> (r: Result<u64, DecodeError>)
        ensures
            self.values().contains_key(key) ==> r == Ok::<u64, DecodeError>(self.values()[key]),
            !self.values().contains_key(key) ==> r == Err::<u64, DecodeError>(
                DecodeError::InternalDefinitionError,
            ),
    {
        let mut i: usize = self.entries.len();
        assert(self.entries@.subrange(0, i as int) =~= self.entries@);
        while i > 0
            invariant
                i <= self.entries@.len(),
                lookup(self.entries@, key) == lookup(self.entries@.subrange(0, i as int), key),
            decreases i,
        {
            let (k, v) = self.entries[i - 1];
            if k == key {
                return Ok(v);
            }
            proof {
                let s = self.entries@.subrange(0, i as int);
                assert(s.drop_last() =~= self.entries@.subrange(0, i - 1));
            }
            i = i - 1;
        }
        Err(DecodeError::InternalDefinitionError)
    }
}

} // verus!
