//! The argument table a filter invocation carries: named arguments, the only
//! recognized one being `length`, the target field width.
//!
//! The table behaves as a map from names to values: inserting a name again
//! replaces what a lookup finds, and a lookup returns the value most recently
//! inserted under the name. Unrecognized names are simply never looked up.

use vstd::prelude::*;
use crate::value::Value;

verus! {

/// One named argument.
pub struct Arg {
    /// The argument's name.
    pub name: String,
    /// The argument's value.
    pub value: Value,
}

/// A table of named arguments, latest insertion winning on a repeated name.
pub struct Args {
    /// The arguments, in insertion order.
    pub entries: Vec<Arg>,
}

/// The value under `name` in `entries`: the last entry with that name wins,
/// so that pushing an entry acts as a map insertion.
pub open spec fn lookup(entries: Seq<Arg>, name: Seq<char>) -> Option<Value>
    decreases entries.len(),
{
    if entries.len() == 0 {
        None
    } else if entries.last().name@ == name {
        Some(entries.last().value)
    } else {
        lookup(entries.drop_last(), name)
    }
}

impl View for Args {
    type V = Seq<Arg>;

    open spec fn view(&self) -> Seq<Arg> {
        self.entries@
    }
}

impl Args {
    /// An empty argument table.
    pub fn new() -> (a: Args)
        ensures
            a@ == Seq::<Arg>::empty(),
    {
        Args { entries: Vec::new() }
    }

    /// Adds `value` under `name`; a later lookup of `name` now finds `value`,
    /// and lookups of other names are unaffected.
    pub fn insert(&mut self, name: String, value: Value)
        ensures
            final(self)@ == old(self)@.push((Arg { name, value })),
    {
        self.entries.push(Arg { name, value });
    }

    /// Looks `name` up in the table.
    pub fn get(&self, name: &String) -> (r: Option<&Value>)
        ensures
            match r {
                Some(v) => lookup(self@, name@) == Some(*v),
                None => lookup(self@, name@) is None,
            },
    {
        let mut i: usize = self.entries.len();
        proof {
            assert(self@.subrange(0, i as int) =~= self@);
        }
        while i > 0
            invariant
                i <= self.entries.len(),
                lookup(self@, name@) == lookup(self@.subrange(0, i as int), name@),
            decreases i,
        {
            proof {
                assert(self@.subrange(0, i as int).last() == self@[i - 1]);
                assert(self@.subrange(0, i as int).drop_last() =~= self@.subrange(
                    0,
                    i - 1,
                ));
            }
            let entry = &self.entries[i - 1];
            if entry.name.eq(name) {
                return Some(&entry.value);
            }
            i = i - 1;
        }
        proof {
            assert(self@.subrange(0, 0) =~= Seq::<Arg>::empty());
        }
        None
    }
}

} // verus!
