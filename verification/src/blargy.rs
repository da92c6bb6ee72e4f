//! A small levelled-character exercise: a named thing that levels up and
//! reads from a fixed three-element table.

use vstd::prelude::*;

verus! {

/// A named character with a hidden level.
pub struct BlargyStuff {
    pub name: String,
    pub description: String,
    level: u8,
}

impl BlargyStuff {
    /// The hidden level.
    pub closed spec fn level_view(self) -> u8 {
        self.level
    }

    /// The name.
    pub closed spec fn name_view(self) -> Seq<char> {
        self.name@
    }

    /// The description.
    pub closed spec fn description_view(self) -> Seq<char> {
        self.description@
    }

    /// A fresh character at level one with a placeholder description.
    pub fn new(name: &str) -> (r: BlargyStuff)
        ensures
            r.name_view() == name@,
            r.description_view() == "n/a"@,
            r.level_view() == 1,
    {
        BlargyStuff { name: name.to_owned(), description: String::from_str("n/a"), level: 1 }
    }

    /// One level gained; the level must not yet be at its ceiling.
    pub fn level_up(&mut self)
        requires
            old(self).level_view() < 255,
        ensures
            final(self).level_view() == old(self).level_view() + 1,
            final(self).name_view() == old(self).name_view(),
            final(self).description_view() == old(self).description_view(),
    {
        self.level = self.level + 1;
    }

    /// The entry of the fixed table `[1, 2, 3]` at `index`.
    pub fn read_at(&self, index: usize) -> (r: i32)
        requires
            index < 3,
        ensures
            r == seq![1i32, 2i32, 3i32][index as int],
    {
        let mut v: Vec<i32> = Vec::new();
        v.push(1);
        v.push(2);
        v.push(3);
        proof {
            assert(v@ =~= seq![1i32, 2i32, 3i32]);
        }
        v[index]
    }
}

} // verus!
