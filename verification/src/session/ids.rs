//! Names for what a session starts.
use crate::model::Model;
use crate::text;
use vstd::prelude::*;

verus! {

/// Where new ids come from: a seed nobody else has, and a number. Two ids of
/// one seed differ in the number.
#[derive(Debug, PartialEq)]
pub struct Ids {
    pub seed: String,
    pub next: u64,
}

/// The value of [`Ids`].
pub struct IdsV {
    pub seed: Seq<char>,
    pub next: u64,
}

impl Model for Ids {
    type V = IdsV;

    open spec fn v(&self) -> IdsV {
        IdsV {
            seed: self.seed.v(),
            next: self.next.v(),
        }
    }

    fn dup(&self) -> (r: Ids) {
        Ids {
            seed: self.seed.dup(),
            next: self.next.dup(),
        }
    }
}

impl Clone for Ids {
    fn clone(&self) -> (r: Ids)
        ensures
            r.v() == self.v(),
    {
        self.dup()
    }
}

impl IdsV {
    /// The id that comes next.
    pub open spec fn id(self) -> Seq<char> {
        self.seed + "-"@ + text::decimal(self.next as nat)
    }

    /// The ids behind the next one.
    pub open spec fn rest(self) -> IdsV {
        IdsV {
            next: if self.next == u64::MAX {
                0
            } else {
                (self.next + 1) as u64
            },
            ..self
        }
    }
}

/// Two numbers of one seed give two ids.
pub proof fn law_ids_differ(a: IdsV, b: IdsV)
    requires
        a.seed == b.seed,
        a.next != b.next,
    ensures
        a.id() != b.id(),
{
    reveal_strlit("-");
    let n = a.seed.len() + 1;
    assert(a.id().skip(n as int) =~= text::decimal(a.next as nat));
    assert(b.id().skip(n as int) =~= text::decimal(b.next as nat));
    if a.id() == b.id() {
        text::lemma_decimal_once(a.next as nat, b.next as nat);
    }
}

impl Ids {
    pub fn new(seed: String) -> (r: Ids)
        ensures
            r.v() == (IdsV { seed: seed@, next: 0 }),
    {
        Ids { seed, next: 0 }
    }

    /// Takes the next id.
    pub fn new_call_id(&mut self) -> (r: String)
        ensures
            r@ == old(self).v().id(),
            final(self).v() == old(self).v().rest(),
    {
        let r = self.seed.dup().concat("-").concat(text::number(self.next).as_str());
        self.next = if self.next == u64::MAX {
            0
        } else {
            self.next + 1
        };
        r
    }
}

} // verus!
