use vstd::prelude::*;

verus! {

/// A shoe in a catalogue: its size and its style name.
#[derive(Debug)]
pub struct Shoe {
    pub size: u32,
    pub style: String,
}

impl PartialEq for Shoe {
    fn eq(&self, other: &Shoe) -> (r: bool) {
        self.size == other.size && self.style == other.style
    }
}

impl vstd::std_specs::cmp::PartialEqSpecImpl for Shoe {
    open spec fn obeys_eq_spec() -> bool {
        true
    }

    open spec fn eq_spec(&self, other: &Shoe) -> bool {
        self.size == other.size && self.style@ == other.style@
    }
}

/// Keeps exactly the shoes of the asked-for size, in the order they came,
/// taking ownership of the whole catalogue and returning the matches.
pub fn shoes_in_size(shoes: Vec<Shoe>, shoe_size: u32) -> (r: Vec<Shoe>)
    ensures
        r@ == shoes@.filter(|s: Shoe| s.size == shoe_size),
{
    let ghost all = shoes@;
    let ghost pred = |s: Shoe| s.size == shoe_size;
    let mut rest = shoes;
    let mut r: Vec<Shoe> = Vec::new();
    let ghost mut taken: int = 0;
    proof {
        reveal_with_fuel(Seq::filter, 1);
        assert(all.take(0) =~= Seq::<Shoe>::empty());
    }
    while rest.len() > 0
        invariant
            0 <= taken <= all.len(),
            rest@ =~= all.skip(taken),
            r@ == all.take(taken).filter(pred),
            pred == (|s: Shoe| s.size == shoe_size),
        decreases rest@.len(),
    {
        let s = rest.remove(0);
        proof {
            assert(s == all[taken]);
            assert(all.take(taken + 1).drop_last() =~= all.take(taken));
            assert(all.take(taken + 1).last() == s);
            reveal_with_fuel(Seq::filter, 2);
        }
        if s.size == shoe_size {
            r.push(s);
            proof {
                assert(r@ =~= all.take(taken + 1).filter(pred));
            }
        } else {
            proof {
                assert(r@ =~= all.take(taken + 1).filter(pred));
            }
        }
        proof {
            taken = taken + 1;
            assert(rest@ =~= all.skip(taken));
        }
    }
    proof {
        assert(all.take(taken) =~= all);
    }
    r
}

} // verus!
