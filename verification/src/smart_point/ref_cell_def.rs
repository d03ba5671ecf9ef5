use vstd::prelude::*;

verus! {

/// A destination for warnings. The library does not implement it: users
/// hand in their own messenger, and the tracker talks to it.
pub trait Messenger {
    fn send(&self, msg: &str);
}

/// Watches a value against a maximum and warns the messenger as the value
/// approaches or passes it.
pub struct LimitTracker<'a, T: Messenger> {
    pub messenger: &'a T,
    pub value: usize,
    pub max: usize,
}

impl<'a, T> LimitTracker<'a, T> where T: Messenger {
    /// A tracker at zero against the given maximum. A maximum of zero
    /// would make the fractions below meaningless, so it is excluded.
    pub fn new(messenger: &'a T, max: usize) -> (t: LimitTracker<'a, T>)
        requires
            max >= 1,
        ensures
            t.messenger == messenger,
            t.value == 0,
            t.max == max,
    {
        LimitTracker { messenger, value: 0, max }
    }

    /// Records the new value and warns by how full the quota is: an error
    /// at or past the maximum, an urgent warning from nine tenths up, a
    /// plain warning from three quarters up, and silence below that.
    pub fn set_value(&mut self, value: usize)
        requires
            old(self).max >= 1,
        ensures
            final(self).value == value,
            final(self).max == old(self).max,
            final(self).messenger == old(self).messenger,
    {
        self.value = value;

        let v = value as u128;
        let m = self.max as u128;

        if v >= m {
            self.messenger.send("Error: You are over your quota!");
        } else if 10 * v >= 9 * m {
            self.messenger.send("Urgent warning: You've used up over 90% of your quota!");
        } else if 4 * v >= 3 * m {
            self.messenger.send("Warning: You've used up over 75% of your quota!");
        }
    }
}

} // verus!
