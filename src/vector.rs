use vstd::prelude::*;

verus! {

/// Adds a value to the element at an index, or appends it when the index is
/// one past the end.
pub trait UpdateOrInsert<U>: View<V = Seq<U>> + Sized {
    /// The sum that the element type uses.
    spec fn sum(a: U, b: U) -> U;

    /// The sum of `a` and `b` is representable.
    spec fn sum_fits(a: U, b: U) -> bool;

    fn update_or_insert(&mut self, index: usize, value: U)
        requires
            index <= old(self)@.len(),
            index < old(self)@.len() ==> Self::sum_fits(old(self)@[index as int], value),
        ensures
            index < old(self)@.len() ==> final(self)@ == old(self)@.update(
                index as int,
                Self::sum(old(self)@[index as int], value),
            ),
            index == old(self)@.len() ==> final(self)@ == old(self)@.push(value),
    ;
}

impl UpdateOrInsert<u8> for Vec<u8> {
    open spec fn sum(a: u8, b: u8) -> u8 {
        (a + b) as u8
    }

    open spec fn sum_fits(a: u8, b: u8) -> bool {
        a + b <= u8::MAX
    }

    fn update_or_insert(&mut self, index: usize, value: u8) {
        if index < self.len() {
            let v = self[index] + value;
            self.set(index, v);
        } else {
            self.insert(index, value);
            assert(self@ =~= old(self)@.push(value));
        }
    }
}

impl UpdateOrInsert<u64> for Vec<u64> {
    open spec fn sum(a: u64, b: u64) -> u64 {
        (a + b) as u64
    }

    open spec fn sum_fits(a: u64, b: u64) -> bool {
        a + b <= u64::MAX
    }

    fn update_or_insert(&mut self, index: usize, value: u64) {
        if index < self.len() {
            let v = self[index] + value;
            self.set(index, v);
        } else {
            self.insert(index, value);
            assert(self@ =~= old(self)@.push(value));
        }
    }
}

} // verus!
