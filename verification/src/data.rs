//! Copying and comparing values by what they hold.
use vstd::prelude::*;

verus! {

/// Values that can be copied so that the copy holds the same.
pub trait Duplicate: DeepView + Sized {
    /// A copy that holds the same as `self`.
    fn duplicate(&self) -> (res: Self)
        ensures
            res.deep_view() == self.deep_view(),
    ;
}

/// Values that can be told apart by what they hold.
pub trait Alike: DeepView {
    /// Whether `self` and `other` hold the same.
    fn alike(&self, other: &Self) -> (res: bool)
        ensures
            res == (self.deep_view() == other.deep_view()),
    ;
}

/// Appends `item` to `list`.
pub fn append<T: DeepView>(list: &mut Vec<T>, item: T)
    ensures
        final(list)@ == old(list)@.push(item),
        final(list).deep_view() == old(list).deep_view().push(item.deep_view()),
{
    list.push(item);
    proof {
        assert(list.deep_view() =~= old(list).deep_view().push(item.deep_view()));
    }
}

/// Inserts `item` before the element at `index`.
pub fn insert<T: DeepView>(list: &mut Vec<T>, index: usize, item: T)
    requires
        index <= old(list)@.len(),
    ensures
        final(list)@ == old(list)@.insert(index as int, item),
        final(list).deep_view() == old(list).deep_view().insert(index as int, item.deep_view()),
{
    list.insert(index, item);
    proof {
        assert(list.deep_view() =~= old(list).deep_view().insert(index as int, item.deep_view()));
    }
}

impl Duplicate for String {
    fn duplicate(&self) -> (res: Self) {
        self.clone()
    }
}

impl Alike for String {
    fn alike(&self, other: &Self) -> (res: bool) {
        *self == *other
    }
}

impl Duplicate for bool {
    fn duplicate(&self) -> (res: Self) {
        *self
    }
}

impl Duplicate for i64 {
    fn duplicate(&self) -> (res: Self) {
        *self
    }
}

impl Duplicate for u64 {
    fn duplicate(&self) -> (res: Self) {
        *self
    }
}

impl Duplicate for u32 {
    fn duplicate(&self) -> (res: Self) {
        *self
    }
}

impl Duplicate for usize {
    fn duplicate(&self) -> (res: Self) {
        *self
    }
}

impl<T: Duplicate> Duplicate for Option<T> {
    fn duplicate(&self) -> (res: Self) {
        match self {
            Some(value) => Some(value.duplicate()),
            None => None,
        }
    }
}

impl<T: Alike> Alike for Option<T> {
    fn alike(&self, other: &Self) -> (res: bool) {
        match (self, other) {
            (Some(left), Some(right)) => left.alike(right),
            (None, None) => true,
            _ => false,
        }
    }
}

impl<T: Duplicate> Duplicate for Vec<T> {
    fn duplicate(&self) -> (res: Self) {
        let mut res: Vec<T> = Vec::new();
        for i in 0..self.len()
            invariant
                res.deep_view() =~= self.deep_view().take(i as int),
        {
            append(&mut res, self[i].duplicate());
        }
        proof {
            assert(self.deep_view().take(self@.len() as int) =~= self.deep_view());
        }
        res
    }
}

impl<T: Alike> Alike for Vec<T> {
    fn alike(&self, other: &Self) -> (res: bool) {
        if self.len() != other.len() {
            proof {
                assert(self.deep_view().len() == self@.len());
                assert(other.deep_view().len() == other@.len());
            }
            return false;
        }
        for i in 0..self.len()
            invariant
                self@.len() == other@.len(),
                forall|j: int|
                    0 <= j < i ==> #[trigger] self.deep_view()[j] == other.deep_view()[j],
        {
            if !self[i].alike(&other[i]) {
                proof {
                    assert(self.deep_view()[i as int] != other.deep_view()[i as int]);
                }
                return false;
            }
            proof {
                assert(self.deep_view()[i as int] == other.deep_view()[i as int]);
            }
        }
        proof {
            assert(self.deep_view() =~= other.deep_view());
        }
        true
    }
}

} // verus!
