//! Structural equality and copying over deep views.
use vstd::prelude::*;

verus! {

/// Values that can be compared by their deep view.
pub trait DeepEq: DeepView + Sized {
    fn deep_eq(&self, other: &Self) -> (r: bool)
        ensures
            r == (self.deep_view() == other.deep_view()),
    ;
}

/// Values that can be copied with the same deep view.
pub trait DeepClone: DeepView + Sized {
    fn deep_clone(&self) -> (r: Self)
        ensures
            r.deep_view() == self.deep_view(),
    ;
}

impl DeepEq for String {
    fn deep_eq(&self, other: &Self) -> (r: bool) {
        *self == *other
    }
}

impl DeepClone for String {
    fn deep_clone(&self) -> (r: Self) {
        self.clone()
    }
}

impl DeepEq for i64 {
    fn deep_eq(&self, other: &Self) -> (r: bool) {
        *self == *other
    }
}

impl DeepClone for i64 {
    fn deep_clone(&self) -> (r: Self) {
        *self
    }
}

impl DeepEq for i32 {
    fn deep_eq(&self, other: &Self) -> (r: bool) {
        *self == *other
    }
}

impl DeepClone for i32 {
    fn deep_clone(&self) -> (r: Self) {
        *self
    }
}

impl DeepEq for i8 {
    fn deep_eq(&self, other: &Self) -> (r: bool) {
        *self == *other
    }
}

impl DeepClone for i8 {
    fn deep_clone(&self) -> (r: Self) {
        *self
    }
}

impl<T: DeepEq> DeepEq for Option<T> {
    fn deep_eq(&self, other: &Self) -> (r: bool) {
        match (self, other) {
            (Some(a), Some(b)) => a.deep_eq(b),
            (None, None) => true,
            _ => false,
        }
    }
}

impl<T: DeepClone> DeepClone for Option<T> {
    fn deep_clone(&self) -> (r: Self) {
        match self {
            Some(a) => Some(a.deep_clone()),
            None => None,
        }
    }
}

impl<T: DeepEq> DeepEq for Vec<T> {
    fn deep_eq(&self, other: &Self) -> (r: bool) {
        if self.len() != other.len() {
            return false;
        }
        let mut i: usize = 0;
        while i < self.len()
            invariant
                self.len() == other.len(),
                i <= self.len(),
                forall|k: int| 0 <= k < i ==> self@[k].deep_view() == other@[k].deep_view(),
            decreases self.len() - i,
        {
            if !self[i].deep_eq(&other[i]) {
                assert(self.deep_view()[i as int] != other.deep_view()[i as int]);
                return false;
            }
            i = i + 1;
        }
        assert(self.deep_view() =~= other.deep_view());
        true
    }
}

impl<T: DeepClone> DeepClone for Vec<T> {
    fn deep_clone(&self) -> (r: Self) {
        let mut out: Vec<T> = Vec::new();
        let mut i: usize = 0;
        while i < self.len()
            invariant
                i <= self.len(),
                out.len() == i,
                forall|k: int| 0 <= k < i ==> out@[k].deep_view() == self@[k].deep_view(),
            decreases self.len() - i,
        {
            out.push(self[i].deep_clone());
            i = i + 1;
        }
        assert(out.deep_view() =~= self.deep_view());
        out
    }
}

} // verus!
