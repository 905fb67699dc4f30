use vstd::prelude::*;

verus! {

/// Applies a closure to a value in method position, so that a computation on
/// a value can be chained after the expression that produced it.
pub trait Apply<Res> {
    fn apply<F: FnOnce(Self) -> Res>(self, f: F) -> (r: Res) where Self: Sized
        requires
            f.requires((self,)),
        ensures
            f.ensures((self,), r),
    {
        f(self)
    }

    fn apply_ref<F: FnOnce(&Self) -> Res>(&self, f: F) -> (r: Res)
        requires
            f.requires((self,)),
        ensures
            f.ensures((self,), r),
    {
        f(self)
    }

    /// The closure must accept any mutable reference to a value of this type;
    /// nothing is stated of what it returns.
    fn apply_mut<F: FnOnce(&mut Self) -> Res>(&mut self, f: F) -> (r: Res)
        requires
            forall|s: &mut Self| #[trigger] f.requires((s,)),
    {
        f(self)
    }
}

impl<T: ?Sized, Res> Apply<Res> for T {}

} // verus!
