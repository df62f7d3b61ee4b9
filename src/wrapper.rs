use vstd::prelude::*;

use crate::reference::Ref;

verus! {

/// A struct type that has a typed handle wrapper, through which its fields
/// are read and written.
pub trait Struct: Sized {
    type Wrapper: RefWrapper<Pointee = Self>;
}

/// A typed wrapper around a handle to a `Pointee`.
pub trait RefWrapper: Copy {
    type Pointee;

    /// The handle inside.
    spec fn raw_spec(self) -> Ref<Self::Pointee>;

    fn from_raw(raw: Ref<Self::Pointee>) -> (r: Self)
        ensures
            r.raw_spec() == raw,
    ;

    fn raw(self) -> (r: Ref<Self::Pointee>)
        ensures
            r == self.raw_spec(),
    ;
}

impl<T: Struct> Ref<T> {
    /// This handle inside its type's wrapper.
    pub fn wrap(self) -> (r: T::Wrapper)
        ensures
            r.raw_spec() == self,
    {
        T::Wrapper::from_raw(self)
    }
}

} // verus!
