use vstd::prelude::*;

verus! {

/// The one payload slot that a native handle offers to its owner.
///
/// The slot is empty or holds exactly one value. Every value put in is handed
/// back exactly once: by `set_data` when a later value replaces it, or by
/// `take_data`. Nothing in it is ever dropped behind the owner's back.
pub struct TypedHandle<D> {
    data: Option<D>,
}

impl<D> View for TypedHandle<D> {
    type V = Option<D>;

    closed spec fn view(&self) -> Option<D> {
        self.data
    }
}

impl<D> TypedHandle<D> {
    /// A handle with nothing attached.
    pub fn new() -> (r: Self)
        ensures
            r@ is None,
    {
        TypedHandle { data: None }
    }

    /// Attaches `data`, handing back what was attached before, if anything.
    pub fn set_data(&mut self, data: D) -> (prev: Option<D>)
        ensures
            final(self)@ == Some(data),
            prev == old(self)@,
    {
        let prev = self.data.take();
        self.data = Some(data);
        prev
    }

    /// The attached value, without taking it.
    pub fn get_data(&self) -> (r: Option<&D>)
        ensures
            r is Some <==> self@ is Some,
            r is Some ==> *r.unwrap() == self@.unwrap(),
    {
        self.data.as_ref()
    }

    /// Detaches and returns the attached value, leaving the slot empty.
    pub fn take_data(&mut self) -> (r: Option<D>)
        ensures
            r == old(self)@,
            final(self)@ is None,
    {
        self.data.take()
    }

    pub fn has_data(&self) -> (r: bool)
        ensures
            r <==> self@ is Some,
    {
        self.data.is_some()
    }
}

} // verus!
