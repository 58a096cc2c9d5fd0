//! A piece of work together with where the request for it came from.

use vstd::prelude::*;
use vstd::std_specs::cmp::PartialEqSpecImpl;
use vstd::std_specs::cmp::PartialOrdSpecImpl;
use vstd::std_specs::cmp::PartialEqSpec;
use vstd::std_specs::cmp::PartialOrdSpec;
use std::cmp::Ordering;

verus! {

/// Something that has to be handled, marked with whether it was asked for by
/// name or found on a best-effort basis. The mark changes how failures are
/// treated; it is no part of the thing's identity.
#[derive(Debug)]
pub struct Pending<T> {
    /// Whether the item was listed explicitly.
    pub explicit: bool,
    /// The thing that needs to be done.
    pub todo: T,
}

impl<T> Pending<T> {
    /// Applies `f` to the work and keeps the mark.
    pub fn map<R, F: FnOnce(T) -> R>(self, f: F) -> (mapped: Pending<R>)
        requires
            f.requires((self.todo,)),
        ensures
            mapped.explicit == self.explicit,
            f.ensures((self.todo,), mapped.todo),
    {
        Pending { explicit: self.explicit, todo: f(self.todo) }
    }

    /// Applies `f` to the work. Where `f` succeeds the mark is kept; where it
    /// fails, its error is handed on.
    pub fn try_map<R, E, F: FnOnce(T) -> Result<R, E>>(self, f: F) -> (mapped: Result<
        Pending<R>,
        E,
    >)
        requires
            f.requires((self.todo,)),
        ensures
            match mapped {
                Ok(pending) => pending.explicit == self.explicit && f.ensures(
                    (self.todo,),
                    Ok(pending.todo),
                ),
                Err(error) => f.ensures((self.todo,), Err(error)),
            },
    {
        let explicit = self.explicit;
        match f(self.todo) {
            Ok(todo) => Ok(Pending { explicit, todo }),
            Err(error) => Err(error),
        }
    }
}

impl<T: PartialEq> PartialEq for Pending<T> {
    /// Two items are equal where their work is, whatever their marks.
    fn eq(&self, other: &Self) -> (r: bool) {
        self.todo.eq(&other.todo)
    }
}

impl<T: PartialEq> PartialEqSpecImpl for Pending<T> {
    open spec fn obeys_eq_spec() -> bool {
        T::obeys_eq_spec()
    }

    open spec fn eq_spec(&self, other: &Self) -> bool {
        self.todo.eq_spec(&other.todo)
    }
}

impl<T: Eq> Eq for Pending<T> {}

impl<T: PartialOrd> PartialOrd for Pending<T> {
    /// Items are ordered as their work is, whatever their marks.
    fn partial_cmp(&self, other: &Self) -> (r: Option<Ordering>) {
        self.todo.partial_cmp(&other.todo)
    }
}

impl<T: PartialOrd> PartialOrdSpecImpl for Pending<T> {
    open spec fn obeys_partial_cmp_spec() -> bool {
        T::obeys_partial_cmp_spec()
    }

    open spec fn partial_cmp_spec(&self, other: &Self) -> Option<Ordering> {
        self.todo.partial_cmp_spec(&other.todo)
    }
}

} // verus!
