//! Composing functions and piping values through them.

use vstd::prelude::*;

verus! {

/// The function that applies `f1` and then `f2`.
///
/// It may be called wherever `f1` may be called and `f2` accepts whatever
/// `f1` gives; what it returns is what `f2` gives for some result of `f1`.
pub fn compose<A, B, C, F1: Fn(A) -> B, F2: Fn(B) -> C>(f1: F1, f2: F2) -> (composed: impl Fn(A) -> C)
    ensures
        forall|a: A|
            (call_requires(f1, (a,)) && forall|b: B|
                call_ensures(f1, (a,), b) ==> call_requires(f2, (b,))) ==> #[trigger] call_requires(
                composed,
                (a,),
            ),
        forall|a: A, c: C| #[trigger]
            call_ensures(composed, (a,), c) ==> exists|b: B|
                #[trigger] call_ensures(f1, (a,), b) && call_ensures(f2, (b,), c),
{
    move |a: A| -> (c: C)
        requires
            call_requires(f1, (a,)),
            forall|b: B| call_ensures(f1, (a,), b) ==> call_requires(f2, (b,)),
        ensures
            exists|b: B| #[trigger] call_ensures(f1, (a,), b) && call_ensures(f2, (b,), c),
        {
            let b = f1(a);
            f2(b)
        }
}

/// Applying a function to a value, written value first.
pub trait Pipe<T>: Sized {
    /// The value that is handed to the function.
    spec fn piped(self) -> T;

    /// Applies `f` to the value.
    fn pipe<U, F: FnOnce(T) -> U>(self, f: F) -> (out: U)
        requires
            call_requires(f, (self.piped(),)),
        ensures
            call_ensures(f, (self.piped(),), out),
    ;
}

impl<T> Pipe<T> for T {
    open spec fn piped(self) -> T {
        self
    }

    fn pipe<U, F: FnOnce(T) -> U>(self, f: F) -> (out: U) {
        f(self)
    }
}

} // verus!
