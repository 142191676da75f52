use vstd::prelude::*;

verus! {

/// The interface behind which a boxed callable hides its concrete type.
///
/// A shim is fired through a mutable reference, which is all that a trait
/// object offers, yet firing uses it up: `fire` asks for an armed shim and
/// leaves a spent one, which accepts no arguments at all. So a shim runs its
/// callable at most once.
pub trait OnceShim<Args, R> {
    /// The callable is still held and has not been run.
    spec fn armed(&self) -> bool;

    /// A callable is held and may be run on `args`.
    spec fn accepts(&self, args: Args) -> bool;

    /// Running the held callable on `args` may produce `out`.
    spec fn yields(&self, args: Args, out: R) -> bool;

    /// Takes the callable out and runs it on `args`. Nothing is held
    /// afterwards.
    fn fire(&mut self, args: Args) -> (out: R)
        requires
            old(self).armed(),
            old(self).accepts(args),
        ensures
            old(self).yields(args, out),
            !final(self).armed(),
            forall|again: Args| !final(self).accepts(again),
    ;
}

/// A place that holds a callable until it is run, and nothing afterwards.
pub struct Slot<F> {
    pub inner: Option<F>,
}

impl<F> Slot<F> {
    /// A slot that holds `func`.
    pub open spec fn holding(func: F) -> Self {
        Slot { inner: Some(func) }
    }

    /// Puts `func` into a fresh slot.
    pub fn fill(func: F) -> (slot: Self)
        ensures
            slot == Self::holding(func),
    {
        Slot { inner: Some(func) }
    }

    /// Empties the slot and hands out what it held.
    pub fn draw(&mut self) -> (func: F)
        requires
            old(self).inner.is_some(),
        ensures
            old(self).inner == Some(func),
            final(self).inner.is_none(),
    {
        let held = self.inner.take();
        held.unwrap()
    }
}

/// A slot for a callable of no arguments.
impl<R, F> OnceShim<(), R>
    for Slot<F> where
    F: FnOnce() -> R,
{
    open spec fn armed(&self) -> bool {
        self.inner.is_some()
    }

    open spec fn accepts(&self, args: ()) -> bool {
        self.inner.is_some() && call_requires(self.inner.unwrap(), args)
    }

    open spec fn yields(&self, args: (), out: R) -> bool {
        self.inner.is_some() && call_ensures(self.inner.unwrap(), args, out)
    }

    fn fire(&mut self, _args: ()) -> (out: R) {
        let func = self.draw();
        func()
    }
}

/// A slot for a callable of one argument.
impl<A1, R, F> OnceShim<(A1,), R>
    for Slot<F> where
    F: FnOnce(A1) -> R,
{
    open spec fn armed(&self) -> bool {
        self.inner.is_some()
    }

    open spec fn accepts(&self, args: (A1,)) -> bool {
        self.inner.is_some() && call_requires(self.inner.unwrap(), args)
    }

    open spec fn yields(&self, args: (A1,), out: R) -> bool {
        self.inner.is_some() && call_ensures(self.inner.unwrap(), args, out)
    }

    fn fire(&mut self, args: (A1,)) -> (out: R) {
        let func = self.draw();
        func(args.0)
    }
}

/// A slot for a callable of two arguments.
impl<A1, A2, R, F> OnceShim<(A1, A2), R>
    for Slot<F> where
    F: FnOnce(A1, A2) -> R,
{
    open spec fn armed(&self) -> bool {
        self.inner.is_some()
    }

    open spec fn accepts(&self, args: (A1, A2)) -> bool {
        self.inner.is_some() && call_requires(self.inner.unwrap(), args)
    }

    open spec fn yields(&self, args: (A1, A2), out: R) -> bool {
        self.inner.is_some() && call_ensures(self.inner.unwrap(), args, out)
    }

    fn fire(&mut self, args: (A1, A2)) -> (out: R) {
        let func = self.draw();
        func(args.0, args.1)
    }
}

/// A slot for a callable of three arguments.
impl<A1, A2, A3, R, F> OnceShim<(A1, A2, A3), R>
    for Slot<F> where
    F: FnOnce(A1, A2, A3) -> R,
{
    open spec fn armed(&self) -> bool {
        self.inner.is_some()
    }

    open spec fn accepts(&self, args: (A1, A2, A3)) -> bool {
        self.inner.is_some() && call_requires(self.inner.unwrap(), args)
    }

    open spec fn yields(&self, args: (A1, A2, A3), out: R) -> bool {
        self.inner.is_some() && call_ensures(self.inner.unwrap(), args, out)
    }

    fn fire(&mut self, args: (A1, A2, A3)) -> (out: R) {
        let func = self.draw();
        func(args.0, args.1, args.2)
    }
}

/// A slot for a callable of four arguments.
impl<A1, A2, A3, A4, R, F> OnceShim<(A1, A2, A3, A4), R>
    for Slot<F> where
    F: FnOnce(A1, A2, A3, A4) -> R,
{
    open spec fn armed(&self) -> bool {
        self.inner.is_some()
    }

    open spec fn accepts(&self, args: (A1, A2, A3, A4)) -> bool {
        self.inner.is_some() && call_requires(self.inner.unwrap(), args)
    }

    open spec fn yields(&self, args: (A1, A2, A3, A4), out: R) -> bool {
        self.inner.is_some() && call_ensures(self.inner.unwrap(), args, out)
    }

    fn fire(&mut self, args: (A1, A2, A3, A4)) -> (out: R) {
        let func = self.draw();
        func(args.0, args.1, args.2, args.3)
    }
}

/// A slot for a callable of five arguments.
impl<A1, A2, A3, A4, A5, R, F> OnceShim<(A1, A2, A3, A4, A5), R>
    for Slot<F> where
    F: FnOnce(A1, A2, A3, A4, A5) -> R,
{
    open spec fn armed(&self) -> bool {
        self.inner.is_some()
    }

    open spec fn accepts(&self, args: (A1, A2, A3, A4, A5)) -> bool {
        self.inner.is_some() && call_requires(self.inner.unwrap(), args)
    }

    open spec fn yields(&self, args: (A1, A2, A3, A4, A5), out: R) -> bool {
        self.inner.is_some() && call_ensures(self.inner.unwrap(), args, out)
    }

    fn fire(&mut self, args: (A1, A2, A3, A4, A5)) -> (out: R) {
        let func = self.draw();
        func(args.0, args.1, args.2, args.3, args.4)
    }
}

/// A slot for a callable of six arguments.
impl<A1, A2, A3, A4, A5, A6, R, F> OnceShim<(A1, A2, A3, A4, A5, A6), R>
    for Slot<F> where
    F: FnOnce(A1, A2, A3, A4, A5, A6) -> R,
{
    open spec fn armed(&self) -> bool {
        self.inner.is_some()
    }

    open spec fn accepts(&self, args: (A1, A2, A3, A4, A5, A6)) -> bool {
        self.inner.is_some() && call_requires(self.inner.unwrap(), args)
    }

    open spec fn yields(&self, args: (A1, A2, A3, A4, A5, A6), out: R) -> bool {
        self.inner.is_some() && call_ensures(self.inner.unwrap(), args, out)
    }

    fn fire(&mut self, args: (A1, A2, A3, A4, A5, A6)) -> (out: R) {
        let func = self.draw();
        func(args.0, args.1, args.2, args.3, args.4, args.5)
    }
}

/// A slot for a callable of seven arguments.
impl<A1, A2, A3, A4, A5, A6, A7, R, F> OnceShim<(A1, A2, A3, A4, A5, A6, A7), R>
    for Slot<F> where
    F: FnOnce(A1, A2, A3, A4, A5, A6, A7) -> R,
{
    open spec fn armed(&self) -> bool {
        self.inner.is_some()
    }

    open spec fn accepts(&self, args: (A1, A2, A3, A4, A5, A6, A7)) -> bool {
        self.inner.is_some() && call_requires(self.inner.unwrap(), args)
    }

    open spec fn yields(&self, args: (A1, A2, A3, A4, A5, A6, A7), out: R) -> bool {
        self.inner.is_some() && call_ensures(self.inner.unwrap(), args, out)
    }

    fn fire(&mut self, args: (A1, A2, A3, A4, A5, A6, A7)) -> (out: R) {
        let func = self.draw();
        func(args.0, args.1, args.2, args.3, args.4, args.5, args.6)
    }
}

/// A slot for a callable of eight arguments.
impl<A1, A2, A3, A4, A5, A6, A7, A8, R, F> OnceShim<(A1, A2, A3, A4, A5, A6, A7, A8), R>
    for Slot<F> where
    F: FnOnce(A1, A2, A3, A4, A5, A6, A7, A8) -> R,
{
    open spec fn armed(&self) -> bool {
        self.inner.is_some()
    }

    open spec fn accepts(&self, args: (A1, A2, A3, A4, A5, A6, A7, A8)) -> bool {
        self.inner.is_some() && call_requires(self.inner.unwrap(), args)
    }

    open spec fn yields(&self, args: (A1, A2, A3, A4, A5, A6, A7, A8), out: R) -> bool {
        self.inner.is_some() && call_ensures(self.inner.unwrap(), args, out)
    }

    fn fire(&mut self, args: (A1, A2, A3, A4, A5, A6, A7, A8)) -> (out: R) {
        let func = self.draw();
        func(args.0, args.1, args.2, args.3, args.4, args.5, args.6, args.7)
    }
}

/// A slot for a callable of nine arguments.
impl<A1, A2, A3, A4, A5, A6, A7, A8, A9, R, F> OnceShim<(A1, A2, A3, A4, A5, A6, A7, A8, A9), R>
    for Slot<F> where
    F: FnOnce(A1, A2, A3, A4, A5, A6, A7, A8, A9) -> R,
{
    open spec fn armed(&self) -> bool {
        self.inner.is_some()
    }

    open spec fn accepts(&self, args: (A1, A2, A3, A4, A5, A6, A7, A8, A9)) -> bool {
        self.inner.is_some() && call_requires(self.inner.unwrap(), args)
    }

    open spec fn yields(&self, args: (A1, A2, A3, A4, A5, A6, A7, A8, A9), out: R) -> bool {
        self.inner.is_some() && call_ensures(self.inner.unwrap(), args, out)
    }

    fn fire(&mut self, args: (A1, A2, A3, A4, A5, A6, A7, A8, A9)) -> (out: R) {
        let func = self.draw();
        func(args.0, args.1, args.2, args.3, args.4, args.5, args.6, args.7, args.8)
    }
}

/// A slot for a callable of ten arguments.
impl<A1, A2, A3, A4, A5, A6, A7, A8, A9, A10, R, F> OnceShim<(A1, A2, A3, A4, A5, A6, A7, A8, A9, A10), R>
    for Slot<F> where
    F: FnOnce(A1, A2, A3, A4, A5, A6, A7, A8, A9, A10) -> R,
{
    open spec fn armed(&self) -> bool {
        self.inner.is_some()
    }

    open spec fn accepts(&self, args: (A1, A2, A3, A4, A5, A6, A7, A8, A9, A10)) -> bool {
        self.inner.is_some() && call_requires(self.inner.unwrap(), args)
    }

    open spec fn yields(&self, args: (A1, A2, A3, A4, A5, A6, A7, A8, A9, A10), out: R) -> bool {
        self.inner.is_some() && call_ensures(self.inner.unwrap(), args, out)
    }

    fn fire(&mut self, args: (A1, A2, A3, A4, A5, A6, A7, A8, A9, A10)) -> (out: R) {
        let func = self.draw();
        func(args.0, args.1, args.2, args.3, args.4, args.5, args.6, args.7, args.8, args.9)
    }
}

} // verus!
