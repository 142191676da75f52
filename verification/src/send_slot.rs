use crate::slot::Slot;
use vstd::prelude::*;

verus! {

/// The interface behind which a boxed callable that may be handed to another
/// thread hides its concrete type.
///
/// It is used up by firing, as an [`OnceShim`](crate::slot::OnceShim) is.
pub trait SendOnceShim<Args, R>: Send {
    /// The callable is still held and has not been run.
    spec fn send_armed(&self) -> bool;

    /// A callable is held and may be run on `args`.
    spec fn send_accepts(&self, args: Args) -> bool;

    /// Running the held callable on `args` may produce `out`.
    spec fn send_yields(&self, args: Args, out: R) -> bool;

    /// Takes the callable out and runs it on `args`. Nothing is held
    /// afterwards.
    fn send_fire(&mut self, args: Args) -> (out: R)
        requires
            old(self).send_armed(),
            old(self).send_accepts(args),
        ensures
            old(self).send_yields(args, out),
            !final(self).send_armed(),
            forall|again: Args| !final(self).send_accepts(again),
    ;
}

/// A slot for a callable of no arguments that may change threads.
impl<R, F> SendOnceShim<(), R>
    for Slot<F> where
    F: Send + FnOnce() -> R,
{
    open spec fn send_armed(&self) -> bool {
        self.inner.is_some()
    }

    open spec fn send_accepts(&self, args: ()) -> bool {
        self.inner.is_some() && call_requires(self.inner.unwrap(), args)
    }

    open spec fn send_yields(&self, args: (), out: R) -> bool {
        self.inner.is_some() && call_ensures(self.inner.unwrap(), args, out)
    }

    fn send_fire(&mut self, _args: ()) -> (out: R) {
        let func = self.draw();
        func()
    }
}

/// A slot for a callable of one argument that may change threads.
impl<A1, R, F> SendOnceShim<(A1,), R>
    for Slot<F> where
    F: Send + FnOnce(A1) -> R,
{
    open spec fn send_armed(&self) -> bool {
        self.inner.is_some()
    }

    open spec fn send_accepts(&self, args: (A1,)) -> bool {
        self.inner.is_some() && call_requires(self.inner.unwrap(), args)
    }

    open spec fn send_yields(&self, args: (A1,), out: R) -> bool {
        self.inner.is_some() && call_ensures(self.inner.unwrap(), args, out)
    }

    fn send_fire(&mut self, args: (A1,)) -> (out: R) {
        let func = self.draw();
        func(args.0)
    }
}

/// A slot for a callable of two arguments that may change threads.
impl<A1, A2, R, F> SendOnceShim<(A1, A2), R>
    for Slot<F> where
    F: Send + FnOnce(A1, A2) -> R,
{
    open spec fn send_armed(&self) -> bool {
        self.inner.is_some()
    }

    open spec fn send_accepts(&self, args: (A1, A2)) -> bool {
        self.inner.is_some() && call_requires(self.inner.unwrap(), args)
    }

    open spec fn send_yields(&self, args: (A1, A2), out: R) -> bool {
        self.inner.is_some() && call_ensures(self.inner.unwrap(), args, out)
    }

    fn send_fire(&mut self, args: (A1, A2)) -> (out: R) {
        let func = self.draw();
        func(args.0, args.1)
    }
}

/// A slot for a callable of three arguments that may change threads.
impl<A1, A2, A3, R, F> SendOnceShim<(A1, A2, A3), R>
    for Slot<F> where
    F: Send + FnOnce(A1, A2, A3) -> R,
{
    open spec fn send_armed(&self) -> bool {
        self.inner.is_some()
    }

    open spec fn send_accepts(&self, args: (A1, A2, A3)) -> bool {
        self.inner.is_some() && call_requires(self.inner.unwrap(), args)
    }

    open spec fn send_yields(&self, args: (A1, A2, A3), out: R) -> bool {
        self.inner.is_some() && call_ensures(self.inner.unwrap(), args, out)
    }

    fn send_fire(&mut self, args: (A1, A2, A3)) -> (out: R) {
        let func = self.draw();
        func(args.0, args.1, args.2)
    }
}

/// A slot for a callable of four arguments that may change threads.
impl<A1, A2, A3, A4, R, F> SendOnceShim<(A1, A2, A3, A4), R>
    for Slot<F> where
    F: Send + FnOnce(A1, A2, A3, A4) -> R,
{
    open spec fn send_armed(&self) -> bool {
        self.inner.is_some()
    }

    open spec fn send_accepts(&self, args: (A1, A2, A3, A4)) -> bool {
        self.inner.is_some() && call_requires(self.inner.unwrap(), args)
    }

    open spec fn send_yields(&self, args: (A1, A2, A3, A4), out: R) -> bool {
        self.inner.is_some() && call_ensures(self.inner.unwrap(), args, out)
    }

    fn send_fire(&mut self, args: (A1, A2, A3, A4)) -> (out: R) {
        let func = self.draw();
        func(args.0, args.1, args.2, args.3)
    }
}

/// A slot for a callable of five arguments that may change threads.
impl<A1, A2, A3, A4, A5, R, F> SendOnceShim<(A1, A2, A3, A4, A5), R>
    for Slot<F> where
    F: Send + FnOnce(A1, A2, A3, A4, A5) -> R,
{
    open spec fn send_armed(&self) -> bool {
        self.inner.is_some()
    }

    open spec fn send_accepts(&self, args: (A1, A2, A3, A4, A5)) -> bool {
        self.inner.is_some() && call_requires(self.inner.unwrap(), args)
    }

    open spec fn send_yields(&self, args: (A1, A2, A3, A4, A5), out: R) -> bool {
        self.inner.is_some() && call_ensures(self.inner.unwrap(), args, out)
    }

    fn send_fire(&mut self, args: (A1, A2, A3, A4, A5)) -> (out: R) {
        let func = self.draw();
        func(args.0, args.1, args.2, args.3, args.4)
    }
}

/// A slot for a callable of six arguments that may change threads.
impl<A1, A2, A3, A4, A5, A6, R, F> SendOnceShim<(A1, A2, A3, A4, A5, A6), R>
    for Slot<F> where
    F: Send + FnOnce(A1, A2, A3, A4, A5, A6) -> R,
{
    open spec fn send_armed(&self) -> bool {
        self.inner.is_some()
    }

    open spec fn send_accepts(&self, args: (A1, A2, A3, A4, A5, A6)) -> bool {
        self.inner.is_some() && call_requires(self.inner.unwrap(), args)
    }

    open spec fn send_yields(&self, args: (A1, A2, A3, A4, A5, A6), out: R) -> bool {
        self.inner.is_some() && call_ensures(self.inner.unwrap(), args, out)
    }

    fn send_fire(&mut self, args: (A1, A2, A3, A4, A5, A6)) -> (out: R) {
        let func = self.draw();
        func(args.0, args.1, args.2, args.3, args.4, args.5)
    }
}

/// A slot for a callable of seven arguments that may change threads.
impl<A1, A2, A3, A4, A5, A6, A7, R, F> SendOnceShim<(A1, A2, A3, A4, A5, A6, A7), R>
    for Slot<F> where
    F: Send + FnOnce(A1, A2, A3, A4, A5, A6, A7) -> R,
{
    open spec fn send_armed(&self) -> bool {
        self.inner.is_some()
    }

    open spec fn send_accepts(&self, args: (A1, A2, A3, A4, A5, A6, A7)) -> bool {
        self.inner.is_some() && call_requires(self.inner.unwrap(), args)
    }

    open spec fn send_yields(&self, args: (A1, A2, A3, A4, A5, A6, A7), out: R) -> bool {
        self.inner.is_some() && call_ensures(self.inner.unwrap(), args, out)
    }

    fn send_fire(&mut self, args: (A1, A2, A3, A4, A5, A6, A7)) -> (out: R) {
        let func = self.draw();
        func(args.0, args.1, args.2, args.3, args.4, args.5, args.6)
    }
}

/// A slot for a callable of eight arguments that may change threads.
impl<A1, A2, A3, A4, A5, A6, A7, A8, R, F> SendOnceShim<(A1, A2, A3, A4, A5, A6, A7, A8), R>
    for Slot<F> where
    F: Send + FnOnce(A1, A2, A3, A4, A5, A6, A7, A8) -> R,
{
    open spec fn send_armed(&self) -> bool {
        self.inner.is_some()
    }

    open spec fn send_accepts(&self, args: (A1, A2, A3, A4, A5, A6, A7, A8)) -> bool {
        self.inner.is_some() && call_requires(self.inner.unwrap(), args)
    }

    open spec fn send_yields(&self, args: (A1, A2, A3, A4, A5, A6, A7, A8), out: R) -> bool {
        self.inner.is_some() && call_ensures(self.inner.unwrap(), args, out)
    }

    fn send_fire(&mut self, args: (A1, A2, A3, A4, A5, A6, A7, A8)) -> (out: R) {
        let func = self.draw();
        func(args.0, args.1, args.2, args.3, args.4, args.5, args.6, args.7)
    }
}

/// A slot for a callable of nine arguments that may change threads.
impl<A1, A2, A3, A4, A5, A6, A7, A8, A9, R, F> SendOnceShim<(A1, A2, A3, A4, A5, A6, A7, A8, A9), R>
    for Slot<F> where
    F: Send + FnOnce(A1, A2, A3, A4, A5, A6, A7, A8, A9) -> R,
{
    open spec fn send_armed(&self) -> bool {
        self.inner.is_some()
    }

    open spec fn send_accepts(&self, args: (A1, A2, A3, A4, A5, A6, A7, A8, A9)) -> bool {
        self.inner.is_some() && call_requires(self.inner.unwrap(), args)
    }

    open spec fn send_yields(&self, args: (A1, A2, A3, A4, A5, A6, A7, A8, A9), out: R) -> bool {
        self.inner.is_some() && call_ensures(self.inner.unwrap(), args, out)
    }

    fn send_fire(&mut self, args: (A1, A2, A3, A4, A5, A6, A7, A8, A9)) -> (out: R) {
        let func = self.draw();
        func(args.0, args.1, args.2, args.3, args.4, args.5, args.6, args.7, args.8)
    }
}

/// A slot for a callable of ten arguments that may change threads.
impl<A1, A2, A3, A4, A5, A6, A7, A8, A9, A10, R, F> SendOnceShim<(A1, A2, A3, A4, A5, A6, A7, A8, A9, A10), R>
    for Slot<F> where
    F: Send + FnOnce(A1, A2, A3, A4, A5, A6, A7, A8, A9, A10) -> R,
{
    open spec fn send_armed(&self) -> bool {
        self.inner.is_some()
    }

    open spec fn send_accepts(&self, args: (A1, A2, A3, A4, A5, A6, A7, A8, A9, A10)) -> bool {
        self.inner.is_some() && call_requires(self.inner.unwrap(), args)
    }

    open spec fn send_yields(&self, args: (A1, A2, A3, A4, A5, A6, A7, A8, A9, A10), out: R) -> bool {
        self.inner.is_some() && call_ensures(self.inner.unwrap(), args, out)
    }

    fn send_fire(&mut self, args: (A1, A2, A3, A4, A5, A6, A7, A8, A9, A10)) -> (out: R) {
        let func = self.draw();
        func(args.0, args.1, args.2, args.3, args.4, args.5, args.6, args.7, args.8, args.9)
    }
}

} // verus!
