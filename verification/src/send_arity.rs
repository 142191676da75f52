use crate::send_boxed::SendBoxFnOnce;
use crate::slot::Slot;
use vstd::prelude::*;
use vstd::std_specs::convert::FromSpec;

verus! {

impl<R> SendBoxFnOnce<(), R> {
    /// Runs the boxed callable, using the box up.
    pub fn call(self) -> (out: R)
        requires
            self.accepts(()),
        ensures
            self.yields((), out),
    {
        self.call_tuple(())
    }
}

impl<R, F> From<F>
    for SendBoxFnOnce<(), R> where
    F: 'static + Send + FnOnce() -> R,
{
    /// Boxes a callable of no arguments that may change threads.
    ///
    /// The box accepts the arguments that `func` accepts, and yields on them
    /// what `func` yields.
    fn from(func: F) -> (boxed: Self)
        ensures
            forall|args: ()|
                boxed.accepts(args) <==> call_requires(func, args),
            forall|args: (), out: R|
                boxed.yields(args, out) <==> call_ensures(func, args, out),
    {
        SendBoxFnOnce { func: Box::new(Slot::fill(func)) }
    }
}

impl<R, F> vstd::std_specs::convert::FromSpecImpl<F>
    for SendBoxFnOnce<(), R> where
    F: 'static + Send + FnOnce() -> R,
{
    open spec fn obeys_from_spec() -> bool {
        true
    }

    open(crate) spec fn from_spec(func: F) -> Self {
        SendBoxFnOnce { func: Box::new(Slot::holding(func)) }
    }
}

/// A box made from a callable of no arguments that may change threads
/// accepts exactly the arguments that the callable accepts, and calling it
/// on them can return exactly what the callable itself can return on them.
pub proof fn lemma_send_boxed_mirrors_callable_0<R, F>(
    func: F,
    args: (),
    out: R,
) where
    F: 'static + Send + FnOnce() -> R,

    ensures
        SendBoxFnOnce::<(), R>::from_spec(func).accepts(args)
            <==> call_requires(func, args),
        SendBoxFnOnce::<(), R>::from_spec(func).yields(args, out)
            <==> call_ensures(func, args, out),
{
}

impl<A1, R> SendBoxFnOnce<(A1,), R> {
    /// Runs the boxed callable on its one argument, using the box up.
    pub fn call(self, a1: A1) -> (out: R)
        requires
            self.accepts((a1,)),
        ensures
            self.yields((a1,), out),
    {
        self.call_tuple((a1,))
    }
}

impl<A1, R, F> From<F>
    for SendBoxFnOnce<(A1,), R> where
    F: 'static + Send + FnOnce(A1) -> R,
{
    /// Boxes a callable of one argument that may change threads.
    ///
    /// The box accepts the arguments that `func` accepts, and yields on them
    /// what `func` yields.
    fn from(func: F) -> (boxed: Self)
        ensures
            forall|args: (A1,)|
                boxed.accepts(args) <==> call_requires(func, args),
            forall|args: (A1,), out: R|
                boxed.yields(args, out) <==> call_ensures(func, args, out),
    {
        SendBoxFnOnce { func: Box::new(Slot::fill(func)) }
    }
}

impl<A1, R, F> vstd::std_specs::convert::FromSpecImpl<F>
    for SendBoxFnOnce<(A1,), R> where
    F: 'static + Send + FnOnce(A1) -> R,
{
    open spec fn obeys_from_spec() -> bool {
        true
    }

    open(crate) spec fn from_spec(func: F) -> Self {
        SendBoxFnOnce { func: Box::new(Slot::holding(func)) }
    }
}

/// A box made from a callable of one argument that may change threads
/// accepts exactly the arguments that the callable accepts, and calling it
/// on them can return exactly what the callable itself can return on them.
pub proof fn lemma_send_boxed_mirrors_callable_1<A1, R, F>(
    func: F,
    args: (A1,),
    out: R,
) where
    F: 'static + Send + FnOnce(A1) -> R,

    ensures
        SendBoxFnOnce::<(A1,), R>::from_spec(func).accepts(args)
            <==> call_requires(func, args),
        SendBoxFnOnce::<(A1,), R>::from_spec(func).yields(args, out)
            <==> call_ensures(func, args, out),
{
}

impl<A1, A2, R> SendBoxFnOnce<(A1, A2), R> {
    /// Runs the boxed callable on its two arguments, using the box up.
    pub fn call(self, a1: A1, a2: A2) -> (out: R)
        requires
            self.accepts((a1, a2)),
        ensures
            self.yields((a1, a2), out),
    {
        self.call_tuple((a1, a2))
    }
}

impl<A1, A2, R, F> From<F>
    for SendBoxFnOnce<(A1, A2), R> where
    F: 'static + Send + FnOnce(A1, A2) -> R,
{
    /// Boxes a callable of two arguments that may change threads.
    ///
    /// The box accepts the arguments that `func` accepts, and yields on them
    /// what `func` yields.
    fn from(func: F) -> (boxed: Self)
        ensures
            forall|args: (A1, A2)|
                boxed.accepts(args) <==> call_requires(func, args),
            forall|args: (A1, A2), out: R|
                boxed.yields(args, out) <==> call_ensures(func, args, out),
    {
        SendBoxFnOnce { func: Box::new(Slot::fill(func)) }
    }
}

impl<A1, A2, R, F> vstd::std_specs::convert::FromSpecImpl<F>
    for SendBoxFnOnce<(A1, A2), R> where
    F: 'static + Send + FnOnce(A1, A2) -> R,
{
    open spec fn obeys_from_spec() -> bool {
        true
    }

    open(crate) spec fn from_spec(func: F) -> Self {
        SendBoxFnOnce { func: Box::new(Slot::holding(func)) }
    }
}

/// A box made from a callable of two arguments that may change threads
/// accepts exactly the arguments that the callable accepts, and calling it
/// on them can return exactly what the callable itself can return on them.
pub proof fn lemma_send_boxed_mirrors_callable_2<A1, A2, R, F>(
    func: F,
    args: (A1, A2),
    out: R,
) where
    F: 'static + Send + FnOnce(A1, A2) -> R,

    ensures
        SendBoxFnOnce::<(A1, A2), R>::from_spec(func).accepts(args)
            <==> call_requires(func, args),
        SendBoxFnOnce::<(A1, A2), R>::from_spec(func).yields(args, out)
            <==> call_ensures(func, args, out),
{
}

impl<A1, A2, A3, R> SendBoxFnOnce<(A1, A2, A3), R> {
    /// Runs the boxed callable on its three arguments, using the box up.
    pub fn call(self, a1: A1, a2: A2, a3: A3) -> (out: R)
        requires
            self.accepts((a1, a2, a3)),
        ensures
            self.yields((a1, a2, a3), out),
    {
        self.call_tuple((a1, a2, a3))
    }
}

impl<A1, A2, A3, R, F> From<F>
    for SendBoxFnOnce<(A1, A2, A3), R> where
    F: 'static + Send + FnOnce(A1, A2, A3) -> R,
{
    /// Boxes a callable of three arguments that may change threads.
    ///
    /// The box accepts the arguments that `func` accepts, and yields on them
    /// what `func` yields.
    fn from(func: F) -> (boxed: Self)
        ensures
            forall|args: (A1, A2, A3)|
                boxed.accepts(args) <==> call_requires(func, args),
            forall|args: (A1, A2, A3), out: R|
                boxed.yields(args, out) <==> call_ensures(func, args, out),
    {
        SendBoxFnOnce { func: Box::new(Slot::fill(func)) }
    }
}

impl<A1, A2, A3, R, F> vstd::std_specs::convert::FromSpecImpl<F>
    for SendBoxFnOnce<(A1, A2, A3), R> where
    F: 'static + Send + FnOnce(A1, A2, A3) -> R,
{
    open spec fn obeys_from_spec() -> bool {
        true
    }

    open(crate) spec fn from_spec(func: F) -> Self {
        SendBoxFnOnce { func: Box::new(Slot::holding(func)) }
    }
}

/// A box made from a callable of three arguments that may change threads
/// accepts exactly the arguments that the callable accepts, and calling it
/// on them can return exactly what the callable itself can return on them.
pub proof fn lemma_send_boxed_mirrors_callable_3<A1, A2, A3, R, F>(
    func: F,
    args: (A1, A2, A3),
    out: R,
) where
    F: 'static + Send + FnOnce(A1, A2, A3) -> R,

    ensures
        SendBoxFnOnce::<(A1, A2, A3), R>::from_spec(func).accepts(args)
            <==> call_requires(func, args),
        SendBoxFnOnce::<(A1, A2, A3), R>::from_spec(func).yields(args, out)
            <==> call_ensures(func, args, out),
{
}

impl<A1, A2, A3, A4, R> SendBoxFnOnce<(A1, A2, A3, A4), R> {
    /// Runs the boxed callable on its four arguments, using the box up.
    pub fn call(self, a1: A1, a2: A2, a3: A3, a4: A4) -> (out: R)
        requires
            self.accepts((a1, a2, a3, a4)),
        ensures
            self.yields((a1, a2, a3, a4), out),
    {
        self.call_tuple((a1, a2, a3, a4))
    }
}

impl<A1, A2, A3, A4, R, F> From<F>
    for SendBoxFnOnce<(A1, A2, A3, A4), R> where
    F: 'static + Send + FnOnce(A1, A2, A3, A4) -> R,
{
    /// Boxes a callable of four arguments that may change threads.
    ///
    /// The box accepts the arguments that `func` accepts, and yields on them
    /// what `func` yields.
    fn from(func: F) -> (boxed: Self)
        ensures
            forall|args: (A1, A2, A3, A4)|
                boxed.accepts(args) <==> call_requires(func, args),
            forall|args: (A1, A2, A3, A4), out: R|
                boxed.yields(args, out) <==> call_ensures(func, args, out),
    {
        SendBoxFnOnce { func: Box::new(Slot::fill(func)) }
    }
}

impl<A1, A2, A3, A4, R, F> vstd::std_specs::convert::FromSpecImpl<F>
    for SendBoxFnOnce<(A1, A2, A3, A4), R> where
    F: 'static + Send + FnOnce(A1, A2, A3, A4) -> R,
{
    open spec fn obeys_from_spec() -> bool {
        true
    }

    open(crate) spec fn from_spec(func: F) -> Self {
        SendBoxFnOnce { func: Box::new(Slot::holding(func)) }
    }
}

/// A box made from a callable of four arguments that may change threads
/// accepts exactly the arguments that the callable accepts, and calling it
/// on them can return exactly what the callable itself can return on them.
pub proof fn lemma_send_boxed_mirrors_callable_4<A1, A2, A3, A4, R, F>(
    func: F,
    args: (A1, A2, A3, A4),
    out: R,
) where
    F: 'static + Send + FnOnce(A1, A2, A3, A4) -> R,

    ensures
        SendBoxFnOnce::<(A1, A2, A3, A4), R>::from_spec(func).accepts(args)
            <==> call_requires(func, args),
        SendBoxFnOnce::<(A1, A2, A3, A4), R>::from_spec(func).yields(args, out)
            <==> call_ensures(func, args, out),
{
}

impl<A1, A2, A3, A4, A5, R> SendBoxFnOnce<(A1, A2, A3, A4, A5), R> {
    /// Runs the boxed callable on its five arguments, using the box up.
    pub fn call(self, a1: A1, a2: A2, a3: A3, a4: A4, a5: A5) -> (out: R)
        requires
            self.accepts((a1, a2, a3, a4, a5)),
        ensures
            self.yields((a1, a2, a3, a4, a5), out),
    {
        self.call_tuple((a1, a2, a3, a4, a5))
    }
}

impl<A1, A2, A3, A4, A5, R, F> From<F>
    for SendBoxFnOnce<(A1, A2, A3, A4, A5), R> where
    F: 'static + Send + FnOnce(A1, A2, A3, A4, A5) -> R,
{
    /// Boxes a callable of five arguments that may change threads.
    ///
    /// The box accepts the arguments that `func` accepts, and yields on them
    /// what `func` yields.
    fn from(func: F) -> (boxed: Self)
        ensures
            forall|args: (A1, A2, A3, A4, A5)|
                boxed.accepts(args) <==> call_requires(func, args),
            forall|args: (A1, A2, A3, A4, A5), out: R|
                boxed.yields(args, out) <==> call_ensures(func, args, out),
    {
        SendBoxFnOnce { func: Box::new(Slot::fill(func)) }
    }
}

impl<A1, A2, A3, A4, A5, R, F> vstd::std_specs::convert::FromSpecImpl<F>
    for SendBoxFnOnce<(A1, A2, A3, A4, A5), R> where
    F: 'static + Send + FnOnce(A1, A2, A3, A4, A5) -> R,
{
    open spec fn obeys_from_spec() -> bool {
        true
    }

    open(crate) spec fn from_spec(func: F) -> Self {
        SendBoxFnOnce { func: Box::new(Slot::holding(func)) }
    }
}

/// A box made from a callable of five arguments that may change threads
/// accepts exactly the arguments that the callable accepts, and calling it
/// on them can return exactly what the callable itself can return on them.
pub proof fn lemma_send_boxed_mirrors_callable_5<A1, A2, A3, A4, A5, R, F>(
    func: F,
    args: (A1, A2, A3, A4, A5),
    out: R,
) where
    F: 'static + Send + FnOnce(A1, A2, A3, A4, A5) -> R,

    ensures
        SendBoxFnOnce::<(A1, A2, A3, A4, A5), R>::from_spec(func).accepts(args)
            <==> call_requires(func, args),
        SendBoxFnOnce::<(A1, A2, A3, A4, A5), R>::from_spec(func).yields(args, out)
            <==> call_ensures(func, args, out),
{
}

impl<A1, A2, A3, A4, A5, A6, R> SendBoxFnOnce<(A1, A2, A3, A4, A5, A6), R> {
    /// Runs the boxed callable on its six arguments, using the box up.
    pub fn call(self, a1: A1, a2: A2, a3: A3, a4: A4, a5: A5, a6: A6) -> (out: R)
        requires
            self.accepts((a1, a2, a3, a4, a5, a6)),
        ensures
            self.yields((a1, a2, a3, a4, a5, a6), out),
    {
        self.call_tuple((a1, a2, a3, a4, a5, a6))
    }
}

impl<A1, A2, A3, A4, A5, A6, R, F> From<F>
    for SendBoxFnOnce<(A1, A2, A3, A4, A5, A6), R> where
    F: 'static + Send + FnOnce(A1, A2, A3, A4, A5, A6) -> R,
{
    /// Boxes a callable of six arguments that may change threads.
    ///
    /// The box accepts the arguments that `func` accepts, and yields on them
    /// what `func` yields.
    fn from(func: F) -> (boxed: Self)
        ensures
            forall|args: (A1, A2, A3, A4, A5, A6)|
                boxed.accepts(args) <==> call_requires(func, args),
            forall|args: (A1, A2, A3, A4, A5, A6), out: R|
                boxed.yields(args, out) <==> call_ensures(func, args, out),
    {
        SendBoxFnOnce { func: Box::new(Slot::fill(func)) }
    }
}

impl<A1, A2, A3, A4, A5, A6, R, F> vstd::std_specs::convert::FromSpecImpl<F>
    for SendBoxFnOnce<(A1, A2, A3, A4, A5, A6), R> where
    F: 'static + Send + FnOnce(A1, A2, A3, A4, A5, A6) -> R,
{
    open spec fn obeys_from_spec() -> bool {
        true
    }

    open(crate) spec fn from_spec(func: F) -> Self {
        SendBoxFnOnce { func: Box::new(Slot::holding(func)) }
    }
}

/// A box made from a callable of six arguments that may change threads
/// accepts exactly the arguments that the callable accepts, and calling it
/// on them can return exactly what the callable itself can return on them.
pub proof fn lemma_send_boxed_mirrors_callable_6<A1, A2, A3, A4, A5, A6, R, F>(
    func: F,
    args: (A1, A2, A3, A4, A5, A6),
    out: R,
) where
    F: 'static + Send + FnOnce(A1, A2, A3, A4, A5, A6) -> R,

    ensures
        SendBoxFnOnce::<(A1, A2, A3, A4, A5, A6), R>::from_spec(func).accepts(args)
            <==> call_requires(func, args),
        SendBoxFnOnce::<(A1, A2, A3, A4, A5, A6), R>::from_spec(func).yields(args, out)
            <==> call_ensures(func, args, out),
{
}

impl<A1, A2, A3, A4, A5, A6, A7, R> SendBoxFnOnce<(A1, A2, A3, A4, A5, A6, A7), R> {
    /// Runs the boxed callable on its seven arguments, using the box up.
    pub fn call(self, a1: A1, a2: A2, a3: A3, a4: A4, a5: A5, a6: A6, a7: A7) -> (out: R)
        requires
            self.accepts((a1, a2, a3, a4, a5, a6, a7)),
        ensures
            self.yields((a1, a2, a3, a4, a5, a6, a7), out),
    {
        self.call_tuple((a1, a2, a3, a4, a5, a6, a7))
    }
}

impl<A1, A2, A3, A4, A5, A6, A7, R, F> From<F>
    for SendBoxFnOnce<(A1, A2, A3, A4, A5, A6, A7), R> where
    F: 'static + Send + FnOnce(A1, A2, A3, A4, A5, A6, A7) -> R,
{
    /// Boxes a callable of seven arguments that may change threads.
    ///
    /// The box accepts the arguments that `func` accepts, and yields on them
    /// what `func` yields.
    fn from(func: F) -> (boxed: Self)
        ensures
            forall|args: (A1, A2, A3, A4, A5, A6, A7)|
                boxed.accepts(args) <==> call_requires(func, args),
            forall|args: (A1, A2, A3, A4, A5, A6, A7), out: R|
                boxed.yields(args, out) <==> call_ensures(func, args, out),
    {
        SendBoxFnOnce { func: Box::new(Slot::fill(func)) }
    }
}

impl<A1, A2, A3, A4, A5, A6, A7, R, F> vstd::std_specs::convert::FromSpecImpl<F>
    for SendBoxFnOnce<(A1, A2, A3, A4, A5, A6, A7), R> where
    F: 'static + Send + FnOnce(A1, A2, A3, A4, A5, A6, A7) -> R,
{
    open spec fn obeys_from_spec() -> bool {
        true
    }

    open(crate) spec fn from_spec(func: F) -> Self {
        SendBoxFnOnce { func: Box::new(Slot::holding(func)) }
    }
}

/// A box made from a callable of seven arguments that may change threads
/// accepts exactly the arguments that the callable accepts, and calling it
/// on them can return exactly what the callable itself can return on them.
pub proof fn lemma_send_boxed_mirrors_callable_7<A1, A2, A3, A4, A5, A6, A7, R, F>(
    func: F,
    args: (A1, A2, A3, A4, A5, A6, A7),
    out: R,
) where
    F: 'static + Send + FnOnce(A1, A2, A3, A4, A5, A6, A7) -> R,

    ensures
        SendBoxFnOnce::<(A1, A2, A3, A4, A5, A6, A7), R>::from_spec(func).accepts(args)
            <==> call_requires(func, args),
        SendBoxFnOnce::<(A1, A2, A3, A4, A5, A6, A7), R>::from_spec(func).yields(args, out)
            <==> call_ensures(func, args, out),
{
}

impl<A1, A2, A3, A4, A5, A6, A7, A8, R> SendBoxFnOnce<(A1, A2, A3, A4, A5, A6, A7, A8), R> {
    /// Runs the boxed callable on its eight arguments, using the box up.
    pub fn call(
        self, a1: A1, a2: A2, a3: A3, a4: A4, a5: A5, a6: A6, a7: A7, a8: A8,
    ) -> (out: R)
        requires
            self.accepts((a1, a2, a3, a4, a5, a6, a7, a8)),
        ensures
            self.yields((a1, a2, a3, a4, a5, a6, a7, a8), out),
    {
        self.call_tuple((a1, a2, a3, a4, a5, a6, a7, a8))
    }
}

impl<A1, A2, A3, A4, A5, A6, A7, A8, R, F> From<F>
    for SendBoxFnOnce<(A1, A2, A3, A4, A5, A6, A7, A8), R> where
    F: 'static + Send + FnOnce(A1, A2, A3, A4, A5, A6, A7, A8) -> R,
{
    /// Boxes a callable of eight arguments that may change threads.
    ///
    /// The box accepts the arguments that `func` accepts, and yields on them
    /// what `func` yields.
    fn from(func: F) -> (boxed: Self)
        ensures
            forall|args: (A1, A2, A3, A4, A5, A6, A7, A8)|
                boxed.accepts(args) <==> call_requires(func, args),
            forall|args: (A1, A2, A3, A4, A5, A6, A7, A8), out: R|
                boxed.yields(args, out) <==> call_ensures(func, args, out),
    {
        SendBoxFnOnce { func: Box::new(Slot::fill(func)) }
    }
}

impl<A1, A2, A3, A4, A5, A6, A7, A8, R, F> vstd::std_specs::convert::FromSpecImpl<F>
    for SendBoxFnOnce<(A1, A2, A3, A4, A5, A6, A7, A8), R> where
    F: 'static + Send + FnOnce(A1, A2, A3, A4, A5, A6, A7, A8) -> R,
{
    open spec fn obeys_from_spec() -> bool {
        true
    }

    open(crate) spec fn from_spec(func: F) -> Self {
        SendBoxFnOnce { func: Box::new(Slot::holding(func)) }
    }
}

/// A box made from a callable of eight arguments that may change threads
/// accepts exactly the arguments that the callable accepts, and calling it
/// on them can return exactly what the callable itself can return on them.
pub proof fn lemma_send_boxed_mirrors_callable_8<A1, A2, A3, A4, A5, A6, A7, A8, R, F>(
    func: F,
    args: (A1, A2, A3, A4, A5, A6, A7, A8),
    out: R,
) where
    F: 'static + Send + FnOnce(A1, A2, A3, A4, A5, A6, A7, A8) -> R,

    ensures
        SendBoxFnOnce::<(A1, A2, A3, A4, A5, A6, A7, A8), R>::from_spec(func).accepts(args)
            <==> call_requires(func, args),
        SendBoxFnOnce::<(A1, A2, A3, A4, A5, A6, A7, A8), R>::from_spec(func).yields(args, out)
            <==> call_ensures(func, args, out),
{
}

impl<A1, A2, A3, A4, A5, A6, A7, A8, A9, R> SendBoxFnOnce<(A1, A2, A3, A4, A5, A6, A7, A8, A9), R> {
    /// Runs the boxed callable on its nine arguments, using the box up.
    pub fn call(
        self, a1: A1, a2: A2, a3: A3, a4: A4, a5: A5, a6: A6, a7: A7, a8: A8,
        a9: A9,
    ) -> (out: R)
        requires
            self.accepts((a1, a2, a3, a4, a5, a6, a7, a8, a9)),
        ensures
            self.yields((a1, a2, a3, a4, a5, a6, a7, a8, a9), out),
    {
        self.call_tuple((a1, a2, a3, a4, a5, a6, a7, a8, a9))
    }
}

impl<A1, A2, A3, A4, A5, A6, A7, A8, A9, R, F> From<F>
    for SendBoxFnOnce<(A1, A2, A3, A4, A5, A6, A7, A8, A9), R> where
    F: 'static + Send + FnOnce(A1, A2, A3, A4, A5, A6, A7, A8, A9) -> R,
{
    /// Boxes a callable of nine arguments that may change threads.
    ///
    /// The box accepts the arguments that `func` accepts, and yields on them
    /// what `func` yields.
    fn from(func: F) -> (boxed: Self)
        ensures
            forall|args: (A1, A2, A3, A4, A5, A6, A7, A8, A9)|
                boxed.accepts(args) <==> call_requires(func, args),
            forall|args: (A1, A2, A3, A4, A5, A6, A7, A8, A9), out: R|
                boxed.yields(args, out) <==> call_ensures(func, args, out),
    {
        SendBoxFnOnce { func: Box::new(Slot::fill(func)) }
    }
}

impl<A1, A2, A3, A4, A5, A6, A7, A8, A9, R, F> vstd::std_specs::convert::FromSpecImpl<F>
    for SendBoxFnOnce<(A1, A2, A3, A4, A5, A6, A7, A8, A9), R> where
    F: 'static + Send + FnOnce(A1, A2, A3, A4, A5, A6, A7, A8, A9) -> R,
{
    open spec fn obeys_from_spec() -> bool {
        true
    }

    open(crate) spec fn from_spec(func: F) -> Self {
        SendBoxFnOnce { func: Box::new(Slot::holding(func)) }
    }
}

/// A box made from a callable of nine arguments that may change threads
/// accepts exactly the arguments that the callable accepts, and calling it
/// on them can return exactly what the callable itself can return on them.
pub proof fn lemma_send_boxed_mirrors_callable_9<A1, A2, A3, A4, A5, A6, A7, A8, A9, R, F>(
    func: F,
    args: (A1, A2, A3, A4, A5, A6, A7, A8, A9),
    out: R,
) where
    F: 'static + Send + FnOnce(A1, A2, A3, A4, A5, A6, A7, A8, A9) -> R,

    ensures
        SendBoxFnOnce::<(A1, A2, A3, A4, A5, A6, A7, A8, A9), R>::from_spec(func).accepts(args)
            <==> call_requires(func, args),
        SendBoxFnOnce::<(A1, A2, A3, A4, A5, A6, A7, A8, A9), R>::from_spec(func).yields(args, out)
            <==> call_ensures(func, args, out),
{
}

impl<A1, A2, A3, A4, A5, A6, A7, A8, A9, A10, R>
    SendBoxFnOnce<(A1, A2, A3, A4, A5, A6, A7, A8, A9, A10), R>
{
    /// Runs the boxed callable on its ten arguments, using the box up.
    pub fn call(
        self, a1: A1, a2: A2, a3: A3, a4: A4, a5: A5, a6: A6, a7: A7, a8: A8,
        a9: A9, a10: A10,
    ) -> (out: R)
        requires
            self.accepts((a1, a2, a3, a4, a5, a6, a7, a8, a9, a10)),
        ensures
            self.yields((a1, a2, a3, a4, a5, a6, a7, a8, a9, a10), out),
    {
        self.call_tuple((a1, a2, a3, a4, a5, a6, a7, a8, a9, a10))
    }
}

impl<A1, A2, A3, A4, A5, A6, A7, A8, A9, A10, R, F> From<F>
    for SendBoxFnOnce<(A1, A2, A3, A4, A5, A6, A7, A8, A9, A10), R> where
    F: 'static + Send + FnOnce(A1, A2, A3, A4, A5, A6, A7, A8, A9, A10) -> R,
{
    /// Boxes a callable of ten arguments that may change threads.
    ///
    /// The box accepts the arguments that `func` accepts, and yields on them
    /// what `func` yields.
    fn from(func: F) -> (boxed: Self)
        ensures
            forall|args: (A1, A2, A3, A4, A5, A6, A7, A8, A9, A10)|
                boxed.accepts(args) <==> call_requires(func, args),
            forall|args: (A1, A2, A3, A4, A5, A6, A7, A8, A9, A10), out: R|
                boxed.yields(args, out) <==> call_ensures(func, args, out),
    {
        SendBoxFnOnce { func: Box::new(Slot::fill(func)) }
    }
}

impl<A1, A2, A3, A4, A5, A6, A7, A8, A9, A10, R, F> vstd::std_specs::convert::FromSpecImpl<F>
    for SendBoxFnOnce<(A1, A2, A3, A4, A5, A6, A7, A8, A9, A10), R> where
    F: 'static + Send + FnOnce(A1, A2, A3, A4, A5, A6, A7, A8, A9, A10) -> R,
{
    open spec fn obeys_from_spec() -> bool {
        true
    }

    open(crate) spec fn from_spec(func: F) -> Self {
        SendBoxFnOnce { func: Box::new(Slot::holding(func)) }
    }
}

/// A box made from a callable of ten arguments that may change threads
/// accepts exactly the arguments that the callable accepts, and calling it
/// on them can return exactly what the callable itself can return on them.
pub proof fn lemma_send_boxed_mirrors_callable_10<A1, A2, A3, A4, A5, A6, A7, A8, A9, A10, R, F>(
    func: F,
    args: (A1, A2, A3, A4, A5, A6, A7, A8, A9, A10),
    out: R,
) where
    F: 'static + Send + FnOnce(A1, A2, A3, A4, A5, A6, A7, A8, A9, A10) -> R,

    ensures
        SendBoxFnOnce::<(A1, A2, A3, A4, A5, A6, A7, A8, A9, A10), R>::from_spec(func).accepts(args)
            <==> call_requires(func, args),
        SendBoxFnOnce::<(A1, A2, A3, A4, A5, A6, A7, A8, A9, A10), R>::from_spec(func).yields(args, out)
            <==> call_ensures(func, args, out),
{
}

} // verus!
