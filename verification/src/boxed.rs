use crate::slot::OnceShim;
use vstd::prelude::*;
use vstd::std_specs::convert::FromSpec;

verus! {

/// A heap-allocated callable that can be run only once.
///
/// `Args` is the tuple of the callable's argument types and `R` what it
/// returns. The concrete type of the callable is hidden; what remains known
/// of it is on which arguments it may be run ([`BoxFnOnce::accepts`]) and
/// what it may return on them ([`BoxFnOnce::yields`]).
///
/// Every way of running the callable takes the box by value, so a box that
/// was called is gone. A box that is dropped uncalled releases the callable
/// without running it.
#[verifier::reject_recursive_types(Args)]
#[verifier::reject_recursive_types(R)]
pub struct BoxFnOnce<Args, R = ()> {
    pub(crate) func: Box<dyn OnceShim<Args, R>>,
}

impl<Args, R> BoxFnOnce<Args, R> {
    /// As long as the box exists, its callable has not been run.
    #[verifier::type_invariant]
    pub(crate) open spec fn unspent(self) -> bool {
        self.func.armed()
    }

    /// The boxed callable may be run on `args`.
    pub open(crate) spec fn accepts(self, args: Args) -> bool {
        self.func.accepts(args)
    }

    /// Running the boxed callable on `args` may produce `out`.
    pub open(crate) spec fn yields(self, args: Args, out: R) -> bool {
        self.func.yields(args, out)
    }

    /// Runs the boxed callable on arguments that are at hand as a tuple,
    /// using the box up.
    pub fn call_tuple(self, args: Args) -> (out: R)
        requires
            self.accepts(args),
        ensures
            self.yields(args, out),
    {
        proof {
            use_type_invariant(&self);
        }
        let BoxFnOnce { func } = self;
        let mut shim = func;
        shim.fire(args)
    }

    /// Boxes `func`; another way to write `BoxFnOnce::from(func)`.
    pub fn new<F>(func: F) -> (boxed: Self) where Self: From<F>
        ensures
            call_ensures(Self::from, (func,), boxed),
            Self::obeys_from_spec() ==> boxed == Self::from_spec(func),
    {
        Self::from(func)
    }
}

} // verus!
