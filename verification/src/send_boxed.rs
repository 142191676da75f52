use crate::send_slot::SendOnceShim;
use vstd::prelude::*;
use vstd::std_specs::convert::FromSpec;

verus! {

/// A heap-allocated callable that can be run only once and may be handed to
/// another thread.
///
/// It is built and called as a [`BoxFnOnce`](crate::boxed::BoxFnOnce) is.
/// The one difference lies in what can be boxed: only a callable that is
/// `Send`, together with all that it captures. In return the box itself is
/// `Send`.
#[verifier::reject_recursive_types(Args)]
#[verifier::reject_recursive_types(R)]
pub struct SendBoxFnOnce<Args, R = ()> {
    pub(crate) func: Box<dyn SendOnceShim<Args, R>>,
}

impl<Args, R> SendBoxFnOnce<Args, R> {
    /// As long as the box exists, its callable has not been run.
    #[verifier::type_invariant]
    pub(crate) open spec fn unspent(self) -> bool {
        self.func.send_armed()
    }

    /// The boxed callable may be run on `args`.
    pub open(crate) spec fn accepts(self, args: Args) -> bool {
        self.func.send_accepts(args)
    }

    /// Running the boxed callable on `args` may produce `out`.
    pub open(crate) spec fn yields(self, args: Args, out: R) -> bool {
        self.func.send_yields(args, out)
    }

    /// Runs the boxed callable on arguments that are at hand as a tuple,
    /// using the box up.
    pub fn call_tuple(self, args: Args) -> (out: R)
        requires
            self.accepts(args),
        ensures
            self.yields(args, out),
    {
        proof {
            use_type_invariant(&self);
        }
        let SendBoxFnOnce { func } = self;
        let mut shim = func;
        shim.send_fire(args)
    }

    /// Boxes `func`; another way to write `SendBoxFnOnce::from(func)`.
    pub fn new<F>(func: F) -> (boxed: Self) where Self: From<F>
        ensures
            call_ensures(Self::from, (func,), boxed),
            Self::obeys_from_spec() ==> boxed == Self::from_spec(func),
    {
        Self::from(func)
    }
}

} // verus!
