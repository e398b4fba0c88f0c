use vstd::prelude::*;

verus! {

/// Progress record handed to the caller each time one unit of work
/// completes.
pub struct Callback {
    /// The name of the package that completed.
    pub pkg: String,
    /// How many units of work have completed so far, this one included.
    pub n: usize,
    /// Trimmed output of the command that did the work.
    pub output: String,
}

/// Mathematical image of a [`Callback`].
pub struct CallbackV {
    pub pkg: Seq<char>,
    pub n: usize,
    pub output: Seq<char>,
}

impl View for Callback {
    type V = CallbackV;

    open spec fn view(&self) -> CallbackV {
        CallbackV { pkg: self.pkg@, n: self.n, output: self.output@ }
    }
}

impl DeepView for Callback {
    type V = CallbackV;

    open spec fn deep_view(&self) -> CallbackV {
        self@
    }
}

} // verus!
