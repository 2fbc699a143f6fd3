use vstd::prelude::*;

verus! {

/// What ends a provisioning run early.
#[derive(Debug)]
pub enum IpaError {
    /// The configuration document could not be read into a `Config`.
    Config(String),
    /// The package manager reported a failure for a package.
    Install(String),
    /// A filesystem operation of the link engine failed.
    Link(String),
}

/// The error with its message as a sequence of characters.
pub enum ErrorView {
    Config(Seq<char>),
    Install(Seq<char>),
    Link(Seq<char>),
}

impl View for IpaError {
    type V = ErrorView;

    open spec fn view(&self) -> ErrorView {
        match self {
            IpaError::Config(m) => ErrorView::Config(m@),
            IpaError::Install(m) => ErrorView::Install(m@),
            IpaError::Link(m) => ErrorView::Link(m@),
        }
    }
}

impl IpaError {
    /// A copy of the error, with the same kind and message.
    pub fn duplicate(&self) -> (r: IpaError)
        ensures
            r@ == self@,
    {
        match self {
            IpaError::Config(m) => IpaError::Config(m.clone()),
            IpaError::Install(m) => IpaError::Install(m.clone()),
            IpaError::Link(m) => IpaError::Link(m.clone()),
        }
    }

    /// The human-readable message carried by the error.
    pub fn message(&self) -> (r: String)
        ensures
            r@ == match self@ {
                ErrorView::Config(m) => m,
                ErrorView::Install(m) => m,
                ErrorView::Link(m) => m,
            },
    {
        match self {
            IpaError::Config(m) => m.clone(),
            IpaError::Install(m) => m.clone(),
            IpaError::Link(m) => m.clone(),
        }
    }
}

} // verus!
