//! The error that type derivation reports.

use vstd::prelude::*;

verus! {

/// The error reported when a declaration cannot be given a type.
#[derive(Debug, PartialEq, Eq)]
pub enum DtypeError {
    /// The declaration is ill-formed; `message` says why.
    Misc { message: String },
    /// The declaration uses a construct that type derivation does not handle.
    Unsupported { construct: String },
}

/// The mathematical value of a [`DtypeError`].
pub enum DtypeErrorView {
    Misc { message: Seq<char> },
    Unsupported { construct: Seq<char> },
}

impl View for DtypeError {
    type V = DtypeErrorView;

    open spec fn view(&self) -> DtypeErrorView {
        match self {
            DtypeError::Misc { message } => DtypeErrorView::Misc { message: message@ },
            DtypeError::Unsupported { construct } => DtypeErrorView::Unsupported {
                construct: construct@,
            },
        }
    }
}

impl DtypeError {
    /// An ill-formed-declaration error carrying `message`.
    pub fn misc(message: &str) -> (e: DtypeError)
        ensures
            e@ == (DtypeErrorView::Misc { message: message@ }),
    {
        DtypeError::Misc { message: message.to_owned() }
    }

    /// An unsupported-construct error naming `construct`.
    pub fn unsupported(construct: &str) -> (e: DtypeError)
        ensures
            e@ == (DtypeErrorView::Unsupported { construct: construct@ }),
    {
        DtypeError::Unsupported { construct: construct.to_owned() }
    }
}

} // verus!
