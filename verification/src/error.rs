use vstd::prelude::*;

verus! {

/// An error answered to an API caller.
pub enum ApiError {
    /// The request itself is unacceptable; the text says why.
    BadRequest(String),
    /// The database failed; the text is its message.
    Database(String),
    /// The requested thing does not exist; the text says what.
    NotFound(String),
    /// The caller is not a known user.
    Unauthorized,
    /// The caller is known but may not do this.
    Forbidden,
}

/// What an `ApiError` says, with its texts as character sequences.
pub enum ApiErrorView {
    BadRequest(Seq<char>),
    Database(Seq<char>),
    NotFound(Seq<char>),
    Unauthorized,
    Forbidden,
}

impl View for ApiError {
    type V = ApiErrorView;

    open spec fn view(&self) -> ApiErrorView {
        match self {
            ApiError::BadRequest(m) => ApiErrorView::BadRequest(m@),
            ApiError::Database(m) => ApiErrorView::Database(m@),
            ApiError::NotFound(m) => ApiErrorView::NotFound(m@),
            ApiError::Unauthorized => ApiErrorView::Unauthorized,
            ApiError::Forbidden => ApiErrorView::Forbidden,
        }
    }
}

/// What a `Result` that carries no value on success says.
pub open spec fn unit_result_view(r: Result<(), ApiError>) -> Result<(), ApiErrorView> {
    match r {
        Ok(()) => Ok(()),
        Err(e) => Err(e@),
    }
}

} // verus!
