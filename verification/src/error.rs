//! Errors that a command reports to the frontend.

use vstd::prelude::*;

verus! {

/// An error, by the part of the application that it comes from.
#[derive(Debug)]
pub enum AppError {
    /// An argument that is not acceptable.
    Validation(String),
    /// Looking for, fetching or installing an update.
    Updater(String),
    /// Opening the sign-in page.
    OAuth(String),
    /// Talking to the chat client.
    Discord(String),
    /// Placing the window behind the desktop icons.
    WindowLayer(String),
}

pub type AppResult<T> = Result<T, AppError>;

/// What an error says, apart from the string that holds it.
pub enum ErrorView {
    Validation(Seq<char>),
    Updater(Seq<char>),
    OAuth(Seq<char>),
    Discord(Seq<char>),
    WindowLayer(Seq<char>),
}

impl View for AppError {
    type V = ErrorView;

    open spec fn view(&self) -> ErrorView {
        match *self {
            AppError::Validation(m) => ErrorView::Validation(m@),
            AppError::Updater(m) => ErrorView::Updater(m@),
            AppError::OAuth(m) => ErrorView::OAuth(m@),
            AppError::Discord(m) => ErrorView::Discord(m@),
            AppError::WindowLayer(m) => ErrorView::WindowLayer(m@),
        }
    }
}

/// The result is this error.
pub open spec fn fails_with<T>(r: AppResult<T>, e: ErrorView) -> bool {
    r matches Err(x) && x@ == e
}

impl AppError {
    /// The message without the kind.
    pub fn message(&self) -> (r: &str)
        ensures
            match self@ {
                ErrorView::Validation(m) => r@ == m,
                ErrorView::Updater(m) => r@ == m,
                ErrorView::OAuth(m) => r@ == m,
                ErrorView::Discord(m) => r@ == m,
                ErrorView::WindowLayer(m) => r@ == m,
            },
    {
        match self {
            AppError::Validation(m) => m.as_str(),
            AppError::Updater(m) => m.as_str(),
            AppError::OAuth(m) => m.as_str(),
            AppError::Discord(m) => m.as_str(),
            AppError::WindowLayer(m) => m.as_str(),
        }
    }
}

/// An [`AppError::Validation`] with a fixed message.
pub(crate) fn invalid<T>(message: &str) -> (r: AppResult<T>)
    ensures
        fails_with(r, ErrorView::Validation(message@)),
{
    Err(AppError::Validation(message.to_owned()))
}

/// What an error says is its message, under the part of the application that it comes from; a
/// result that fails with it holds no value.
pub proof fn lemma_what_an_error_says<T>(r: AppResult<T>, e: ErrorView, m: String)
    ensures
        AppError::Validation(m)@ == ErrorView::Validation(m@),
        AppError::Updater(m)@ == ErrorView::Updater(m@),
        AppError::OAuth(m)@ == ErrorView::OAuth(m@),
        AppError::Discord(m)@ == ErrorView::Discord(m@),
        AppError::WindowLayer(m)@ == ErrorView::WindowLayer(m@),
        fails_with(r, e) ==> r is Err && r->Err_0@ == e,
{
}

} // verus!
