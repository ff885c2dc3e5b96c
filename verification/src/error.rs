//! The errors of this library.
use vstd::prelude::*;

verus! {

#[verifier::external_type_specification]
#[verifier::external_body]
pub struct ExSecpError(grin_util::secp::Error);

#[verifier::external_type_specification]
#[verifier::external_body]
pub struct ExLibTxError(grin_core::libtx::Error);

#[verifier::external_type_specification]
#[verifier::external_body]
pub struct ExTransactionError(grin_core::core::transaction::Error);

#[verifier::external_type_specification]
#[verifier::external_body]
pub struct ExCommittedError(grin_core::core::committed::Error);

#[verifier::external_type_specification]
#[verifier::external_body]
pub struct ExKeychainError(grin_keychain::Error);

/// What can go wrong while a slate is read, compared, signed or finalized.
#[derive(Debug, PartialEq)]
pub enum SlateError {
    /// No version could be found in a slate document.
    SlateVersionParse(String),
    /// A slate document does not have the layout of its version.
    SlateDeser(String),
    /// A slate document has a version that is not supported.
    SlateVersion(u16),
    /// A response does not match the slate that was sent.
    SlateValidation(String),
    /// Data that an operation needs is missing.
    GenericError(String),
    /// The fee is too low.
    Fee(String),
    /// A participant's message is not signed, or its signature is wrong.
    Signature(String),
    /// A curve operation failed.
    Secp(grin_util::secp::Error),
    /// A signature could not be made or did not verify.
    LibTx(grin_core::libtx::Error),
    /// A kernel or a transaction is not valid.
    Transaction(grin_core::core::transaction::Error),
    /// Commitments could not be summed.
    Committed(grin_core::core::committed::Error),
    /// A key could not be derived, or blinding factors could not be summed.
    Keychain(grin_keychain::Error),
}

/// A `SlateError` as contracts see it: the kind, and the text where there is one.
#[verifier::ext_equal]
pub enum SlateErrorView {
    SlateVersionParse(Seq<char>),
    SlateDeser(Seq<char>),
    SlateVersion(u16),
    SlateValidation(Seq<char>),
    GenericError(Seq<char>),
    Fee(Seq<char>),
    Signature(Seq<char>),
    Secp,
    LibTx,
    Transaction,
    Committed,
    Keychain,
}

impl View for SlateError {
    type V = SlateErrorView;

    open spec fn view(&self) -> SlateErrorView {
        match *self {
            SlateError::SlateVersionParse(s) => SlateErrorView::SlateVersionParse(s@),
            SlateError::SlateDeser(s) => SlateErrorView::SlateDeser(s@),
            SlateError::SlateVersion(v) => SlateErrorView::SlateVersion(v),
            SlateError::SlateValidation(s) => SlateErrorView::SlateValidation(s@),
            SlateError::GenericError(s) => SlateErrorView::GenericError(s@),
            SlateError::Fee(s) => SlateErrorView::Fee(s@),
            SlateError::Signature(s) => SlateErrorView::Signature(s@),
            SlateError::Secp(_) => SlateErrorView::Secp,
            SlateError::LibTx(_) => SlateErrorView::LibTx,
            SlateError::Transaction(_) => SlateErrorView::Transaction,
            SlateError::Committed(_) => SlateErrorView::Committed,
            SlateError::Keychain(_) => SlateErrorView::Keychain,
        }
    }
}

/// A result as contracts see it.
pub open spec fn outcome<T: View>(r: Result<T, SlateError>) -> Result<T::V, SlateErrorView> {
    match r {
        Ok(v) => Ok(v@),
        Err(e) => Err(e@),
    }
}

} // verus!
