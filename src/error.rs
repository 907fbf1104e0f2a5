use vstd::prelude::*;

verus! {

/// Everything that can go wrong in the barcode engine, the command encoder and
/// the printer session.
#[derive(Debug, Clone, PartialEq, Eq)]
pub enum PrinterError {
    /// No attached device or installed printer matches what was asked for.
    DeviceNotFound,
    /// A device matched, but it lacks a bulk endpoint in one direction.
    EndpointNotFound,
    /// An I/O failure or timeout on an open connection, with the cause.
    TransportError(String),
    /// Malformed data handed to the barcode engine or the encoder.
    InvalidInput,
    /// The three-digit sequence of the barcode prefix is used up.
    SequenceExhausted,
    /// A print or test was asked for while no session is open.
    NotConnected,
    /// The product code is empty or only blanks.
    EmptyProductCode,
    /// The product code has more than four characters.
    ProductCodeTooLong,
    /// Another product already uses this product code.
    DuplicateProductCode,
    /// No product has the given identifier.
    ProductNotFound,
}

impl PrinterError {
    /// A message for the operator.
    pub fn describe(&self) -> (r: String)
        ensures
            self is TransportError ==> r@ == self->TransportError_0@,
    {
        match self {
            PrinterError::DeviceNotFound => "printer not found".to_owned(),
            PrinterError::EndpointNotFound => "the printer lacks a bulk endpoint".to_owned(),
            PrinterError::TransportError(m) => m.clone(),
            PrinterError::InvalidInput => "invalid input".to_owned(),
            PrinterError::SequenceExhausted => "barcode sequence limit reached".to_owned(),
            PrinterError::NotConnected => "printer not connected".to_owned(),
            PrinterError::EmptyProductCode => "product code cannot be empty".to_owned(),
            PrinterError::ProductCodeTooLong => "product code cannot have more than 4 characters".to_owned(),
            PrinterError::DuplicateProductCode => "product code already exists".to_owned(),
            PrinterError::ProductNotFound => "product not found".to_owned(),
        }
    }
}

} // verus!
