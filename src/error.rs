use vstd::prelude::*;

verus! {

/// Why a step of the updater failed.
#[derive(Clone, Copy, Debug, PartialEq, Eq, Structural)]
pub enum UpdateError {
    /// The public-IP lookup could not complete: no connection, a status
    /// outside the success range, or a body that is not text.
    Network,
    /// No record set matches the record's name and the "A" type exactly.
    RecordNotFound,
    /// The matching record set holds no value.
    ValueNotFound,
    /// The DNS provider refused or failed a read or a write.
    Provider,
    /// A startup parameter is outside its valid range.
    Config,
}

/// The human-readable description of each failure.
pub open spec fn message_of(e: UpdateError) -> Seq<char> {
    match e {
        UpdateError::Network => "Failed to retrieve ip address"@,
        UpdateError::RecordNotFound => "Record not found"@,
        UpdateError::ValueNotFound => "Ip not found"@,
        UpdateError::Provider => "DNS provider request failed"@,
        UpdateError::Config => "Configuration value out of range"@,
    }
}

impl UpdateError {
    /// A human-readable description of the failure.
    pub fn message(&self) -> (r: String)
        ensures
            r@ == message_of(*self),
    {
        let r = match self {
            UpdateError::Network => "Failed to retrieve ip address",
            UpdateError::RecordNotFound => "Record not found",
            UpdateError::ValueNotFound => "Ip not found",
            UpdateError::Provider => "DNS provider request failed",
            UpdateError::Config => "Configuration value out of range",
        };
        r.to_string()
    }
}

} // verus!
