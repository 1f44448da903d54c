use vstd::prelude::*;

verus! {

/// Every reason for which an operation of the program is refused.
#[derive(Clone, Copy, Debug, PartialEq, Eq, Structural)]
pub enum TokenError {
    /// The token's name takes more than 16 bytes.
    NameTooLong,
    /// The token's URI takes more than 44 bytes.
    UriTooLong,
    /// The token has more than 9 decimals. No rule of this crate gives this
    /// error.
    InvalidDecimals,
    /// The token's name holds a character that is not allowed. No rule of
    /// this crate gives this error.
    InvalidNameCharacters,
    /// The token's URI begins with no scheme that is recognized.
    InvalidUriFormat,
    /// A purchase of no units.
    InvalidAmount,
    /// The buyer holds less than the purchase costs.
    InsufficientFunds,
    /// A price, a supply or an amount left 64 bits.
    SupplyOverflow,
    /// A view count below the one that the oracle holds.
    InvalidViewCount,
    /// A view count reported by someone who is not the oracle authority.
    UnauthorizedOracleUpdate,
    /// A wallet that is not the platform's. No rule of this crate gives this
    /// error.
    InvalidPlatformWallet,
    /// A change of the platform's configuration by someone who is not its
    /// admin.
    UnauthorizedPlatformUpdate,
    /// A record that is created once exists already, or a vault that is
    /// bound once is bound already.
    AlreadyInitialized,
}

/// The four families into which the errors fall.
#[derive(Clone, Copy, Debug, PartialEq, Eq, Structural)]
pub enum ErrorKind {
    /// An argument or a record is malformed.
    Validation,
    /// The caller is not the one allowed to do this.
    Authorization,
    /// A computation left the 64-bit range.
    ArithmeticOverflow,
    /// The buyer cannot pay the total cost.
    InsufficientFunds,
}

impl TokenError {
    /// The family of this error.
    pub open spec fn spec_kind(self) -> ErrorKind {
        match self {
            TokenError::InsufficientFunds => ErrorKind::InsufficientFunds,
            TokenError::SupplyOverflow => ErrorKind::ArithmeticOverflow,
            TokenError::UnauthorizedOracleUpdate | TokenError::UnauthorizedPlatformUpdate =>
                ErrorKind::Authorization,
            _ => ErrorKind::Validation,
        }
    }

    #[verifier::when_used_as_spec(spec_kind)]
    pub fn kind(self) -> (r: ErrorKind)
        ensures
            r == self.spec_kind(),
    {
        match self {
            TokenError::InsufficientFunds => ErrorKind::InsufficientFunds,
            TokenError::SupplyOverflow => ErrorKind::ArithmeticOverflow,
            TokenError::UnauthorizedOracleUpdate => ErrorKind::Authorization,
            TokenError::UnauthorizedPlatformUpdate => ErrorKind::Authorization,
            _ => ErrorKind::Validation,
        }
    }

    /// The text shown to the user for this error.
    pub fn message(self) -> (r: &'static str)
        ensures
            r@ == self.spec_message(),
    {
        match self {
            TokenError::NameTooLong => "Name must be between 1 and 32 characters",
            TokenError::UriTooLong => "URI must be between 1 and 44 characters",
            TokenError::InvalidDecimals => "Decimals must be less than or equal to 9",
            TokenError::InvalidNameCharacters =>
                "Name can only contain alphanumeric characters and spaces",
            TokenError::InvalidUriFormat => "URI must start with http://, https://, or ipfs://",
            TokenError::InvalidAmount => "Invalid amount provided",
            TokenError::InsufficientFunds => "Insufficient funds for purchase",
            TokenError::SupplyOverflow => "Supply calculation overflow",
            TokenError::InvalidViewCount => "Invalid view count provided",
            TokenError::UnauthorizedOracleUpdate => "Only platform authority can update oracle",
            TokenError::InvalidPlatformWallet => "Invalid platform wallet provided",
            TokenError::UnauthorizedPlatformUpdate =>
                "Only the platform admin can update the platform",
            TokenError::AlreadyInitialized => "Record is already initialized",
        }
    }

    pub open spec fn spec_message(self) -> Seq<char> {
        match self {
            TokenError::NameTooLong => "Name must be between 1 and 32 characters"@,
            TokenError::UriTooLong => "URI must be between 1 and 44 characters"@,
            TokenError::InvalidDecimals => "Decimals must be less than or equal to 9"@,
            TokenError::InvalidNameCharacters =>
                "Name can only contain alphanumeric characters and spaces"@,
            TokenError::InvalidUriFormat => "URI must start with http://, https://, or ipfs://"@,
            TokenError::InvalidAmount => "Invalid amount provided"@,
            TokenError::InsufficientFunds => "Insufficient funds for purchase"@,
            TokenError::SupplyOverflow => "Supply calculation overflow"@,
            TokenError::InvalidViewCount => "Invalid view count provided"@,
            TokenError::UnauthorizedOracleUpdate => "Only platform authority can update oracle"@,
            TokenError::InvalidPlatformWallet => "Invalid platform wallet provided"@,
            TokenError::UnauthorizedPlatformUpdate =>
                "Only the platform admin can update the platform"@,
            TokenError::AlreadyInitialized => "Record is already initialized"@,
        }
    }
}

} // verus!
