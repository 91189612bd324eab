//! Result codes of the engine and the errors built from them.

use vstd::prelude::*;
use vstd::string::*;

use crate::text::{decimal, push_decimal};

verus! {

/// A result code of the engine other than success.
///
/// The codes that matter to change tracking have a variant of their own;
/// every other code travels in `Unknown`.
#[derive(Debug, Clone, Copy, PartialEq, Eq, Hash, Structural)]
pub enum SqliteErrorCode {
    /// Generic error, code 1.
    Error,
    /// Internal logic error, code 2.
    Internal,
    /// Access permission denied, code 3.
    Permission,
    /// The database file is locked, code 5.
    Busy,
    /// A table in the database is locked, code 6.
    Locked,
    /// Memory allocation failed, code 7.
    NoMemory,
    /// Attempt to write a read-only database, code 8.
    ReadOnly,
    /// The database schema changed, code 17.
    Schema,
    /// The library was used incorrectly, code 21.
    Misuse,
    /// Any other code.
    Unknown(i32),
}

impl SqliteErrorCode {
    /// The variant that stands for a raw code.
    pub open spec fn spec_from_error(code: i32) -> SqliteErrorCode {
        if code == 1 {
            SqliteErrorCode::Error
        } else if code == 2 {
            SqliteErrorCode::Internal
        } else if code == 3 {
            SqliteErrorCode::Permission
        } else if code == 5 {
            SqliteErrorCode::Busy
        } else if code == 6 {
            SqliteErrorCode::Locked
        } else if code == 7 {
            SqliteErrorCode::NoMemory
        } else if code == 8 {
            SqliteErrorCode::ReadOnly
        } else if code == 17 {
            SqliteErrorCode::Schema
        } else if code == 21 {
            SqliteErrorCode::Misuse
        } else {
            SqliteErrorCode::Unknown(code)
        }
    }

    /// The raw code that a variant stands for.
    pub open spec fn spec_to_raw(self) -> i32 {
        match self {
            SqliteErrorCode::Error => 1,
            SqliteErrorCode::Internal => 2,
            SqliteErrorCode::Permission => 3,
            SqliteErrorCode::Busy => 5,
            SqliteErrorCode::Locked => 6,
            SqliteErrorCode::NoMemory => 7,
            SqliteErrorCode::ReadOnly => 8,
            SqliteErrorCode::Schema => 17,
            SqliteErrorCode::Misuse => 21,
            SqliteErrorCode::Unknown(code) => code,
        }
    }

    /// Classifies a raw result code; success (0) has no error code.
    #[must_use]
    pub fn from_raw(code: i32) -> (r: Option<Self>)
        ensures
            r == (if code == 0 {
                None
            } else {
                Some(Self::spec_from_error(code))
            }),
    {
        if code == 0 {
            None
        } else {
            Some(Self::from_error(code))
        }
    }

    /// Classifies a raw code that is already known to be a failure.
    ///
    /// A code without a variant of its own, 0 included, comes back as
    /// `Unknown(code)`.
    #[must_use]
    pub fn from_error(code: i32) -> (r: Self)
        ensures
            r == Self::spec_from_error(code),
            r.spec_to_raw() == code,
    {
        match code {
            1 => Self::Error,
            2 => Self::Internal,
            3 => Self::Permission,
            5 => Self::Busy,
            6 => Self::Locked,
            7 => Self::NoMemory,
            8 => Self::ReadOnly,
            17 => Self::Schema,
            21 => Self::Misuse,
            other => Self::Unknown(other),
        }
    }

    /// The raw result code.
    #[must_use]
    pub fn to_raw(self) -> (r: i32)
        ensures
            r == self.spec_to_raw(),
    {
        match self {
            Self::Error => 1,
            Self::Internal => 2,
            Self::Permission => 3,
            Self::Busy => 5,
            Self::Locked => 6,
            Self::NoMemory => 7,
            Self::ReadOnly => 8,
            Self::Schema => 17,
            Self::Misuse => 21,
            Self::Unknown(code) => code,
        }
    }

    /// The engine's name for the code.
    pub open spec fn spec_name(self) -> Seq<char> {
        match self {
            SqliteErrorCode::Error => "SQLITE_ERROR"@,
            SqliteErrorCode::Internal => "SQLITE_INTERNAL"@,
            SqliteErrorCode::Permission => "SQLITE_PERM"@,
            SqliteErrorCode::Busy => "SQLITE_BUSY"@,
            SqliteErrorCode::Locked => "SQLITE_LOCKED"@,
            SqliteErrorCode::NoMemory => "SQLITE_NOMEM"@,
            SqliteErrorCode::ReadOnly => "SQLITE_READONLY"@,
            SqliteErrorCode::Schema => "SQLITE_SCHEMA"@,
            SqliteErrorCode::Misuse => "SQLITE_MISUSE"@,
            SqliteErrorCode::Unknown(_) => "SQLITE_UNKNOWN"@,
        }
    }

    /// The text of a code: its name, then the raw code in parentheses.
    pub open spec fn spec_to_string(self) -> Seq<char> {
        self.spec_name() + " ("@ + decimal(self.spec_to_raw() as int) + ")"@
    }

    /// The engine's name for the code.
    fn name(&self) -> (s: &'static str)
        ensures
            s@ == self.spec_name(),
    {
        match self {
            Self::Error => "SQLITE_ERROR",
            Self::Internal => "SQLITE_INTERNAL",
            Self::Permission => "SQLITE_PERM",
            Self::Busy => "SQLITE_BUSY",
            Self::Locked => "SQLITE_LOCKED",
            Self::NoMemory => "SQLITE_NOMEM",
            Self::ReadOnly => "SQLITE_READONLY",
            Self::Schema => "SQLITE_SCHEMA",
            Self::Misuse => "SQLITE_MISUSE",
            Self::Unknown(_) => "SQLITE_UNKNOWN",
        }
    }

    /// Appends the text of the code to `out`.
    fn write_to(&self, out: &mut String)
        ensures
            final(out)@ == old(out)@ + self.spec_to_string(),
    {
        out.append(self.name());
        out.append(" (");
        push_decimal(out, self.to_raw());
        out.append(")");
        assert(out@ =~= old(out)@ + self.spec_to_string());
    }

    /// The text of the code, such as `SQLITE_BUSY (5)`.
    pub fn to_string(&self) -> (s: String)
        ensures
            s@ == self.spec_to_string(),
    {
        let mut s = String::new();
        self.write_to(&mut s);
        assert(s@ =~= self.spec_to_string());
        s
    }
}

/// What can go wrong on the tracking side: creating a session, attaching
/// tables, exporting a diff.
#[derive(Debug, Clone, Copy, PartialEq, Eq, Structural)]
pub enum SessionError {
    /// The engine could not create the session.
    CreateFailed(SqliteErrorCode),
    /// The engine could not attach the table.
    AttachFailed(SqliteErrorCode),
    /// The engine could not produce the changeset.
    ChangesetFailed(SqliteErrorCode),
    /// The engine could not produce the patchset.
    PatchsetFailed(SqliteErrorCode),
    /// The table name holds a NUL byte.
    InvalidTableName,
}

impl SessionError {
    /// The text of the error.
    pub open spec fn spec_to_string(self) -> Seq<char> {
        match self {
            SessionError::CreateFailed(code) => "Failed to create session: "@
                + code.spec_to_string(),
            SessionError::AttachFailed(code) => "Failed to attach table: "@
                + code.spec_to_string(),
            SessionError::ChangesetFailed(code) => "Failed to generate changeset: "@
                + code.spec_to_string(),
            SessionError::PatchsetFailed(code) => "Failed to generate patchset: "@
                + code.spec_to_string(),
            SessionError::InvalidTableName => "Table name contains null byte"@,
        }
    }

    /// The text of the error: what failed, then the engine's code.
    pub fn to_string(&self) -> (s: String)
        ensures
            s@ == self.spec_to_string(),
    {
        match self {
            Self::CreateFailed(code) => {
                let mut s = String::from_str("Failed to create session: ");
                code.write_to(&mut s);
                s
            },
            Self::AttachFailed(code) => {
                let mut s = String::from_str("Failed to attach table: ");
                code.write_to(&mut s);
                s
            },
            Self::ChangesetFailed(code) => {
                let mut s = String::from_str("Failed to generate changeset: ");
                code.write_to(&mut s);
                s
            },
            Self::PatchsetFailed(code) => {
                let mut s = String::from_str("Failed to generate patchset: ");
                code.write_to(&mut s);
                s
            },
            Self::InvalidTableName => String::from_str("Table name contains null byte"),
        }
    }
}

/// What can go wrong when a diff is applied.
#[derive(Debug, Clone, Copy, PartialEq, Eq, Structural)]
pub enum ApplyError {
    /// The engine could not apply the diff.
    ApplyFailed(SqliteErrorCode),
    /// The conflict handler asked for the apply to stop.
    ConflictAborted,
    /// The conflict handler itself failed while it ran.
    ConflictHandlerPanicked,
}

impl ApplyError {
    /// The text of the error.
    pub open spec fn spec_to_string(self) -> Seq<char> {
        match self {
            ApplyError::ApplyFailed(code) => "Failed to apply changeset: "@
                + code.spec_to_string(),
            ApplyError::ConflictAborted => "Conflict handler requested abort"@,
            ApplyError::ConflictHandlerPanicked => "Conflict handler panicked"@,
        }
    }

    /// The text of the error.
    pub fn to_string(&self) -> (s: String)
        ensures
            s@ == self.spec_to_string(),
    {
        match self {
            Self::ApplyFailed(code) => {
                let mut s = String::from_str("Failed to apply changeset: ");
                code.write_to(&mut s);
                s
            },
            Self::ConflictAborted => String::from_str("Conflict handler requested abort"),
            Self::ConflictHandlerPanicked => String::from_str("Conflict handler panicked"),
        }
    }
}

/// The kinds of conflict that the engine reports while it applies a diff.
#[derive(Debug, Clone, Copy, PartialEq, Eq, Hash, Structural)]
pub enum ConflictType {
    /// A row with the same primary key is already there; code 1.
    Data,
    /// The row to update or delete is not there; code 2.
    NotFound,
    /// The row to update or delete holds other values than the diff
    /// expects; code 3.
    Conflict,
    /// A constraint other than a foreign key is violated; code 4.
    Constraint,
    /// A foreign key constraint is violated; code 5.
    ForeignKey,
}

impl ConflictType {
    /// The kind that a raw conflict code stands for, if it is one of the five.
    pub open spec fn spec_from_raw(code: i32) -> Option<ConflictType> {
        if code == 1 {
            Some(ConflictType::Data)
        } else if code == 2 {
            Some(ConflictType::NotFound)
        } else if code == 3 {
            Some(ConflictType::Conflict)
        } else if code == 4 {
            Some(ConflictType::Constraint)
        } else if code == 5 {
            Some(ConflictType::ForeignKey)
        } else {
            None
        }
    }

    /// The raw conflict code of a kind.
    pub open spec fn spec_to_raw(self) -> i32 {
        match self {
            ConflictType::Data => 1,
            ConflictType::NotFound => 2,
            ConflictType::Conflict => 3,
            ConflictType::Constraint => 4,
            ConflictType::ForeignKey => 5,
        }
    }

    /// Classifies a raw conflict code; a code outside 1 to 5 has no kind.
    #[must_use]
    pub fn from_raw(code: i32) -> (r: Option<Self>)
        ensures
            r == Self::spec_from_raw(code),
            r is Some <==> 1 <= code <= 5,
            r matches Some(kind) ==> kind.spec_to_raw() == code,
    {
        match code {
            1 => Some(Self::Data),
            2 => Some(Self::NotFound),
            3 => Some(Self::Conflict),
            4 => Some(Self::Constraint),
            5 => Some(Self::ForeignKey),
            _ => None,
        }
    }

    /// The raw conflict code.
    #[must_use]
    pub fn to_raw(self) -> (r: i32)
        ensures
            r == self.spec_to_raw(),
            Self::spec_from_raw(r) == Some(self),
    {
        match self {
            Self::Data => 1,
            Self::NotFound => 2,
            Self::Conflict => 3,
            Self::Constraint => 4,
            Self::ForeignKey => 5,
        }
    }
}

/// What to do about one conflict.
#[derive(Debug, Clone, Copy, PartialEq, Eq, Hash, Structural)]
pub enum ConflictAction {
    /// Skip the conflicting change and go on with the next; code 0.
    Omit,
    /// Apply the change over the row that is there; code 1.
    Replace,
    /// Stop applying; code 2.
    Abort,
}

impl ConflictAction {
    /// The raw resolution code of an action.
    pub open spec fn spec_to_raw(self) -> i32 {
        match self {
            ConflictAction::Omit => 0,
            ConflictAction::Replace => 1,
            ConflictAction::Abort => 2,
        }
    }

    /// The raw resolution code, as the engine takes it.
    #[must_use]
    pub fn to_raw(self) -> (r: i32)
        ensures
            r == self.spec_to_raw(),
    {
        match self {
            Self::Omit => 0,
            Self::Replace => 1,
            Self::Abort => 2,
        }
    }
}

} // verus!
