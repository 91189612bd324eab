//! A change-tracking session: one tracking handle of the engine, bound to the
//! connection that it was created on.
//!
//! The engine's entry points are handed in as closures. Each operation says
//! what it hands to them and what it makes of their answers.

use vstd::prelude::*;
use vstd::string::*;

use crate::codes::{spec_sqlite_ok, sqlite_ok};
use crate::errors::{SessionError, SqliteErrorCode};

verus! {

/// The two forms in which a session exports what it has recorded.
#[derive(Debug, Clone, Copy, PartialEq, Eq, Hash, Structural)]
pub enum DiffForm {
    /// Old and new values of each change.
    Changeset,
    /// New values only.
    Patchset,
}

impl DiffForm {
    /// The error for a failed export of this form.
    pub open spec fn spec_error(self, code: SqliteErrorCode) -> SessionError {
        match self {
            DiffForm::Changeset => SessionError::ChangesetFailed(code),
            DiffForm::Patchset => SessionError::PatchsetFailed(code),
        }
    }

    /// The error for a failed export of this form.
    pub fn error(self, code: SqliteErrorCode) -> (e: SessionError)
        ensures
            e == self.spec_error(code),
    {
        match self {
            DiffForm::Changeset => SessionError::ChangesetFailed(code),
            DiffForm::Patchset => SessionError::PatchsetFailed(code),
        }
    }
}

/// What the engine's export entry point comes back with: its result code,
/// the size it reports, and the buffer it allocated, if it allocated one.
pub struct RawExport<B> {
    /// The engine's result code.
    pub rc: i32,
    /// The number of bytes that the engine says the buffer holds.
    pub size: i32,
    /// The engine's buffer; `None` stands for the null pointer.
    pub buffer: Option<B>,
}

/// The schema that a session tracks: the connection's primary one.
pub open spec fn spec_main_db_name() -> Seq<char> {
    "main"@
}

/// Whether the bytes of a table name can be handed to the engine: none of
/// them is the terminator, NUL.
pub open spec fn valid_table_name(bytes: Seq<u8>) -> bool {
    forall|i: int| 0 <= i < bytes.len() ==> bytes[i] != 0u8
}

/// The flag that the engine takes to switch recording on or off.
pub open spec fn enable_flag(enabled: bool) -> i32 {
    if enabled {
        1
    } else {
        0
    }
}

/// The result of creating a session, from the engine's code.
pub open spec fn create_error(rc: i32) -> Option<SessionError> {
    if rc == spec_sqlite_ok() {
        None
    } else {
        Some(SessionError::CreateFailed(SqliteErrorCode::spec_from_error(rc)))
    }
}

/// The result of an attach, from the engine's code.
pub open spec fn attach_result(rc: i32) -> Result<(), SessionError> {
    if rc == spec_sqlite_ok() {
        Ok(())
    } else {
        Err(SessionError::AttachFailed(SqliteErrorCode::spec_from_error(rc)))
    }
}

/// What an export makes of the engine's answer.
///
/// A code other than success is the error of the form, and nothing else is
/// touched. Without a buffer the diff is empty. With a buffer, the diff is
/// empty where the size is not positive, and else what `read` copied out of
/// the buffer for exactly that size; either way the buffer went to `free`.
pub open spec fn exported<B, R, D>(
    form: DiffForm,
    raw: RawExport<B>,
    read: R,
    free: D,
    r: Result<Vec<u8>, SessionError>,
) -> bool
    where
        R: FnOnce(&B, usize) -> Vec<u8>,
        D: FnOnce(B),
{
    if raw.rc != spec_sqlite_ok() {
        r matches Err(e) && e == form.spec_error(SqliteErrorCode::spec_from_error(raw.rc))
    } else {
        match raw.buffer {
            None => r matches Ok(bytes) && bytes@ == Seq::<u8>::empty(),
            Some(buffer) => {
                &&& free.ensures((buffer,), ())
                &&& r matches Ok(bytes)
                &&& if raw.size <= 0 {
                    bytes@ == Seq::<u8>::empty()
                } else {
                    read.ensures((&buffer, raw.size as usize), bytes)
                }
            },
        }
    }
}

/// Whether `read` and `free` may be run on what the export came back with.
pub open spec fn can_finish_export<B, R, D>(raw: RawExport<B>, read: R, free: D) -> bool
    where
        R: FnOnce(&B, usize) -> Vec<u8>,
        D: FnOnce(B),
{
    raw.rc == spec_sqlite_ok() ==> (raw.buffer matches Some(buffer) ==> {
        &&& free.requires((buffer,))
        &&& raw.size > 0 ==> read.requires((&buffer, raw.size as usize))
    })
}

/// An export in which the engine hands over no bytes is the empty diff, in
/// either form: no buffer, or a size that is not positive.
pub proof fn no_bytes_is_the_empty_diff<B, R, D>(
    form: DiffForm,
    raw: RawExport<B>,
    read: R,
    free: D,
    r: Result<Vec<u8>, SessionError>,
)
    where
        R: FnOnce(&B, usize) -> Vec<u8>,
        D: FnOnce(B),
    requires
        raw.rc == spec_sqlite_ok(),
        raw.buffer is None || raw.size <= 0,
        exported(form, raw, read, free, r),
    ensures
        r matches Ok(bytes) && bytes@ == Seq::<u8>::empty(),
{
}

impl<B> RawExport<B> {
    /// Turns the engine's answer into an owned diff: copies the bytes out
    /// and releases the engine's buffer.
    pub fn into_bytes<R, D>(self, form: DiffForm, read: R, free: D) -> (r: Result<
        Vec<u8>,
        SessionError,
    >)
        where
            R: FnOnce(&B, usize) -> Vec<u8>,
            D: FnOnce(B),
        requires
            can_finish_export(self, read, free),
        ensures
            exported(form, self, read, free, r),
    {
        if self.rc != sqlite_ok() {
            return Err(form.error(SqliteErrorCode::from_error(self.rc)));
        }
        match self.buffer {
            None => Ok(Vec::new()),
            Some(buffer) => {
                let bytes = if self.size <= 0 {
                    Vec::new()
                } else {
                    read(&buffer, self.size as usize)
                };
                free(buffer);
                Ok(bytes)
            },
        }
    }
}

/// Checks a table name before it goes to the engine: a name that holds a
/// NUL byte is rejected.
pub fn validate_table_name(table: &str) -> (r: Result<(), SessionError>)
    ensures
        r == (if valid_table_name(table.spec_bytes()) {
            Ok::<(), SessionError>(())
        } else {
            Err::<(), SessionError>(SessionError::InvalidTableName)
        }),
{
    let bytes = table.as_bytes();
    let mut i: usize = 0;
    while i < bytes.len()
        invariant
            i <= bytes@.len(),
            bytes@ == table.spec_bytes(),
            forall|j: int| 0 <= j < i ==> bytes@[j] != 0u8,
        decreases bytes@.len() - i,
    {
        if bytes[i] == 0 {
            return Err(SessionError::InvalidTableName);
        }
        i += 1;
    }
    Ok(())
}

/// The result of an attach, from the code that the engine came back with.
pub fn attached(rc: i32) -> (r: Result<(), SessionError>)
    ensures
        r == attach_result(rc),
{
    if rc != sqlite_ok() {
        return Err(SessionError::AttachFailed(SqliteErrorCode::from_error(rc)));
    }
    Ok(())
}

/// A change-tracking session: the owner of one tracking handle.
///
/// The handle is whatever the engine's entry points take. A session must be
/// let go before the connection that it was created on.
pub struct Session<H> {
    handle: H,
}

impl<H> View for Session<H> {
    type V = H;

    closed spec fn view(&self) -> H {
        self.handle
    }
}

impl<H> Session<H> {
    /// Makes the session of a handle that the engine has created, or the
    /// error for the engine's code.
    pub fn from_created(rc: i32, handle: H) -> (r: Result<Self, SessionError>)
        ensures
            match r {
                Ok(session) => create_error(rc) is None && session@ == handle,
                Err(e) => create_error(rc) == Some(e),
            },
    {
        if rc != sqlite_ok() {
            return Err(SessionError::CreateFailed(SqliteErrorCode::from_error(rc)));
        }
        Ok(Session { handle })
    }

    /// Creates a session on a connection, for its primary schema.
    ///
    /// `create` is the engine's entry point: it takes the connection and the
    /// schema's name, and gives its result code and the new handle.
    pub fn new_internal<C, N>(conn: &mut C, create: N) -> (r: Result<Self, SessionError>)
        where
            N: FnOnce(&mut C, &str) -> (i32, H),
        requires
            forall|target: &mut C, name: &str|
                *target == *old(conn) && name@ == spec_main_db_name() ==> create.requires(
                    (target, name),
                ),
        ensures
            exists|target: &mut C, name: &str, rc: i32, handle: H|
                *target == *old(conn) && *final(target) == *final(conn) && name@
                    == spec_main_db_name() && create.ensures((target, name), (rc, handle))
                    && match r {
                    Ok(session) => create_error(rc) is None && session@ == handle,
                    Err(e) => create_error(rc) == Some(e),
                },
    {
        let (rc, handle) = create(conn, "main");
        Self::from_created(rc, handle)
    }

    /// Starts tracking every table of the schema, present or future.
    ///
    /// `attach` is the engine's entry point; it is handed no name.
    pub fn attach_all<A>(&mut self, attach: A) -> (r: Result<(), SessionError>)
        where
            A: FnOnce(&mut H, Option<&str>) -> i32,
        requires
            forall|handle: &mut H|
                *handle == old(self)@ ==> attach.requires((handle, None::<&str>)),
        ensures
            exists|handle: &mut H, rc: i32|
                *handle == old(self)@ && *final(handle) == final(self)@ && attach.ensures(
                    (handle, None::<&str>),
                    rc,
                ) && r == attach_result(rc),
    {
        let rc = attach(&mut self.handle, None);
        attached(rc)
    }

    /// Starts tracking one table, which need not exist yet.
    ///
    /// A name that holds a NUL byte is rejected before anything reaches the
    /// engine. `attach` is the engine's entry point; it is handed the name.
    pub fn attach_by_name<A>(&mut self, table: &str, attach: A) -> (r: Result<(), SessionError>)
        where
            A: FnOnce(&mut H, Option<&str>) -> i32,
        requires
            valid_table_name(table.spec_bytes()) ==> forall|handle: &mut H|
                *handle == old(self)@ ==> attach.requires((handle, Some(table))),
        ensures
            !valid_table_name(table.spec_bytes()) ==> r == Err::<(), SessionError>(
                SessionError::InvalidTableName,
            ) && final(self)@ == old(self)@,
            valid_table_name(table.spec_bytes()) ==> exists|handle: &mut H, rc: i32|
                *handle == old(self)@ && *final(handle) == final(self)@ && attach.ensures(
                    (handle, Some(table)),
                    rc,
                ) && r == attach_result(rc),
    {
        match validate_table_name(table) {
            Err(e) => {
                return Err(e);
            },
            Ok(()) => {},
        }
        let rc = attach(&mut self.handle, Some(table));
        attached(rc)
    }

    /// Exports what the session has recorded as a changeset: old and new
    /// values of each change.
    ///
    /// `export` is the engine's export entry point, `read` copies a number
    /// of bytes out of the engine's buffer, and `free` releases the buffer.
    pub fn changeset<B, E, R, D>(&mut self, export: E, read: R, free: D) -> (r: Result<
        Vec<u8>,
        SessionError,
    >)
        where
            E: FnOnce(&mut H, DiffForm) -> RawExport<B>,
            R: FnOnce(&B, usize) -> Vec<u8>,
            D: FnOnce(B),
        requires
            forall|handle: &mut H|
                *handle == old(self)@ ==> export.requires((handle, DiffForm::Changeset)),
            forall|handle: &mut H, raw: RawExport<B>|
                *handle == old(self)@ && export.ensures((handle, DiffForm::Changeset), raw)
                    ==> can_finish_export(raw, read, free),
        ensures
            exists|handle: &mut H, raw: RawExport<B>|
                *handle == old(self)@ && *final(handle) == final(self)@ && export.ensures(
                    (handle, DiffForm::Changeset),
                    raw,
                ) && exported(DiffForm::Changeset, raw, read, free, r),
    {
        self.export_changes(DiffForm::Changeset, export, read, free)
    }

    /// Exports what the session has recorded as a patchset: new values
    /// only.
    ///
    /// `export` is the engine's export entry point, `read` copies a number
    /// of bytes out of the engine's buffer, and `free` releases the buffer.
    pub fn patchset<B, E, R, D>(&mut self, export: E, read: R, free: D) -> (r: Result<
        Vec<u8>,
        SessionError,
    >)
        where
            E: FnOnce(&mut H, DiffForm) -> RawExport<B>,
            R: FnOnce(&B, usize) -> Vec<u8>,
            D: FnOnce(B),
        requires
            forall|handle: &mut H|
                *handle == old(self)@ ==> export.requires((handle, DiffForm::Patchset)),
            forall|handle: &mut H, raw: RawExport<B>|
                *handle == old(self)@ && export.ensures((handle, DiffForm::Patchset), raw)
                    ==> can_finish_export(raw, read, free),
        ensures
            exists|handle: &mut H, raw: RawExport<B>|
                *handle == old(self)@ && *final(handle) == final(self)@ && export.ensures(
                    (handle, DiffForm::Patchset),
                    raw,
                ) && exported(DiffForm::Patchset, raw, read, free, r),
    {
        self.export_changes(DiffForm::Patchset, export, read, free)
    }

    /// Whether the session has recorded no change.
    ///
    /// `probe` is the engine's entry point; any answer but 0 means empty.
    #[must_use]
    pub fn is_empty<P>(&self, probe: P) -> (r: bool)
        where
            P: FnOnce(&H) -> i32,
        requires
            probe.requires((&self@,)),
        ensures
            exists|answer: i32| probe.ensures((&self@,), answer) && r == (answer != 0),
    {
        probe(&self.handle) != 0
    }

    /// Switches the recording of changes on or off.
    ///
    /// `enable` is the engine's entry point: it is handed 1 to switch the
    /// recording on and 0 to switch it off, and its answer is dropped.
    pub fn set_enabled<E>(&mut self, enabled: bool, enable: E)
        where
            E: FnOnce(&mut H, i32) -> i32,
        requires
            forall|handle: &mut H|
                *handle == old(self)@ ==> enable.requires((handle, enable_flag(enabled))),
        ensures
            exists|handle: &mut H, answer: i32|
                *handle == old(self)@ && *final(handle) == final(self)@ && enable.ensures(
                    (handle, enable_flag(enabled)),
                    answer,
                ),
    {
        let flag: i32 = if enabled {
            1
        } else {
            0
        };
        let _ = enable(&mut self.handle, flag);
    }

    /// Lets the session go: hands its handle to `delete`, the engine's
    /// teardown, and is gone with it, so that no handle is torn down twice.
    pub fn release<D>(self, delete: D)
        where
            D: FnOnce(H),
        requires
            delete.requires((self@,)),
        ensures
            delete.ensures((self@,), ()),
    {
        delete(self.handle)
    }

    /// The routine that both export forms share: runs the engine's export
    /// for `form` and turns its answer into an owned diff.
    pub fn export_changes<B, E, R, D>(&mut self, form: DiffForm, export: E, read: R, free: D) -> (r:
        Result<Vec<u8>, SessionError>)
        where
            E: FnOnce(&mut H, DiffForm) -> RawExport<B>,
            R: FnOnce(&B, usize) -> Vec<u8>,
            D: FnOnce(B),
        requires
            forall|handle: &mut H| *handle == old(self)@ ==> export.requires((handle, form)),
            forall|handle: &mut H, raw: RawExport<B>|
                *handle == old(self)@ && export.ensures((handle, form), raw)
                    ==> can_finish_export(raw, read, free),
        ensures
            exists|handle: &mut H, raw: RawExport<B>|
                *handle == old(self)@ && *final(handle) == final(self)@ && export.ensures(
                    (handle, form),
                    raw,
                ) && exported(form, raw, read, free, r),
    {
        let raw = export(&mut self.handle, form);
        raw.into_bytes(form, read, free)
    }
}

} // verus!
