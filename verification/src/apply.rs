//! Applying a diff to a connection, and the bridge through which the engine
//! asks what to do about a conflict.

use vstd::prelude::*;

use crate::codes::{
    changeset_abort, spec_changeset_abort, spec_sqlite_ok, spec_sqlite_toobig, sqlite_ok,
    sqlite_toobig,
};
use crate::errors::{ApplyError, ConflictAction, ConflictType, SqliteErrorCode};

verus! {

/// What the engine's callback shares with the apply that started it: the
/// conflict handler, and what has come of running it so far.
///
/// A handler answers `Some(action)`, or `None` when it failed while it ran.
pub struct ConflictContext<F> {
    /// The conflict handler.
    pub handler: F,
    /// Whether some conflict was answered with an abort.
    pub aborted: bool,
    /// Whether the handler failed on some conflict.
    pub panicked: bool,
}

/// The action taken for an answer of the handler: the handler's own, or an
/// abort when it failed.
pub open spec fn action_of(outcome: Option<ConflictAction>) -> ConflictAction {
    match outcome {
        Some(action) => action,
        None => ConflictAction::Abort,
    }
}

/// The result of an apply, from what the callback recorded and the code that
/// the engine came back with.
///
/// A failed handler outranks an abort, and an abort outranks the engine's
/// code. Of the engine's codes, success and the abort resolution code are no
/// failure; any other is `ApplyFailed` with that code.
pub open spec fn apply_result(aborted: bool, panicked: bool, rc: i32) -> Result<(), ApplyError> {
    if panicked {
        Err(ApplyError::ConflictHandlerPanicked)
    } else if aborted {
        Err(ApplyError::ConflictAborted)
    } else if rc != spec_sqlite_ok() && rc != spec_changeset_abort() {
        Err(ApplyError::ApplyFailed(SqliteErrorCode::spec_from_error(rc)))
    } else {
        Ok(())
    }
}

/// The error for a diff that is too long for the engine's length parameter:
/// the engine's too-big code.
pub open spec fn too_large() -> ApplyError {
    ApplyError::ApplyFailed(SqliteErrorCode::spec_from_error(spec_sqlite_toobig()))
}

impl<F> ConflictContext<F> {
    /// The context as an apply starts with it: nothing aborted, nothing failed.
    pub open spec fn spec_new(handler: F) -> Self {
        ConflictContext { handler, aborted: false, panicked: false }
    }

    /// The context after one conflict was answered with `outcome`.
    pub open spec fn settled(self, outcome: Option<ConflictAction>) -> Self {
        ConflictContext {
            handler: self.handler,
            aborted: self.aborted || action_of(outcome) == ConflictAction::Abort,
            panicked: self.panicked || outcome is None,
        }
    }

    /// A context for a fresh apply.
    pub fn new(handler: F) -> (ctx: Self)
        ensures
            ctx == Self::spec_new(handler),
    {
        ConflictContext { handler, aborted: false, panicked: false }
    }

    /// Records the answer to one conflict and gives the resolution code to
    /// hand to the engine.
    pub fn settle(&mut self, outcome: Option<ConflictAction>) -> (code: i32)
        ensures
            *final(self) == old(self).settled(outcome),
            code == action_of(outcome).spec_to_raw(),
    {
        let action = match outcome {
            Some(action) => action,
            None => {
                self.panicked = true;
                ConflictAction::Abort
            },
        };
        match action {
            ConflictAction::Abort => {
                self.aborted = true;
            },
            _ => {},
        }
        action.to_raw()
    }

    /// The result of the apply, once the engine has come back with `rc`.
    pub fn result(&self, rc: i32) -> (r: Result<(), ApplyError>)
        ensures
            r == apply_result(self.aborted, self.panicked, rc),
    {
        if self.panicked {
            return Err(ApplyError::ConflictHandlerPanicked);
        }
        if self.aborted {
            return Err(ApplyError::ConflictAborted);
        }
        if rc != sqlite_ok() && rc != changeset_abort() {
            return Err(ApplyError::ApplyFailed(SqliteErrorCode::from_error(rc)));
        }
        Ok(())
    }
}

/// The engine's conflict callback: classifies the conflict code, asks the
/// handler, records what came of it, and answers with a resolution code.
///
/// A code outside the known kinds is answered with an abort, and recorded as
/// one, without asking the handler.
pub fn conflict_callback<F>(ctx: &mut ConflictContext<F>, conflict_type: i32) -> (code: i32)
    where
        F: Fn(ConflictType) -> Option<ConflictAction>,
    requires
        forall|conflict: ConflictType| old(ctx).handler.requires((conflict,)),
    ensures
        match ConflictType::spec_from_raw(conflict_type) {
            Some(conflict) => exists|outcome: Option<ConflictAction>|
                old(ctx).handler.ensures((conflict,), outcome)
                    && *final(ctx) == old(ctx).settled(outcome)
                    && code == action_of(outcome).spec_to_raw(),
            None => *final(ctx) == old(ctx).settled(Some(ConflictAction::Abort))
                && code == ConflictAction::Abort.spec_to_raw(),
        },
{
    match ConflictType::from_raw(conflict_type) {
        Some(conflict) => {
            let outcome = (ctx.handler)(conflict);
            ctx.settle(outcome)
        },
        None => ctx.settle(Some(ConflictAction::Abort)),
    }
}

/// Whether the engine's apply may be run on this connection and diff.
pub open spec fn can_apply<C, F, N>(before: C, data: &[u8], on_conflict: F, native: N) -> bool
    where
        N: FnOnce(&mut C, &[u8], i32, &mut ConflictContext<F>) -> i32,
{
    0 < data@.len() <= i32::MAX ==> forall|conn: &mut C, ctx: &mut ConflictContext<F>|
        *conn == before && *ctx == ConflictContext::spec_new(on_conflict) ==> native.requires(
            (conn, data, data@.len() as i32, ctx),
        )
}

/// Applies a changeset or a patchset: the two share the engine's entry
/// point, `native`, since the format says which one it is.
///
/// An empty diff is a success that leaves the connection as it was. A diff
/// too long for the engine's length parameter fails with the engine's
/// too-big code, and leaves the connection as it was. For any other diff the
/// engine's apply is run once, on the connection, the diff, its length and a
/// fresh context, and the result is read from the context and the code that
/// the engine came back with.
pub fn apply_impl<C, F, N>(conn: &mut C, data: &[u8], on_conflict: F, native: N) -> (r: Result<
    (),
    ApplyError,
>)
    where
        F: Fn(ConflictType) -> Option<ConflictAction>,
        N: FnOnce(&mut C, &[u8], i32, &mut ConflictContext<F>) -> i32,
    requires
        can_apply(*old(conn), data, on_conflict, native),
    ensures
        data@.len() == 0 ==> r == Ok::<(), ApplyError>(()) && *final(conn) == *old(conn),
        data@.len() > i32::MAX ==> r == Err::<(), ApplyError>(too_large()) && *final(conn) == *old(
            conn,
        ),
        0 < data@.len() <= i32::MAX ==> exists|
            target: &mut C,
            ctx: &mut ConflictContext<F>,
            rc: i32,
        |
            *target == *old(conn) && *final(target) == *final(conn) && *ctx
                == ConflictContext::spec_new(on_conflict) && native.ensures(
                (target, data, data@.len() as i32, ctx),
                rc,
            ) && r == apply_result(final(ctx).aborted, final(ctx).panicked, rc),
{
    if data.len() == 0 {
        return Ok(());
    }
    if data.len() > i32::MAX as usize {
        return Err(ApplyError::ApplyFailed(SqliteErrorCode::from_error(sqlite_toobig())));
    }
    let data_len = data.len() as i32;
    let mut context = ConflictContext::new(on_conflict);
    let rc = native(conn, data, data_len, &mut context);
    context.result(rc)
}

/// Applies a changeset: a diff that holds the old and the new values of each
/// change. `native` is the engine's apply entry point.
///
/// An empty changeset is a success that leaves the connection as it was.
pub fn apply_changeset<C, F, N>(conn: &mut C, changeset: &[u8], on_conflict: F, native: N) -> (r:
    Result<(), ApplyError>)
    where
        F: Fn(ConflictType) -> Option<ConflictAction>,
        N: FnOnce(&mut C, &[u8], i32, &mut ConflictContext<F>) -> i32,
    requires
        can_apply(*old(conn), changeset, on_conflict, native),
    ensures
        changeset@.len() == 0 ==> r == Ok::<(), ApplyError>(()) && *final(conn) == *old(conn),
        changeset@.len() > i32::MAX ==> r == Err::<(), ApplyError>(too_large()) && *final(conn)
            == *old(conn),
        0 < changeset@.len() <= i32::MAX ==> exists|
            target: &mut C,
            ctx: &mut ConflictContext<F>,
            rc: i32,
        |
            *target == *old(conn) && *final(target) == *final(conn) && *ctx
                == ConflictContext::spec_new(on_conflict) && native.ensures(
                (target, changeset, changeset@.len() as i32, ctx),
                rc,
            ) && r == apply_result(final(ctx).aborted, final(ctx).panicked, rc),
{
    apply_impl(conn, changeset, on_conflict, native)
}

/// Applies a patchset: a diff that holds the new values only. `native` is
/// the engine's apply entry point, the same as for a changeset.
///
/// An empty patchset is a success that leaves the connection as it was.
pub fn apply_patchset<C, F, N>(conn: &mut C, patchset: &[u8], on_conflict: F, native: N) -> (r:
    Result<(), ApplyError>)
    where
        F: Fn(ConflictType) -> Option<ConflictAction>,
        N: FnOnce(&mut C, &[u8], i32, &mut ConflictContext<F>) -> i32,
    requires
        can_apply(*old(conn), patchset, on_conflict, native),
    ensures
        patchset@.len() == 0 ==> r == Ok::<(), ApplyError>(()) && *final(conn) == *old(conn),
        patchset@.len() > i32::MAX ==> r == Err::<(), ApplyError>(too_large()) && *final(conn)
            == *old(conn),
        0 < patchset@.len() <= i32::MAX ==> exists|
            target: &mut C,
            ctx: &mut ConflictContext<F>,
            rc: i32,
        |
            *target == *old(conn) && *final(target) == *final(conn) && *ctx
                == ConflictContext::spec_new(on_conflict) && native.ensures(
                (target, patchset, patchset@.len() as i32, ctx),
                rc,
            ) && r == apply_result(final(ctx).aborted, final(ctx).panicked, rc),
{
    apply_impl(conn, patchset, on_conflict, native)
}

/// What a context has recorded once the conflicts of one apply have been
/// answered in turn with `answers`.
pub open spec fn settled_all<F>(
    ctx: ConflictContext<F>,
    answers: Seq<Option<ConflictAction>>,
) -> ConflictContext<F>
    decreases answers.len(),
{
    if answers.len() == 0 {
        ctx
    } else {
        settled_all(ctx, answers.drop_last()).settled(answers.last())
    }
}

/// After any run of answers a context holds its handler still, has failed
/// exactly if it had before or one answer was a failure, and has aborted
/// exactly if it had before or one answer came to an abort.
pub proof fn settled_all_records<F>(ctx: ConflictContext<F>, answers: Seq<Option<ConflictAction>>)
    ensures
        settled_all(ctx, answers).handler == ctx.handler,
        settled_all(ctx, answers).panicked <==> ctx.panicked || exists|i: int|
            0 <= i < answers.len() && answers[i] is None,
        settled_all(ctx, answers).aborted <==> ctx.aborted || exists|i: int|
            0 <= i < answers.len() && action_of(#[trigger] answers[i]) == ConflictAction::Abort,
    decreases answers.len(),
{
    if answers.len() > 0 {
        let front = answers.drop_last();
        settled_all_records(ctx, front);
        assert forall|i: int| 0 <= i < front.len() implies front[i] == answers[i] by {}
        if exists|i: int| 0 <= i < front.len() && front[i] is None {
            let i = choose|i: int| 0 <= i < front.len() && front[i] is None;
            assert(answers[i] is None);
        }
        if exists|i: int|
            0 <= i < front.len() && action_of(#[trigger] front[i]) == ConflictAction::Abort {
            let i = choose|i: int|
                0 <= i < front.len() && action_of(#[trigger] front[i]) == ConflictAction::Abort;
            assert(action_of(answers[i]) == ConflictAction::Abort);
        }
        if exists|i: int| 0 <= i < answers.len() && answers[i] is None {
            let i = choose|i: int| 0 <= i < answers.len() && answers[i] is None;
            if i < front.len() {
                assert(front[i] is None);
            }
        }
        if exists|i: int|
            0 <= i < answers.len() && action_of(#[trigger] answers[i]) == ConflictAction::Abort {
            let i = choose|i: int|
                0 <= i < answers.len() && action_of(#[trigger] answers[i])
                    == ConflictAction::Abort;
            if i < front.len() {
                assert(action_of(front[i]) == ConflictAction::Abort);
            }
        }
    }
}

/// A failure counts as an abort: in an apply that started afresh, a context
/// that has recorded a failure has recorded an abort too.
pub proof fn a_failure_is_an_abort<F>(handler: F, answers: Seq<Option<ConflictAction>>)
    ensures
        settled_all(ConflictContext::spec_new(handler), answers).panicked ==> settled_all(
            ConflictContext::spec_new(handler),
            answers,
        ).aborted,
{
    settled_all_records(ConflictContext::spec_new(handler), answers);
    if settled_all(ConflictContext::spec_new(handler), answers).panicked {
        let i = choose|i: int| 0 <= i < answers.len() && answers[i] is None;
        assert(action_of(answers[i]) == ConflictAction::Abort);
    }
}

/// An abort is reported: where the handler never failed and one of its
/// answers was an abort, the apply fails with `ConflictAborted`, whatever
/// the other answers were and whatever code the engine came back with.
pub proof fn abort_is_reported<F>(
    handler: F,
    answers: Seq<Option<ConflictAction>>,
    at: int,
    rc: i32,
)
    requires
        0 <= at < answers.len(),
        answers[at] == Some(ConflictAction::Abort),
        forall|i: int| 0 <= i < answers.len() ==> answers[i] is Some,
    ensures
        ({
            let ctx = settled_all(ConflictContext::spec_new(handler), answers);
            apply_result(ctx.aborted, ctx.panicked, rc)
        }) == Err::<(), ApplyError>(ApplyError::ConflictAborted),
{
    settled_all_records(ConflictContext::spec_new(handler), answers);
    assert(action_of(answers[at]) == ConflictAction::Abort);
}

/// A failure of the handler is kept apart and reported: where the handler
/// failed on one conflict, that conflict is answered with an abort and the
/// apply fails with `ConflictHandlerPanicked`, whatever the other answers
/// were and whatever code the engine came back with.
pub proof fn handler_failure_is_reported<F>(
    ctx: ConflictContext<F>,
    answers: Seq<Option<ConflictAction>>,
    at: int,
    rc: i32,
)
    requires
        0 <= at < answers.len(),
        answers[at] is None,
    ensures
        action_of(answers[at]).spec_to_raw() == ConflictAction::Abort.spec_to_raw(),
        ({
            let after = settled_all(ctx, answers);
            apply_result(after.aborted, after.panicked, rc)
        }) == Err::<(), ApplyError>(ApplyError::ConflictHandlerPanicked),
{
    settled_all_records(ctx, answers);
}

/// Omit and replace go through to the engine and leave the apply alone:
/// where every answer was an omit or a replace, each went to the engine as
/// its own code, nothing was recorded, and the result of the apply is the
/// engine's: success for its success and abort codes, `ApplyFailed` with
/// the code for any other.
pub proof fn omit_and_replace_are_handed_through<F>(
    handler: F,
    answers: Seq<Option<ConflictAction>>,
    rc: i32,
)
    requires
        forall|i: int|
            0 <= i < answers.len() ==> answers[i] == Some(ConflictAction::Omit) || answers[i]
                == Some(ConflictAction::Replace),
    ensures
        forall|i: int|
            0 <= i < answers.len() ==> action_of(#[trigger] answers[i]).spec_to_raw() == (
            if answers[i] == Some(ConflictAction::Omit) {
                0i32
            } else {
                1i32
            }),
        settled_all(ConflictContext::spec_new(handler), answers) == ConflictContext::spec_new(
            handler,
        ),
        ({
            let ctx = settled_all(ConflictContext::spec_new(handler), answers);
            apply_result(ctx.aborted, ctx.panicked, rc)
        }) == (if rc == spec_sqlite_ok() || rc == spec_changeset_abort() {
            Ok::<(), ApplyError>(())
        } else {
            Err::<(), ApplyError>(ApplyError::ApplyFailed(SqliteErrorCode::spec_from_error(rc)))
        }),
{
    settled_all_records(ConflictContext::spec_new(handler), answers);
}

} // verus!
