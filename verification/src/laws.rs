//! The guarantees of the dispatcher, stated over the session's
//! transition relation and proved once and for all.

use vstd::prelude::*;
use crate::args::{spec_read_args, spec_write_args};
use crate::qr::{qr_fits, qr_image_of};
use crate::session::{Request, Effect, Event, Status, Session, start_rel, step_rel, fails_with, done};

verus! {

/// A read session performs exactly one external read: its first
/// effect is the store read of the named secret with output streamed
/// through verbatim, and whatever the caller reports about that step,
/// the session never asks for another.
pub proof fn law_read_single_read(
    req: Request,
    ses: Session,
    eff: Effect,
    post: Session,
    event: Event,
    r: Status,
)
    requires
        req matches Request::Read { .. },
        start_rel(req, ses, eff),
        step_rel(ses, post, event, r),
    ensures
        (eff matches Effect::StreamSecret { args } && args.deep_view() == spec_read_args(
            req->Read_secret@,
        )),
        !(r is Running),
{
}

/// A finished or failed session never asks for another step: once a
/// step fails, none of the steps after it runs.
pub proof fn law_failure_stops_everything(pre: Session, post: Session, event: Event, r: Status)
    requires
        pre.phase is Finished || pre.phase is Failed,
        step_rel(pre, post, event, r),
    ensures
        !(r is Running),
{
}

/// When the editor does not exit successfully, the edit session fails
/// on the spot: the store write is never requested, so the store is
/// left as it was.
pub proof fn law_editor_failure_keeps_store(pre: Session, post: Session, event: Event, r: Status)
    requires
        pre.phase is EditEditing,
        event matches Event::Exited { success: false } || event is Failed,
        step_rel(pre, post, event, r),
    ensures
        fails_with(post, r, "editor failed"@),
        !(r is Running),
{
}

/// A store write is requested only on the three transitions that are
/// allowed to change the store: after the editor exited successfully,
/// after the probe found no record under the name, or after the
/// operator confirmed the overwrite.
pub proof fn law_store_write_gated(pre: Session, post: Session, event: Event, r: Status)
    requires
        step_rel(pre, post, event, r),
        r matches Status::Running { effect } && (effect is StoreFromScratch
            || effect is PipeFreshSecret),
    ensures
        ({
            ||| pre.phase is EditEditing && (event matches Event::Exited { success } && success)
            ||| pre.phase is GenProbing && (event matches Event::Exited { success } && !success)
            ||| pre.phase is GenConfirming && (event matches Event::Answered { yes } && yes)
        }),
{
}

/// Generating a secret under a name the probe did not find never
/// prompts: the session goes straight to writing a freshly generated
/// payload.
pub proof fn law_generate_absent_writes_fresh(pre: Session, post: Session, event: Event, r: Status)
    requires
        pre.phase is GenProbing,
        event matches Event::Exited { success: false },
        step_rel(pre, post, event, r),
    ensures
        post.phase is GenWriting,
        (r matches Status::Running { effect } && effect matches Effect::PipeFreshSecret { args }
            && args.deep_view() == spec_write_args(pre.secret@)),
{
}

/// The overwrite prompt appears only when the probe found an existing
/// record under the name.
pub proof fn law_prompt_only_on_existing(pre: Session, post: Session, event: Event, r: Status)
    requires
        step_rel(pre, post, event, r),
        r matches Status::Running { effect } && effect is AskOverwrite,
    ensures
        pre.phase is GenProbing,
        event matches Event::Exited { success } && success,
{
}

/// When the operator declines the overwrite, the generate session
/// finishes cleanly at once: no write is requested and the store is
/// left unchanged.
pub proof fn law_generate_declined_unchanged(pre: Session, post: Session, event: Event, r: Status)
    requires
        pre.phase is GenConfirming,
        event matches Event::Answered { yes: false },
        step_rel(pre, post, event, r),
    ensures
        done(post, r),
        !(r is Running),
{
}

/// When the operator confirms the overwrite, the session requests a
/// write of a freshly generated payload — the generator's output piped
/// into the store, never the old payload.
pub proof fn law_generate_confirmed_writes_fresh(
    pre: Session,
    post: Session,
    event: Event,
    r: Status,
)
    requires
        pre.phase is GenConfirming,
        event matches Event::Answered { yes: true },
        step_rel(pre, post, event, r),
    ensures
        post.phase is GenWriting,
        (r matches Status::Running { effect } && effect matches Effect::PipeFreshSecret { args }
            && args.deep_view() == spec_write_args(pre.secret@)),
{
}

/// What a qr session prints is the rendered code of exactly the bytes
/// the store read returned, whenever those bytes can be encoded.
pub proof fn law_qr_prints_exact_payload(pre: Session, post: Session, event: Event, r: Status)
    requires
        pre.phase is QrFetching,
        event matches Event::Fetched { success: true, payload } && qr_fits(payload@),
        step_rel(pre, post, event, r),
    ensures
        post.phase is QrShowing,
        (r matches Status::Running { effect } && effect matches Effect::ShowText { text }
            && text@ == qr_image_of(event->Fetched_payload@)),
{
}

/// A failed store read ends the invocation with the store's error
/// message, so the caller exits with a failure.
pub proof fn law_read_failure_reports_vault(pre: Session, post: Session, event: Event, r: Status)
    requires
        pre.phase is Reading,
        event matches Event::Exited { success: false } || event is Failed,
        step_rel(pre, post, event, r),
    ensures
        fails_with(post, r, "vault failed"@),
{
}

} // verus!
