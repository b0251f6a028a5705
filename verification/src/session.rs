//! The command dispatcher as a state machine. A session is started
//! from a request and asks, one at a time, for the external steps the
//! action needs: store reads and writes, the editor, the overwrite
//! prompt, printing. The caller performs each step and reports what
//! happened; the session decides what, if anything, runs next.

use vstd::prelude::*;
use crate::args::{
    read_args, write_args, overwrite_prompt, spec_read_args, spec_write_args,
    spec_overwrite_prompt,
};
use crate::qr::{qr_image, qr_fits, qr_image_of};

verus! {

/// One of the four actions the tool performs on a named secret.
pub enum Request {
    Read { secret: String },
    Edit { secret: String },
    Generate { secret: String },
    Qr { secret: String },
}

/// An external step the caller must perform. Every store invocation
/// carries the full argument list for the store's executable.
pub enum Effect {
    /// Run the store with these arguments, its output going straight
    /// to the caller's standard output.
    StreamSecret { args: Vec<String> },
    /// Run the store with these arguments, its output captured into
    /// the scratch file.
    FetchToScratch { args: Vec<String> },
    /// Run the editor on the scratch file, attached to the terminal.
    LaunchEditor,
    /// Run the store with these arguments, feeding it the scratch
    /// file's content.
    StoreFromScratch { args: Vec<String> },
    /// Run the store with these arguments, its output discarded; only
    /// the exit status matters.
    ProbeSecret { args: Vec<String> },
    /// Put this question to the operator and report the answer.
    AskOverwrite { prompt: String },
    /// Run the password generator and the store with these arguments,
    /// the generator's output piped into the store's input.
    PipeFreshSecret { args: Vec<String> },
    /// Run the store with these arguments and report its captured
    /// output together with its exit status.
    FetchPayload { args: Vec<String> },
    /// Print this text on the caller's standard output.
    ShowText { text: String },
}

/// What the caller reports after performing an effect.
pub enum Event {
    /// The step's process finished with this exit status.
    Exited { success: bool },
    /// The operator answered the question.
    Answered { yes: bool },
    /// The store finished with this exit status and this captured
    /// output.
    Fetched { success: bool, payload: Vec<u8> },
    /// The step could not be carried out at all.
    Failed,
}

/// What the session asks for after a step: another effect, a clean
/// finish, or an error message that ends the whole invocation.
pub enum Status {
    Running { effect: Effect },
    Done,
    Error { message: String },
}

/// Where a session stands between steps.
#[derive(Clone, Copy)]
pub enum Phase {
    Reading,
    EditFetching,
    EditEditing,
    EditStoring,
    GenProbing,
    GenConfirming,
    GenWriting,
    QrFetching,
    QrShowing,
    Finished,
    Failed,
}

pub struct Session {
    pub phase: Phase,
    pub secret: String,
}

/// The step ended the session with this error message.
pub open spec fn fails_with(post: Session, r: Status, msg: Seq<char>) -> bool {
    &&& post.phase is Failed
    &&& r matches Status::Error { message } && message@ == msg
}

/// The step finished the session cleanly.
pub open spec fn done(post: Session, r: Status) -> bool {
    &&& post.phase is Finished
    &&& r is Done
}

/// What starting a session from a request yields: the initial phase,
/// and the first effect, always a store read of the named secret.
pub open spec fn start_rel(req: Request, ses: Session, eff: Effect) -> bool {
    match req {
        Request::Read { secret } => {
            &&& ses.phase is Reading
            &&& ses.secret@ == secret@
            &&& eff matches Effect::StreamSecret { args } && args.deep_view()
                == spec_read_args(secret@)
        },
        Request::Edit { secret } => {
            &&& ses.phase is EditFetching
            &&& ses.secret@ == secret@
            &&& eff matches Effect::FetchToScratch { args } && args.deep_view()
                == spec_read_args(secret@)
        },
        Request::Generate { secret } => {
            &&& ses.phase is GenProbing
            &&& ses.secret@ == secret@
            &&& eff matches Effect::ProbeSecret { args } && args.deep_view()
                == spec_read_args(secret@)
        },
        Request::Qr { secret } => {
            &&& ses.phase is QrFetching
            &&& ses.secret@ == secret@
            &&& eff matches Effect::FetchPayload { args } && args.deep_view()
                == spec_read_args(secret@)
        },
    }
}

/// The whole transition table: how a step moves the session from
/// `pre` to `post` and what it returns for each phase and event. An
/// event that the phase does not expect, or a step on a finished
/// session, is a protocol error and ends the session.
pub open spec fn step_rel(pre: Session, post: Session, event: Event, r: Status) -> bool {
    &&& post.secret@ == pre.secret@
    &&& match pre.phase {
        Phase::Reading => match event {
            Event::Exited { success } => if success {
                done(post, r)
            } else {
                fails_with(post, r, "vault failed"@)
            },
            Event::Failed => fails_with(post, r, "vault failed"@),
            _ => fails_with(post, r, "protocol error"@),
        },
        Phase::EditFetching => match event {
            Event::Exited { success } => if success {
                &&& post.phase is EditEditing
                &&& r matches Status::Running { effect } && effect is LaunchEditor
            } else {
                fails_with(post, r, "vault failed"@)
            },
            Event::Failed => fails_with(post, r, "vault failed"@),
            _ => fails_with(post, r, "protocol error"@),
        },
        Phase::EditEditing => match event {
            Event::Exited { success } => if success {
                &&& post.phase is EditStoring
                &&& r matches Status::Running { effect }
                    && effect matches Effect::StoreFromScratch { args }
                    && args.deep_view() == spec_write_args(pre.secret@)
            } else {
                fails_with(post, r, "editor failed"@)
            },
            Event::Failed => fails_with(post, r, "editor failed"@),
            _ => fails_with(post, r, "protocol error"@),
        },
        Phase::EditStoring => match event {
            Event::Exited { success } => if success {
                done(post, r)
            } else {
                fails_with(post, r, "vault failed"@)
            },
            Event::Failed => fails_with(post, r, "vault failed"@),
            _ => fails_with(post, r, "protocol error"@),
        },
        Phase::GenProbing => match event {
            Event::Exited { success } => if success {
                &&& post.phase is GenConfirming
                &&& r matches Status::Running { effect }
                    && effect matches Effect::AskOverwrite { prompt }
                    && prompt@ == spec_overwrite_prompt(pre.secret@)
            } else {
                &&& post.phase is GenWriting
                &&& r matches Status::Running { effect }
                    && effect matches Effect::PipeFreshSecret { args }
                    && args.deep_view() == spec_write_args(pre.secret@)
            },
            Event::Failed => fails_with(post, r, "vault failed"@),
            _ => fails_with(post, r, "protocol error"@),
        },
        Phase::GenConfirming => match event {
            Event::Answered { yes } => if yes {
                &&& post.phase is GenWriting
                &&& r matches Status::Running { effect }
                    && effect matches Effect::PipeFreshSecret { args }
                    && args.deep_view() == spec_write_args(pre.secret@)
            } else {
                done(post, r)
            },
            Event::Failed => fails_with(post, r, "prompt failed"@),
            _ => fails_with(post, r, "protocol error"@),
        },
        Phase::GenWriting => match event {
            Event::Exited { success } => if success {
                done(post, r)
            } else {
                fails_with(post, r, "vault failed"@)
            },
            Event::Failed => fails_with(post, r, "vault failed"@),
            _ => fails_with(post, r, "protocol error"@),
        },
        Phase::QrFetching => match event {
            Event::Fetched { success, payload } => if success {
                if qr_fits(payload@) {
                    &&& post.phase is QrShowing
                    &&& r matches Status::Running { effect }
                        && effect matches Effect::ShowText { text }
                        && text@ == qr_image_of(payload@)
                } else {
                    fails_with(post, r, "qr encoding failed"@)
                }
            } else {
                fails_with(post, r, "vault failed"@)
            },
            Event::Failed => fails_with(post, r, "vault failed"@),
            _ => fails_with(post, r, "protocol error"@),
        },
        Phase::QrShowing => match event {
            Event::Exited { success } => if success {
                done(post, r)
            } else {
                fails_with(post, r, "print failed"@)
            },
            Event::Failed => fails_with(post, r, "print failed"@),
            _ => fails_with(post, r, "protocol error"@),
        },
        Phase::Finished => fails_with(post, r, "protocol error"@),
        Phase::Failed => fails_with(post, r, "protocol error"@),
    }
}

impl Session {
    /// Begin the requested action. The first step of every action is
    /// a read of the named secret from the store; only what is done
    /// with its output differs.
    pub fn start(req: Request) -> (r: (Session, Effect))
        ensures
            start_rel(req, r.0, r.1),
    {
        match req {
            Request::Read { secret } => {
                let eff = Effect::StreamSecret { args: read_args(secret.as_str()) };
                (Session { phase: Phase::Reading, secret }, eff)
            },
            Request::Edit { secret } => {
                let eff = Effect::FetchToScratch { args: read_args(secret.as_str()) };
                (Session { phase: Phase::EditFetching, secret }, eff)
            },
            Request::Generate { secret } => {
                let eff = Effect::ProbeSecret { args: read_args(secret.as_str()) };
                (Session { phase: Phase::GenProbing, secret }, eff)
            },
            Request::Qr { secret } => {
                let eff = Effect::FetchPayload { args: read_args(secret.as_str()) };
                (Session { phase: Phase::QrFetching, secret }, eff)
            },
        }
    }

    /// Take the report of the last step and decide what runs next.
    pub fn step(&mut self, event: Event) -> (r: Status)
        ensures
            step_rel(*old(self), *final(self), event, r),
    {
        match self.phase {
            Phase::Reading => match event {
                Event::Exited { success: true } => self.finish(),
                Event::Exited { success: false } | Event::Failed => self.fail("vault failed"),
                _ => self.fail("protocol error"),
            },
            Phase::EditFetching => match event {
                Event::Exited { success: true } => {
                    self.phase = Phase::EditEditing;
                    Status::Running { effect: Effect::LaunchEditor }
                },
                Event::Exited { success: false } | Event::Failed => self.fail("vault failed"),
                _ => self.fail("protocol error"),
            },
            Phase::EditEditing => match event {
                Event::Exited { success: true } => {
                    self.phase = Phase::EditStoring;
                    let args = write_args(self.secret.as_str());
                    Status::Running { effect: Effect::StoreFromScratch { args } }
                },
                Event::Exited { success: false } | Event::Failed => self.fail("editor failed"),
                _ => self.fail("protocol error"),
            },
            Phase::EditStoring => match event {
                Event::Exited { success: true } => self.finish(),
                Event::Exited { success: false } | Event::Failed => self.fail("vault failed"),
                _ => self.fail("protocol error"),
            },
            Phase::GenProbing => match event {
                Event::Exited { success: true } => {
                    self.phase = Phase::GenConfirming;
                    let prompt = overwrite_prompt(self.secret.as_str());
                    Status::Running { effect: Effect::AskOverwrite { prompt } }
                },
                Event::Exited { success: false } => {
                    self.phase = Phase::GenWriting;
                    let args = write_args(self.secret.as_str());
                    Status::Running { effect: Effect::PipeFreshSecret { args } }
                },
                Event::Failed => self.fail("vault failed"),
                _ => self.fail("protocol error"),
            },
            Phase::GenConfirming => match event {
                Event::Answered { yes: true } => {
                    self.phase = Phase::GenWriting;
                    let args = write_args(self.secret.as_str());
                    Status::Running { effect: Effect::PipeFreshSecret { args } }
                },
                Event::Answered { yes: false } => self.finish(),
                Event::Failed => self.fail("prompt failed"),
                _ => self.fail("protocol error"),
            },
            Phase::GenWriting => match event {
                Event::Exited { success: true } => self.finish(),
                Event::Exited { success: false } | Event::Failed => self.fail("vault failed"),
                _ => self.fail("protocol error"),
            },
            Phase::QrFetching => match event {
                Event::Fetched { success: true, payload } => match qr_image(&payload) {
                    Some(text) => {
                        self.phase = Phase::QrShowing;
                        Status::Running { effect: Effect::ShowText { text } }
                    },
                    None => self.fail("qr encoding failed"),
                },
                Event::Fetched { success: false, payload: _ } | Event::Failed => self.fail(
                    "vault failed",
                ),
                _ => self.fail("protocol error"),
            },
            Phase::QrShowing => match event {
                Event::Exited { success: true } => self.finish(),
                Event::Exited { success: false } | Event::Failed => self.fail("print failed"),
                _ => self.fail("protocol error"),
            },
            Phase::Finished => self.fail("protocol error"),
            Phase::Failed => self.fail("protocol error"),
        }
    }

    /// End the session cleanly.
    fn finish(&mut self) -> (r: Status)
        ensures
            done(*final(self), r),
            final(self).secret@ == old(self).secret@,
    {
        self.phase = Phase::Finished;
        Status::Done
    }

    /// End the session with this error message.
    fn fail(&mut self, msg: &str) -> (r: Status)
        ensures
            fails_with(*final(self), r, msg@),
            final(self).secret@ == old(self).secret@,
    {
        self.phase = Phase::Failed;
        Status::Error { message: String::from_str(msg) }
    }
}

} // verus!
