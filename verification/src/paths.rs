//! The output-path selection protocol.
//!
//! Choosing an output path is an exchange with the user: a file picker,
//! a retry prompt when no file was chosen, and a confirmation before an
//! already chosen path is replaced.  The exchange is modelled as a state
//! machine: each user answer (`PathReply`) drives one `PathPrompt` state
//! to the next, and only the transitions below may touch the stored
//! output path.

use vstd::prelude::*;

use crate::classes::Derecrypt;

verus! {

/// Where the exchange stands: which prompt the user faces next, or the
/// outcome it finished with.
pub enum PathPrompt {
    AwaitingPath,
    AwaitingRetry,
    AwaitingConfirm { chosen: String },
    Finished { outcome: Option<String> },
}

/// Mathematical value of a `PathPrompt`.
#[verifier::ext_equal]
pub enum PathPromptV {
    AwaitingPath,
    AwaitingRetry,
    AwaitingConfirm(Seq<char>),
    Finished(Option<Seq<char>>),
}

impl View for PathPrompt {
    type V = PathPromptV;

    open spec fn view(&self) -> PathPromptV {
        match self {
            PathPrompt::AwaitingPath => PathPromptV::AwaitingPath,
            PathPrompt::AwaitingRetry => PathPromptV::AwaitingRetry,
            PathPrompt::AwaitingConfirm { chosen } => PathPromptV::AwaitingConfirm(chosen@),
            PathPrompt::Finished { outcome } => PathPromptV::Finished(
                match outcome {
                    Some(f) => Some(f@),
                    None => None,
                },
            ),
        }
    }
}

/// One user answer: the picker's result, the retry choice, or the
/// replace confirmation.
pub enum PathReply {
    Picked(Option<String>),
    Retry(bool),
    Confirm(bool),
}

/// Mathematical value of a `PathReply`.
#[verifier::ext_equal]
pub enum PathReplyV {
    Picked(Option<Seq<char>>),
    Retry(bool),
    Confirm(bool),
}

impl View for PathReply {
    type V = PathReplyV;

    open spec fn view(&self) -> PathReplyV {
        match self {
            PathReply::Picked(p) => PathReplyV::Picked(
                match p {
                    Some(f) => Some(f@),
                    None => None,
                },
            ),
            PathReply::Retry(b) => PathReplyV::Retry(*b),
            PathReply::Confirm(b) => PathReplyV::Confirm(*b),
        }
    }
}

/// One transition of the exchange: the next prompt and the stored output
/// path after answering `rp` in state `st`.  A chosen path is adopted at
/// once when none was stored or the caller forces it; otherwise only an
/// explicit confirmation adopts it.  An answer that does not fit the
/// state changes nothing.
pub open spec fn step_spec(
    st: PathPromptV,
    rp: PathReplyV,
    outfile: Option<Seq<char>>,
    force: bool,
) -> (PathPromptV, Option<Seq<char>>) {
    match (st, rp) {
        (PathPromptV::AwaitingPath, PathReplyV::Picked(p)) => match p {
            None => (PathPromptV::AwaitingRetry, outfile),
            Some(f) => if outfile is None || force {
                (PathPromptV::Finished(Some(f)), Some(f))
            } else {
                (PathPromptV::AwaitingConfirm(f), outfile)
            },
        },
        (PathPromptV::AwaitingRetry, PathReplyV::Retry(again)) => if again {
            (PathPromptV::AwaitingPath, outfile)
        } else {
            (PathPromptV::Finished(None), outfile)
        },
        (PathPromptV::AwaitingConfirm(f), PathReplyV::Confirm(yes)) => (
            PathPromptV::Finished(Some(f)),
            if yes {
                Some(f)
            } else {
                outfile
            },
        ),
        _ => (st, outfile),
    }
}

/// The whole exchange, one answer after the other.
pub open spec fn run_steps(
    st: PathPromptV,
    replies: Seq<PathReplyV>,
    outfile: Option<Seq<char>>,
    force: bool,
) -> (PathPromptV, Option<Seq<char>>)
    decreases replies.len(),
{
    if replies.len() == 0 {
        (st, outfile)
    } else {
        let next = step_spec(st, replies[0], outfile, force);
        run_steps(next.0, replies.subrange(1, replies.len() as int), next.1, force)
    }
}

/// A finished exchange no longer reacts to answers.
pub proof fn lemma_finished_stays(
    st: PathPromptV,
    replies: Seq<PathReplyV>,
    outfile: Option<Seq<char>>,
    force: bool,
)
    requires
        st is Finished,
    ensures
        run_steps(st, replies, outfile, force) == (st, outfile),
    decreases replies.len(),
{
    if replies.len() > 0 {
        lemma_finished_stays(st, replies.subrange(1, replies.len() as int), outfile, force);
    }
}

/// Law: as long as the picker yields no file, however the retry prompts
/// are answered, the stored output path never changes, and if the
/// exchange ends it ends with no path.
pub proof fn lemma_no_file_no_change(
    st: PathPromptV,
    replies: Seq<PathReplyV>,
    outfile: Option<Seq<char>>,
    force: bool,
)
    requires
        st is AwaitingPath || st is AwaitingRetry,
        forall|i: int|
            0 <= i < replies.len() ==> ((#[trigger] replies[i]) matches PathReplyV::Picked(None)
                || replies[i] is Retry),
    ensures
        run_steps(st, replies, outfile, force).1 == outfile,
        run_steps(st, replies, outfile, force).0 matches PathPromptV::Finished(r) ==> r is None,
    decreases replies.len(),
{
    if replies.len() > 0 {
        let next = step_spec(st, replies[0], outfile, force);
        let rest = replies.subrange(1, replies.len() as int);
        assert(next.1 == outfile);
        if next.0 is Finished {
            lemma_finished_stays(next.0, rest, next.1, force);
        } else {
            lemma_no_file_no_change(next.0, rest, next.1, force);
        }
    }
}

/// What each reachable state of the exchange guarantees about the stored
/// output path, relative to the path `of0` stored when the exchange
/// began: nothing moves before the exchange finishes; a finished
/// exchange without a path left everything alone; a finished exchange
/// with path `f` either kept the old path or adopted `f`, adopting it
/// for sure when none was stored or the caller forced the overwrite.
pub open spec fn prompt_inv(
    of0: Option<Seq<char>>,
    cur: Option<Seq<char>>,
    st: PathPromptV,
    force: bool,
) -> bool {
    match st {
        PathPromptV::AwaitingPath => cur == of0,
        PathPromptV::AwaitingRetry => cur == of0,
        PathPromptV::AwaitingConfirm(f) => cur == of0 && !(of0 is None) && !force,
        PathPromptV::Finished(r) => match r {
            None => cur == of0,
            Some(f) => (cur == of0 || cur == Some(f)) && (of0 is None ==> cur == Some(f)) && (
            force ==> cur == Some(f)),
        },
    }
}

/// Law: every transition keeps `prompt_inv`, so the guarantees above
/// hold of any exchange, whatever the user answers: a path picked with
/// none stored (or with the overwrite forced) is adopted without a
/// confirmation, a declined confirmation keeps the old path while the
/// picked one is still handed back, and nothing else ever touches the
/// stored path.
pub proof fn lemma_step_keeps_inv(
    of0: Option<Seq<char>>,
    cur: Option<Seq<char>>,
    st: PathPromptV,
    rp: PathReplyV,
    force: bool,
)
    requires
        prompt_inv(of0, cur, st, force),
    ensures
        prompt_inv(of0, step_spec(st, rp, cur, force).1, step_spec(st, rp, cur, force).0, force),
{
}

impl Derecrypt {
    /// Answers one prompt of the path-selection exchange.  The registry
    /// and the working string are untouched; the stored output path
    /// moves exactly as `step_spec` says.
    pub fn get_desired_path_step(
        &mut self,
        force_overwrite: bool,
        state: PathPrompt,
        reply: PathReply,
    ) -> (next: PathPrompt)
        ensures
            (next@, final(self).outfile_v()) == step_spec(
                state@,
                reply@,
                old(self).outfile_v(),
                force_overwrite,
            ),
            final(self).open_modals == old(self).open_modals,
            final(self).string == old(self).string,
    {
        match (state, reply) {
            (PathPrompt::AwaitingPath, PathReply::Picked(p)) => match p {
                None => PathPrompt::AwaitingRetry,
                Some(f) => {
                    if self.outfile.is_none() || force_overwrite {
                        self.outfile = Some(f.clone());
                        PathPrompt::Finished { outcome: Some(f) }
                    } else {
                        PathPrompt::AwaitingConfirm { chosen: f }
                    }
                },
            },
            (PathPrompt::AwaitingRetry, PathReply::Retry(again)) => {
                if again {
                    PathPrompt::AwaitingPath
                } else {
                    PathPrompt::Finished { outcome: None }
                }
            },
            (PathPrompt::AwaitingConfirm { chosen }, PathReply::Confirm(yes)) => {
                if yes {
                    self.outfile = Some(chosen.clone());
                }
                PathPrompt::Finished { outcome: Some(chosen) }
            },
            (st, _) => st,
        }
    }
}

} // verus!
