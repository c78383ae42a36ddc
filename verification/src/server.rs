//! What the server answers: the text for each request that succeeded, and the error
//! for each that did not.

use crate::ci::ProjectInfo;
use crate::db;
use crate::db::Database;
use crate::error::Error as CoreError;
use crate::info::TechniqueInfo;
use crate::msgs::{answer_view, Error, ErrorView, Msg, MsgResult};
use vstd::prelude::*;
use vstd::string::*;

verus! {

/// The address on which the server listens.
pub const BIND_ADDRESS: &'static str = "0.0.0.0:8096";

/// The answer to a request that gives nothing back: the empty text on success.
pub open spec fn done_answer(r: Result<(), CoreError>) -> Result<Seq<char>, ErrorView> {
    match r {
        Ok(_) => Ok(Seq::empty()),
        Err(e) => Err(ErrorView::of(e)),
    }
}

/// The answer to a request that gives nothing back.
pub fn done(r: Result<(), CoreError>) -> (answer: MsgResult)
    ensures
        answer_view(answer) == done_answer(r),
{
    match r {
        Ok(()) => Ok(String::new()),
        Err(e) => Err(Error::of(e)),
    }
}

/// Registers a technique and answers the request.
pub fn register(db: &mut Database, info: &ProjectInfo, tech: &TechniqueInfo) -> (answer: MsgResult)
    requires
        old(db).wf(),
    ensures
        final(db).wf(),
        final(db)@ == old(db)@.register(info@, tech@).0,
        answer_view(answer) == done_answer(old(db)@.register(info@, tech@).1),
{
    done(db::register(db, info, tech))
}

/// The answer to `SaveResults`: the uuid of the new workspace.
pub open spec fn uuid_answer(r: Result<Seq<char>, CoreError>) -> Result<Seq<char>, ErrorView> {
    match r {
        Ok(uuid) => Ok(uuid),
        Err(e) => Err(ErrorView::of(e)),
    }
}

/// The answer to `SaveResults`.
pub fn save_results(r: Result<String, CoreError>) -> (answer: MsgResult)
    ensures
        answer_view(answer) == uuid_answer(db::text_result(r)),
{
    match r {
        Ok(uuid) => Ok(uuid),
        Err(e) => Err(Error::of(e)),
    }
}

/// The answer to `CanRun`: `true` or `false`.
pub open spec fn can_run_answer(r: Result<bool, CoreError>) -> Result<Seq<char>, ErrorView> {
    match r {
        Ok(can) => Ok(
            if can {
                "true"@
            } else {
                "false"@
            },
        ),
        Err(e) => Err(ErrorView::of(e)),
    }
}

/// The answer to `CanRun`.
pub fn can_run(r: Result<bool, CoreError>) -> (answer: MsgResult)
    ensures
        answer_view(answer) == can_run_answer(r),
{
    match r {
        Ok(can) => if can {
            Ok(String::from_str("true"))
        } else {
            Ok(String::from_str("false"))
        },
        Err(e) => Err(Error::of(e)),
    }
}

/// The answer to `InitMissingScenesWP`: the empty text where scenes are missing,
/// `NO_SCENE` where none is.
pub open spec fn missing_scenes_answer(r: Result<bool, CoreError>) -> Result<
    Seq<char>,
    ErrorView,
> {
    match r {
        Ok(has_scenes) => Ok(
            if has_scenes {
                Seq::empty()
            } else {
                "NO_SCENE"@
            },
        ),
        Err(e) => Err(ErrorView::of(e)),
    }
}

/// The answer to `InitMissingScenesWP`.
pub fn init_missing_scenes_workspace(r: Result<bool, CoreError>) -> (answer: MsgResult)
    ensures
        answer_view(answer) == missing_scenes_answer(r),
{
    match r {
        Ok(has_scenes) => if has_scenes {
            Ok(String::new())
        } else {
            Ok(String::from_str("NO_SCENE"))
        },
        Err(e) => Err(Error::of(e)),
    }
}

/// The answer to a request that could not be read.
pub fn invalid_message() -> (answer: MsgResult)
    ensures
        answer_view(answer) == Err::<Seq<char>, ErrorView>(ErrorView::InvalidMessage),
{
    Err(Error::InvalidMessage)
}

/// Whether a request ends the session without an answer.
pub fn ends_session(msg: &Msg) -> (ends: bool)
    ensures
        ends == (*msg is End),
{
    match msg {
        Msg::End => true,
        _ => false,
    }
}

/// Whether the server closes the connection once it has sent the answer: it does
/// after every error.
pub fn closes_connection(answer: &MsgResult) -> (closes: bool)
    ensures
        closes == (*answer is Err),
{
    answer.is_err()
}

/// Whether the answer to `InitMissingScenesWP` says that scenes are missing: every
/// answer but `NO_SCENE` does.
pub fn has_missing_scenes(answer: &str) -> (missing: bool)
    ensures
        missing == (answer@ != "NO_SCENE"@),
{
    !crate::text::same(answer, "NO_SCENE")
}

/// A client reads from the answer to `InitMissingScenesWP` what the server found.
pub proof fn lemma_missing_scenes_answer(has_scenes: bool)
    ensures
        missing_scenes_answer(Ok(has_scenes)) is Ok,
        (missing_scenes_answer(Ok(has_scenes))->Ok_0 != "NO_SCENE"@) == has_scenes,
{
    reveal_strlit("NO_SCENE");
    assert("NO_SCENE"@.len() == 8);
    assert(Seq::<char>::empty().len() == 0);
}

} // verus!
