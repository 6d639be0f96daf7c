//! The reply to an upload of several files.
use vstd::prelude::*;
use crate::error::{PasteError, error_message, error_status};
use crate::id::{PasteId, display_id};
use crate::paste::Paste;

verus! {

/// The reply to an upload: the status of the first failed file, if any
/// failed (otherwise the reply is a plain `200 OK`), and the body.
#[derive(Clone, Debug, PartialEq, Eq)]
pub struct UploadReply {
    pub error_status: Option<u16>,
    pub body: String,
}

/// The line reporting one uploaded file: its URL on `host`, or the error
/// that stopped it.
pub open spec fn outcome_line(host: Seq<char>, o: Result<Paste, (PasteId, PasteError)>) -> Seq<char> {
    match o {
        Ok(p) => "https://"@ + host + "/"@ + display_id(p.id@) + "\n"@,
        Err((_, e)) => error_message(e) + "\n"@,
    }
}

/// The lines of all files, in upload order.
pub open spec fn reply_body(host: Seq<char>, os: Seq<Result<Paste, (PasteId, PasteError)>>) -> Seq<char>
    decreases os.len(),
{
    if os.len() == 0 {
        Seq::empty()
    } else {
        reply_body(host, os.drop_last()) + outcome_line(host, os.last())
    }
}

/// The reply status of the first file that failed, if any did.
pub open spec fn first_error_status(os: Seq<Result<Paste, (PasteId, PasteError)>>) -> Option<u16>
    decreases os.len(),
{
    if os.len() == 0 {
        None
    } else {
        match first_error_status(os.drop_last()) {
            Some(s) => Some(s),
            None => match os.last() {
                Err((_, e)) => Some(error_status(e)),
                Ok(_) => None,
            },
        }
    }
}

proof fn lemma_first_error_none(os: Seq<Result<Paste, (PasteId, PasteError)>>)
    ensures
        first_error_status(os) is None <==> forall|i: int| 0 <= i < os.len() ==> #[trigger] os[i] is Ok,
    decreases os.len(),
{
    if os.len() > 0 {
        let pre = os.drop_last();
        lemma_first_error_none(pre);
        if first_error_status(os) is None {
            assert forall|i: int| 0 <= i < os.len() implies #[trigger] os[i] is Ok by {
                if i < os.len() - 1 {
                    assert(pre[i] == os[i]);
                }
            }
        }
        if forall|i: int| 0 <= i < os.len() ==> #[trigger] os[i] is Ok {
            assert forall|i: int| 0 <= i < pre.len() implies #[trigger] pre[i] is Ok by {
                assert(pre[i] == os[i]);
            }
            assert(os[os.len() - 1] is Ok);
        }
    }
}

/// Records how storing one uploaded file (given the id chosen for it) ended,
/// and says whether the partly written file must be removed: a stored paste
/// is recorded as it is; a failure is recorded with the id and the error,
/// and its file removed.
pub fn record_outcome(
    outcomes: &mut Vec<Result<Paste, (PasteId, PasteError)>>,
    id: PasteId,
    result: Result<Paste, PasteError>,
) -> (remove_file: bool)
    ensures
        remove_file == result is Err,
        final(outcomes)@ == old(outcomes)@.push(
            match result {
                Ok(p) => Ok(p),
                Err(e) => Err((id, e)),
            },
        ),
{
    match result {
        Ok(p) => {
            outcomes.push(Ok(p));
            false
        },
        Err(e) => {
            outcomes.push(Err((id, e)));
            true
        },
    }
}

/// The reply to an upload whose files ended as `outcomes`, in order, on
/// `host`: `NoContent` when there were no files; otherwise one line per
/// file (see `outcome_line`) and the status of the first failure. The
/// status is absent exactly when every file was stored.
pub fn upload_reply(host: &str, outcomes: &Vec<Result<Paste, (PasteId, PasteError)>>) -> (r: Result<UploadReply, PasteError>)
    ensures
        outcomes@.len() == 0 ==> r == Err::<UploadReply, PasteError>(PasteError::NoContent),
        outcomes@.len() > 0 ==> r is Ok,
        r matches Ok(rep) ==> {
            &&& rep.body@ == reply_body(host@, outcomes@)
            &&& rep.error_status == first_error_status(outcomes@)
            &&& (rep.error_status is None <==> forall|i: int|
                0 <= i < outcomes@.len() ==> #[trigger] outcomes@[i] is Ok)
        },
{
    if outcomes.len() == 0 {
        return Err(PasteError::NoContent);
    }
    let mut body = String::new();
    let mut status: Option<u16> = None;
    let mut i: usize = 0;
    while i < outcomes.len()
        invariant
            i <= outcomes@.len(),
            body@ == reply_body(host@, outcomes@.subrange(0, i as int)),
            status == first_error_status(outcomes@.subrange(0, i as int)),
        decreases outcomes.len() - i,
    {
        let ghost pre = outcomes@.subrange(0, i as int);
        let ghost post = outcomes@.subrange(0, i + 1);
        proof {
            assert(post.drop_last() == pre);
            assert(post.last() == outcomes@[i as int]);
        }
        match &outcomes[i] {
            Ok(paste) => {
                body.append("https://");
                body.append(host);
                body.append("/");
                let shown = paste.id.to_string();
                body.append(shown.as_str());
                body.append("\n");
            },
            Err((_, err)) => {
                let text = err.message();
                body.append(text.as_str());
                body.append("\n");
                if status.is_none() {
                    status = Some(err.response().status);
                }
            },
        }
        i = i + 1;
    }
    proof {
        assert(outcomes@.subrange(0, outcomes@.len() as int) == outcomes@);
        lemma_first_error_none(outcomes@);
    }
    Ok(UploadReply { error_status: status, body })
}

} // verus!
