//! Properties of whole fetches, proved from the step function's contract.

use vstd::prelude::*;
use vstd::utf8::{decode_utf8_encode_utf8, encode_utf8, valid_utf8};

use crate::allow::AllowList;
use crate::body::{lossy_utf8, snippet_len, SNIPPET_LIMIT};
use crate::error::FetchError;
use crate::fetch::{
    action_for, admitted, decodes, dispatches, is_success, never_decodes, never_dispatches, run,
    Action, Event, Fetcher, Stage,
};

verus! {

/// Once a fetch is done it stays done, whatever events follow.
pub proof fn done_is_final(allow_list: Option<AllowList>, evs: Seq<Event>)
    ensures
        run(allow_list, Stage::Done, evs) == Stage::Done,
    decreases evs.len(),
{
    if evs.len() > 0 {
        done_is_final(allow_list, evs.drop_first());
    }
}

/// A URL that the allow-list refuses ends the fetch at once with
/// `DomainNotAllowed`, and whatever events follow, no request is ever sent.
pub proof fn refused_url_is_never_sent(f: Fetcher, url: String, later: Seq<Event>)
    requires
        f.stage is Idle,
        !admitted(f.allow_list, url@),
    ensures
        forall|a: Action|
            action_for(f, Event::Start(url), a) <==> a == Action::Finish(
                Err(FetchError::DomainNotAllowed),
            ),
        never_dispatches(f.allow_list, Stage::Idle, seq![Event::Start(url)] + later),
{
    let evs = seq![Event::Start(url)] + later;
    assert forall|i: int| 0 <= i < evs.len() implies !dispatches(
        #[trigger] run(f.allow_list, Stage::Idle, evs.take(i)),
        evs[i],
    ) by {
        if i > 0 {
            assert(evs.take(i)[0] == Event::Start(url));
            done_is_final(f.allow_list, evs.take(i).drop_first());
        }
    }
}

/// A status outside 200 to 299 ends the fetch with `HttpStatusError` of that
/// code, and whatever events follow, no body is ever decoded.
pub proof fn failed_status_is_never_decoded(f: Fetcher, code: u16, later: Seq<Event>)
    requires
        f.stage is Sending,
        !is_success(code),
    ensures
        forall|a: Action|
            action_for(f, Event::Responded(code), a) <==> a == Action::Finish(
                Err(FetchError::HttpStatusError(code)),
            ),
        never_decodes(f.allow_list, Stage::Sending, seq![Event::Responded(code)] + later),
{
    let evs = seq![Event::Responded(code)] + later;
    assert forall|i: int| 0 <= i < evs.len() implies !decodes(
        #[trigger] run(f.allow_list, Stage::Sending, evs.take(i)),
        evs[i],
    ) by {
        if i > 0 {
            assert(evs.take(i)[0] == Event::Responded(code));
            done_is_final(f.allow_list, evs.take(i).drop_first());
        }
    }
}

/// A valid UTF-8 body, read after a successful status, finishes the fetch with
/// its text, and that text encodes back to exactly the bytes received.
pub proof fn success_text_round_trips(f: Fetcher, bytes: Vec<u8>, a: Action)
    requires
        f.stage is Reading,
        valid_utf8(bytes@),
        action_for(f, Event::BodyArrived(bytes), a),
    ensures
        a is Finish,
        a->Finish_0 is Ok,
        encode_utf8(a->Finish_0->Ok_0@) == bytes@,
{
    decode_utf8_encode_utf8(bytes@);
}

/// A body that is not valid UTF-8, wherever the invalid sequence lies, finishes
/// the fetch with a `DecodeError` whose snippet is the lossy decoding of at most
/// `SNIPPET_LIMIT` leading bytes of the body.
pub proof fn invalid_body_snippet_is_bounded(f: Fetcher, bytes: Vec<u8>, a: Action)
    requires
        f.stage is Reading,
        !valid_utf8(bytes@),
        action_for(f, Event::BodyArrived(bytes), a),
    ensures
        a is Finish,
        a->Finish_0 is Err,
        a->Finish_0->Err_0 is DecodeError,
        a->Finish_0->Err_0->snippet@ == lossy_utf8(
            bytes@.take(snippet_len(bytes@.len()) as int),
        ),
        snippet_len(bytes@.len()) <= SNIPPET_LIMIT,
        snippet_len(bytes@.len()) <= bytes@.len(),
{
}

/// Fetching an unchanging resource twice gives the same outcome: two fetches
/// that receive bodies of the same bytes both succeed or both fail to decode,
/// and two successes hold identical text.
pub proof fn same_body_same_text(
    f1: Fetcher,
    f2: Fetcher,
    b1: Vec<u8>,
    b2: Vec<u8>,
    a1: Action,
    a2: Action,
)
    requires
        f1.stage is Reading,
        f2.stage is Reading,
        b1@ == b2@,
        action_for(f1, Event::BodyArrived(b1), a1),
        action_for(f2, Event::BodyArrived(b2), a2),
    ensures
        a1 is Finish && a2 is Finish,
        (a1->Finish_0 is Ok) == (a2->Finish_0 is Ok),
        a1->Finish_0 is Ok ==> a1->Finish_0->Ok_0@ == a2->Finish_0->Ok_0@,
{
}

} // verus!
