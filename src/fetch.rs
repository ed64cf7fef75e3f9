//! One fetch as a state machine. A driver performs each `Action` that `step`
//! returns (build the client, send the GET, read the body) and feeds back
//! what happened as the next `Event`, until the action is `Finish`.

use vstd::prelude::*;

use crate::allow::{permitted, AllowList};
use crate::body::{decode_body, decoded_as};
use crate::error::FetchError;

verus! {

/// The `User-Agent` header that the client sends: a common desktop browser's,
/// since some servers refuse clients they do not recognise.
pub const USER_AGENT: &'static str = "Mozilla/5.0 (Windows NT 10.0; Win64; x64) AppleWebKit/537.36 (KHTML, like Gecko) Chrome/91.0.4472.124 Safari/537.36";

/// Where a fetch stands. Each stage is left at most once, and `Done` never.
#[derive(Debug, Clone, Copy, PartialEq, Eq)]
pub enum Stage {
    /// No URL yet.
    Idle,
    /// The URL was admitted; the client is being built.
    Building,
    /// The GET was sent; its response is awaited.
    Sending,
    /// The status was a success; the body is being read.
    Reading,
    /// The fetch has finished.
    Done,
}

/// What the driver reports.
#[derive(Debug, Clone, PartialEq, Eq)]
pub enum Event {
    /// The caller asks for this URL.
    Start(String),
    /// The client was built.
    ClientBuilt,
    /// The client could not be built.
    ClientFailed(String),
    /// The response arrived with this status code.
    Responded(u16),
    /// The request failed in transport.
    SendFailed(String),
    /// The whole body was read.
    BodyArrived(Vec<u8>),
    /// The body could not be read to its end.
    BodyFailed(String),
}

/// What the driver is to do next.
#[derive(Debug, PartialEq, Eq)]
pub enum Action {
    /// Build an HTTP client that sends `USER_AGENT`.
    BuildClient,
    /// Send a GET request to this URL with the client.
    SendGet(String),
    /// Read the whole response body.
    ReadBody,
    /// The fetch is over, with this result.
    Finish(Result<String, FetchError>),
    /// The event does not belong to the current stage; nothing changes.
    Ignore,
}

/// A fetch in progress: the optional allow-list it checks URLs against, the
/// URL it was started on, and its stage.
pub struct Fetcher {
    pub allow_list: Option<AllowList>,
    pub url: String,
    pub stage: Stage,
}

/// Whether `url` may be fetched: every URL when there is no allow-list.
pub open spec fn admitted(allow_list: Option<AllowList>, url: Seq<char>) -> bool {
    match allow_list {
        Some(list) => permitted(list@, url),
        None => true,
    }
}

/// A status code in the success range, 200 to 299.
pub open spec fn is_success(code: u16) -> bool {
    200 <= code <= 299
}

/// The stage after `ev` arrives in `stage`.
pub open spec fn next_stage(allow_list: Option<AllowList>, stage: Stage, ev: Event) -> Stage {
    match stage {
        Stage::Idle => match ev {
            Event::Start(url) => if admitted(allow_list, url@) {
                Stage::Building
            } else {
                Stage::Done
            },
            _ => stage,
        },
        Stage::Building => match ev {
            Event::ClientBuilt => Stage::Sending,
            Event::ClientFailed(_) => Stage::Done,
            _ => stage,
        },
        Stage::Sending => match ev {
            Event::Responded(code) => if is_success(code) {
                Stage::Reading
            } else {
                Stage::Done
            },
            Event::SendFailed(_) => Stage::Done,
            _ => stage,
        },
        Stage::Reading => match ev {
            Event::BodyArrived(_) => Stage::Done,
            Event::BodyFailed(_) => Stage::Done,
            _ => stage,
        },
        Stage::Done => stage,
    }
}

/// The stage reached from `stage` after `evs`, taken in order.
pub open spec fn run(allow_list: Option<AllowList>, stage: Stage, evs: Seq<Event>) -> Stage
    decreases evs.len(),
{
    if evs.len() == 0 {
        stage
    } else {
        run(allow_list, next_stage(allow_list, stage, evs[0]), evs.drop_first())
    }
}

/// The step on which the request goes out: the client is ready.
pub open spec fn dispatches(stage: Stage, ev: Event) -> bool {
    stage is Building && ev is ClientBuilt
}

/// The step on which a body is decoded: it has arrived while being read.
pub open spec fn decodes(stage: Stage, ev: Event) -> bool {
    stage is Reading && ev is BodyArrived
}

/// Whether `a` carries what only decoding a body yields: its text, or a
/// `DecodeError`.
pub open spec fn carries_decoding(a: Action) -> bool {
    match a {
        Action::Finish(Ok(_)) => true,
        Action::Finish(Err(FetchError::DecodeError { .. })) => true,
        _ => false,
    }
}

/// No step of `evs`, taken in order from `stage`, sends the request.
pub open spec fn never_dispatches(allow_list: Option<AllowList>, stage: Stage, evs: Seq<Event>) -> bool {
    forall|i: int| 0 <= i < evs.len() ==> !dispatches(#[trigger] run(allow_list, stage, evs.take(i)), evs[i])
}

/// No step of `evs`, taken in order from `stage`, decodes a body.
pub open spec fn never_decodes(allow_list: Option<AllowList>, stage: Stage, evs: Seq<Event>) -> bool {
    forall|i: int| 0 <= i < evs.len() ==> !decodes(#[trigger] run(allow_list, stage, evs.take(i)), evs[i])
}

/// Whether `a` is the action that `f` owes for `ev`.
pub open spec fn action_for(f: Fetcher, ev: Event, a: Action) -> bool {
    match f.stage {
        Stage::Idle => match ev {
            Event::Start(url) => if admitted(f.allow_list, url@) {
                a is BuildClient
            } else {
                a == Action::Finish(Err(FetchError::DomainNotAllowed))
            },
            _ => a is Ignore,
        },
        Stage::Building => match ev {
            Event::ClientBuilt => a is SendGet && a->SendGet_0@ == f.url@,
            Event::ClientFailed(m) => a == Action::Finish(Err(FetchError::ClientBuildError(m))),
            _ => a is Ignore,
        },
        Stage::Sending => match ev {
            Event::Responded(code) => if is_success(code) {
                a is ReadBody
            } else {
                a == Action::Finish(Err(FetchError::HttpStatusError(code)))
            },
            Event::SendFailed(m) => a == Action::Finish(Err(FetchError::RequestError(m))),
            _ => a is Ignore,
        },
        Stage::Reading => match ev {
            Event::BodyArrived(bytes) => a is Finish && decoded_as(bytes@, a->Finish_0),
            Event::BodyFailed(m) => a == Action::Finish(Err(FetchError::BodyReadError(m))),
            _ => a is Ignore,
        },
        Stage::Done => a is Ignore,
    }
}

/// The status check: whether `code` lies in 200 to 299.
pub fn status_is_success(code: u16) -> (r: bool)
    ensures
        r == is_success(code),
{
    200 <= code && code <= 299
}

impl Fetcher {
    /// A fetch that has not started, checking URLs against `allow_list` when
    /// there is one.
    pub fn new(allow_list: Option<AllowList>) -> (r: Fetcher)
        ensures
            r.allow_list == allow_list,
            r.stage is Idle,
            r.url@ == Seq::<char>::empty(),
    {
        Fetcher { allow_list, url: String::new(), stage: Stage::Idle }
    }

    /// Whether `url` may be fetched under this fetch's allow-list.
    pub fn admits(&self, url: &str) -> (r: bool)
        ensures
            r == admitted(self.allow_list, url@),
    {
        match &self.allow_list {
            Some(list) => list.permits(url),
            None => true,
        }
    }

    /// Takes in `ev` and says what to do next.
    pub fn step(&mut self, ev: Event) -> (a: Action)
        ensures
            final(self).allow_list == old(self).allow_list,
            final(self).stage == next_stage(old(self).allow_list, old(self).stage, ev),
            old(self).stage is Idle && ev is Start ==> final(self).url == ev->Start_0,
            !(old(self).stage is Idle && ev is Start) ==> final(self).url == old(self).url,
            action_for(*old(self), ev, a),
            (a is SendGet) == dispatches(old(self).stage, ev),
            carries_decoding(a) ==> decodes(old(self).stage, ev),
    {
        match self.stage {
            Stage::Idle => match ev {
                Event::Start(url) => {
                    let ok = self.admits(url.as_str());
                    self.url = url;
                    if ok {
                        self.stage = Stage::Building;
                        Action::BuildClient
                    } else {
                        self.stage = Stage::Done;
                        Action::Finish(Err(FetchError::DomainNotAllowed))
                    }
                },
                _ => Action::Ignore,
            },
            Stage::Building => match ev {
                Event::ClientBuilt => {
                    self.stage = Stage::Sending;
                    Action::SendGet(self.url.clone())
                },
                Event::ClientFailed(m) => {
                    self.stage = Stage::Done;
                    Action::Finish(Err(FetchError::ClientBuildError(m)))
                },
                _ => Action::Ignore,
            },
            Stage::Sending => match ev {
                Event::Responded(code) => {
                    if status_is_success(code) {
                        self.stage = Stage::Reading;
                        Action::ReadBody
                    } else {
                        self.stage = Stage::Done;
                        Action::Finish(Err(FetchError::HttpStatusError(code)))
                    }
                },
                Event::SendFailed(m) => {
                    self.stage = Stage::Done;
                    Action::Finish(Err(FetchError::RequestError(m)))
                },
                _ => Action::Ignore,
            },
            Stage::Reading => match ev {
                Event::BodyArrived(bytes) => {
                    self.stage = Stage::Done;
                    Action::Finish(decode_body(bytes.as_slice()))
                },
                Event::BodyFailed(m) => {
                    self.stage = Stage::Done;
                    Action::Finish(Err(FetchError::BodyReadError(m)))
                },
                _ => Action::Ignore,
            },
            Stage::Done => Action::Ignore,
        }
    }
}

} // verus!
