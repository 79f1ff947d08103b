//! Opening the interface of the mouse that speaks its protocol.
//!
//! An interface that is named in full is taken as it is. Otherwise the known candidates
//! are opened in turn, and each that opens is probed with a harmless read: the first that
//! answers with status 0 is the one.

use vstd::prelude::*;

use crate::discovery::{ids_outcome, resolve_ids, DeviceInfo};
use crate::eeprom::{
    read_eeprom, read_outcome, read_request_view, CommandId, EepromAddress, EepromRequest,
    Exchange, RequestView,
};
use crate::error::Error;
use crate::settings::{report_rate_request, REPORT_RATE_LEN};

verus! {

/// Candidate (usage_page, usage) pairs for the vendor-specific interface the protocol
/// lives on. Order matters: the first is confirmed working on a real device, the rest are
/// fallbacks for other models and firmwares.
pub const INTERFACE_CANDIDATES: [(u16, u16); 5] = [
    (0xff02, 0x0002),
    (0xff03, 0x0000),
    (0xff04, 0x0002),
    (0xff05, 0x0000),
    (0xff00, 0x0001),
];

/// An interface that is being opened.
#[derive(Debug, Clone, Copy, PartialEq, Eq)]
pub struct Opening {
    pub vid: u16,
    pub pid: u16,
    pub usage_page: u16,
    pub usage: u16,
    /// Which candidate it is, or `None` if the user named it.
    pub candidate: Option<usize>,
}

/// A candidate that is open and being probed.
#[derive(Debug, Clone, Copy, PartialEq, Eq)]
pub struct Probing {
    pub vid: u16,
    pub pid: u16,
    pub candidate: usize,
}

/// What to do next to get connected.
#[derive(Debug)]
pub enum ConnectStep {
    /// Open the interface, and say whether it opened.
    Open(Opening),
    /// Send the request to the interface that was opened last, and say what became of it.
    Probe { probing: Probing, request: EepromRequest },
    /// The interface that was opened last is the one.
    Connected,
    /// There is no way to connect.
    Failed(Error),
}

/// What to do next to get connected, with a request as its view.
#[verifier::ext_equal]
pub enum ConnectView {
    Open(Opening),
    Probe { probing: Probing, request: RequestView },
    Connected,
    Failed(Error),
}

impl View for ConnectStep {
    type V = ConnectView;

    open spec fn view(&self) -> ConnectView {
        match *self {
            ConnectStep::Open(opening) => ConnectView::Open(opening),
            ConnectStep::Probe { probing, request } => ConnectView::Probe {
                probing,
                request: request@,
            },
            ConnectStep::Connected => ConnectView::Connected,
            ConnectStep::Failed(error) => ConnectView::Failed(error),
        }
    }
}

/// The candidate with the index `i`.
pub open spec fn candidate_opening(vid: u16, pid: u16, i: int) -> Opening {
    Opening {
        vid,
        pid,
        usage_page: INTERFACE_CANDIDATES@[i].0,
        usage: INTERFACE_CANDIDATES@[i].1,
        candidate: Some(i as usize),
    }
}

/// Try the candidate with the index `i`, or give up if there is none.
pub open spec fn candidate_view(vid: u16, pid: u16, i: int) -> ConnectView {
    if 0 <= i < INTERFACE_CANDIDATES@.len() {
        ConnectView::Open(candidate_opening(vid, pid, i))
    } else {
        ConnectView::Failed(Error::NoInterface { vid, pid })
    }
}

/// The first step to get connected.
pub open spec fn connect_view(
    devices: Seq<DeviceInfo>,
    vid: Option<u16>,
    pid: Option<u16>,
    usage_page: Option<u16>,
    usage: Option<u16>,
) -> ConnectView {
    match ids_outcome(devices, vid, pid) {
        Err(error) => ConnectView::Failed(error),
        Ok((vid, pid)) => match (usage_page, usage) {
            (Some(usage_page), Some(usage)) => ConnectView::Open(
                Opening { vid, pid, usage_page, usage, candidate: None },
            ),
            _ => candidate_view(vid, pid, 0),
        },
    }
}

/// The step that follows an attempt to open an interface.
pub open spec fn opened_view(opening: Opening, outcome: Result<(), String>) -> ConnectView {
    match (opening.candidate, outcome) {
        (None, Ok(_)) => ConnectView::Connected,
        (None, Err(reason)) => ConnectView::Failed(
            Error::OpenFailed {
                vid: opening.vid,
                pid: opening.pid,
                usage_page: opening.usage_page,
                usage: opening.usage,
                reason,
            },
        ),
        (Some(i), Ok(_)) => ConnectView::Probe {
            probing: Probing { vid: opening.vid, pid: opening.pid, candidate: i },
            request: read_request_view(EepromAddress::ReportRate, REPORT_RATE_LEN as nat),
        },
        (Some(i), Err(_)) => candidate_view(opening.vid, opening.pid, i + 1),
    }
}

/// The probe was answered with status 0.
pub open spec fn is_answer(exchange: Exchange) -> bool {
    read_outcome(EepromAddress::ReportRate, exchange) is Ok
}

/// The step that follows a probe.
pub open spec fn probed_view(probing: Probing, exchange: Exchange) -> ConnectView {
    if is_answer(exchange) {
        ConnectView::Connected
    } else {
        candidate_view(probing.vid, probing.pid, probing.candidate + 1)
    }
}

/// Tries the candidate that follows the one with the index `i`.
fn next_candidate(vid: u16, pid: u16, i: usize) -> (step: ConnectStep)
    ensures
        step@ == candidate_view(vid, pid, i + 1),
{
    if i < INTERFACE_CANDIDATES.len() - 1 {
        let (usage_page, usage) = INTERFACE_CANDIDATES[i + 1];
        ConnectStep::Open(Opening { vid, pid, usage_page, usage, candidate: Some(i + 1) })
    } else {
        ConnectStep::Failed(Error::NoInterface { vid, pid })
    }
}

/// Tries the candidates from the first one on.
pub fn autodetect_interface(vid: u16, pid: u16) -> (step: ConnectStep)
    ensures
        step@ == candidate_view(vid, pid, 0),
{
    let (usage_page, usage) = INTERFACE_CANDIDATES[0];
    ConnectStep::Open(Opening { vid, pid, usage_page, usage, candidate: Some(0) })
}

/// Starts to connect to the mouse: the identifiers are resolved, then the interface that
/// is named in full is opened, or the candidates are tried.
pub fn connect(
    devices: &Vec<DeviceInfo>,
    vid: Option<u16>,
    pid: Option<u16>,
    usage_page: Option<u16>,
    usage: Option<u16>,
) -> (step: ConnectStep)
    ensures
        step@ == connect_view(devices@, vid, pid, usage_page, usage),
{
    match resolve_ids(devices, vid, pid) {
        Err(error) => ConnectStep::Failed(error),
        Ok((vid, pid)) => {
            if let (Some(usage_page), Some(usage)) = (usage_page, usage) {
                return ConnectStep::Open(Opening { vid, pid, usage_page, usage, candidate: None });
            }
            autodetect_interface(vid, pid)
        },
    }
}

/// Goes on once the interface opened, or failed to open for the given reason.
pub fn opened(opening: Opening, outcome: Result<(), String>) -> (step: ConnectStep)
    ensures
        step@ == opened_view(opening, outcome),
{
    let Opening { vid, pid, usage_page, usage, candidate } = opening;
    match candidate {
        None => match outcome {
            Ok(_) => ConnectStep::Connected,
            Err(reason) => ConnectStep::Failed(
                Error::OpenFailed { vid, pid, usage_page, usage, reason },
            ),
        },
        Some(i) => match outcome {
            Ok(_) => ConnectStep::Probe {
                probing: Probing { vid, pid, candidate: i },
                request: report_rate_request(),
            },
            Err(_) => next_candidate(vid, pid, i),
        },
    }
}

/// Goes on with what became of a probe.
pub fn probed(probing: Probing, exchange: Exchange) -> (step: ConnectStep)
    requires
        exchange.is_whole(),
    ensures
        step@ == probed_view(probing, exchange),
{
    match read_eeprom(EepromAddress::ReportRate, exchange) {
        Ok(_) => ConnectStep::Connected,
        Err(_) => next_candidate(probing.vid, probing.pid, probing.candidate),
    }
}

/// What happens when a candidate is tried: whether it opens and, if it does, what becomes
/// of the probe.
pub struct Attempt {
    pub opened: Result<(), String>,
    pub probe: Exchange,
}

impl Attempt {
    /// The candidate opens and answers.
    pub open spec fn is_working(self) -> bool {
        self.opened is Ok && is_answer(self.probe)
    }
}

/// The step that follows once a candidate was tried.
pub open spec fn tried_view(opening: Opening, attempt: Attempt) -> ConnectView {
    match opened_view(opening, attempt.opened) {
        ConnectView::Probe { probing, .. } => probed_view(probing, attempt.probe),
        step => step,
    }
}

/// What a search comes to: the step at which it arrives, and the interfaces that it has
/// tried to open, in turn. One that ends in `Connected` has settled on the last of them.
#[verifier::ext_equal]
pub struct Search {
    pub end: ConnectView,
    pub openings: Seq<Opening>,
}

/// What a search comes to that goes from `step` on, where the interfaces that it tries to
/// open fare as `attempts` says in turn.
pub open spec fn search(step: ConnectView, attempts: Seq<Attempt>) -> Search
    decreases attempts.len(),
{
    match step {
        ConnectView::Open(opening) => if attempts.len() == 0 {
            Search { end: step, openings: Seq::empty() }
        } else {
            let rest = search(tried_view(opening, attempts[0]), attempts.drop_first());
            Search { end: rest.end, openings: seq![opening] + rest.openings }
        },
        _ => Search { end: step, openings: Seq::empty() },
    }
}

/// The candidates with the indices from `i` up to and without `j`.
pub open spec fn candidate_openings(vid: u16, pid: u16, i: int, j: int) -> Seq<Opening> {
    Seq::new((j - i) as nat, |n: int| candidate_opening(vid, pid, i + n))
}

/// A search from the candidate with the index `i` on, which `attempts[0]` is about, ends at
/// the attempt with the index `k`, the first that works.
proof fn lemma_search(vid: u16, pid: u16, i: int, attempts: Seq<Attempt>, k: int)
    requires
        0 <= i <= INTERFACE_CANDIDATES@.len(),
        attempts.len() == INTERFACE_CANDIDATES@.len() - i,
        0 <= k <= attempts.len(),
        forall|j: int| 0 <= j < k ==> !(#[trigger] attempts[j]).is_working(),
        k < attempts.len() ==> attempts[k].is_working(),
    ensures
        search(candidate_view(vid, pid, i), attempts) == if k < attempts.len() {
            Search {
                end: ConnectView::Connected,
                openings: candidate_openings(vid, pid, i, i + k + 1),
            }
        } else {
            Search {
                end: ConnectView::Failed(Error::NoInterface { vid, pid }),
                openings: candidate_openings(vid, pid, i, i + k),
            }
        },
    decreases attempts.len(),
{
    reveal_with_fuel(search, 2);
    let found = search(candidate_view(vid, pid, i), attempts);
    let count = if k < attempts.len() {
        k + 1
    } else {
        k
    };
    if attempts.len() > 0 && k > 0 {
        let rest = attempts.drop_first();
        assert(!attempts[0].is_working());
        assert forall|j: int| 0 <= j < k - 1 implies !(#[trigger] rest[j]).is_working() by {
            assert(rest[j] == attempts[j + 1]);
        }
        lemma_search(vid, pid, i + 1, rest, k - 1);
    }
    assert(found.openings =~= candidate_openings(vid, pid, i, i + count));
}

/// Autodetection tries the candidates in their order and settles on the first that opens
/// and answers, the one with the index `k`: the interfaces that it opens are the candidates
/// up to and with that one. If none works, it gives up after all five.
pub proof fn law_first_working_candidate_wins(
    vid: u16,
    pid: u16,
    attempts: Seq<Attempt>,
    k: int,
)
    requires
        attempts.len() == INTERFACE_CANDIDATES@.len(),
        0 <= k <= attempts.len(),
        forall|j: int| 0 <= j < k ==> !(#[trigger] attempts[j]).is_working(),
        k < attempts.len() ==> attempts[k].is_working(),
    ensures
        search(candidate_view(vid, pid, 0), attempts) == if k < attempts.len() {
            Search {
                end: ConnectView::Connected,
                openings: candidate_openings(vid, pid, 0, k + 1),
            }
        } else {
            Search {
                end: ConnectView::Failed(Error::NoInterface { vid, pid }),
                openings: candidate_openings(vid, pid, 0, 5),
            }
        },
        k < attempts.len() ==> search(candidate_view(vid, pid, 0), attempts).openings.last()
            == candidate_opening(vid, pid, k),
{
    lemma_search(vid, pid, 0, attempts, k);
}

/// Identifiers and an interface that are given in full are taken as they are: nothing is
/// searched for, whatever is connected, and nothing else is tried.
pub proof fn law_named_interface_is_taken(
    devices: Seq<DeviceInfo>,
    vid: u16,
    pid: u16,
    usage_page: u16,
    usage: u16,
    attempts: Seq<Attempt>,
)
    requires
        attempts.len() > 0,
    ensures
        search(
            connect_view(devices, Some(vid), Some(pid), Some(usage_page), Some(usage)),
            attempts,
        ) == (Search {
            end: match attempts[0].opened {
                Ok(_) => ConnectView::Connected,
                Err(reason) => ConnectView::Failed(
                    Error::OpenFailed { vid, pid, usage_page, usage, reason },
                ),
            },
            openings: seq![Opening { vid, pid, usage_page, usage, candidate: None }],
        }),
{
    reveal_with_fuel(search, 2);
    assert(search(
        connect_view(devices, Some(vid), Some(pid), Some(usage_page), Some(usage)),
        attempts,
    ).openings =~= seq![Opening { vid, pid, usage_page, usage, candidate: None }]);
}

/// The interface with this usage page and usage, in the place `i` of the candidates.
pub open spec fn is_candidate(usage_page: u16, usage: u16, i: int) -> bool {
    ||| i == 0 && usage_page == 0xff02 && usage == 2
    ||| i == 1 && usage_page == 0xff03 && usage == 0
    ||| i == 2 && usage_page == 0xff04 && usage == 2
    ||| i == 3 && usage_page == 0xff05 && usage == 0
    ||| i == 4 && usage_page == 0xff00 && usage == 1
}

/// The step opens the candidate in the place `i`, or there is none and it gives up.
pub open spec fn turns_to(step: ConnectView, vid: u16, pid: u16, i: int) -> bool {
    if i < 5 {
        &&& step matches ConnectView::Open(opening)
        &&& opening.vid == vid
        &&& opening.pid == pid
        &&& opening.candidate matches Some(n)
        &&& n == i
        &&& is_candidate(opening.usage_page, opening.usage, i)
    } else {
        step matches ConnectView::Failed(error) && error == (Error::NoInterface { vid, pid })
    }
}

/// After a probe: any reply with status 0, whatever it carries, is taken; any other reply and
/// a lost exchange turn to the next candidate.
pub proof fn law_any_reply_with_status_zero_is_taken(probing: Probing, exchange: Exchange)
    ensures
        exchange matches Exchange::Reply(reply) ==> reply.status == 0 ==> probed_view(
            probing,
            exchange,
        ) == ConnectView::Connected,
        exchange matches Exchange::Reply(reply) ==> reply.status != 0 ==> turns_to(
            probed_view(probing, exchange),
            probing.vid,
            probing.pid,
            probing.candidate + 1,
        ),
        exchange is Failed ==> turns_to(
            probed_view(probing, exchange),
            probing.vid,
            probing.pid,
            probing.candidate + 1,
        ),
{
    lemma_turns_to(probing.vid, probing.pid, probing.candidate + 1);
}

proof fn lemma_turns_to(vid: u16, pid: u16, i: int)
    requires
        0 <= i,
    ensures
        turns_to(candidate_view(vid, pid, i), vid, pid, i),
{
    if i < 5 {
        assert(i == 0 || i == 1 || i == 2 || i == 3 || i == 4);
    }
}

/// After an attempt to open an interface: a candidate that opens is probed with a read of ten
/// bytes from the address 0, one that does not turns to the next; an interface that the user
/// named is taken if it opens, and its failure is reported with the reason.
pub proof fn law_what_follows_an_opening(opening: Opening, outcome: Result<(), String>)
    ensures
        opening.candidate matches Some(i) ==> outcome is Ok ==> {
            &&& opened_view(opening, outcome) matches ConnectView::Probe { probing, request }
            &&& probing.vid == opening.vid
            &&& probing.pid == opening.pid
            &&& probing.candidate == i
            &&& request.command == CommandId::GetEeprom
            &&& request.address.spec_code() == 0
            &&& request.data_len == 10
            &&& request.data.len() == 0
        },
        opening.candidate matches Some(i) ==> outcome is Err ==> turns_to(
            opened_view(opening, outcome),
            opening.vid,
            opening.pid,
            i + 1,
        ),
        opening.candidate is None ==> outcome is Ok ==> opened_view(opening, outcome)
            == ConnectView::Connected,
        opening.candidate is None ==> (outcome matches Err(reason) ==> {
            &&& opened_view(opening, outcome) matches ConnectView::Failed(error)
            &&& error == (Error::OpenFailed {
                vid: opening.vid,
                pid: opening.pid,
                usage_page: opening.usage_page,
                usage: opening.usage,
                reason,
            })
        }),
{
    if let Some(i) = opening.candidate {
        lemma_turns_to(opening.vid, opening.pid, i + 1);
    }
}

/// The first step: an interface that is named in full is opened as named, anything less turns
/// to the first candidate, both with the identifiers that were resolved; without identifiers
/// there is no step.
pub proof fn law_first_step_to_connect(
    devices: Seq<DeviceInfo>,
    vid: Option<u16>,
    pid: Option<u16>,
    usage_page: Option<u16>,
    usage: Option<u16>,
)
    ensures
        ids_outcome(devices, vid, pid) matches Err(error) ==> connect_view(
            devices,
            vid,
            pid,
            usage_page,
            usage,
        ) == ConnectView::Failed(error),
        ids_outcome(devices, vid, pid) matches Ok((v, p)) ==> if usage_page is Some && usage is Some {
            &&& connect_view(devices, vid, pid, usage_page, usage) matches ConnectView::Open(
                opening,
            )
            &&& opening.vid == v
            &&& opening.pid == p
            &&& opening.usage_page == usage_page->Some_0
            &&& opening.usage == usage->Some_0
            &&& opening.candidate is None
        } else {
            turns_to(connect_view(devices, vid, pid, usage_page, usage), v, p, 0)
        },
{
    if let Ok((v, p)) = ids_outcome(devices, vid, pid) {
        lemma_turns_to(v, p, 0);
    }
}

/// A candidate that opens and whose probe gets a reply with status 0.
pub open spec fn replies_with_status_zero(attempt: Attempt) -> bool {
    &&& attempt.opened is Ok
    &&& attempt.probe matches Exchange::Reply(reply)
    &&& reply.status == 0
}

/// Autodetection opens the candidates in their places one after the other, and is connected
/// to the first that replies with status 0, the one in the place `k`; or it gives up once all
/// five were tried.
pub proof fn law_first_reply_with_status_zero_wins(
    vid: u16,
    pid: u16,
    attempts: Seq<Attempt>,
    k: int,
)
    requires
        attempts.len() == 5,
        0 <= k <= 5,
        forall|j: int| 0 <= j < k ==> !replies_with_status_zero(#[trigger] attempts[j]),
        k < 5 ==> replies_with_status_zero(attempts[k]),
    ensures
        ({
            let found = search(candidate_view(vid, pid, 0), attempts);
            &&& k < 5 ==> found.end == ConnectView::Connected && found.openings.len() == k + 1
            &&& k == 5 ==> found.end == ConnectView::Failed(Error::NoInterface { vid, pid })
                && found.openings.len() == 5
            &&& forall|j: int|
                0 <= j < found.openings.len() ==> is_candidate(
                    (#[trigger] found.openings[j]).usage_page,
                    found.openings[j].usage,
                    j,
                ) && found.openings[j].vid == vid && found.openings[j].pid == pid
        }),
{
    assert forall|j: int| 0 <= j < k implies !(#[trigger] attempts[j]).is_working() by {
        assert(!replies_with_status_zero(attempts[j]));
    }
    law_first_working_candidate_wins(vid, pid, attempts, k);
    let found = search(candidate_view(vid, pid, 0), attempts);
    assert forall|j: int| 0 <= j < found.openings.len() implies is_candidate(
        (#[trigger] found.openings[j]).usage_page,
        found.openings[j].usage,
        j,
    ) && found.openings[j].vid == vid && found.openings[j].pid == pid by {
        lemma_turns_to(vid, pid, j);
    }
}

/// A step is what it says.
pub proof fn law_connect_steps_are_what_they_say(step: ConnectStep)
    ensures
        step matches ConnectStep::Open(opening) ==> step@ == ConnectView::Open(opening),
        step matches ConnectStep::Probe { probing, request } ==> (step@ matches ConnectView::Probe {
            probing: same,
            request: asked,
        } && same == probing && asked == request@),
        step is Connected ==> step@ == ConnectView::Connected,
        step matches ConnectStep::Failed(error) ==> step@ == ConnectView::Failed(error),
{
}

} // verus!
