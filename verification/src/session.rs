//! Carrying out a command as a conversation with the mouse.
//!
//! A conversation goes in steps. Each step says what to show and what to do next: send
//! a request and come back with what became of it, or stop. Nothing is written before
//! the block that it belongs to was read, and an error ends the conversation.

use vstd::prelude::*;

use crate::change::Change;
use crate::eeprom::{
    read_eeprom, read_outcome, read_request_view, write_eeprom, write_outcome,
    write_request_view, CommandId, EepromAddress, EepromReply, EepromRequest, Exchange,
    RequestView,
};
use crate::error::Error;
use crate::profile::{
    get_dpi_lines, get_dpi_request, law_places_of_the_profiles, pair_lines, set_dpi_line,
    set_dpi_outcome, DPI_PAIR_ADDRESSES, PAIR_LEN,
};
use crate::settings::{
    get_mode, get_mode_outcome, get_rate, get_rate_outcome, mode_line, mode_message, rate_line,
    rate_message, report_rate_request, select_dpi_line, select_dpi_outcome, sensor_request,
    set_mode_line, set_mode_outcome, set_rate_line, set_rate_outcome, REPORT_RATE_LEN, SENSOR_LEN,
};
use crate::text::lines_view;

verus! {

/// What a user can ask for once a mouse is connected.
#[derive(Debug, Clone, Copy, PartialEq, Eq, Structural)]
pub enum Command {
    /// Show all eight profiles.
    GetDpi,
    /// Show the polling rate.
    GetRate,
    /// Show the sensor mode.
    GetMode,
    /// Change a setting.
    Apply(Change),
}

/// What a conversation is waiting for.
#[derive(Debug, Clone, Copy, PartialEq, Eq, Structural)]
pub enum Session {
    /// The pair of profiles with the index `pair`, to be shown.
    GetDpi { pair: usize },
    /// The block of the polling rate, to be shown.
    GetRate,
    /// The block of the sensor, to be shown.
    GetMode,
    /// The block that the setting belongs to, before the change is made.
    Reading(Change),
    /// The word that the change is made.
    Writing(Change),
}

impl Session {
    /// A conversation that some command leads to.
    pub open spec fn is_valid(self) -> bool {
        match self {
            Session::GetDpi { pair } => pair < 4,
            Session::Reading(change) | Session::Writing(change) => change.refusal() is None,
            _ => true,
        }
    }
}

/// What to do next.
#[derive(Debug)]
pub enum Next {
    /// Send the request, and resume the conversation with what became of it.
    Send { session: Session, request: EepromRequest },
    /// The command is carried out.
    Done,
    /// The command failed.
    Failed(Error),
}

/// What to do next, with a request as its view.
#[verifier::ext_equal]
pub enum NextView {
    Send { session: Session, request: RequestView },
    Done,
    Failed(Error),
}

impl View for Next {
    type V = NextView;

    open spec fn view(&self) -> NextView {
        match *self {
            Next::Send { session, request } => NextView::Send { session, request: request@ },
            Next::Done => NextView::Done,
            Next::Failed(error) => NextView::Failed(error),
        }
    }
}

/// One step of a conversation: the lines to show, then what to do next.
#[derive(Debug)]
pub struct Step {
    pub lines: Vec<String>,
    pub next: Next,
}

/// A step, with its lines as sequences of characters.
#[verifier::ext_equal]
pub struct StepView {
    pub lines: Seq<Seq<char>>,
    pub next: NextView,
}

impl View for Step {
    type V = StepView;

    open spec fn view(&self) -> StepView {
        StepView { lines: lines_view(self.lines@), next: self.next@ }
    }
}

/// Ask the mouse, and show nothing yet.
pub open spec fn ask_view(session: Session, request: RequestView) -> StepView {
    StepView { lines: Seq::empty(), next: NextView::Send { session, request } }
}

/// Show the line, and be done.
pub open spec fn finish_view(line: Seq<char>) -> StepView {
    StepView { lines: seq![line], next: NextView::Done }
}

/// Give up.
pub open spec fn fail_view(error: Error) -> StepView {
    StepView { lines: Seq::empty(), next: NextView::Failed(error) }
}

/// The request for the pair of profiles with the index `pair`.
pub open spec fn pair_view(pair: int) -> RequestView {
    read_request_view(DPI_PAIR_ADDRESSES@[pair], PAIR_LEN as nat)
}

/// The first step of a command.
pub open spec fn start_view(command: Command) -> StepView {
    match command {
        Command::GetDpi => ask_view(Session::GetDpi { pair: 0 }, pair_view(0)),
        Command::GetRate => ask_view(
            Session::GetRate,
            read_request_view(EepromAddress::ReportRate, REPORT_RATE_LEN as nat),
        ),
        Command::GetMode => ask_view(
            Session::GetMode,
            read_request_view(EepromAddress::SensorEnable, SENSOR_LEN as nat),
        ),
        Command::Apply(change) => match change.refusal() {
            None => ask_view(Session::Reading(change), change.read_view()),
            Some(error) => fail_view(error),
        },
    }
}

/// The step that follows once the pair with the index `pair` reads `data`.
pub open spec fn pair_step(pair: int, data: Seq<u8>) -> StepView {
    StepView {
        lines: pair_lines(pair, data),
        next: if pair + 1 < 4 {
            NextView::Send {
                session: Session::GetDpi { pair: (pair + 1) as usize },
                request: pair_view(pair + 1),
            }
        } else {
            NextView::Done
        },
    }
}

/// The step that follows once the block of the polling rate reads `data`.
pub open spec fn rate_step(data: Seq<u8>) -> StepView {
    match get_rate_outcome(data) {
        Ok(hz) => finish_view(rate_line(hz)),
        Err(error) => fail_view(error),
    }
}

/// The step that follows once the block of the sensor reads `data`.
pub open spec fn mode_step(data: Seq<u8>) -> StepView {
    match get_mode_outcome(data) {
        Ok(mode) => finish_view(mode_line(mode)),
        Err(error) => fail_view(error),
    }
}

/// The step that follows once the block of the setting to be changed reads `data`.
pub open spec fn change_step(change: Change, data: Seq<u8>) -> StepView {
    match change.outcome(data) {
        Ok(bytes) => ask_view(
            Session::Writing(change),
            write_request_view(change.block_address(), bytes),
        ),
        Err(error) => fail_view(error),
    }
}

/// The step that follows what became of a request.
pub open spec fn resume_view(session: Session, exchange: Exchange) -> StepView {
    match session {
        Session::GetDpi { pair } => match read_outcome(
            DPI_PAIR_ADDRESSES@[pair as int],
            exchange,
        ) {
            Ok(data) => pair_step(pair as int, data),
            Err(error) => fail_view(error),
        },
        Session::GetRate => match read_outcome(EepromAddress::ReportRate, exchange) {
            Ok(data) => rate_step(data),
            Err(error) => fail_view(error),
        },
        Session::GetMode => match read_outcome(EepromAddress::SensorEnable, exchange) {
            Ok(data) => mode_step(data),
            Err(error) => fail_view(error),
        },
        Session::Reading(change) => match read_outcome(change.block_address(), exchange) {
            Ok(data) => change_step(change, data),
            Err(error) => fail_view(error),
        },
        Session::Writing(change) => match write_outcome(change.block_address(), exchange) {
            Ok(_) => finish_view(change.line()),
            Err(error) => fail_view(error),
        },
    }
}

fn ask(session: Session, request: EepromRequest) -> (step: Step)
    ensures
        step@ == ask_view(session, request@),
{
    let step = Step { lines: Vec::new(), next: Next::Send { session, request } };
    assert(step@.lines =~= Seq::empty());
    step
}

fn finish(line: String) -> (step: Step)
    ensures
        step@ == finish_view(line@),
{
    let mut lines: Vec<String> = Vec::new();
    lines.push(line);
    let step = Step { lines, next: Next::Done };
    assert(step@.lines =~= seq![line@]);
    step
}

fn fail(error: Error) -> (step: Step)
    ensures
        step@ == fail_view(error),
{
    let step = Step { lines: Vec::new(), next: Next::Failed(error) };
    assert(step@.lines =~= Seq::empty());
    step
}

/// Starts to carry out a command.
pub fn start(command: Command) -> (step: Step)
    ensures
        step@ == start_view(command),
        step.next matches Next::Send { session, .. } ==> session.is_valid(),
{
    match command {
        Command::GetDpi => ask(Session::GetDpi { pair: 0 }, get_dpi_request(0)),
        Command::GetRate => ask(Session::GetRate, report_rate_request()),
        Command::GetMode => ask(Session::GetMode, sensor_request()),
        Command::Apply(change) => match change.request() {
            Ok(request) => ask(Session::Reading(change), request),
            Err(error) => fail(error),
        },
    }
}

/// Shows all that is known of the pair with the index `pair`, and asks for the next one.
fn get_dpi(pair: usize, exchange: Exchange) -> (step: Step)
    requires
        pair < 4,
        exchange.is_whole(),
    ensures
        step@ == resume_view(Session::GetDpi { pair }, exchange),
{
    match read_eeprom(DPI_PAIR_ADDRESSES[pair], exchange) {
        Ok(data) => {
            let lines = get_dpi_lines(pair, &data);
            let next = if pair + 1 < 4 {
                Next::Send {
                    session: Session::GetDpi { pair: pair + 1 },
                    request: get_dpi_request(pair + 1),
                }
            } else {
                Next::Done
            };
            Step { lines, next }
        },
        Err(error) => fail(error),
    }
}

/// Goes on with what became of the request that the conversation waits for.
pub fn resume(session: Session, exchange: Exchange) -> (step: Step)
    requires
        session.is_valid(),
        session is Writing || exchange.is_whole(),
    ensures
        step@ == resume_view(session, exchange),
        step.next matches Next::Send { session: following, .. } ==> following.is_valid(),
{
    match session {
        Session::GetDpi { pair } => get_dpi(pair, exchange),
        Session::GetRate => match read_eeprom(EepromAddress::ReportRate, exchange) {
            Ok(data) => match get_rate(&data) {
                Ok(hz) => finish(rate_message(hz)),
                Err(error) => fail(error),
            },
            Err(error) => fail(error),
        },
        Session::GetMode => match read_eeprom(EepromAddress::SensorEnable, exchange) {
            Ok(data) => match get_mode(&data) {
                Ok(mode) => finish(mode_message(mode)),
                Err(error) => fail(error),
            },
            Err(error) => fail(error),
        },
        Session::Reading(change) => match read_eeprom(change.address(), exchange) {
            Ok(data) => match change.update(data) {
                Ok(request) => ask(Session::Writing(change), request),
                Err(error) => fail(error),
            },
            Err(error) => fail(error),
        },
        Session::Writing(change) => match write_eeprom(change.address(), exchange) {
            Ok(_) => finish(change.message()),
            Err(error) => fail(error),
        },
    }
}

/// A step is what it says: its lines one by one, and what is to be done next.
pub proof fn law_steps_are_what_they_say(step: Step)
    ensures
        step@.lines.len() == step.lines@.len(),
        forall|i: int| 0 <= i < step.lines@.len() ==> #[trigger] step@.lines[i] == step.lines@[i]@,
        step.next matches Next::Send { session, request } ==> (step@.next matches NextView::Send {
            session: same,
            request: asked,
        } && same == session && asked == request@),
        step.next is Done ==> step@.next == NextView::Done,
        step.next matches Next::Failed(error) ==> step@.next == NextView::Failed(error),
{
}

/// The step asks for `len` bytes from the address `code` on, goes on as `session`, and does
/// nothing else.
pub open spec fn only_asks(step: StepView, session: Session, code: int, len: int) -> bool {
    &&& step.lines.len() == 0
    &&& asks(step.next, session, code, len)
}

/// What is done next is to ask for `len` bytes from the address `code` on, and to go on as
/// `session`.
pub open spec fn asks(next: NextView, session: Session, code: int, len: int) -> bool {
    &&& next matches NextView::Send { session: following, request }
    &&& following == session
    &&& request.command == CommandId::GetEeprom
    &&& request.address.spec_code() == code
    &&& request.data_len == len
    &&& request.data.len() == 0
}

/// The step gives up with the error, and does nothing else.
pub open spec fn only_fails(step: StepView, error: Error) -> bool {
    step.lines.len() == 0 && step.next == NextView::Failed(error)
}

/// How each command starts: with a read of the whole block that it is about, or with an error
/// if it names a profile or a rate that does not exist.
pub proof fn law_how_commands_start(slot: u8, value: u32, hz: u32, command: Command)
    ensures
        only_asks(start_view(Command::GetDpi), Session::GetDpi { pair: 0 }, 12, 8),
        only_asks(start_view(Command::GetRate), Session::GetRate, 0, 10),
        only_asks(start_view(Command::GetMode), Session::GetMode, 181, 6),
        ({
            let change = Change::Dpi { slot, value };
            let step = start_view(Command::Apply(change));
            if 1 <= slot <= 8 {
                only_asks(step, Session::Reading(change), 12 + 8 * ((slot - 1) / 2), 8)
            } else {
                only_fails(step, Error::BadSlot { slot })
            }
        }),
        ({
            let change = Change::ActiveProfile { slot };
            let step = start_view(Command::Apply(change));
            if 1 <= slot <= 8 {
                only_asks(step, Session::Reading(change), 0, 10)
            } else {
                only_fails(step, Error::BadSlot { slot })
            }
        }),
        ({
            let change = Change::Rate { hz };
            let step = start_view(Command::Apply(change));
            if hz == 125 || hz == 250 || hz == 500 || hz == 1000 {
                only_asks(step, Session::Reading(change), 0, 10)
            } else {
                only_fails(step, Error::BadRate { hz })
            }
        }),
        command matches Command::Apply(change) ==> change is Mode ==> only_asks(
            start_view(command),
            Session::Reading(change),
            181,
            6,
        ),
{
    law_places_of_the_profiles(slot as int);
}

/// The address of the block that a change is about.
pub open spec fn is_about(change: Change, address: EepromAddress) -> bool {
    match change {
        Change::Dpi { slot, .. } => address.spec_code() == 12 + 8 * ((slot - 1) / 2),
        Change::ActiveProfile { .. } | Change::Rate { .. } => address.spec_code() == 0,
        Change::Mode { .. } => address.spec_code() == 181,
    }
}

/// The address that a conversation waits for.
pub open spec fn waits_for(session: Session, address: EepromAddress) -> bool {
    match session {
        Session::GetDpi { pair } => address.spec_code() == 12 + 8 * pair,
        Session::GetRate => address.spec_code() == 0,
        Session::GetMode => address.spec_code() == 181,
        Session::Reading(change) | Session::Writing(change) => is_about(change, address),
    }
}

/// A request that is lost, or that the mouse refuses, ends every conversation with an error
/// that names the address and the reason or the status; nothing is shown.
pub proof fn law_lost_and_refused_requests_end_the_conversation(
    session: Session,
    exchange: Exchange,
)
    requires
        session.is_valid(),
        exchange matches Exchange::Reply(reply) ==> reply.status != 0,
    ensures
        ({
            let step = resume_view(session, exchange);
            &&& step.lines.len() == 0
            &&& step.next matches NextView::Failed(error)
            &&& match exchange {
                Exchange::Failed(why) => if session is Writing {
                    error matches Error::WriteFailed { address, reason } && reason == why
                        && waits_for(session, address)
                } else {
                    error matches Error::ReadFailed { address, reason } && reason == why
                        && waits_for(session, address)
                },
                Exchange::Reply(reply) => if session is Writing {
                    error matches Error::WriteRefused { address, status } && status
                        == reply.status && waits_for(session, address)
                } else {
                    error matches Error::ReadRefused { address, status } && status
                        == reply.status && waits_for(session, address)
                },
            }
        }),
{
    match session {
        Session::GetDpi { pair } => {
            law_places_of_the_profiles(1);
            assert(pair == 0 || pair == 1 || pair == 2 || pair == 3);
        },
        Session::Reading(Change::Dpi { slot, .. }) | Session::Writing(Change::Dpi { slot, .. }) => {
            law_places_of_the_profiles(slot as int);
        },
        _ => {},
    }
}

/// The valid bytes of a reply.
pub open spec fn valid_bytes(reply: EepromReply) -> Seq<u8> {
    Seq::new(reply.data_len as nat, |i: int| reply.data@[i])
}

/// A pair of profiles that came in is shown, and the next pair is asked for, as long as there
/// is one.
pub proof fn law_pairs_are_shown_one_after_the_other(pair: usize, reply: EepromReply)
    requires
        pair < 4,
        reply.status == 0,
        reply.data_len <= reply.data@.len(),
    ensures
        ({
            let step = resume_view(Session::GetDpi { pair }, Exchange::Reply(reply));
            &&& step.lines == pair_lines(pair as int, valid_bytes(reply))
            &&& if pair < 3 {
                asks(
                    step.next,
                    Session::GetDpi { pair: (pair + 1) as usize },
                    12 + 8 * (pair + 1),
                    8,
                )
            } else {
                step.next == NextView::Done
            }
        }),
{
    assert(reply.data@.take(reply.data_len as int) =~= valid_bytes(reply));
    law_places_of_the_profiles(1);
    assert(pair == 0 || pair == 1 || pair == 2 || pair == 3);
}

/// A rate or a mode that came in is shown, or the error is.
pub proof fn law_rate_and_mode_are_shown(reply: EepromReply)
    requires
        reply.status == 0,
        reply.data_len <= reply.data@.len(),
    ensures
        ({
            let step = resume_view(Session::GetRate, Exchange::Reply(reply));
            match get_rate_outcome(valid_bytes(reply)) {
                Ok(hz) => step.lines.len() == 1 && step.lines[0] == rate_line(hz) && step.next
                    == NextView::Done,
                Err(error) => only_fails(step, error),
            }
        }),
        ({
            let step = resume_view(Session::GetMode, Exchange::Reply(reply));
            match get_mode_outcome(valid_bytes(reply)) {
                Ok(mode) => step.lines.len() == 1 && step.lines[0] == mode_line(mode) && step.next
                    == NextView::Done,
                Err(error) => only_fails(step, error),
            }
        }),
{
    assert(reply.data@.take(reply.data_len as int) =~= valid_bytes(reply));
}

/// Once the block of a setting came in, the changed block is written to the same address, or
/// the change is given up with the error; once it is written, the change is confirmed with its
/// own line.
pub proof fn law_block_is_written_where_it_was_read(change: Change, reply: EepromReply)
    requires
        Session::Reading(change).is_valid(),
        reply.status == 0,
        reply.data_len <= reply.data@.len(),
    ensures
        ({
            let step = resume_view(Session::Reading(change), Exchange::Reply(reply));
            let changed = match change {
                Change::Dpi { slot, value } => set_dpi_outcome(slot, value, valid_bytes(reply)),
                Change::ActiveProfile { slot } => select_dpi_outcome(slot, valid_bytes(reply)),
                Change::Rate { hz } => set_rate_outcome(hz, valid_bytes(reply)),
                Change::Mode { mode } => set_mode_outcome(mode, valid_bytes(reply)),
            };
            match changed {
                Ok(bytes) => {
                    &&& step.lines.len() == 0
                    &&& step.next matches NextView::Send { session, request }
                    &&& session == Session::Writing(change)
                    &&& request.command == CommandId::SetEeprom
                    &&& is_about(change, request.address)
                    &&& request.data_len == bytes.len()
                    &&& request.data == bytes
                },
                Err(error) => only_fails(step, error),
            }
        }),
        ({
            let step = resume_view(Session::Writing(change), Exchange::Reply(reply));
            &&& step.next == NextView::Done
            &&& step.lines.len() == 1
            &&& step.lines[0] == match change {
                Change::Dpi { slot, value } => set_dpi_line(slot, value),
                Change::ActiveProfile { slot } => select_dpi_line(slot),
                Change::Rate { hz } => set_rate_line(hz),
                Change::Mode { mode } => set_mode_line(mode),
            }
        }),
{
    assert(reply.data@.take(reply.data_len as int) =~= valid_bytes(reply));
    if let Change::Dpi { slot, .. } = change {
        law_places_of_the_profiles(slot as int);
    }
}

} // verus!
