//! What the commands do to the settings memory of a mouse.
//!
//! The memory is a row of bytes. A mouse that serves its requests hands back the bytes
//! that it holds, and holds the bytes that it was told to store. The laws below say what
//! every conversation with such a mouse comes to, and what no conversation ever does.

use vstd::prelude::*;

use crate::change::Change;
use crate::dpi::{
    block_dpi, checksum, dpi_index, index_block, law_block_bytes_follow_from_the_resolution,
    law_decode_undoes_encode,
};
use crate::eeprom::{
    read_outcome, write_outcome, CommandId, EepromAddress, Exchange, RequestView,
};
use crate::profile::{
    is_profile_dpi, is_slot, law_confirmation_tells_the_resolution, law_line_tells_the_resolution,
    law_resolutions_on_offer, profile_line, slot_address, slot_offset, with_block,
    DPI_PAIR_ADDRESSES, PAIR_LEN,
};
use crate::session::{
    finish_view, pair_step, resume_view, start_view, Command, NextView, Session, StepView,
};
use crate::settings::{
    get_rate_outcome, is_rate, law_interval_stands_for_its_rate, law_lines_tell_the_setting,
    law_rate_is_read_from_the_first_byte, law_rate_writes_these_bytes, mode_flag_of, mode_line,
    rate_interval, rate_line, with_pair, SensorMode,
};
use crate::text::{tells, tells_two};

verus! {

/// The memory reaches beyond the last setting.
pub open spec fn is_memory(memory: Seq<u8>) -> bool {
    memory.len() >= 0xbb
}

/// The memory with `data` stored from `at` on.
pub open spec fn store(memory: Seq<u8>, at: int, data: Seq<u8>) -> Seq<u8> {
    Seq::new(
        memory.len(),
        |i: int|
            if at <= i < at + data.len() {
                data[i - at]
            } else {
                memory[i]
            },
    )
}

/// The mouse does what the request asks for: a read brings in what the memory holds.
pub open spec fn serves(memory: Seq<u8>, request: RequestView, exchange: Exchange) -> bool {
    let at = request.address.spec_code() as int;
    &&& exchange.is_whole()
    &&& exchange matches Exchange::Reply(reply)
    &&& reply.status == 0
    &&& request.command == CommandId::GetEeprom ==> reply.data@.take(reply.data_len as int)
        == memory.subrange(at, at + request.data_len)
}

/// The memory once the mouse has done what the request asks for.
pub open spec fn memory_after(memory: Seq<u8>, request: RequestView) -> Seq<u8> {
    match request.command {
        CommandId::GetEeprom => memory,
        CommandId::SetEeprom => store(memory, request.address.spec_code() as int, request.data),
    }
}

/// What a conversation comes to.
#[verifier::ext_equal]
pub struct Run {
    pub memory: Seq<u8>,
    pub lines: Seq<Seq<char>>,
    pub next: NextView,
}

/// What the conversation comes to that goes from `step` on, where the requests fare as
/// `exchanges` says in turn. A request that is sent takes effect on the memory, whatever
/// comes back.
pub open spec fn run(step: StepView, memory: Seq<u8>, exchanges: Seq<Exchange>) -> Run
    decreases exchanges.len(),
{
    match step.next {
        NextView::Send { session, request } => if exchanges.len() == 0 {
            Run { memory, lines: step.lines, next: step.next }
        } else {
            let rest = run(
                resume_view(session, exchanges[0]),
                memory_after(memory, request),
                exchanges.drop_first(),
            );
            Run { memory: rest.memory, lines: step.lines + rest.lines, next: rest.next }
        },
        _ => Run { memory, lines: step.lines, next: step.next },
    }
}

/// The mouse serves every request of the conversation that goes from `step` on, and these
/// are all the exchanges that there are.
pub open spec fn is_served(step: StepView, memory: Seq<u8>, exchanges: Seq<Exchange>) -> bool
    decreases exchanges.len(),
{
    match step.next {
        NextView::Send { session, request } => {
            &&& exchanges.len() > 0
            &&& serves(memory, request, exchanges[0])
            &&& is_served(
                resume_view(session, exchanges[0]),
                memory_after(memory, request),
                exchanges.drop_first(),
            )
        },
        _ => exchanges.len() == 0,
    }
}

/// Where a setting stands in the memory.
pub open spec fn setting_address(change: Change) -> int {
    change.block_address().spec_code() + change.offset()
}

/// The bytes of a setting once it is changed.
pub open spec fn setting_bytes(change: Change) -> Seq<u8> {
    match change {
        Change::Dpi { value, .. } => index_block(dpi_index(value as int)),
        Change::ActiveProfile { slot } => pair_bytes((slot - 1) as u8),
        Change::Rate { hz } => pair_bytes(rate_interval(hz as int) as u8),
        Change::Mode { mode } => pair_bytes(mode_flag_of(mode)),
    }
}

/// A value and its checksum.
pub open spec fn pair_bytes(value: u8) -> Seq<u8> {
    seq![value, checksum(value as int)]
}

/// A change that the mouse can make: the profile exists, the resolution and the rate are
/// on offer.
pub open spec fn is_possible(change: Change) -> bool {
    &&& change.refusal() is None
    &&& change matches Change::Dpi { value, .. } ==> is_profile_dpi(value as int)
}

/// The block of a profile.
pub open spec fn profile(memory: Seq<u8>, slot: int) -> Seq<u8> {
    memory.subrange(0x0c + 4 * (slot - 1), 0x0c + 4 * slot)
}

/// The blocks of the eight profiles stand in a row, from the address 0x0c on.
pub proof fn law_profiles_stand_in_a_row(slot: int)
    requires
        is_slot(slot),
    ensures
        slot_address(slot).spec_code() + slot_offset(slot) == 0x0c + 4 * (slot - 1),
{
    assert((slot - 1) / 2 == 0 || (slot - 1) / 2 == 1 || (slot - 1) / 2 == 2 || (slot - 1) / 2
        == 3);
}

/// A changed block differs from what was read in the bytes of the setting alone, and is as
/// long: whatever else the block holds is written back as it was read.
pub proof fn law_write_keeps_the_rest(change: Change, data: Seq<u8>)
    requires
        change.outcome(data) is Ok,
    ensures
        change.outcome(data)->Ok_0 == with_block(data, change.offset(), setting_bytes(change)),
        change.outcome(data)->Ok_0.len() == data.len(),
        forall|i: int|
            0 <= i < data.len() && !(change.offset() <= i < change.offset() + change.width())
                ==> change.outcome(data)->Ok_0[i] == data[i],
{
    match change {
        Change::Dpi { slot, value } => {},
        Change::ActiveProfile { slot } => {
            lemma_pair_is_block(data, change.offset(), (slot - 1) as u8);
        },
        Change::Rate { hz } => {
            lemma_pair_is_block(data, change.offset(), rate_interval(hz as int) as u8);
        },
        Change::Mode { mode } => {
            lemma_pair_is_block(data, change.offset(), mode_flag_of(mode));
        },
    }
}

proof fn lemma_pair_is_block(data: Seq<u8>, offset: int, value: u8)
    requires
        0 <= offset,
        offset + 2 <= data.len(),
    ensures
        with_pair(data, offset, value) == with_block(data, offset, pair_bytes(value)),
{
    assert(with_pair(data, offset, value) =~= with_block(data, offset, pair_bytes(value)));
}

/// Storing a changed block where its contents were read changes the bytes of the setting
/// alone.
proof fn lemma_store_changed_block(memory: Seq<u8>, at: int, len: int, offset: int, bytes: Seq<u8>)
    requires
        0 <= at,
        at + len <= memory.len(),
        0 <= offset,
        offset + bytes.len() <= len,
    ensures
        store(memory, at, with_block(memory.subrange(at, at + len), offset, bytes)) == store(
            memory,
            at + offset,
            bytes,
        ),
{
    assert(store(memory, at, with_block(memory.subrange(at, at + len), offset, bytes)) =~= store(
        memory,
        at + offset,
        bytes,
    ));
}

/// A possible change comes about: it is read, written and confirmed, and every byte of the
/// memory that does not belong to the setting stays as it was.
pub proof fn law_change_alters_its_setting_alone(
    change: Change,
    memory: Seq<u8>,
    exchanges: Seq<Exchange>,
)
    requires
        is_memory(memory),
        is_possible(change),
        is_served(start_view(Command::Apply(change)), memory, exchanges),
    ensures
        run(start_view(Command::Apply(change)), memory, exchanges) == (Run {
            memory: store(memory, setting_address(change), setting_bytes(change)),
            lines: seq![change.line()],
            next: NextView::Done,
        }),
        ({
            let after = run(start_view(Command::Apply(change)), memory, exchanges).memory;
            &&& after.len() == memory.len()
            &&& forall|i: int|
                0 <= i < memory.len() && !(setting_address(change) <= i < setting_address(change)
                    + change.width()) ==> after[i] == memory[i]
        }),
{
    reveal_with_fuel(is_served, 4);
    reveal_with_fuel(run, 4);
    let at = change.block_address().spec_code() as int;
    let data = memory.subrange(at, at + change.block_len());
    let first = start_view(Command::Apply(change));
    assert(first.next == NextView::Send {
        session: Session::Reading(change),
        request: change.read_view(),
    });
    assert(read_outcome(change.block_address(), exchanges[0])->Ok_0 == data);
    law_write_keeps_the_rest(change, data);
    lemma_store_changed_block(
        memory,
        at,
        change.block_len() as int,
        change.offset(),
        setting_bytes(change),
    );
    assert(run(first, memory, exchanges).lines =~= seq![change.line()]);
}

/// Setting a profile gives it the resolution, and the other seven profiles stay as they
/// were.
pub proof fn law_other_profiles_stay(
    slot: u8,
    value: u32,
    memory: Seq<u8>,
    exchanges: Seq<Exchange>,
    other: int,
)
    requires
        is_memory(memory),
        is_slot(slot as int),
        is_profile_dpi(value as int),
        is_served(
            start_view(Command::Apply(Change::Dpi { slot, value })),
            memory,
            exchanges,
        ),
        is_slot(other),
    ensures
        ({
            let after = run(
                start_view(Command::Apply(Change::Dpi { slot, value })),
                memory,
                exchanges,
            ).memory;
            if other == slot {
                block_dpi(profile(after, other)) == value
            } else {
                profile(after, other) == profile(memory, other)
            }
        }),
{
    let change = Change::Dpi { slot, value };
    law_change_alters_its_setting_alone(change, memory, exchanges);
    law_profiles_stand_in_a_row(slot as int);
    let after = store(memory, setting_address(change), setting_bytes(change));
    if other == slot {
        law_decode_undoes_encode(value);
        assert(profile(after, other) =~= setting_bytes(change));
    } else {
        assert(profile(after, other) =~= profile(memory, other));
    }
}

/// Where the first exchange is a good read, it brings in what the memory holds at `address`,
/// however many bytes; where it is not, or there is none, nothing is asked.
pub open spec fn reads_truly(
    memory: Seq<u8>,
    address: EepromAddress,
    exchanges: Seq<Exchange>,
) -> bool {
    let at = address.spec_code() as int;
    exchanges.len() > 0 ==> {
        &&& exchanges[0].is_whole()
        &&& read_outcome(address, exchanges[0]) matches Ok(data) ==> {
            &&& at + data.len() <= memory.len()
            &&& data == memory.subrange(at, at + data.len())
        }
    }
}

/// A change alters its setting alone or nothing at all, whatever it asks for and whatever
/// becomes of its requests: a read that is lost, refused or short, a write whose answer is
/// lost or refused. All that is asked is that what a good read brings in is what the memory
/// holds.
pub proof fn law_change_is_all_or_nothing(
    change: Change,
    memory: Seq<u8>,
    exchanges: Seq<Exchange>,
)
    requires
        change.refusal() is None ==> reads_truly(memory, change.block_address(), exchanges),
    ensures
        ({
            let after = run(start_view(Command::Apply(change)), memory, exchanges).memory;
            &&& after == memory || after == store(
                memory,
                setting_address(change),
                setting_bytes(change),
            )
            &&& after.len() == memory.len()
            &&& forall|i: int|
                0 <= i < memory.len() && !(setting_address(change) <= i < setting_address(change)
                    + change.width()) ==> after[i] == memory[i]
        }),
{
    reveal_with_fuel(run, 4);
    if exchanges.len() > 0 {
        if let Ok(data) = read_outcome(change.block_address(), exchanges[0]) {
            if change.outcome(data) is Ok {
                law_write_keeps_the_rest(change, data);
                lemma_store_changed_block(
                    memory,
                    change.block_address().spec_code() as int,
                    data.len() as int,
                    change.offset(),
                    setting_bytes(change),
                );
            }
        }
    }
}

/// The other seven profiles are never lost: whatever becomes of the requests that set a
/// profile, the others stay as they were, and the profile itself has its old block or the
/// new resolution.
pub proof fn law_other_profiles_are_never_lost(
    slot: u8,
    value: u32,
    memory: Seq<u8>,
    exchanges: Seq<Exchange>,
    other: int,
)
    requires
        is_memory(memory),
        is_slot(slot as int) ==> reads_truly(memory, slot_address(slot as int), exchanges),
        is_slot(other),
    ensures
        ({
            let after = run(
                start_view(Command::Apply(Change::Dpi { slot, value })),
                memory,
                exchanges,
            ).memory;
            ||| profile(after, other) == profile(memory, other)
            ||| other == slot && block_dpi(profile(after, other)) == value
        }),
{
    let change = Change::Dpi { slot, value };
    let after = run(start_view(Command::Apply(change)), memory, exchanges).memory;
    if is_possible(change) {
        law_change_is_all_or_nothing(change, memory, exchanges);
        law_profiles_stand_in_a_row(slot as int);
        if other != slot {
            assert(profile(after, other) =~= profile(memory, other));
        } else if after != memory {
            law_decode_undoes_encode(value);
            assert(profile(after, other) =~= setting_bytes(change));
        }
    } else {
        law_nothing_is_written_in_vain(Command::Apply(change), memory, exchanges);
    }
}

/// The lines that show the profiles of a memory, one each.
pub open spec fn profile_lines(memory: Seq<u8>) -> Seq<Seq<char>> {
    Seq::new(8, |i: int| profile_line(i + 1, block_dpi(profile(memory, i + 1))))
}

/// Once a pair is read, its two profiles are shown.
proof fn lemma_pair_shown(pair: int, memory: Seq<u8>)
    requires
        is_memory(memory),
        0 <= pair < 4,
    ensures
        ({
            let at = DPI_PAIR_ADDRESSES@[pair].spec_code() as int;
            pair_step(pair, memory.subrange(at, at + PAIR_LEN)).lines == seq![
                profile_line(pair * 2 + 1, block_dpi(profile(memory, pair * 2 + 1))),
                profile_line(pair * 2 + 2, block_dpi(profile(memory, pair * 2 + 2))),
            ]
        }),
{
    let at = DPI_PAIR_ADDRESSES@[pair].spec_code() as int;
    let data = memory.subrange(at, at + PAIR_LEN);
    assert(at == 0x0c + 8 * pair) by {
        assert(pair == 0 || pair == 1 || pair == 2 || pair == 3);
    }
    assert(data.subrange(0, 4) =~= profile(memory, pair * 2 + 1));
    assert(data.subrange(4, 8) =~= profile(memory, pair * 2 + 2));
}

/// Showing the profiles shows all eight, in their order, and changes nothing.
pub proof fn law_get_shows_all_profiles(memory: Seq<u8>, exchanges: Seq<Exchange>)
    requires
        is_memory(memory),
        is_served(start_view(Command::GetDpi), memory, exchanges),
    ensures
        run(start_view(Command::GetDpi), memory, exchanges) == (Run {
            memory,
            lines: profile_lines(memory),
            next: NextView::Done,
        }),
{
    reveal_with_fuel(is_served, 6);
    reveal_with_fuel(run, 6);
    lemma_pair_shown(0, memory);
    lemma_pair_shown(1, memory);
    lemma_pair_shown(2, memory);
    lemma_pair_shown(3, memory);
    assert(run(start_view(Command::GetDpi), memory, exchanges).lines =~= profile_lines(memory));
}

/// A profile that was set is shown with its new resolution, and the other seven are shown
/// as before.
pub proof fn law_set_profile_is_shown(
    slot: u8,
    value: u32,
    memory: Seq<u8>,
    setting: Seq<Exchange>,
    getting: Seq<Exchange>,
)
    requires
        is_memory(memory),
        is_slot(slot as int),
        is_profile_dpi(value as int),
        is_served(start_view(Command::Apply(Change::Dpi { slot, value })), memory, setting),
        is_served(
            start_view(Command::GetDpi),
            run(start_view(Command::Apply(Change::Dpi { slot, value })), memory, setting).memory,
            getting,
        ),
    ensures
        run(
            start_view(Command::GetDpi),
            run(start_view(Command::Apply(Change::Dpi { slot, value })), memory, setting).memory,
            getting,
        ).lines == profile_lines(memory).update(
            slot - 1,
            profile_line(slot as int, value as int),
        ),
{
    let change = Change::Dpi { slot, value };
    let after = run(start_view(Command::Apply(change)), memory, setting).memory;
    law_change_alters_its_setting_alone(change, memory, setting);
    law_get_shows_all_profiles(after, getting);
    assert forall|i: int| 0 <= i < 8 implies profile_lines(after)[i] == #[trigger] profile_lines(
        memory,
    ).update(slot - 1, profile_line(slot as int, value as int))[i] by {
        law_other_profiles_stay(slot, value, memory, setting, i + 1);
    }
    assert(profile_lines(after) =~= profile_lines(memory).update(
        slot - 1,
        profile_line(slot as int, value as int),
    ));
}

/// Activating a profile writes its index, counted from zero, and leaves the resolutions of
/// all eight profiles as they were.
pub proof fn law_select_changes_no_resolution(
    slot: u8,
    memory: Seq<u8>,
    exchanges: Seq<Exchange>,
    other: int,
)
    requires
        is_memory(memory),
        is_slot(slot as int),
        is_served(start_view(Command::Apply(Change::ActiveProfile { slot })), memory, exchanges),
        is_slot(other),
    ensures
        ({
            let after = run(
                start_view(Command::Apply(Change::ActiveProfile { slot })),
                memory,
                exchanges,
            ).memory;
            &&& after[4] == slot - 1
            &&& after[5] == checksum(slot - 1)
            &&& profile(after, other) == profile(memory, other)
        }),
{
    let change = Change::ActiveProfile { slot };
    law_change_alters_its_setting_alone(change, memory, exchanges);
    let after = store(memory, setting_address(change), setting_bytes(change));
    assert(profile(after, other) =~= profile(memory, other));
}

/// A polling rate that was set is shown.
pub proof fn law_set_rate_is_shown(
    hz: u32,
    memory: Seq<u8>,
    setting: Seq<Exchange>,
    getting: Seq<Exchange>,
)
    requires
        is_memory(memory),
        is_rate(hz as int),
        is_served(start_view(Command::Apply(Change::Rate { hz })), memory, setting),
        is_served(
            start_view(Command::GetRate),
            run(start_view(Command::Apply(Change::Rate { hz })), memory, setting).memory,
            getting,
        ),
    ensures
        run(
            start_view(Command::GetRate),
            run(start_view(Command::Apply(Change::Rate { hz })), memory, setting).memory,
            getting,
        ).lines == seq![rate_line(hz)],
{
    reveal_with_fuel(is_served, 3);
    reveal_with_fuel(run, 3);
    law_change_alters_its_setting_alone(Change::Rate { hz }, memory, setting);
    law_interval_stands_for_its_rate(hz);
    let after = run(start_view(Command::Apply(Change::Rate { hz })), memory, setting).memory;
    assert(after[0] == rate_interval(hz as int) as u8);
    assert(read_outcome(EepromAddress::ReportRate, getting[0])->Ok_0[0] == after[0]);
    assert(run(start_view(Command::GetRate), after, getting).lines =~= seq![rate_line(hz)]);
}

/// A sensor mode that was set is shown.
pub proof fn law_set_mode_is_shown(
    mode: SensorMode,
    memory: Seq<u8>,
    setting: Seq<Exchange>,
    getting: Seq<Exchange>,
)
    requires
        is_memory(memory),
        is_served(start_view(Command::Apply(Change::Mode { mode })), memory, setting),
        is_served(
            start_view(Command::GetMode),
            run(start_view(Command::Apply(Change::Mode { mode })), memory, setting).memory,
            getting,
        ),
    ensures
        run(
            start_view(Command::GetMode),
            run(start_view(Command::Apply(Change::Mode { mode })), memory, setting).memory,
            getting,
        ).lines == seq![mode_line(mode)],
{
    reveal_with_fuel(is_served, 3);
    reveal_with_fuel(run, 3);
    law_change_alters_its_setting_alone(Change::Mode { mode }, memory, setting);
    let after = run(start_view(Command::Apply(Change::Mode { mode })), memory, setting).memory;
    assert(after[0xb9] == mode_flag_of(mode));
    assert(read_outcome(EepromAddress::SensorEnable, getting[0])->Ok_0[4] == after[0xb9]);
    assert(run(start_view(Command::GetMode), after, getting).lines =~= seq![mode_line(mode)]);
}

/// Looking at settings sends no write, and a change that is not possible sends none either,
/// whatever comes back from the mouse; such a change is never reported as made.
pub proof fn law_nothing_is_written_in_vain(
    command: Command,
    memory: Seq<u8>,
    exchanges: Seq<Exchange>,
)
    requires
        command matches Command::Apply(change) ==> !is_possible(change),
    ensures
        run(start_view(command), memory, exchanges).memory == memory,
        command is Apply ==> run(start_view(command), memory, exchanges).next != NextView::Done,
{
    reveal_with_fuel(run, 6);
}

/// A change is written only once the block that it belongs to came in, without an error and
/// long enough; and what is written is that block with the bytes of the setting replaced.
pub proof fn law_write_follows_a_good_read(session: Session, exchange: Exchange)
    requires
        session.is_valid(),
        exchange.is_whole(),
    ensures
        resume_view(session, exchange).next matches NextView::Send { request, .. }
            ==> request.command == CommandId::SetEeprom ==> {
            &&& session matches Session::Reading(change)
            &&& request.address == change.block_address()
            &&& read_outcome(change.block_address(), exchange) matches Ok(data)
            &&& change.offset() + change.width() <= data.len()
            &&& request.data == with_block(data, change.offset(), setting_bytes(change))
        },
{
    if let Session::Reading(change) = session {
        if let Ok(data) = read_outcome(change.block_address(), exchange) {
            if change.outcome(data) is Ok {
                law_write_keeps_the_rest(change, data);
            }
        }
    }
}

/// A change is reported as made only once the mouse acknowledged the write.
pub proof fn law_change_is_reported_once_acknowledged(
    change: Change,
    session: Session,
    exchange: Exchange,
)
    requires
        session == Session::Reading(change) || session == Session::Writing(change),
        resume_view(session, exchange).next == NextView::Done || resume_view(
            session,
            exchange,
        ).lines.len() > 0,
    ensures
        session == Session::Writing(change),
        write_outcome(change.block_address(), exchange) is Ok,
        resume_view(session, exchange) == finish_view(change.line()),
{
}

/// The first request of every command is a read.
pub proof fn law_first_request_is_a_read(command: Command)
    ensures
        start_view(command).next matches NextView::Send { request, .. } ==> request.command
            == CommandId::GetEeprom,
{
}

/// Every request states how many bytes it is about, at least one, and a write carries as
/// many.
pub open spec fn states_its_length(step: StepView) -> bool {
    step.next matches NextView::Send { request, .. } ==> {
        &&& request.data_len > 0
        &&& request.command == CommandId::SetEeprom ==> request.data_len == request.data.len()
    }
}

/// Every request of every conversation states its length.
pub proof fn law_every_request_states_its_length(
    command: Command,
    session: Session,
    exchange: Exchange,
)
    requires
        session.is_valid(),
        exchange.is_whole(),
    ensures
        states_its_length(start_view(command)),
        states_its_length(resume_view(session, exchange)),
{
    law_write_follows_a_good_read(session, exchange);
    if let Session::Reading(change) = session {
        if let Ok(data) = read_outcome(change.block_address(), exchange) {
            if change.outcome(data) is Ok {
                law_write_keeps_the_rest(change, data);
            }
        }
    }
}

/// How many exchanges a conversation takes at most.
pub open spec fn exchanges_left(session: Session) -> int {
    match session {
        Session::GetDpi { pair } => 4 - pair,
        Session::Reading(_) => 2,
        _ => 1,
    }
}

/// Every conversation comes to an end: each exchange leaves fewer to come, and four are the
/// most that a command takes.
pub proof fn law_every_conversation_ends(command: Command, session: Session, exchange: Exchange)
    requires
        session.is_valid(),
    ensures
        start_view(command).next matches NextView::Send { session: first, .. } ==> {
            &&& first.is_valid()
            &&& exchanges_left(first) <= 4
        },
        resume_view(session, exchange).next matches NextView::Send { session: following, .. }
            ==> {
            &&& following.is_valid()
            &&& 0 < exchanges_left(following) < exchanges_left(session)
        },
{
}

/// What setting a profile comes to, byte by byte and word by word: of the four bytes of the
/// profile, the first two are the low byte of `value / 50 - 1`, the third is its high byte
/// times 68, and the four sum up to 85, modulo 256; every other byte stays; and one line tells
/// the profile and the resolution.
pub proof fn law_setting_a_profile(
    slot: u8,
    value: u32,
    memory: Seq<u8>,
    exchanges: Seq<Exchange>,
)
    requires
        is_memory(memory),
        1 <= slot <= 8,
        value % 50 == 0,
        100 <= value <= 30000,
        is_served(
            start_view(Command::Apply(Change::Dpi { slot, value })),
            memory,
            exchanges,
        ),
    ensures
        ({
            let end = run(
                start_view(Command::Apply(Change::Dpi { slot, value })),
                memory,
                exchanges,
            );
            let at = 12 + 4 * (slot - 1);
            let idx = value as int / 50 - 1;
            &&& end.next == NextView::Done
            &&& end.memory.len() == memory.len()
            &&& end.memory[at] == idx % 256
            &&& end.memory[at + 1] == idx % 256
            &&& end.memory[at + 2] == idx / 256 * 68
            &&& (end.memory[at] + end.memory[at + 1] + end.memory[at + 2] + end.memory[at + 3])
                % 256 == 85
            &&& forall|i: int|
                0 <= i < memory.len() && !(at <= i < at + 4) ==> #[trigger] end.memory[i]
                    == memory[i]
            &&& end.lines.len() == 1
            &&& tells_two(
                end.lines[0],
                "DPI"@,
                slot as int,
                " set to "@,
                value as int,
                " dpi."@,
            )
        }),
{
    let change = Change::Dpi { slot, value };
    law_resolutions_on_offer(value as int);
    law_change_alters_its_setting_alone(change, memory, exchanges);
    law_profiles_stand_in_a_row(slot as int);
    law_block_bytes_follow_from_the_resolution(value);
    law_confirmation_tells_the_resolution(slot, value);
    let at = 12 + 4 * (slot - 1);
    let bytes = setting_bytes(change);
    let after = store(memory, at, bytes);
    assert(after[at] == bytes[0]);
    assert(after[at + 1] == bytes[1]);
    assert(after[at + 2] == bytes[2]);
    assert(after[at + 3] == bytes[3]);
}

/// What showing the profiles comes to: eight lines, the one at the place `i` telling the
/// profile `i + 1` and the resolution that follows from its bytes; and no change.
pub proof fn law_getting_the_profiles(memory: Seq<u8>, exchanges: Seq<Exchange>, i: int)
    requires
        is_memory(memory),
        is_served(start_view(Command::GetDpi), memory, exchanges),
        0 <= i < 8,
    ensures
        ({
            let end = run(start_view(Command::GetDpi), memory, exchanges);
            &&& end.next == NextView::Done
            &&& end.memory == memory
            &&& end.lines.len() == 8
            &&& tells_two(
                end.lines[i],
                "DPI"@,
                i + 1,
                ": "@,
                (memory[12 + 4 * i + 2] as int / 68 * 256 + memory[12 + 4 * i] as int + 1) * 50,
                " dpi"@,
            )
        }),
{
    law_get_shows_all_profiles(memory, exchanges);
    let dpi = block_dpi(profile(memory, i + 1));
    assert(profile(memory, i + 1)[0] == memory[12 + 4 * i]);
    assert(profile(memory, i + 1)[2] == memory[12 + 4 * i + 2]);
    law_line_tells_the_resolution((i + 1) as nat, dpi as nat);
    assert(profile_lines(memory)[i] == profile_line(i + 1, dpi));
}

/// A profile that was set is told with the very resolution that it was set to; any other
/// profile is told with the resolution that follows from the bytes it had before.
pub proof fn law_getting_after_setting(
    slot: u8,
    value: u32,
    memory: Seq<u8>,
    setting: Seq<Exchange>,
    getting: Seq<Exchange>,
    i: int,
)
    requires
        is_memory(memory),
        1 <= slot <= 8,
        value % 50 == 0,
        100 <= value <= 30000,
        is_served(start_view(Command::Apply(Change::Dpi { slot, value })), memory, setting),
        is_served(
            start_view(Command::GetDpi),
            run(start_view(Command::Apply(Change::Dpi { slot, value })), memory, setting).memory,
            getting,
        ),
        0 <= i < 8,
    ensures
        ({
            let end = run(
                start_view(Command::GetDpi),
                run(
                    start_view(Command::Apply(Change::Dpi { slot, value })),
                    memory,
                    setting,
                ).memory,
                getting,
            );
            &&& end.lines.len() == 8
            &&& tells_two(
                end.lines[i],
                "DPI"@,
                i + 1,
                ": "@,
                if i == slot - 1 {
                    value as int
                } else {
                    (memory[12 + 4 * i + 2] as int / 68 * 256 + memory[12 + 4 * i] as int + 1) * 50
                },
                " dpi"@,
            )
        }),
{
    let after = run(
        start_view(Command::Apply(Change::Dpi { slot, value })),
        memory,
        setting,
    ).memory;
    law_setting_a_profile(slot, value, memory, setting);
    law_getting_the_profiles(after, getting, i);
    let idx = value as int / 50 - 1;
    if i == slot - 1 {
        assert(idx / 256 * 68 / 68 == idx / 256);
    }
}

/// What activating a profile comes to: byte 4 is its number counted from zero, byte 5 makes 85
/// with it, every other byte stays, and one line tells the profile.
pub proof fn law_activating_a_profile(slot: u8, memory: Seq<u8>, exchanges: Seq<Exchange>)
    requires
        is_memory(memory),
        1 <= slot <= 8,
        is_served(start_view(Command::Apply(Change::ActiveProfile { slot })), memory, exchanges),
    ensures
        ({
            let end = run(
                start_view(Command::Apply(Change::ActiveProfile { slot })),
                memory,
                exchanges,
            );
            &&& end.next == NextView::Done
            &&& end.memory.len() == memory.len()
            &&& end.memory[4] == slot - 1
            &&& end.memory[4] + end.memory[5] == 85
            &&& forall|i: int|
                0 <= i < memory.len() && i != 4 && i != 5 ==> #[trigger] end.memory[i]
                    == memory[i]
            &&& end.lines.len() == 1
            &&& tells(end.lines[0], "Active profile switched to DPI"@, slot as int, "."@)
        }),
{
    law_change_alters_its_setting_alone(Change::ActiveProfile { slot }, memory, exchanges);
    law_lines_tell_the_setting(slot, 0, SensorMode::Base);
}

/// What setting the polling rate comes to: byte 0 is an interval that goes into a second `hz`
/// times, byte 1 makes 85 with it, every other byte stays, and one line tells the rate.
pub proof fn law_setting_the_rate(hz: u32, memory: Seq<u8>, exchanges: Seq<Exchange>)
    requires
        is_memory(memory),
        hz == 125 || hz == 250 || hz == 500 || hz == 1000,
        is_served(start_view(Command::Apply(Change::Rate { hz })), memory, exchanges),
    ensures
        ({
            let end = run(start_view(Command::Apply(Change::Rate { hz })), memory, exchanges);
            &&& end.next == NextView::Done
            &&& end.memory.len() == memory.len()
            &&& end.memory[0] * hz == 1000
            &&& end.memory[0] + end.memory[1] == 85
            &&& forall|i: int| 2 <= i < memory.len() ==> #[trigger] end.memory[i] == memory[i]
            &&& end.lines.len() == 1
            &&& tells(end.lines[0], "Polling rate set to "@, hz as int, " Hz."@)
        }),
{
    law_change_alters_its_setting_alone(Change::Rate { hz }, memory, exchanges);
    law_lines_tell_the_setting(0, hz, SensorMode::Base);
    law_rate_writes_these_bytes(hz, seq![0u8, 0u8]);
}

/// What setting the sensor mode comes to: byte 0xb9 is 0 for base and 1 for competitive, byte
/// 0xba makes 85 with it, and every other byte stays.
pub proof fn law_setting_the_mode(mode: SensorMode, memory: Seq<u8>, exchanges: Seq<Exchange>)
    requires
        is_memory(memory),
        is_served(start_view(Command::Apply(Change::Mode { mode })), memory, exchanges),
    ensures
        ({
            let end = run(start_view(Command::Apply(Change::Mode { mode })), memory, exchanges);
            &&& end.next == NextView::Done
            &&& end.memory.len() == memory.len()
            &&& mode == SensorMode::Base ==> end.memory[0xb9] == 0
            &&& mode == SensorMode::Competitive ==> end.memory[0xb9] == 1
            &&& end.memory[0xb9] + end.memory[0xba] == 85
            &&& forall|i: int|
                0 <= i < memory.len() && i != 0xb9 && i != 0xba ==> #[trigger] end.memory[i]
                    == memory[i]
            &&& end.lines.len() == 1
            &&& mode == SensorMode::Base ==> end.lines[0] == "Sensor mode set to "@ + "base"@
                + "."@
            &&& mode == SensorMode::Competitive ==> end.lines[0] == "Sensor mode set to "@
                + "competitive"@ + "."@
        }),
{
    law_change_alters_its_setting_alone(Change::Mode { mode }, memory, exchanges);
    law_lines_tell_the_setting(0, 0, mode);
}

/// What showing the polling rate comes to: where byte 0 goes into a second `hz` times, one
/// line tells `hz`.
pub proof fn law_getting_the_rate(hz: u32, memory: Seq<u8>, exchanges: Seq<Exchange>)
    requires
        is_memory(memory),
        is_served(start_view(Command::GetRate), memory, exchanges),
        hz == 125 || hz == 250 || hz == 500 || hz == 1000,
        memory[0] * hz == 1000,
    ensures
        ({
            let end = run(start_view(Command::GetRate), memory, exchanges);
            &&& end.next == NextView::Done
            &&& end.memory == memory
            &&& end.lines.len() == 1
            &&& tells(end.lines[0], "Polling rate: "@, hz as int, " Hz"@)
        }),
{
    reveal_with_fuel(is_served, 2);
    reveal_with_fuel(run, 2);
    law_lines_tell_the_setting(0, hz, SensorMode::Base);
    let data = read_outcome(EepromAddress::ReportRate, exchanges[0])->Ok_0;
    assert(data == memory.subrange(0, 10));
    assert(data[0] == memory[0]);
    let interval = memory[0];
    if hz == 125 {
        assert(interval == 8);
    } else if hz == 250 {
        assert(interval == 4);
    } else if hz == 500 {
        assert(interval == 2);
    } else {
        assert(interval == 1);
    }
    law_rate_is_read_from_the_first_byte(data);
    let read = get_rate_outcome(data)->Ok_0;
    assert(read == hz) by (nonlinear_arith)
        requires
            interval > 0,
            read * interval == 1000,
            interval * hz == 1000,
    ;
}

/// What showing the sensor mode comes to: byte 0xb9 tells it.
pub proof fn law_getting_the_mode(memory: Seq<u8>, exchanges: Seq<Exchange>)
    requires
        is_memory(memory),
        is_served(start_view(Command::GetMode), memory, exchanges),
    ensures
        ({
            let end = run(start_view(Command::GetMode), memory, exchanges);
            &&& end.memory == memory
            &&& memory[0xb9] == 0 ==> end.lines.len() == 1 && end.lines[0] == "Sensor mode: "@
                + "base"@
            &&& memory[0xb9] == 1 ==> end.lines.len() == 1 && end.lines[0] == "Sensor mode: "@
                + "competitive"@
            &&& memory[0xb9] <= 1 <==> end.next == NextView::Done
        }),
{
    reveal_with_fuel(is_served, 2);
    reveal_with_fuel(run, 2);
    law_lines_tell_the_setting(0, 0, SensorMode::Base);
    law_lines_tell_the_setting(0, 0, SensorMode::Competitive);
    let data = read_outcome(EepromAddress::SensorEnable, exchanges[0])->Ok_0;
    assert(data == memory.subrange(0xb5, 0xbb));
    assert(data[4] == memory[0xb9]);
}

} // verus!
