//! What group assignment over the air is for, stated of what comes in and what is
//! handed on.
use crate::bluestation::subscribers::RegistryView;
use crate::cmce::ss_bs::{
    DecodedView, DgnaCommand, DgnaKey, DgnaObservedGroup, PendingView, SsMessageView, SsRun,
};
use vstd::prelude::*;

verus! {

/// The number in the `n` bits from `pos` on.
pub open spec fn number_at(bits: Seq<bool>, pos: int, n: int) -> nat {
    crate::bitbuffer::number(bits.subrange(pos, pos + n))
}

proof fn lemma_number_at(bits: Seq<bool>, pos: int, value: nat, n: nat)
    requires
        0 <= pos,
        pos + n <= bits.len(),
        value < vstd::arithmetic::power2::pow2(n),
        forall|i: int|
            0 <= i < n ==> #[trigger] crate::bitbuffer::digits(value, n)[i] == bits[pos + i],
    ensures
        number_at(bits, pos, n as int) == value,
{
    crate::bitbuffer::law_number_is_read_back(value, n);
    assert(bits.subrange(pos, pos + n) =~= crate::bitbuffer::digits(value, n));
}

/// Whether a name fits: one to fifteen characters of one byte each.
pub open spec fn name_fits(name: Seq<char>) -> bool {
    1 <= name.len() <= 15 && forall|i: int|
        0 <= i < name.len() ==> (#[trigger] name[i]) as u32 <= 255
}

/// Whether a command can be put into a PDU.
pub open spec fn can_be_sent(command: DgnaCommand) -> bool {
    match command.action {
        1 => command.gssi is Some && (command.name is Some ==> name_fits(command.name->0@)),
        2 => command.gssi is Some,
        3 => true,
        _ => false,
    }
}

/// A command for a terminal that has had its registration response is sent to
/// that terminal, and to it alone. The PDU says that it is one of group
/// assignment, what is to be done and, where a group is assigned or taken away,
/// for how many groups and for which; what the terminal answers is then awaited
/// for that command. A command that cannot be put into a PDU is reported as
/// failed, and nothing is sent.
pub proof fn law_command_reaches_its_terminal(
    run: SsRun,
    registry: RegistryView,
    command: DgnaCommand,
)
    requires
        command.itsi <= 16777215,
        registry.is_active(command.itsi as u32),
        !registry.is_pending(command.itsi as u32),
        command.gssi is Some ==> command.gssi->0 < 16777216,
    ensures
        ({
            let after = run.commanded(registry, command);
            let issi = command.itsi as u32;
            let key = DgnaKey { issi, action: command.action, gssi: command.gssi };
            &&& can_be_sent(command) ==> {
                &&& after.queue.len() == run.queue.len() + 1
                &&& after.queue.drop_last() == run.queue
                &&& after.queue.last() matches SsMessageView::Facility { issi: to, bits, count } && {
                    &&& to == issi
                    &&& count <= bits.len() < count + 8
                    &&& number_at(bits, 0, 6) == 22
                    &&& number_at(bits, 6, 5) == match command.action {
                        1 => 7nat,
                        2 => 9nat,
                        _ => 17nat,
                    }
                    &&& command.action != 3 ==> number_at(bits, 11, 5) == 1 && number_at(
                        bits,
                        16,
                        24,
                    ) == command.gssi->0
                    &&& command.action == 3 ==> number_at(bits, 11, 3) == 1 && number_at(
                        bits,
                        14,
                        7,
                    ) == 10
                }
                &&& crate::table::lookup(after.pending, key) matches Some(waiting)
                    && waiting.job_id == command.job_id && waiting.groups.len() == 0
            }
            &&& !can_be_sent(command) ==> {
                &&& after.pending == run.pending
                &&& run.submits ==> after.queue == run.queue.push(
                    SsMessageView::Outcome {
                        job_id: command.job_id,
                        itsi: command.itsi,
                        action: command.action,
                        success: false,
                        cause: 0,
                        groups: Seq::empty(),
                    },
                )
            }
        }),
{
    let after = run.commanded(registry, command);
    let issi = command.itsi as u32;
    let key = DgnaKey { issi, action: command.action, gssi: command.gssi };
    crate::table::law_lookup_after_put(
        run.pending,
        key,
        PendingView { job_id: command.job_id, groups: Seq::empty(), next_sequence: None },
        key,
    );
    if can_be_sent(command) {
        assert(after.queue.drop_last() =~= run.queue);
        let gssi = command.gssi->0;
        let name = match command.name {
            Some(text) => crate::cmce::ss_bs::mnemonic(text@),
            None => None,
        };
        let plain = match command.action {
            1 => crate::cmce::ss_bs::assign_bits(gssi, name),
            2 => crate::cmce::ss_bs::deassign_bits(gssi),
            _ => crate::cmce::ss_bs::interrogate_bits(),
        };
        let bits = crate::cmce::ss_bs::padded(plain);
        assert(after.queue.last() == (SsMessageView::Facility { issi, bits, count: plain.len() }));
        lemma_head(plain, command.action, gssi, name);
        assert forall|pos: int, n: int|
            0 <= pos && 0 <= n && pos + n <= plain.len() implies #[trigger] number_at(bits, pos, n)
            == number_at(plain, pos, n) by {
            assert(bits.subrange(pos, pos + n) =~= plain.subrange(pos, pos + n));
        }
    }
}

proof fn lemma_head(plain: Seq<bool>, action: u8, gssi: u32, name: Option<Seq<u8>>)
    requires
        1 <= action <= 3,
        action != 3 ==> gssi < 16777216,
        plain == match action {
            1 => crate::cmce::ss_bs::assign_bits(gssi, name),
            2 => crate::cmce::ss_bs::deassign_bits(gssi),
            _ => crate::cmce::ss_bs::interrogate_bits(),
        },
    ensures
        plain.len() >= 22,
        action != 3 ==> plain.len() >= 40,
        number_at(plain, 0, 6) == 22,
        number_at(plain, 6, 5) == match action {
            1 => 7nat,
            2 => 9nat,
            _ => 17nat,
        },
        action != 3 ==> number_at(plain, 11, 5) == 1 && number_at(plain, 16, 24) == gssi,
        action == 3 ==> number_at(plain, 11, 3) == 1 && number_at(plain, 14, 7) == 10,
{
    vstd::arithmetic::power2::lemma2_to64();
    crate::bitbuffer::lemma_digits_len(22, 6);
    crate::bitbuffer::lemma_digits_len(7, 5);
    crate::bitbuffer::lemma_digits_len(9, 5);
    crate::bitbuffer::lemma_digits_len(17, 5);
    crate::bitbuffer::lemma_digits_len(1, 5);
    crate::bitbuffer::lemma_digits_len(gssi as nat, 24);
    crate::bitbuffer::lemma_digits_len(0, 1);
    crate::bitbuffer::lemma_digits_len(0, 3);
    crate::bitbuffer::lemma_digits_len(1, 3);
    crate::bitbuffer::lemma_digits_len(10, 7);
    lemma_number_at(plain, 0, 22, 6);
    if action == 1 {
        lemma_number_at(plain, 6, 7, 5);
        lemma_number_at(plain, 11, 1, 5);
        lemma_number_at(plain, 16, gssi as nat, 24);
    } else if action == 2 {
        lemma_number_at(plain, 6, 9, 5);
        lemma_number_at(plain, 11, 1, 5);
        lemma_number_at(plain, 16, gssi as nat, 24);
    } else {
        lemma_number_at(plain, 6, 17, 5);
        lemma_number_at(plain, 11, 1, 3);
        lemma_number_at(plain, 14, 10, 7);
    }
}

/// The acknowledgement of a terminal is read for the group that it names and with
/// the result that it gives: one is success, and taking a group away succeeds
/// only where it is complete.
pub proof fn law_acknowledgement_is_read(
    raw: Seq<u8>,
    assigned: bool,
    gssi: u32,
    result: u8,
    flag: bool,
)
    requires
        raw.len() == 6,
        gssi < 16777216,
        result < 4,
        crate::cmce::ss_bs::leading_bits(raw, 45) == crate::bitbuffer::digits(22, 6)
            + crate::bitbuffer::digits(
            if assigned {
                8nat
            } else {
                10nat
            },
            5,
        ) + crate::bitbuffer::digits(1, 5) + crate::bitbuffer::digits(gssi as nat, 24) + seq![false]
            + crate::bitbuffer::digits(result as nat, 2) + seq![flag] + seq![false],
    ensures
        crate::cmce::ss_bs::dgna_answer(raw, 45) matches Some(read) && {
            &&& read.action == if assigned {
                1u8
            } else {
                2u8
            }
            &&& read.gssi == Some(gssi)
            &&& read.cause == result
            &&& read.success == (result == 1 && (assigned || flag))
            &&& read.groups.len() == 0
            &&& read.sequence is None
        },
{
    vstd::arithmetic::power2::lemma2_to64();
    let bits = crate::cmce::ss_bs::leading_bits(raw, 48);
    let head = crate::cmce::ss_bs::leading_bits(raw, 45);
    assert(forall|i: int| 0 <= i < 45 ==> #[trigger] bits[i] == head[i]);
    let kind = if assigned {
        8nat
    } else {
        10nat
    };
    crate::bitbuffer::lemma_digits_len(22, 6);
    crate::bitbuffer::lemma_digits_len(kind, 5);
    crate::bitbuffer::lemma_digits_len(1, 5);
    crate::bitbuffer::lemma_digits_len(gssi as nat, 24);
    crate::bitbuffer::lemma_digits_len(result as nat, 2);
    lemma_number_at(bits, 0, 22, 6);
    lemma_number_at(bits, 6, kind, 5);
    lemma_number_at(bits, 11, 1, 5);
    lemma_number_at(bits, 16, gssi as nat, 24);
    lemma_number_at(bits, 41, result as nat, 2);
    lemma_bit(bits, 40);
    lemma_bit(bits, 43);
    lemma_bit(bits, 44);
    assert(!head[40] && head[43] == flag && !head[44]);
}

proof fn lemma_bit(bits: Seq<bool>, pos: int)
    requires
        0 <= pos < bits.len(),
    ensures
        number_at(bits, pos, 1) == if bits[pos] {
            1nat
        } else {
            0nat
        },
{
    let one = bits.subrange(pos, pos + 1);
    assert(one.drop_last().len() == 0);
    assert(crate::bitbuffer::number(one.drop_last()) == 0);
    assert(one.last() == bits[pos]);
}

/// The answer of a terminal to a command is reported for that command and that
/// terminal with what the terminal said, and the command waits no longer. An
/// answer that nothing waits for is ignored.
pub proof fn law_answer_is_reported_for_its_command(run: SsRun, issi: u32, read: DecodedView)
    requires
        run.submits,
        read.action == 1 || read.action == 2,
    ensures
        ({
            let key = DgnaKey { issi, action: read.action, gssi: read.gssi };
            let after = run.answered(issi, read);
            match crate::table::lookup(run.pending, key) {
                None => after == run,
                Some(waiting) => {
                    &&& after.queue == run.queue.push(
                        SsMessageView::Outcome {
                            job_id: waiting.job_id,
                            itsi: issi as u64,
                            action: read.action,
                            success: read.success,
                            cause: read.cause,
                            groups: read.groups,
                        },
                    )
                    &&& !crate::table::contains(after.pending, key)
                },
            }
        }),
{
    let key = DgnaKey { issi, action: read.action, gssi: read.gssi };
    crate::table::law_lookup_after_del(run.pending, key, key);
}

/// The groups of a terminal that answers an interrogation in two parts are
/// reported together, in their order, once the second part has come; parts out of
/// order are reported as a failure.
pub proof fn law_parts_are_put_together(
    run: SsRun,
    issi: u32,
    job: u64,
    first: Seq<DgnaObservedGroup>,
    second: Seq<DgnaObservedGroup>,
    number: u8,
    success: bool,
    cause: u8,
)
    requires
        run.submits,
        crate::table::lookup(run.pending, DgnaKey { issi, action: 3, gssi: None }) == Some(
            PendingView { job_id: job, groups: Seq::empty(), next_sequence: None },
        ),
    ensures
        ({
            let part = |groups: Seq<DgnaObservedGroup>, number: u8, complete: bool|
                DecodedView {
                    action: 3,
                    success,
                    cause,
                    gssi: None,
                    groups,
                    complete,
                    sequence: Some(number),
                };
            let begun = run.answered(issi, part(first, 1, false));
            let done = begun.answered(issi, part(second, number, true));
            &&& begun.queue == run.queue
            &&& number == 2 ==> done.queue == run.queue.push(
                SsMessageView::Outcome {
                    job_id: job,
                    itsi: issi as u64,
                    action: 3,
                    success,
                    cause,
                    groups: first + second,
                },
            )
            &&& number != 2 ==> done.queue == run.queue.push(
                SsMessageView::Outcome {
                    job_id: job,
                    itsi: issi as u64,
                    action: 3,
                    success: false,
                    cause: 0,
                    groups: Seq::empty(),
                },
            )
            &&& !crate::table::contains(done.pending, DgnaKey { issi, action: 3, gssi: None })
        }),
{
    let key = DgnaKey { issi, action: 3, gssi: None };
    let begun = PendingView {
        job_id: job,
        groups: Seq::<DgnaObservedGroup>::empty() + first,
        next_sequence: Some(2),
    };
    assert(Seq::<DgnaObservedGroup>::empty() + first =~= first);
    crate::table::law_lookup_after_put(run.pending, key, begun, key);
    let pending = crate::table::put(run.pending, key, begun);
    crate::table::law_lookup_after_del(pending, key, key);
}

/// What an assignment says beside its group: no extension of the identity, a
/// permanent attachment that the terminal is to report, the lowest class of
/// usage, and that an acknowledgement is wanted. Taking a group away asks for an
/// acknowledgement too.
pub proof fn law_assignment_is_permanent_and_acknowledged(gssi: u32)
    ensures
        ({
            let assign = crate::cmce::ss_bs::assign_bits(gssi, None);
            let deassign = crate::cmce::ss_bs::deassign_bits(gssi);
            let asked = crate::cmce::ss_bs::interrogate_bits();
            &&& assign.len() == 55 && deassign.len() == 43 && asked.len() == 22
            &&& forall|i: int|
                40 <= i < 55 ==> #[trigger] assign[i] == (i == 44 || i == 45 || i == 53)
            &&& forall|i: int| 40 <= i < 43 ==> #[trigger] deassign[i] == (i == 41)
            &&& !asked[21]
        }),
{
    crate::cmce::ss_bs::law_pdu_lengths(gssi);
    crate::bitbuffer::lemma_digits_len(22, 6);
    crate::bitbuffer::lemma_digits_len(7, 5);
    crate::bitbuffer::lemma_digits_len(9, 5);
    crate::bitbuffer::lemma_digits_len(17, 5);
    crate::bitbuffer::lemma_digits_len(1, 5);
    crate::bitbuffer::lemma_digits_len(gssi as nat, 24);
    crate::bitbuffer::lemma_digits_len(0, 1);
    crate::bitbuffer::lemma_digits_len(0, 3);
    crate::bitbuffer::lemma_digits_len(1, 3);
    crate::bitbuffer::lemma_digits_len(10, 7);
    lemma_zeros(1);
    lemma_zeros(3);
}

proof fn lemma_zeros(n: nat)
    ensures
        crate::bitbuffer::digits(0, n).len() == n,
        forall|i: int| 0 <= i < n ==> !#[trigger] crate::bitbuffer::digits(0, n)[i],
    decreases n,
{
    if n > 0 {
        lemma_zeros((n - 1) as nat);
    }
}

/// The groups that a terminal names in the answer to an interrogation are read in
/// their order, each with its identity of 24 bits and its status of three; the
/// result, whether the answer is complete, and the number of the part are read
/// from their bits.
pub proof fn law_named_groups_are_read(bits: Seq<bool>, end: int, i: int)
    requires
        crate::cmce::ss_bs::interrogate_answer(bits, end) is Some,
        number_at(bits, 18, 1) != 0,
        number_at(bits, 19, 1) != 0,
        0 <= i < number_at(bits, 20, 5),
    ensures
        ({
            let read = crate::cmce::ss_bs::interrogate_answer(bits, end)->0;
            let count = number_at(bits, 20, 5) as int;
            let rest = 25 + 28 * count;
            &&& read.action == 3 && read.gssi is None
            &&& read.success <==> number_at(bits, 14, 3) as u8 == 1
            &&& read.cause == number_at(bits, 14, 3) as u8
            &&& read.complete <==> number_at(bits, 17, 1) != 0
            &&& read.groups.len() == count
            &&& read.groups[i].gssi == number_at(bits, 25 + 28 * i, 24) as u32
            &&& read.groups[i].status == number_at(bits, 50 + 28 * i, 3) as u8
            &&& number_at(bits, rest, 1) != 0 ==> read.sequence == Some(
                number_at(bits, rest + 1, 6) as u8,
            ) && end == rest + 9
            &&& number_at(bits, rest, 1) == 0 ==> read.sequence is None && end == rest + 3
        }),
{
}

/// A name is sent with one byte for each of its characters, in their order.
pub proof fn law_name_is_sent_as_it_is_written(name: Seq<char>, i: int)
    requires
        name_fits(name),
        0 <= i < name.len(),
    ensures
        crate::cmce::ss_bs::mnemonic(name) matches Some(bytes) && bytes.len() == name.len()
            && bytes[i] == name[i] as u8,
        ({
            let bytes = crate::cmce::ss_bs::mnemonic(name)->0;
            let element = crate::cmce::ss_bs::name_element(Some(bytes));
            &&& element.len() == 16 + 8 * name.len()
            &&& element[0]
            &&& number_at(element, 1, 7) == 1
            &&& number_at(element, 8, 8) == 8 * name.len()
            &&& number_at(element, 16 + 8 * i, 8) == name[i] as u8
        }),
{
    vstd::arithmetic::power2::lemma2_to64();
    let bytes = crate::cmce::ss_bs::mnemonic(name)->0;
    let element = crate::cmce::ss_bs::name_element(Some(bytes));
    crate::bitbuffer::lemma_digits_len(1, 7);
    crate::bitbuffer::lemma_digits_len(bytes.len() * 8, 8);
    lemma_byte_digits(bytes, i);
    lemma_number_at(element, 1, 1, 7);
    lemma_number_at(element, 8, bytes.len() * 8, 8);
    let text = crate::cmce::ss_bs::byte_digits(bytes);
    assert forall|k: int| 0 <= k < 8 implies #[trigger] crate::bitbuffer::digits(
        bytes[i] as nat,
        8,
    )[k] == element[16 + 8 * i + k] by {
        assert(element[16 + (8 * i + k)] == text[8 * i + k]);
    }
    lemma_number_at(element, 16 + 8 * i, bytes[i] as nat, 8);
}

proof fn lemma_byte_digits(bytes: Seq<u8>, i: int)
    requires
        0 <= i < bytes.len(),
    ensures
        crate::cmce::ss_bs::byte_digits(bytes).len() == 8 * bytes.len(),
        forall|k: int|
            0 <= k < 8 ==> #[trigger] crate::cmce::ss_bs::byte_digits(bytes)[8 * i + k]
                == crate::bitbuffer::digits(bytes[i] as nat, 8)[k],
    decreases bytes.len(),
{
    let rest = bytes.drop_last();
    crate::bitbuffer::lemma_digits_len(bytes.last() as nat, 8);
    if i < rest.len() {
        lemma_byte_digits(rest, i);
        assert(rest[i] == bytes[i]);
    } else if rest.len() > 0 {
        lemma_byte_digits(rest, 0);
    } else {
        assert(crate::cmce::ss_bs::byte_digits(rest).len() == 0);
    }
    if i < rest.len() {
        let before = crate::cmce::ss_bs::byte_digits(rest);
        assert forall|k: int| 0 <= k < 8 implies #[trigger] crate::cmce::ss_bs::byte_digits(
            bytes,
        )[8 * i + k] == crate::bitbuffer::digits(bytes[i] as nat, 8)[k] by {
            assert(before[8 * i + k] == crate::bitbuffer::digits(rest[i] as nat, 8)[k]);
        }
    }
}

/// A deferred command is carried out exactly when its terminal has had its
/// registration response.
pub proof fn law_deferred_command_is_ready_with_its_terminal(
    deferred: Seq<(u64, DgnaCommand)>,
    registry: RegistryView,
    job: u64,
    command: DgnaCommand,
)
    requires
        command.itsi <= 0xffff_ffff,
    ensures
        ({
            let before = crate::cmce::ss_bs::ready_jobs(deferred, registry);
            let after = crate::cmce::ss_bs::ready_jobs(deferred.push((job, command)), registry);
            let issi = command.itsi as u32;
            after == if registry.is_active(issi) && !registry.is_pending(issi) {
                before.push(job)
            } else {
                before
            }
        }),
{
    assert(deferred.push((job, command)).drop_last() =~= deferred);
}

/// A name can be sent exactly if it has one to fifteen characters that each fit a
/// byte; a group with another name cannot be assigned.
pub proof fn law_names_that_can_be_sent(name: Seq<char>, gssi: u32)
    ensures
        crate::cmce::ss_bs::mnemonic(name) is Some <==> name_fits(name),
        crate::cmce::ss_bs::dgna_bits(1, Some(gssi), Some(name)) is Some <==> name_fits(name),
{
}

} // verus!
