//! A chip modelled as a register file, and what the operations do to it.
//!
//! The model answers a read with the stored byte and a write by storing the
//! byte; it never fails. Running an operation against it from its first action
//! gives the actions it issues and the register file it leaves.
use vstd::prelude::*;
use crate::bits::{bank_bits, bank_byte, bank_mask, toggled_byte, EventsIrq};
use crate::device::{next_bank, Action, ReadIrq, ToggleIrq};
use crate::regs::{enabled_irq_addr, status_irq_addr};

verus! {

/// The model's answer to an action, and its register file afterwards.
pub open spec fn bus_reply<T, E>(regs: Map<u8, u8>, a: Action<T, E>) -> (Map<u8, u8>, Result<u8, E>) {
    match a {
        Action::Read { register, .. } => (regs, Ok(regs[register])),
        Action::Write { register, value, .. } => (regs.insert(register, value), Ok(0)),
        _ => (regs, Ok(0)),
    }
}

/// Runs a read-and-clear from action `a` for at most `fuel` more actions:
/// the register file left and the actions issued, `a` first.
pub open spec fn run_read_irq<E>(m: ReadIrq, a: Action<EventsIrq, E>, regs: Map<u8, u8>, fuel: nat) -> (
    Map<u8, u8>,
    Seq<Action<EventsIrq, E>>,
)
    decreases fuel,
{
    if fuel == 0 || a is Done {
        (regs, seq![a])
    } else {
        let (regs2, reply) = bus_reply(regs, a);
        let (m2, a2) = m.next(reply);
        let (regs3, rest) = run_read_irq(m2, a2, regs2, (fuel - 1) as nat);
        (regs3, seq![a] + rest)
    }
}

/// Runs an enable or disable from action `a` for at most `fuel` more actions.
pub open spec fn run_toggle<E>(m: ToggleIrq, a: Action<(), E>, regs: Map<u8, u8>, fuel: nat) -> (
    Map<u8, u8>,
    Seq<Action<(), E>>,
)
    decreases fuel,
{
    if fuel == 0 || a is Done {
        (regs, seq![a])
    } else {
        let (regs2, reply) = bus_reply(regs, a);
        let (m2, a2) = m.next(reply);
        let (regs3, rest) = run_toggle(m2, a2, regs2, (fuel - 1) as nat);
        (regs3, seq![a] + rest)
    }
}

/// Whether `irqs` has a source in bank `n`.
pub open spec fn touches(irqs: u64, n: nat) -> bool {
    irqs & bank_mask(n) != 0
}

/// The register file with the events of `irqs` set or cleared in the enable
/// register of bank `n`, if `irqs` has a source in it.
pub open spec fn toggle_bank(regs: Map<u8, u8>, irqs: u64, enable: bool, n: nat) -> Map<u8, u8> {
    if touches(irqs, n) {
        let k = enabled_irq_addr(n);
        regs.insert(k, toggled_byte(regs[k], bank_byte(irqs, n), enable))
    } else {
        regs
    }
}

/// `toggle_bank` applied to the banks from `from` to the last.
pub open spec fn toggle_from(regs: Map<u8, u8>, irqs: u64, enable: bool, from: nat) -> Map<u8, u8>
    decreases 5 - from,
{
    if from >= 5 {
        regs
    } else {
        toggle_from(toggle_bank(regs, irqs, enable, from), irqs, enable, from + 1)
    }
}

/// The bank whose enable register is at `k`; 5 if none.
pub open spec fn enabled_bank(k: u8) -> nat {
    if k == 0x40 {
        0
    } else if k == 0x41 {
        1
    } else if k == 0x42 {
        2
    } else if k == 0x43 {
        3
    } else if k == 0x45 {
        4
    } else {
        5
    }
}

/// Whether action `a` transfers nothing, or only to the enable register of a
/// bank that `irqs` has a source in.
pub open spec fn within_banks<T, E>(irqs: u64, a: Action<T, E>) -> bool {
    match a {
        Action::Read { register, .. } => enabled_bank(register) < 5 && touches(irqs, enabled_bank(register)),
        Action::Write { register, .. } => enabled_bank(register) < 5 && touches(irqs, enabled_bank(register)),
        _ => true,
    }
}

/// The register file holds the five enable registers.
pub open spec fn holds_enable_registers(regs: Map<u8, u8>) -> bool {
    forall|n: nat| n < 5 ==> #[trigger] regs.dom().contains(enabled_irq_addr(n))
}

proof fn lemma_enabled_bank(n: nat)
    requires
        n < 5,
    ensures
        enabled_bank(enabled_irq_addr(n)) == n,
{
}

proof fn lemma_next_bank_bounds(irqs: u64, from: nat)
    requires
        from <= 5,
    ensures
        from <= next_bank(irqs, from) <= 5,
        next_bank(irqs, from) < 5 ==> touches(irqs, next_bank(irqs, from)),
    decreases 5 - from,
{
    if from < 5 && !touches(irqs, from) {
        lemma_next_bank_bounds(irqs, from + 1);
    }
}

/// Banks without a source of `irqs` are passed over.
proof fn lemma_toggle_skip(regs: Map<u8, u8>, irqs: u64, enable: bool, from: nat)
    requires
        from <= 5,
    ensures
        toggle_from(regs, irqs, enable, from) == toggle_from(regs, irqs, enable, next_bank(irqs, from)),
    decreases 5 - from,
{
    if from < 5 && !touches(irqs, from) {
        lemma_toggle_skip(regs, irqs, enable, from + 1);
    }
}

/// From any bank on, the machine does to the register file what
/// `toggle_from` says, and ends with success.
proof fn lemma_run_toggle_from<E>(m: ToggleIrq, regs: Map<u8, u8>, from: nat, fuel: nat)
    requires
        from <= 5,
        fuel >= 2 * (5 - from) + 1,
    ensures
        ({
            let (m1, a1) = m.visit::<E>(from);
            let (regs1, trace) = run_toggle(m1, a1, regs, fuel);
            &&& regs1 == toggle_from(regs, m.irqs.bits, m.enable, from)
            &&& trace.len() > 0
            &&& trace.last() == Action::<(), E>::Done(Ok(()))
            &&& forall|i: int| 0 <= i < trace.len() ==> within_banks(m.irqs.bits, #[trigger] trace[i])
        }),
    decreases 5 - from,
{
    let irqs = m.irqs.bits;
    lemma_next_bank_bounds(irqs, from);
    lemma_toggle_skip(regs, irqs, m.enable, from);
    let b = next_bank(irqs, from);
    let (m1, a1) = m.visit::<E>(from);
    if b < 5 {
        let k = enabled_irq_addr(b);
        let v = toggled_byte(regs[k], bank_byte(irqs, b), m.enable);
        let (m2, a2) = m1.next::<E>(Ok(regs[k]));
        assert(a2 == Action::<(), E>::Write { address: m.address, register: k, value: v });
        let regs2 = regs.insert(k, v);
        let (m3, a3) = m2.next::<E>(Ok(0));
        lemma_run_toggle_from::<E>(m2, regs2, b + 1, (fuel - 2) as nat);
        assert(toggle_bank(regs, irqs, m.enable, b) == regs2);
        let rest = run_toggle(m3, a3, regs2, (fuel - 2) as nat).1;
        assert(run_toggle(m2, a2, regs, (fuel - 1) as nat).1 == seq![a2] + rest);
        assert(run_toggle(m1, a1, regs, fuel).1 == seq![a1] + (seq![a2] + rest));
        assert((seq![a1] + (seq![a2] + rest)).last() == rest.last());
        lemma_enabled_bank(b);
        let trace = seq![a1] + (seq![a2] + rest);
        assert forall|i: int| 0 <= i < trace.len() implies within_banks(irqs, #[trigger] trace[i]) by {
            if i >= 2 {
                assert(trace[i] == rest[i - 2]);
            }
        }
    }
}

/// The register file that `toggle_from` leaves, register by register.
proof fn lemma_toggle_from_values(regs: Map<u8, u8>, irqs: u64, enable: bool, from: nat)
    requires
        from <= 5,
        holds_enable_registers(regs),
    ensures
        toggle_from(regs, irqs, enable, from).dom() == regs.dom(),
        forall|k: u8|
            #![trigger toggle_from(regs, irqs, enable, from)[k]]
            regs.dom().contains(k) ==> toggle_from(regs, irqs, enable, from)[k] == ({
                let n = enabled_bank(k);
                if from <= n < 5 && touches(irqs, n) {
                    toggled_byte(regs[k], bank_byte(irqs, n), enable)
                } else {
                    regs[k]
                }
            }),
    decreases 5 - from,
{
    if from < 5 {
        let regs2 = toggle_bank(regs, irqs, enable, from);
        lemma_enabled_bank(from);
        assert(regs.dom().contains(enabled_irq_addr(from)));
        assert(regs2.dom() =~= regs.dom());
        assert(holds_enable_registers(regs2));
        lemma_toggle_from_values(regs2, irqs, enable, from + 1);
        assert forall|k: u8| regs.dom().contains(k) implies #[trigger] toggle_from(
            regs,
            irqs,
            enable,
            from,
        )[k] == ({
            let n = enabled_bank(k);
            if from <= n < 5 && touches(irqs, n) {
                toggled_byte(regs[k], bank_byte(irqs, n), enable)
            } else {
                regs[k]
            }
        }) by {
            assert(regs2.dom().contains(k));
            if k == enabled_irq_addr(from) {
                assert(enabled_bank(k) == from);
            } else if enabled_bank(k) == from {
                assert(k == enabled_irq_addr(from));
            }
        }
    }
}

/// Setting bits that were clear and then clearing them gives the byte back.
proof fn lemma_toggled_byte_round_trip(v: u8, req: u8)
    requires
        v & req == 0,
    ensures
        toggled_byte(toggled_byte(v, req, true), req, false) == v,
{
    assert((v | req) & !req == v) by (bit_vector)
        requires
            v & req == 0,
    ;
}

/// The register file that enabling (`enable`) or disabling the events of `irqs`
/// leaves on a chip whose registers are `regs`.
pub open spec fn toggled_registers(regs: Map<u8, u8>, irqs: u64, enable: bool) -> Map<u8, u8> {
    toggle_from(regs, irqs, enable, 0)
}

/// An enable or disable ends with success, having set or cleared the events of
/// `irqs` in the enable registers of the banks that `irqs` has a source in and
/// left every other register as it was; it reads and writes no register but
/// those.
pub proof fn lemma_toggle_irq_effect<E>(address: u8, irqs: EventsIrq, enable: bool, regs: Map<u8, u8>)
    requires
        holds_enable_registers(regs),
    ensures
        ({
            let (m, a) = (ToggleIrq {
                address,
                irqs,
                enable,
                bank: 0,
                reading: false,
                finished: false,
            }).visit::<E>(0);
            let (regs1, trace) = run_toggle(m, a, regs, 11);
            &&& regs1 == toggled_registers(regs, irqs.bits, enable)
            &&& trace.last() == Action::<(), E>::Done(Ok(()))
            &&& forall|i: int| 0 <= i < trace.len() ==> within_banks(irqs.bits, #[trigger] trace[i])
        }),
        toggled_registers(regs, irqs.bits, enable).dom() == regs.dom(),
        forall|k: u8|
            #![trigger toggled_registers(regs, irqs.bits, enable)[k]]
            regs.dom().contains(k) ==> toggled_registers(regs, irqs.bits, enable)[k] == ({
                let n = enabled_bank(k);
                if n < 5 && touches(irqs.bits, n) {
                    toggled_byte(regs[k], bank_byte(irqs.bits, n), enable)
                } else {
                    regs[k]
                }
            }),
{
    let m0 = ToggleIrq { address, irqs, enable, bank: 0, reading: false, finished: false };
    lemma_run_toggle_from::<E>(m0, regs, 0, 11);
    lemma_toggle_from_values(regs, irqs.bits, enable, 0);
}

/// Enabling the events of `irqs` and then disabling them gives every enable
/// register back its value, provided none of those events was enabled before;
/// the registers of banks that `irqs` has no source in are never changed.
pub proof fn lemma_toggle_irq_round_trip<E>(address: u8, irqs: EventsIrq, regs: Map<u8, u8>)
    requires
        holds_enable_registers(regs),
        forall|n: nat|
            n < 5 && touches(irqs.bits, n) ==> #[trigger] regs[enabled_irq_addr(n)] & bank_byte(
                irqs.bits,
                n,
            ) == 0,
    ensures
        ({
            let start = ToggleIrq { address, irqs, enable: true, bank: 0, reading: false, finished: false };
            let (m1, a1) = start.visit::<E>(0);
            let on = run_toggle(m1, a1, regs, 11).0;
            let (m2, a2) = (ToggleIrq { enable: false, ..start }).visit::<E>(0);
            let off = run_toggle(m2, a2, on, 11).0;
            &&& off == regs
            &&& forall|k: u8|
                regs.dom().contains(k) && !(enabled_bank(k) < 5 && touches(irqs.bits, enabled_bank(k)))
                    ==> #[trigger] on[k] == regs[k]
        }),
{
    let on = toggled_registers(regs, irqs.bits, true);
    lemma_toggle_irq_effect::<E>(address, irqs, true, regs);
    assert(holds_enable_registers(on));
    lemma_toggle_irq_effect::<E>(address, irqs, false, on);
    let off = toggled_registers(on, irqs.bits, false);
    assert forall|k: u8| regs.dom().contains(k) implies #[trigger] off[k] == regs[k] by {
        let n = enabled_bank(k);
        assert(on.dom().contains(k));
        if n < 5 && touches(irqs.bits, n) {
            assert(k == enabled_irq_addr(n));
            lemma_toggled_byte_round_trip(regs[k], bank_byte(irqs.bits, n));
        }
    }
    assert(off =~= regs);
}

/// The byte that the model holds in the status register of bank `n`.
pub open spec fn status_byte(regs: Map<u8, u8>, n: nat) -> u8 {
    regs[status_irq_addr(n)]
}

/// A read-and-clear reads the five status registers in order, then writes
/// 0xFF to each of them in order, and returns the events of all five bytes
/// read, whatever those bytes are.
pub proof fn lemma_read_irq_transcript<E>(address: u8, regs: Map<u8, u8>)
    ensures
        ({
            let m = ReadIrq { address, stage: 0, events: 0 };
            let a = Action::<EventsIrq, E>::Read { address, register: status_irq_addr(0) };
            run_read_irq(m, a, regs, 11).1 == seq![
                Action::<EventsIrq, E>::Read { address, register: 0x48 },
                Action::Read { address, register: 0x49 },
                Action::Read { address, register: 0x4a },
                Action::Read { address, register: 0x4b },
                Action::Read { address, register: 0x4c },
                Action::Write { address, register: 0x48, value: 0xff },
                Action::Write { address, register: 0x49, value: 0xff },
                Action::Write { address, register: 0x4a, value: 0xff },
                Action::Write { address, register: 0x4b, value: 0xff },
                Action::Write { address, register: 0x4c, value: 0xff },
                Action::Done(
                    Ok(
                        EventsIrq {
                            bits: bank_bits(status_byte(regs, 0), 0) | bank_bits(status_byte(regs, 1), 1)
                                | bank_bits(status_byte(regs, 2), 2) | bank_bits(status_byte(regs, 3), 3)
                                | bank_bits(status_byte(regs, 4), 4),
                        },
                    ),
                ),
            ]
        }),
{
    reveal_with_fuel(run_read_irq, 12);
    assert(0u64 | bank_bits(status_byte(regs, 0), 0) == bank_bits(status_byte(regs, 0), 0)) by (bit_vector);
    let m = ReadIrq { address, stage: 0, events: 0 };
    let a = Action::<EventsIrq, E>::Read { address, register: status_irq_addr(0) };
    assert(run_read_irq(m, a, regs, 11).1 =~= seq![
        Action::<EventsIrq, E>::Read { address, register: 0x48 },
        Action::Read { address, register: 0x49 },
        Action::Read { address, register: 0x4a },
        Action::Read { address, register: 0x4b },
        Action::Read { address, register: 0x4c },
        Action::Write { address, register: 0x48, value: 0xff },
        Action::Write { address, register: 0x49, value: 0xff },
        Action::Write { address, register: 0x4a, value: 0xff },
        Action::Write { address, register: 0x4b, value: 0xff },
        Action::Write { address, register: 0x4c, value: 0xff },
        Action::Done(
            Ok(
                EventsIrq {
                    bits: bank_bits(status_byte(regs, 0), 0) | bank_bits(status_byte(regs, 1), 1)
                        | bank_bits(status_byte(regs, 2), 2) | bank_bits(status_byte(regs, 3), 3)
                        | bank_bits(status_byte(regs, 4), 4),
                },
            ),
        ),
    ]);
}

} // verus!
