//! One step of the machine: fetch a word, then offer it to the base engine
//! and to the extensions in a fixed order. The first that does not decline
//! decides the step; the others never see the word.

use crate::bus::Bus;
use crate::rv32i::CoreState;
use crate::rv32i::RV32I;
use crate::rv_f::FStep;
use crate::rv_f::FloatRequest;
use crate::rv_f::RV32F;
use crate::rv_m::RV32M;
use crate::rv_zicsr::RVZICSR;
use crate::Base;
use crate::EResult;
use crate::Extension;
use vstd::prelude::*;

verus! {

/// How a step ended.
#[derive(Clone, Copy, Debug, PartialEq, Eq, Structural)]
pub enum TickResult {
    /// The instruction was executed.
    Nothing,
    /// The instruction asks for an environment call.
    ECall,
    /// The instruction asks for an environment break.
    EBreak,
    /// Neither the base engine nor an extension recognized the word.
    Unsupported,
    /// The F extension claimed the word and needs the floating-point unit:
    /// the result of the request is to be handed to `RV32F::retire`.
    Compute(FloatRequest),
}

/// How a step ends where a candidate reported `r`.
pub open spec fn outcome(r: EResult) -> TickResult {
    match r {
        EResult::NotFound => TickResult::Unsupported,
        EResult::Found => TickResult::Nothing,
        EResult::ECall => TickResult::ECall,
        EResult::EBreak => TickResult::EBreak,
    }
}

/// The base and the float registers after `word` was offered to the base
/// engine, then to M, then to F, and how that ended.
pub open spec fn spec_offer(s: CoreState, f: Seq<u32>, word: u32) -> (
    CoreState,
    Seq<u32>,
    TickResult,
) {
    let by_base = RV32I::spec_execute(s, word);
    let by_m = RV32M::spec_execute(s, word);
    let by_f = RV32F::spec_execute(f, s, word);
    if !(by_base.1 is NotFound) {
        (by_base.0, f, outcome(by_base.1))
    } else if !(by_m.1 is NotFound) {
        (by_m.0, f, outcome(by_m.1))
    } else {
        match by_f.2 {
            FStep::Done(r) => (by_f.1, by_f.0, outcome(r)),
            FStep::Compute(request) => (by_f.1, by_f.0, TickResult::Compute(request)),
        }
    }
}

/// The base and the float registers after a step, and how it ended.
pub open spec fn spec_tick(s: CoreState, f: Seq<u32>) -> (CoreState, Seq<u32>, TickResult) {
    spec_offer(RV32I::spec_fetch(s).0, f, RV32I::spec_fetch(s).1 as u32)
}

/// The base, the float registers and the control and status registers after
/// a step that asks Zicsr as well, and how it ended: where the base engine,
/// M and F all declined the word, Zicsr is offered it.
pub open spec fn spec_tick_csr(s: CoreState, f: Seq<u32>, csrs: Seq<u32>) -> (
    CoreState,
    Seq<u32>,
    Seq<u32>,
    TickResult,
) {
    let fetched = RV32I::spec_fetch(s).0;
    let word = RV32I::spec_fetch(s).1 as u32;
    let first = spec_offer(fetched, f, word);
    let by_csr = RVZICSR::spec_execute(csrs, fetched, word);
    if first.2 is Unsupported {
        (by_csr.1, f, by_csr.0, outcome(by_csr.2))
    } else {
        (first.0, first.1, csrs, first.2)
    }
}

fn report(r: EResult) -> (t: TickResult)
    ensures
        t == outcome(r),
{
    match r {
        EResult::NotFound => TickResult::Unsupported,
        EResult::Found => TickResult::Nothing,
        EResult::ECall => TickResult::ECall,
        EResult::EBreak => TickResult::EBreak,
    }
}

/// Offers a word to the base engine, then to M, then to F. Where all three
/// decline, nothing has changed.
fn offer(base: &mut RV32I, rv_m: &mut RV32M, rv_f: &mut RV32F, instruction: u32) -> (t:
    TickResult)
    ensures
        (final(base)@, final(rv_f)@, t) == spec_offer(old(base)@, old(rv_f)@, instruction),
        t matches TickResult::Compute(request) ==> request.rd < 32,
        t is Unsupported ==> final(base)@ == old(base)@ && final(rv_f)@ == old(rv_f)@,
{
    // RV_I
    let result = base.execute(instruction);
    match result {
        EResult::NotFound => (),
        _ => {
            return report(result);
        },
    }

    // RV_M
    let result = rv_m.execute(instruction, base);
    match result {
        EResult::NotFound => (),
        _ => {
            return report(result);
        },
    }

    // RV_F
    match rv_f.execute(instruction, base) {
        FStep::Done(result) => report(result),
        FStep::Compute(request) => TickResult::Compute(request),
    }
}

/// Runs one step: the base engine first, then the M extension, then the F
/// extension. Zicsr is not installed here: a word of its own ends the step
/// as `Unsupported`. `tick_csr` is the step that asks it too.
pub fn tick(base: &mut RV32I, rv_m: &mut RV32M, rv_f: &mut RV32F) -> (t: TickResult)
    ensures
        (final(base)@, final(rv_f)@, t) == spec_tick(old(base)@, old(rv_f)@),
        t matches TickResult::Compute(request) ==> request.rd < 32,
{
    let instruction = base.fetch() as u32;
    offer(base, rv_m, rv_f, instruction)
}

/// Runs one step with every extension installed: the base engine first, then
/// M, then F, then Zicsr.
pub fn tick_csr(
    base: &mut RV32I,
    rv_m: &mut RV32M,
    rv_f: &mut RV32F,
    rv_zicsr: &mut RVZICSR,
) -> (t: TickResult)
    ensures
        (final(base)@, final(rv_f)@, final(rv_zicsr)@, t) == spec_tick_csr(
            old(base)@,
            old(rv_f)@,
            old(rv_zicsr)@,
        ),
        t matches TickResult::Compute(request) ==> request.rd < 32,
{
    let instruction = base.fetch() as u32;
    match offer(base, rv_m, rv_f, instruction) {
        TickResult::Unsupported => report(rv_zicsr.execute(instruction, base)),
        taken => taken,
    }
}

/// The word that a step offers around is the word in memory at the program
/// counter.
pub proof fn law_fetched_word(s: CoreState)
    ensures
        RV32I::spec_fetch(s).1 as u32 == Bus::spec_load(s.mem, (s.pc as u32) as int, 32),
{
    let word = Bus::spec_load(s.mem, (s.pc as u32) as int, 32);
    assert((word as i32) as u32 == word) by (bit_vector);
}

/// No word has two takers: of the base engine and the three extensions at
/// most one claims it, so the order in which they are asked decides nothing
/// but who is asked at all.
pub proof fn law_claims_disjoint(ins: u32)
    ensures
        !(RV32I::recognizes(ins) && <RV32M as Extension<RV32I>>::claims(ins)),
        !(RV32I::recognizes(ins) && RV32F::claims(ins)),
        !(RV32I::recognizes(ins) && <RVZICSR as Extension<RV32I>>::claims(ins)),
        !(<RV32M as Extension<RV32I>>::claims(ins) && RV32F::claims(ins)),
        !(<RV32M as Extension<RV32I>>::claims(ins) && <RVZICSR as Extension<RV32I>>::claims(ins)),
        !(RV32F::claims(ins) && <RVZICSR as Extension<RV32I>>::claims(ins)),
{
}

/// The first candidate that claims the fetched word decides the step alone:
/// what the base engine recognizes no extension touches, what the base
/// declines and M claims F does not touch, and a word that nobody claims
/// changes nothing but the program counter.
pub proof fn law_dispatch_priority(s: CoreState, f: Seq<u32>)
    ensures
        ({
            let fetched = RV32I::spec_fetch(s).0;
            let word = RV32I::spec_fetch(s).1 as u32;
            let by_base = RV32I::spec_execute(fetched, word);
            let by_m = RV32M::spec_execute(fetched, word);
            let by_f = RV32F::spec_execute(f, fetched, word);
            &&& RV32I::recognizes(word) ==> spec_tick(s, f) == (by_base.0, f, outcome(by_base.1))
            &&& !RV32I::recognizes(word) && <RV32M as Extension<RV32I>>::claims(word)
                ==> spec_tick(s, f) == (by_m.0, f, TickResult::Nothing)
            &&& !RV32I::recognizes(word) && !<RV32M as Extension<RV32I>>::claims(word)
                && RV32F::claims(word) ==> spec_tick(s, f).0 == by_f.1 && spec_tick(s, f).1
                == by_f.0 && !(spec_tick(s, f).2 is Unsupported)
            &&& !RV32I::recognizes(word) && !<RV32M as Extension<RV32I>>::claims(word)
                && !RV32F::claims(word) ==> spec_tick(s, f) == (fetched, f, TickResult::Unsupported)
        }),
{
    let fetched = RV32I::spec_fetch(s).0;
    let word = RV32I::spec_fetch(s).1 as u32;
    RV32I::law_declined_is_untouched(fetched, word);
    RV32M::law_declined_is_untouched(fetched, word);
    RV32F::law_declined_is_untouched(f, fetched, word);
}

/// An environment call or break of the base engine ends the step at once:
/// the step reports it, and nothing but the program counter has changed.
pub proof fn law_traps_propagate(s: CoreState, f: Seq<u32>)
    ensures
        ({
            let fetched = RV32I::spec_fetch(s).0;
            let word = RV32I::spec_fetch(s).1 as u32;
            let by_base = RV32I::spec_execute(fetched, word).1;
            &&& by_base is ECall ==> spec_tick(s, f) == (fetched, f, TickResult::ECall)
            &&& by_base is EBreak ==> spec_tick(s, f) == (fetched, f, TickResult::EBreak)
            &&& (spec_tick(s, f).2 is ECall) == (by_base is ECall)
            &&& (spec_tick(s, f).2 is EBreak) == (by_base is EBreak)
        }),
{
    let fetched = RV32I::spec_fetch(s).0;
    let word = RV32I::spec_fetch(s).1 as u32;
    RV32I::law_traps_change_nothing(fetched, word);
    RV32I::law_declined_is_untouched(fetched, word);
    RV32M::law_declined_is_untouched(fetched, word);
}

/// With Zicsr installed, a word that the base engine, M and F decline falls
/// through to it: where it claims the word, the step is its own and the
/// float registers are untouched; where it declines too, nothing but the
/// program counter has changed. A word that one of the first three takes
/// never reaches it.
pub proof fn law_dispatch_reaches_csr(s: CoreState, f: Seq<u32>, csrs: Seq<u32>)
    ensures
        ({
            let fetched = RV32I::spec_fetch(s).0;
            let word = RV32I::spec_fetch(s).1 as u32;
            let by_csr = RVZICSR::spec_execute(csrs, fetched, word);
            let taken = RV32I::recognizes(word) || <RV32M as Extension<RV32I>>::claims(word)
                || RV32F::claims(word);
            &&& taken ==> spec_tick_csr(s, f, csrs) == (
                spec_tick(s, f).0,
                spec_tick(s, f).1,
                csrs,
                spec_tick(s, f).2,
            )
            &&& !taken && <RVZICSR as Extension<RV32I>>::claims(word) ==> spec_tick_csr(s, f, csrs)
                == (by_csr.1, f, by_csr.0, TickResult::Nothing)
            &&& !taken && !<RVZICSR as Extension<RV32I>>::claims(word) ==> spec_tick_csr(
                s,
                f,
                csrs,
            ) == (fetched, f, csrs, TickResult::Unsupported)
        }),
{
    let fetched = RV32I::spec_fetch(s).0;
    let word = RV32I::spec_fetch(s).1 as u32;
    RV32I::law_declined_is_untouched(fetched, word);
    RV32M::law_declined_is_untouched(fetched, word);
    RV32F::law_declined_is_untouched(f, fetched, word);
    RVZICSR::law_declined_is_untouched(csrs, fetched, word);
}

} // verus!
