use vstd::prelude::*;
use vstd::string::StringSliceAdditionalSpecFns;
use crate::console::Console;
use crate::console::crlf_expand;
use crate::console::hex_bytes;
use crate::console::uart_hex;
use crate::console::uart_puts;
use crate::gic::Gic;
use crate::gic::IAR_LINE_MASK;
use crate::gic::INTR_CNTV;
use crate::gic::gic_config_eq;
use crate::sched::Scheduler;
use crate::sched::sched_wf;
use crate::timer::Timer;
use crate::timer::arm_next;
use crate::timer::rearm_cval;
use crate::timer::timer_wf;

verus! {

/// The machine state the bring-up logic owns: the interrupt controller,
/// the periodic timer, the diagnostic console, the task dispatcher, the
/// tick counter, and the processor-level interrupt mask bit.
pub struct Kernel {
    pub gic: Gic,
    pub timer: Timer,
    pub con: Console,
    pub sched: Scheduler,
    pub ticks: u64,
    pub irq_masked: bool,
}

/// A well-formed kernel has a full controller register model, a usable
/// timer and a well-formed dispatcher.
pub open spec fn kernel_wf(k: Kernel) -> bool {
    &&& crate::gic::gic_wf(k.gic)
    &&& timer_wf(k.timer)
    &&& sched_wf(k.sched)
}

/// The tick counter one step later: incremented by one, wrapping silently
/// at the top of its range.
pub open spec fn wrap_inc(t: u64) -> u64 {
    ((t + 1) % (u64::MAX + 1)) as u64
}

/// The wrapping increment adds one everywhere except at the very top of
/// the range, where it returns to zero.
pub proof fn lemma_wrap_inc(t: u64)
    ensures
        wrap_inc(t) == (if t == u64::MAX {
            0u64
        } else {
            (t + 1) as u64
        }),
{
    if t == u64::MAX {
        vstd::arithmetic::div_mod::lemma_mod_self_0(u64::MAX as int + 1);
    } else {
        vstd::arithmetic::div_mod::lemma_small_mod((t + 1) as nat, (u64::MAX + 1) as nat);
    }
}

/// Read the tick counter. On hardware this is the one atomic load the main
/// loop performs against the interrupt path's store.
pub fn ticks(k: &Kernel) -> (t: u64)
    ensures
        t == k.ticks,
{
    k.ticks
}

/// Clear the processor-level interrupt mask, making the configured lines
/// deliverable. Called exactly once, after controller and timer setup.
pub fn irq_enable(k: &mut Kernel)
    ensures
        *final(k) == (Kernel { irq_masked: false, ..*old(k) }),
{
    k.irq_masked = false;
}

/// Service one interrupt: read the pending line id from the low bits of
/// the "current interrupt" value `iar`; when it is the virtual-timer line,
/// rearm the timer one period past the sampled counter `count` and count
/// one tick; unconditionally write the very value read back to the
/// end-of-interrupt register — exactly one such write per call — and
/// return the line id for diagnostics.
pub fn irq_ack_eoi(k: &mut Kernel, iar: u32, count: u64) -> (intid: u32)
    requires
        timer_wf(old(k).timer),
        iar & IAR_LINE_MASK == INTR_CNTV ==> rearm_cval(old(k).timer.freq, count) <= u64::MAX,
    ensures
        intid == iar & IAR_LINE_MASK,
        final(k).gic.eoir_writes@ == old(k).gic.eoir_writes@.push(iar),
        gic_config_eq(final(k).gic, old(k).gic),
        final(k).con.out@ == old(k).con.out@,
        final(k).sched == old(k).sched,
        final(k).irq_masked == old(k).irq_masked,
        iar & IAR_LINE_MASK == INTR_CNTV ==> {
            &&& final(k).ticks == wrap_inc(old(k).ticks)
            &&& final(k).timer.freq == old(k).timer.freq
            &&& final(k).timer.cval == rearm_cval(old(k).timer.freq, count)
            &&& final(k).timer.cval > count
            &&& final(k).timer.enabled
            &&& !final(k).timer.masked
        },
        iar & IAR_LINE_MASK != INTR_CNTV ==> {
            &&& final(k).ticks == old(k).ticks
            &&& final(k).timer == old(k).timer
        },
{
    let intid: u32 = iar & IAR_LINE_MASK;
    if intid == INTR_CNTV {
        arm_next(&mut k.timer, count);
        proof {
            lemma_wrap_inc(k.ticks);
        }
        k.ticks = k.ticks.wrapping_add(1);
    }
    k.gic.eoir_writes.push(iar);
    intid
}

/// The bytes of the diagnostic notice the interrupt entry emits once per
/// task switch: the serviced line id in brackets.
pub open spec fn switch_banner(intid: u32) -> Seq<u8> {
    crlf_expand(("[irq=").spec_bytes()) + hex_bytes(intid) + crlf_expand(("]").spec_bytes())
}

/// One scheduler decision as the interrupt path takes it when the tick
/// counter reads `t`: advance round-robin when `t` is a multiple of the
/// switch interval, keep the selection otherwise.
pub open spec fn sched_step(cur: int, t: u64, interval: u64, ntasks: int) -> int
    recommends
        interval > 0,
        ntasks > 0,
{
    if t % interval == 0 {
        (cur + 1) % ntasks
    } else {
        cur
    }
}

/// The interrupt entry point's work, in interrupt context: acknowledge and
/// service the interrupt, then, whenever the tick counter stands at a
/// multiple of the switch interval, advance the dispatcher one slot and
/// emit the switch notice.
pub fn irq_entry_rust(k: &mut Kernel, iar: u32, count: u64)
    requires
        kernel_wf(*old(k)),
        iar & IAR_LINE_MASK == INTR_CNTV ==> rearm_cval(old(k).timer.freq, count) <= u64::MAX,
    ensures
        kernel_wf(*final(k)),
        final(k).gic.eoir_writes@ == old(k).gic.eoir_writes@.push(iar),
        gic_config_eq(final(k).gic, old(k).gic),
        final(k).irq_masked == old(k).irq_masked,
        iar & IAR_LINE_MASK == INTR_CNTV ==> {
            &&& final(k).ticks == wrap_inc(old(k).ticks)
            &&& final(k).timer.freq == old(k).timer.freq
            &&& final(k).timer.cval == rearm_cval(old(k).timer.freq, count)
            &&& final(k).timer.cval > count
            &&& final(k).timer.enabled
            &&& !final(k).timer.masked
        },
        iar & IAR_LINE_MASK != INTR_CNTV ==> {
            &&& final(k).ticks == old(k).ticks
            &&& final(k).timer == old(k).timer
        },
        final(k).sched.tasks@ == old(k).sched.tasks@,
        final(k).sched.switch_interval == old(k).sched.switch_interval,
        final(k).sched.current as int == sched_step(
            old(k).sched.current as int,
            final(k).ticks,
            old(k).sched.switch_interval,
            old(k).sched.tasks@.len() as int,
        ),
        final(k).ticks % old(k).sched.switch_interval == 0 ==> final(k).con.out@ == old(
            k,
        ).con.out@ + switch_banner(iar & IAR_LINE_MASK),
        final(k).ticks % old(k).sched.switch_interval != 0 ==> final(k).con.out@ == old(
            k,
        ).con.out@,
{
    let intid: u32 = irq_ack_eoi(k, iar, count);
    let t: u64 = ticks(k);
    if t % k.sched.switch_interval == 0 {
        k.sched.advance();
        uart_puts(&mut k.con, "[irq=");
        uart_hex(&mut k.con, intid);
        uart_puts(&mut k.con, "]");
        proof {
            assert(old(k).con.out@ + crlf_expand(("[irq=").spec_bytes()) + hex_bytes(intid)
                + crlf_expand(("]").spec_bytes()) =~= old(k).con.out@ + switch_banner(intid));
        }
    }
}

/// The bytes the startup sequence writes to the console: a greeting line
/// and the current exception level `el`, ending in a raw line feed.
pub open spec fn boot_banner(el: u32) -> Seq<u8> {
    crlf_expand(("\nHello TRON (Rust) + 1ms IRQ\n").spec_bytes()) + crlf_expand(
        ("EL=").spec_bytes(),
    ) + hex_bytes(el) + seq![10u8]
}

/// The startup sequence run once, with interrupts still masked: greet over
/// the console and report the current exception level `el` (read from a
/// system register by the caller), configure the interrupt controller, arm
/// the timer's first period from the sampled counter `count`, and only then
/// clear the processor-level interrupt mask. The tick counter and the
/// dispatcher are left untouched.
pub fn boot_init(k: &mut Kernel, el: u32, count: u64)
    requires
        kernel_wf(*old(k)),
        rearm_cval(old(k).timer.freq, count) <= u64::MAX,
    ensures
        kernel_wf(*final(k)),
        final(k).con.out@ == old(k).con.out@ + boot_banner(el),
        final(k).gic.igroupr0 == old(k).gic.igroupr0 | crate::gic::PPI_BLOCK_MASK,
        final(k).gic.isenabler0 == old(k).gic.isenabler0 | crate::gic::PPI_BLOCK_MASK,
        forall|i: int|
            0 <= i < crate::gic::PRIO_WORD_LINES_24_27 ==> final(k).gic.ipriorityr@[i] == old(
                k,
            ).gic.ipriorityr@[i],
        final(k).gic.ipriorityr@[crate::gic::PRIO_WORD_LINES_24_27 as int] == old(
            k,
        ).gic.ipriorityr@[crate::gic::PRIO_WORD_LINES_24_27 as int]
            & crate::gic::PRIO_LINES_24_26_MASK,
        final(k).gic.ipriorityr@[crate::gic::PRIO_WORD_LINES_28_31 as int] == 0,
        final(k).gic.eoir_writes@ == old(k).gic.eoir_writes@,
        crate::gic::gic_configured(final(k).gic),
        final(k).timer.freq == old(k).timer.freq,
        final(k).timer.cval == rearm_cval(old(k).timer.freq, count),
        final(k).timer.cval > count,
        final(k).timer.enabled,
        !final(k).timer.masked,
        !final(k).irq_masked,
        final(k).ticks == old(k).ticks,
        final(k).sched == old(k).sched,
{
    uart_puts(&mut k.con, "\nHello TRON (Rust) + 1ms IRQ\n");
    uart_puts(&mut k.con, "EL=");
    uart_hex(&mut k.con, el);
    crate::console::uart_putc(&mut k.con, 10);
    crate::gic::gic_init(&mut k.gic);
    crate::timer::timer_start_1ms(&mut k.timer, count);
    irq_enable(k);
    proof {
        assert(k.con.out@ =~= old(k).con.out@ + boot_banner(el));
    }
}

/// The tick counter after `n` further correctly-acknowledged timer
/// interrupts starting from the value `t0`.
pub open spec fn ticks_after(t0: u64, n: nat) -> u64
    decreases n,
{
    if n == 0 {
        t0
    } else {
        wrap_inc(ticks_after(t0, (n - 1) as nat))
    }
}

/// The dispatcher selection after `n` timer interrupts, starting from slot
/// `c0` with the tick counter at `t0`: one `sched_step` decision per tick.
pub open spec fn selector_after(c0: int, t0: u64, interval: u64, ntasks: int, n: nat) -> int
    decreases n,
{
    if n == 0 {
        c0
    } else {
        sched_step(
            selector_after(c0, t0, interval, ntasks, (n - 1) as nat),
            ticks_after(t0, n),
            interval,
            ntasks,
        )
    }
}

/// Law: a run of `n` correctly-acknowledged timer interrupts starting from
/// tick value `t0` leaves the tick counter at `t0 + n`, modulo the
/// counter's wraparound range.
pub proof fn lemma_ticks_accumulate(t0: u64, n: nat)
    ensures
        ticks_after(t0, n) == (t0 + n) % (u64::MAX + 1),
    decreases n,
{
    if n == 0 {
        vstd::arithmetic::div_mod::lemma_small_mod(t0 as nat, (u64::MAX + 1) as nat);
    } else {
        lemma_ticks_accumulate(t0, (n - 1) as nat);
        vstd::arithmetic::div_mod::lemma_small_mod(1nat, (u64::MAX + 1) as nat);
        vstd::arithmetic::div_mod::lemma_add_mod_noop(
            t0 + n - 1,
            1,
            u64::MAX as int + 1,
        );
    }
}

/// Dividing by `d` steps up by one exactly at the multiples of `d`.
proof fn lemma_div_step(n: int, d: int)
    requires
        d > 0,
        n >= 1,
    ensures
        n % d == 0 ==> n / d == (n - 1) / d + 1,
        n % d != 0 ==> n / d == (n - 1) / d,
{
    vstd::arithmetic::div_mod::lemma_fundamental_div_mod(n, d);
    let q = n / d;
    let r = n % d;
    vstd::arithmetic::div_mod::lemma_mod_division_less_than_divisor(n, d);
    if r == 0 {
        assert((q - 1) * d == d * q - d) by (nonlinear_arith);
        vstd::arithmetic::div_mod::lemma_fundamental_div_mod_converse_div(n - 1, d, q - 1, d - 1);
    } else {
        assert(q * d == d * q) by (nonlinear_arith);
        vstd::arithmetic::div_mod::lemma_fundamental_div_mod_converse_div(n - 1, d, q, r - 1);
    }
}

/// Law: from any selection `c0` and any tick value `t0`, a run of `n`
/// timer interrupts whose window does not cross the tick counter's
/// wraparound advances the selector once per switch point crossed: it ends
/// at `(c0 + (t0 + n) / interval - t0 / interval) % ntasks`.
pub proof fn lemma_round_robin_from(c0: int, t0: u64, interval: u64, ntasks: int, n: nat)
    requires
        interval > 0,
        ntasks > 0,
        0 <= c0 < ntasks,
        t0 + n <= u64::MAX,
    ensures
        selector_after(c0, t0, interval, ntasks, n) == (c0 + (t0 + n) as int / interval as int
            - t0 as int / interval as int) % ntasks,
    decreases n,
{
    let i = interval as int;
    vstd::arithmetic::div_mod::lemma_small_mod((t0 + n) as nat, (u64::MAX + 1) as nat);
    lemma_ticks_accumulate(t0, n);
    if n == 0 {
        vstd::arithmetic::div_mod::lemma_small_mod(c0 as nat, ntasks as nat);
    } else {
        lemma_round_robin_from(c0, t0, interval, ntasks, (n - 1) as nat);
        vstd::arithmetic::div_mod::lemma_small_mod((t0 + n - 1) as nat, (u64::MAX + 1) as nat);
        lemma_ticks_accumulate(t0, (n - 1) as nat);
        let t = t0 + n as int;
        let q1 = (t - 1) / i;
        let q0 = t0 as int / i;
        lemma_div_step(t, i);
        if t % i == 0 {
            if ntasks == 1 {
                vstd::arithmetic::div_mod::lemma_mod_division_less_than_divisor(
                    (c0 + q1 - q0) % 1 + 1,
                    1,
                );
                vstd::arithmetic::div_mod::lemma_mod_division_less_than_divisor(
                    c0 + q1 - q0 + 1,
                    1,
                );
            } else {
                vstd::arithmetic::div_mod::lemma_small_mod(1nat, ntasks as nat);
                vstd::arithmetic::div_mod::lemma_add_mod_noop(c0 + q1 - q0, 1, ntasks);
            }
        }
    }
}

/// Law: starting from slot 0 with the tick counter at 0, after `n` timer
/// interrupts the dispatcher selects slot `(n / interval) % ntasks` — the
/// slots are visited in strict round-robin order, each held for `interval`
/// ticks.
pub proof fn lemma_round_robin(interval: u64, ntasks: int, n: nat)
    requires
        interval > 0,
        ntasks > 0,
        n <= u64::MAX,
    ensures
        selector_after(0, 0, interval, ntasks, n) == (n as int / interval as int) % ntasks,
{
    lemma_round_robin_from(0, 0, interval, ntasks, n);
    vstd::arithmetic::div_mod::lemma_div_of0(interval as int);
}

/// Law: from any state, the dispatcher returns to its current slot after
/// exactly `ntasks * interval` further timer ticks, provided the tick
/// counter does not wrap inside that window: the rotation's period is
/// `ntasks * interval` ticks.
pub proof fn lemma_round_robin_period(c0: int, t0: u64, interval: u64, ntasks: int)
    requires
        interval > 0,
        ntasks > 0,
        0 <= c0 < ntasks,
        t0 + ntasks * (interval as int) <= u64::MAX,
    ensures
        selector_after(c0, t0, interval, ntasks, (ntasks * (interval as int)) as nat) == c0,
{
    let i = interval as int;
    let p = ntasks * i;
    assert(p >= i > 0) by (nonlinear_arith)
        requires
            ntasks > 0,
            i > 0,
            p == ntasks * i,
    ;
    lemma_round_robin_from(c0, t0, interval, ntasks, p as nat);
    vstd::arithmetic::div_mod::lemma_hoist_over_denominator(t0 as int, ntasks, interval as nat);
    vstd::arithmetic::div_mod::lemma_mod_add_multiples_vanish(c0, ntasks);
    vstd::arithmetic::div_mod::lemma_small_mod(c0 as nat, ntasks as nat);
}

} // verus!
