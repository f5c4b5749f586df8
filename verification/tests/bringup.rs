use bringup::console::Console;
use bringup::console::uart_hex;
use bringup::console::uart_putc;
use bringup::console::uart_puts;
use bringup::gic::Gic;
use bringup::kapi::T_CTSK;
use bringup::kapi::tk_cre_tsk;
use bringup::kapi::tk_sta_tsk;
use bringup::kapi::tk_slp_tsk;
use bringup::kernel::Kernel;
use bringup::kernel::irq_ack_eoi;
use bringup::kernel::irq_enable;
use bringup::kernel::irq_entry_rust;
use bringup::kernel::ticks;
use bringup::sched::Scheduler;
use bringup::sched::TaskId;
use bringup::timer::Timer;
use bringup::timer::arm_next;
use bringup::timer::timer_start_1ms;

const VTIMER_LINE: u32 = 27;

fn fresh_gic() -> Gic {
    Gic {
        igroupr0: 0,
        ipriorityr: vec![0xFFFF_FFFF; 8],
        isenabler0: 0,
        dist_ctlr: 0,
        pmr: 0,
        cpu_ctlr: 0,
        eoir_writes: Vec::new(),
    }
}

fn fresh_kernel(switch_interval: u64) -> Kernel {
    Kernel {
        gic: fresh_gic(),
        timer: Timer { freq: 62_500_000, cval: 0, enabled: false, masked: true },
        con: Console { out: Vec::new() },
        sched: Scheduler {
            tasks: vec![TaskId::A, TaskId::B],
            current: 0,
            switch_interval,
        },
        ticks: 0,
        irq_masked: true,
    }
}

#[test]
fn ticks_accumulate_over_timer_interrupts() {
    let mut k = fresh_kernel(100);
    k.ticks = 5;
    for i in 0..10u64 {
        let id = irq_ack_eoi(&mut k, VTIMER_LINE, i * 1000);
        assert_eq!(id, VTIMER_LINE);
    }
    assert_eq!(ticks(&k), 15);
}

#[test]
fn ticks_wrap_silently_at_counter_top() {
    let mut k = fresh_kernel(100);
    k.ticks = u64::MAX;
    irq_ack_eoi(&mut k, VTIMER_LINE, 0);
    assert_eq!(k.ticks, 0);
}

#[test]
fn eoi_written_once_with_the_id_read() {
    let mut k = fresh_kernel(100);
    // High bits beyond the line id must be written back untouched.
    let iar: u32 = 0x0000_041B; // line 27 plus a high bit
    let id = irq_ack_eoi(&mut k, iar, 0);
    assert_eq!(id, VTIMER_LINE);
    assert_eq!(k.gic.eoir_writes, vec![iar]);
    let id2 = irq_ack_eoi(&mut k, 30, 0);
    assert_eq!(id2, 30);
    assert_eq!(k.gic.eoir_writes, vec![iar, 30]);
}

#[test]
fn non_timer_interrupt_keeps_tick_and_timer() {
    let mut k = fresh_kernel(100);
    k.ticks = 7;
    let cval_before = k.timer.cval;
    let id = irq_ack_eoi(&mut k, 30, 12345);
    assert_eq!(id, 30);
    assert_eq!(k.ticks, 7);
    assert_eq!(k.timer.cval, cval_before);
    assert!(!k.timer.enabled);
    assert_eq!(k.gic.eoir_writes, vec![30]);
}

#[test]
fn arm_next_compare_strictly_ahead_of_sample() {
    let mut t = Timer { freq: 62_500_000, cval: 0, enabled: false, masked: true };
    arm_next(&mut t, 1000);
    assert_eq!(t.cval, 1000 + 62_500);
    assert!(t.cval > 1000);
    assert!(t.enabled);
    assert!(!t.masked);
}

#[test]
fn timer_start_1ms_programs_first_period() {
    let mut t = Timer { freq: 1000, cval: 0, enabled: false, masked: true };
    timer_start_1ms(&mut t, 41);
    assert_eq!(t.cval, 42);
    assert!(t.enabled);
    assert!(!t.masked);
}

#[test]
fn gic_init_configures_block_and_preserves_other_lines() {
    let mut g = fresh_gic();
    g.igroupr0 = 0x5;
    g.isenabler0 = 0x2;
    g.ipriorityr = vec![
        0x1111_1111,
        0x2222_2222,
        0x3333_3333,
        0x4444_4444,
        0x5555_5555,
        0x6666_6666,
        0xAABB_CCDD,
        0x9999_9999,
    ];
    bringup::gic::gic_init(&mut g);
    assert_eq!(g.igroupr0, 0x5 | 0xF800_0000);
    // Lines 0..=26 keep their priorities; only the block's bytes are
    // zeroed: the top byte of the word for lines 24..=27 (line 27) and the
    // whole word for lines 28..=31.
    assert_eq!(
        g.ipriorityr,
        vec![
            0x1111_1111,
            0x2222_2222,
            0x3333_3333,
            0x4444_4444,
            0x5555_5555,
            0x6666_6666,
            0x00BB_CCDD,
            0,
        ]
    );
    assert_eq!(g.isenabler0, 0x2 | 0xF800_0000);
    assert_eq!(g.dist_ctlr, 0b11);
    assert_eq!(g.pmr, 0xFF);
    assert_eq!(g.cpu_ctlr, 0b11);
    assert!(g.eoir_writes.is_empty());
}

#[test]
fn write_text_expands_line_feed() {
    let mut con = Console { out: Vec::new() };
    uart_puts(&mut con, "a\nb");
    assert_eq!(con.out, vec![b'a', b'\r', b'\n', b'b']);
}

#[test]
fn write_byte_appends_verbatim() {
    let mut con = Console { out: Vec::new() };
    uart_putc(&mut con, b'\n');
    uart_putc(&mut con, b'x');
    assert_eq!(con.out, vec![b'\n', b'x']);
}

#[test]
fn hex_is_eight_uppercase_digits_msb_first() {
    let mut con = Console { out: Vec::new() };
    uart_hex(&mut con, 0xDEADBEEF);
    assert_eq!(con.out, b"DEADBEEF".to_vec());
    con.out.clear();
    uart_hex(&mut con, 0);
    assert_eq!(con.out, b"00000000".to_vec());
    con.out.clear();
    uart_hex(&mut con, 0x1B);
    assert_eq!(con.out, b"0000001B".to_vec());
}

#[test]
fn placeholder_api_returns_canned_values() {
    let packet = T_CTSK { task: 0xdead, stksz: 4096, itskpri: 1, exinf: 0 };
    assert_eq!(tk_cre_tsk(&packet), 1);
    let other = T_CTSK { task: 0, stksz: 0, itskpri: 99, exinf: 7 };
    assert_eq!(tk_cre_tsk(&other), 1);
    assert_eq!(tk_sta_tsk(1, 0), 0);
    assert_eq!(tk_sta_tsk(-5, 42), 0);
    assert_eq!(tk_slp_tsk(10), 0);
    assert_eq!(tk_slp_tsk(-1), 0);
}

#[test]
fn placeholder_api_changes_no_kernel_state() {
    let mut k = fresh_kernel(100);
    k.ticks = 3;
    let packet = T_CTSK { task: 1, stksz: 2, itskpri: 3, exinf: 4 };
    tk_cre_tsk(&packet);
    tk_sta_tsk(1, 0);
    tk_slp_tsk(5);
    assert_eq!(k.ticks, 3);
    assert_eq!(k.sched.current, 0);
    assert!(k.gic.eoir_writes.is_empty());
    assert!(k.con.out.is_empty());
}

#[test]
fn boot_init_greets_configures_and_unmasks() {
    let mut k = fresh_kernel(100);
    bringup::kernel::boot_init(&mut k, 0x4, 500);
    assert_eq!(
        k.con.out,
        b"\r\nHello TRON (Rust) + 1ms IRQ\r\nEL=00000004\n".to_vec()
    );
    assert_eq!(k.gic.igroupr0, 0xF800_0000);
    assert_eq!(k.gic.isenabler0, 0xF800_0000);
    // The fresh bank is all-ones: the six low words stay, the block's
    // bytes (line 27's and the word for lines 28..=31) are zeroed.
    let mut expected_prio = vec![0xFFFF_FFFFu32; 6];
    expected_prio.push(0x00FF_FFFF);
    expected_prio.push(0);
    assert_eq!(k.gic.ipriorityr, expected_prio);
    assert_eq!(k.gic.pmr, 0xFF);
    assert_eq!(k.gic.dist_ctlr, 0b11);
    assert_eq!(k.gic.cpu_ctlr, 0b11);
    assert_eq!(k.timer.cval, 500 + 62_500);
    assert!(k.timer.enabled);
    assert!(!k.timer.masked);
    assert!(!k.irq_masked);
    assert_eq!(k.ticks, 0);
    assert_eq!(k.sched.current, 0);
}

#[test]
fn irq_enable_clears_only_the_mask() {
    let mut k = fresh_kernel(100);
    k.ticks = 9;
    irq_enable(&mut k);
    assert!(!k.irq_masked);
    assert_eq!(k.ticks, 9);
    assert_eq!(k.sched.current, 0);
}
