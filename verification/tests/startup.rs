use stm32f429_bringup::startup_stm32f429zi::{
    Handler, VECTOR_ENTRY_COUNT, VectorTable, run_startup, startup_copy_data, startup_zero_bss,
    stm32f429zi_vector_table,
};

// The copy phase: a source image of K words and a destination range of
// exactly K words leave the destination identical to the source, and no
// word outside the destination range is touched.
#[test]
fn copy_phase_copies_exactly() {
    let mut arena: Vec<u32> = vec![0; 16];
    for i in 0..4 {
        arena[i] = (i as u32) + 100;
    }
    arena[4] = 0xAAAA;
    arena[9] = 0xBBBB;

    startup_copy_data(&mut arena, 0, 5, 4);

    // Destination identical to the source image.
    assert_eq!(&arena[5..9], &[100, 101, 102, 103]);
    // Source untouched.
    assert_eq!(&arena[0..4], &[100, 101, 102, 103]);
    // Neighbours of the destination untouched.
    assert_eq!(arena[4], 0xAAAA);
    assert_eq!(arena[9], 0xBBBB);
    for i in 10..16 {
        assert_eq!(arena[i], 0);
    }
}

#[test]
fn copy_phase_empty_range() {
    let mut arena: Vec<u32> = vec![7; 8];
    startup_copy_data(&mut arena, 0, 4, 0);
    assert_eq!(arena, vec![7; 8]);
}

// The zero phase: all M words of the range end up zero and no word
// outside the range is touched.
#[test]
fn zero_phase_zeroes_exactly() {
    let mut arena: Vec<u32> = vec![0xFFFF_FFFF; 10];
    startup_zero_bss(&mut arena, 3, 4);
    assert_eq!(
        arena,
        vec![
            0xFFFF_FFFF,
            0xFFFF_FFFF,
            0xFFFF_FFFF,
            0,
            0,
            0,
            0,
            0xFFFF_FFFF,
            0xFFFF_FFFF,
            0xFFFF_FFFF,
        ]
    );
}

#[test]
fn zero_phase_empty_range() {
    let mut arena: Vec<u32> = vec![5; 6];
    startup_zero_bss(&mut arena, 2, 0);
    assert_eq!(arena, vec![5; 6]);
}

#[test]
fn startup_runs_copy_then_zero() {
    // Layout: image at words 0..3, live data at words 4..7, zero region
    // at words 8..10, one untouched word at 11.
    let mut arena: Vec<u32> = vec![0xEEEE_EEEE; 12];
    arena[0] = 11;
    arena[1] = 22;
    arena[2] = 33;

    run_startup(&mut arena, 0, 4, 3, 8, 3);

    assert_eq!(&arena[4..7], &[11, 22, 33]);
    assert_eq!(&arena[8..11], &[0, 0, 0]);
    assert_eq!(arena[3], 0xEEEE_EEEE);
    assert_eq!(arena[7], 0xEEEE_EEEE);
    assert_eq!(arena[11], 0xEEEE_EEEE);
}

// Every vector-table index never assigned a handler resolves to the
// default trap.
#[test]
fn unassigned_slots_resolve_to_default_trap() {
    let table = VectorTable::new();
    for i in 0..VECTOR_ENTRY_COUNT {
        assert_eq!(table.resolve(i), Handler::DefaultTrap);
    }
}

#[test]
fn set_handler_resolves_and_leaves_others() {
    let mut table = VectorTable::new();
    table.set_handler(2, Handler::HardFault);
    assert_eq!(table.resolve(2), Handler::HardFault);
    assert_eq!(table.resolve(1), Handler::DefaultTrap);
    assert_eq!(table.resolve(3), Handler::DefaultTrap);

    // Re-assigning a slot keeps only the last handler.
    table.set_handler(2, Handler::Nmi);
    assert_eq!(table.resolve(2), Handler::Nmi);
}

#[test]
fn stock_table_layout() {
    let table = stm32f429zi_vector_table();

    assert_eq!(table.resolve(0), Handler::Reset);
    assert_eq!(table.resolve(1), Handler::Nmi);
    assert_eq!(table.resolve(2), Handler::HardFault);
    assert_eq!(table.resolve(3), Handler::MemManage);
    assert_eq!(table.resolve(4), Handler::BusFault);
    assert_eq!(table.resolve(5), Handler::UsageFault);
    assert_eq!(table.resolve(10), Handler::SvCall);
    assert_eq!(table.resolve(11), Handler::DebugMon);
    assert_eq!(table.resolve(13), Handler::PendSv);
    assert_eq!(table.resolve(14), Handler::SysTick);

    // The architecturally reserved positions fall back to the trap.
    for i in [6, 7, 8, 9, 12] {
        assert_eq!(table.resolve(i), Handler::DefaultTrap);
    }

    // Peripheral interrupts sit at slot 15 plus their IRQ number.
    assert_eq!(table.resolve(15), Handler::Irq(0));
    assert_eq!(table.resolve(15 + 5), Handler::Irq(5));
    assert_eq!(table.resolve(VECTOR_ENTRY_COUNT - 1), Handler::Irq(90));
}
