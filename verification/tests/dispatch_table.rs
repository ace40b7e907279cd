use interruptions::table::DispatchTable;
use interruptions::table::Entry;
use interruptions::table::Handler;
use interruptions::table::BREAKPOINT_VECTOR;
use interruptions::table::DOUBLE_FAULT_VECTOR;
use interruptions::table::FIRST_INTERRUPT_VECTOR;
use interruptions::table::STACK_TABLE_ENTRIES;
use interruptions::table::TABLE_ENTRIES;
use interruptions::Interrupt;

#[test]
fn table_constants_are_the_architecture_s() {
    assert_eq!(TABLE_ENTRIES, 256);
    assert_eq!(BREAKPOINT_VECTOR, 3);
    assert_eq!(DOUBLE_FAULT_VECTOR, 8);
    assert_eq!(FIRST_INTERRUPT_VECTOR, 32);
    assert_eq!(STACK_TABLE_ENTRIES, 7);
}

#[test]
fn a_new_table_binds_nothing() {
    let table = DispatchTable::new();
    for vector in 0u8..=255 {
        assert_eq!(table.get(vector), Entry::Missing);
    }
}

#[test]
fn built_table_binds_exactly_three_vectors() {
    let table = DispatchTable::build(Interrupt::TIMER.as_u8(), 0);
    let mut bound = 0;
    for vector in 0u8..=255 {
        match vector {
            3 => assert_eq!(
                table.get(vector),
                Entry::Bound { handler: Handler::Breakpoint }
            ),
            8 => assert_eq!(
                table.get(vector),
                Entry::BoundOnStack { handler: Handler::DoubleFault, stack_index: 0 }
            ),
            32 => assert_eq!(table.get(vector), Entry::Bound { handler: Handler::Timer }),
            _ => assert_eq!(table.get(vector), Entry::Missing),
        }
        if table.get(vector) != Entry::Missing {
            bound += 1;
        }
    }
    assert_eq!(bound, 3);
}

#[test]
fn built_table_follows_the_timer_vector_and_the_stack() {
    let table = DispatchTable::build(255, 6);
    assert_eq!(table.get(255), Entry::Bound { handler: Handler::Timer });
    assert_eq!(table.get(32), Entry::Missing);
    assert_eq!(
        table.get(8),
        Entry::BoundOnStack { handler: Handler::DoubleFault, stack_index: 6 }
    );
    assert_eq!(table.get(3), Entry::Bound { handler: Handler::Breakpoint });
}

#[test]
fn double_fault_runs_on_its_own_stack() {
    let table = DispatchTable::build(32, 2);
    assert_eq!(table.get(DOUBLE_FAULT_VECTOR).stack_index(), Some(2));
    assert_eq!(table.get(DOUBLE_FAULT_VECTOR).bound_handler(), Some(Handler::DoubleFault));
    assert_eq!(table.get(BREAKPOINT_VECTOR).stack_index(), None);
    assert_eq!(table.get(BREAKPOINT_VECTOR).bound_handler(), Some(Handler::Breakpoint));
    assert_eq!(table.get(32).stack_index(), None);
    assert_eq!(table.get(33).bound_handler(), None);
    assert_eq!(table.get(33).stack_index(), None);
}

#[test]
fn set_handler_changes_one_slot() {
    let mut table = DispatchTable::new();
    table.set_handler(100, Handler::Timer);
    for vector in 0u8..=255 {
        if vector == 100 {
            assert_eq!(table.get(vector), Entry::Bound { handler: Handler::Timer });
        } else {
            assert_eq!(table.get(vector), Entry::Missing);
        }
    }
}

#[test]
fn set_handler_puts_the_routine_back_on_the_current_stack() {
    let mut table = DispatchTable::new();
    table.set_handler(8, Handler::DoubleFault);
    table.set_stack_index(8, 4);
    assert_eq!(
        table.get(8),
        Entry::BoundOnStack { handler: Handler::DoubleFault, stack_index: 4 }
    );
    table.set_stack_index(8, 1);
    assert_eq!(
        table.get(8),
        Entry::BoundOnStack { handler: Handler::DoubleFault, stack_index: 1 }
    );
    table.set_handler(8, Handler::DoubleFault);
    assert_eq!(table.get(8), Entry::Bound { handler: Handler::DoubleFault });
}

#[test]
fn handlers_fit_their_own_vectors_only() {
    assert!(Handler::Breakpoint.fits_vector(3));
    assert!(!Handler::Breakpoint.fits_vector(8));
    assert!(!Handler::Breakpoint.fits_vector(32));
    assert!(Handler::DoubleFault.fits_vector(8));
    assert!(!Handler::DoubleFault.fits_vector(3));
    assert!(!Handler::Timer.fits_vector(31));
    assert!(Handler::Timer.fits_vector(32));
    assert!(Handler::Timer.fits_vector(255));
    assert!(!Handler::Timer.fits_vector(3));
}
