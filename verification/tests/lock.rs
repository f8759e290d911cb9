use spsc_cell::lock::AcquireStatus;
use spsc_cell::lock::GuardedCell;
use spsc_cell::restaurant::add_to_waitlist;
use spsc_cell::restaurant::eat_at_restaurant;

#[test]
fn fresh_cell_holds_its_initial_value() {
    let mut m = GuardedCell::new(5);
    assert_eq!(m.try_acquire(), AcquireStatus::Acquired);
    assert_eq!(m.read(), 5);
}

#[test]
fn acquire_is_exclusive_while_held() {
    let mut m = GuardedCell::new(0);
    assert_eq!(m.try_acquire(), AcquireStatus::Acquired);
    assert_eq!(m.try_acquire(), AcquireStatus::WouldBlock);
    assert_eq!(m.try_acquire(), AcquireStatus::WouldBlock);
}

#[test]
fn release_lets_the_next_holder_in() {
    let mut m = GuardedCell::new(1);
    assert_eq!(m.try_acquire(), AcquireStatus::Acquired);
    m.release();
    assert_eq!(m.try_acquire(), AcquireStatus::Acquired);
    assert_eq!(m.read(), 1);
}

#[test]
fn aborted_holder_poisons_every_later_acquire() {
    let mut m = GuardedCell::new(7);
    assert_eq!(m.try_acquire(), AcquireStatus::Acquired);
    m.poison();
    assert_eq!(m.try_acquire(), AcquireStatus::Poisoned);
    assert_eq!(m.try_acquire(), AcquireStatus::Poisoned);
}

#[test]
fn critical_section_turns_five_into_six() {
    let mut m = GuardedCell::new(5);
    assert_eq!(m.try_acquire(), AcquireStatus::Acquired);
    assert_eq!(m.read(), 5);
    m.write(6);
    m.release();
    assert_eq!(m.try_acquire(), AcquireStatus::Acquired);
    let v = m.read();
    m.release();
    assert_eq!(format!("{}", v), "6");
}

#[test]
fn restaurant_entry_points_run() {
    add_to_waitlist();
    eat_at_restaurant();
}
