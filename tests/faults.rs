use arcmem::fail::{abort, assert_holds, fail_, fail_bounds_check, out_of_memory, Fault};

#[test]
fn fault_messages() {
    assert_eq!(abort().message(), "aborted. no message.");
    assert_eq!(out_of_memory().message(), "out of memory");
    assert_eq!(fail_("x", "f.rs", 1).message(), "fail_");
    assert_eq!(fail_bounds_check("f.rs", 2, 5, 3).message(), "fail_bounds_check");
}

#[test]
fn fault_values() {
    assert_eq!(abort(), Fault::Aborted);
    assert_eq!(out_of_memory(), Fault::OutOfMemory);
    assert_eq!(fail_("x", "f.rs", 1), Fault::Failed);
    assert_eq!(fail_bounds_check("f.rs", 2, 5, 3), Fault::BoundsCheck { index: 5, len: 3 });
}

#[test]
fn assert_holds_on_true() {
    assert_holds(true);
}
