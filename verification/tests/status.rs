use lib::cpu::status::Status;

#[test]
fn default_status_bits() {
    let status = Status::default();
    assert_eq!(status.bits(), Status::INTERRUPT_DISABLE | Status::UNUSED);
    assert!(status.contains(Status::UNUSED));
    assert!(!status.contains(Status::ZERO));
    assert!(status.contains(Status::ZERO | Status::UNUSED));
}
