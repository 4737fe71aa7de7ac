use nes6502::processor_status::ProcessorStatus;
use nes6502::processor_status::ProcessorStatusFlags;

#[test]
fn set_flag() {
    let mut status = ProcessorStatus(0);
    status.set_flag_true(ProcessorStatusFlags::CarryFlag);

    assert_eq!(status.has_flag_set(ProcessorStatusFlags::CarryFlag), true);

    status.set_flag_true(ProcessorStatusFlags::DecimalMode);
    assert_eq!(status.has_flag_set(ProcessorStatusFlags::DecimalMode), true);

    status.set_flag_false(ProcessorStatusFlags::DecimalMode);
    assert_eq!(status.has_flag_set(ProcessorStatusFlags::DecimalMode), false);
}

#[test]
fn toggle_flag() {
    let mut status = ProcessorStatus(0);
    status.set_flag_true(ProcessorStatusFlags::BreakCommand);
    assert_eq!(status.has_flag_set(ProcessorStatusFlags::BreakCommand), true);

    status.toggle_flag(ProcessorStatusFlags::BreakCommand);
    assert_eq!(status.has_flag_set(ProcessorStatusFlags::BreakCommand), false);
}

#[test]
fn zero_flags() {
    let mut status = ProcessorStatus(0);

    status.update_zero_and_negative_flags(2);
    assert_eq!(status.has_flag_set(ProcessorStatusFlags::ZeroFlag), false);

    status.update_zero_and_negative_flags(0);
    assert_eq!(status.has_flag_set(ProcessorStatusFlags::ZeroFlag), true);
}

#[test]
fn sign_flags() {
    let mut status = ProcessorStatus(0);

    // The binary representation of a u8 with the sign bit on (it holds -2).
    status.update_zero_and_negative_flags(0b1000_0010);
    assert_eq!(status.has_flag_set(ProcessorStatusFlags::Negative), true);

    status.update_zero_and_negative_flags(30);
    assert_eq!(status.has_flag_set(ProcessorStatusFlags::Negative), false);
}
