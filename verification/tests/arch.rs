use minidump::Architecture;
use minidump::Error;

#[test]
fn parses_x86() {
    assert_eq!(Architecture::parse("x86").unwrap(), Architecture::X86);
}

#[test]
fn parses_x86_64() {
    assert_eq!(Architecture::parse("x86_64").unwrap(), Architecture::X86_64);
}

#[test]
fn parses_arm64() {
    assert_eq!(Architecture::parse("arm64").unwrap(), Architecture::Arm64);
}

#[test]
fn parses_armv7() {
    assert_eq!(Architecture::parse("armv7").unwrap(), Architecture::ArmV7);
}

#[test]
fn parses_armv7f() {
    assert_eq!(Architecture::parse("armv7f").unwrap(), Architecture::ArmV7f);
}

#[test]
fn rejects_unknown_name() {
    assert_eq!(
        Architecture::parse("sparc").unwrap_err(),
        Error::UnrecognizedArchitecture
    );
}

#[test]
fn rejects_case_mismatch() {
    assert_eq!(
        Architecture::parse("X86").unwrap_err(),
        Error::UnrecognizedArchitecture
    );
}

#[test]
fn rejects_empty_name() {
    assert_eq!(
        Architecture::parse("").unwrap_err(),
        Error::UnrecognizedArchitecture
    );
}

#[test]
fn dwarf_section_new_keeps_fields() {
    let bytes = [1u8, 2, 3];
    let section = minidump::DwarfSection::new(&bytes, 42);
    assert_eq!(section.offset, 42);
    assert_eq!(section.data, &bytes);
}
