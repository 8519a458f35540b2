use grbl_session::endpoint::{select_endpoint, EndpointDescriptor, EndpointKind, Refusal};

#[test]
fn descriptor_keeps_what_it_was_given() {
    let descriptor = EndpointDescriptor::new(String::from("/dev/ttyACM0"), EndpointKind::Serial);
    assert_eq!(descriptor.name(), "/dev/ttyACM0");
    assert_eq!(descriptor.kind(), EndpointKind::Serial);
    assert_eq!(descriptor, EndpointDescriptor::serial("/dev/ttyACM0"));
    assert_eq!(descriptor.clone(), descriptor);
}

#[test]
fn selection_with_program_and_port_is_the_serial_endpoint() {
    let answer = select_endpoint(false, Some("COM3"));
    assert_eq!(answer, Ok(EndpointDescriptor::serial("COM3")));
}

#[test]
fn selection_without_program_is_refused() {
    assert_eq!(select_endpoint(true, Some("COM3")), Err(Refusal::ProgramMissing));
}

#[test]
fn selection_without_port_is_refused() {
    assert_eq!(select_endpoint(false, None), Err(Refusal::EndpointMissing));
}

#[test]
fn missing_program_is_reported_before_missing_port() {
    assert_eq!(select_endpoint(true, None), Err(Refusal::ProgramMissing));
}

#[test]
fn refusal_messages() {
    assert_eq!(Refusal::ProgramMissing.message(), "Please import SVG-File first");
    assert_eq!(
        Refusal::EndpointMissing.message(),
        "Please select a port with a connected GrblHAL CNC"
    );
}
