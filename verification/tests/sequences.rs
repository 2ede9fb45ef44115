use sandplot::command::{Command, LINE_END};
use sandplot::shutdown::{shutdown_command, shutdown_commands, SHUTDOWN_LENGTH};
use sandplot::startup::startup_commands;

#[test]
fn command_keeps_its_text() {
    let command = Command::from_text("G28");
    assert_eq!(command.as_bytes(), b"G28");
    assert_eq!(command.len(), 3);
    assert_eq!(Command::new(b"M84".to_vec()).as_bytes(), b"M84");
    assert_eq!(Command::from_text("").len(), 0);
}

#[test]
fn frame_appends_one_line_end() {
    assert_eq!(LINE_END, b'\n');
    assert_eq!(Command::from_text("G28").frame(), b"G28\n");
    assert_eq!(Command::from_text("").frame(), b"\n");
    assert_eq!(Command::from_text("G1 X0 Y0 Z50 F8000").frame(), b"G1 X0 Y0 Z50 F8000\n");
}

#[test]
fn duplicate_has_the_same_text() {
    let command = Command::from_text("M107 S1");
    assert_eq!(command.duplicate().as_bytes(), command.as_bytes());
}

#[test]
fn shutdown_homes_then_stops_fan_then_motors() {
    let commands = shutdown_commands();
    let texts: Vec<&[u8]> = commands.iter().map(Command::as_bytes).collect();
    assert_eq!(texts, vec![&b"G28"[..], &b"M107"[..], &b"M84"[..]]);
    assert_eq!(commands.len(), SHUTDOWN_LENGTH as usize);
    for index in 0..SHUTDOWN_LENGTH {
        assert_eq!(shutdown_command(index).as_bytes(), commands[index as usize].as_bytes());
    }
}

#[test]
fn startup_stops_fan_homes_and_hovers() {
    let commands = startup_commands();
    let texts: Vec<&[u8]> = commands.iter().map(Command::as_bytes).collect();
    assert_eq!(texts, vec![&b"M107 S1"[..], &b"G28"[..], &b"G1 X0 Y0 Z50 F8000"[..]]);
}
