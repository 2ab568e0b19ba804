use docker_sandbox::executable_mode_for;

#[test]
fn executable_bits_follow_ownership() {
    // Owner, group, and other executable bits, by ownership of the file.
    assert_eq!(executable_mode_for(1000, 1000, 1000, 1000), 0o500);
    assert_eq!(executable_mode_for(1000, 100, 1000, 0), 0o500);
    assert_eq!(executable_mode_for(0, 1000, 1000, 1000), 0o050);
    assert_eq!(executable_mode_for(0, 0, 1000, 1000), 0o005);
}
