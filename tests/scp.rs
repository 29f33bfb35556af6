use port_forward::scp::scp_header;

#[test]
fn scp_header_announces_mode_length_and_name() {
    assert_eq!(scp_header(0o644, 12, "notes.txt"), b"C0644 12 notes.txt\n".to_vec());
    assert_eq!(scp_header(0o755, 0, "run.sh"), b"C0755 0 run.sh\n".to_vec());
    assert_eq!(scp_header(0, 1234567, "a"), b"C00 1234567 a\n".to_vec());
    assert_eq!(scp_header(0o7, 10, "b c"), b"C07 10 b c\n".to_vec());
}
