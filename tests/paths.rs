use port_forward::config::{Arguments, ForwardingRule};
use port_forward::paths::expand_home_dir;

#[test]
fn tilde_alone_is_home() {
    assert_eq!(expand_home_dir("~", "/home/ann"), "/home/ann");
}

#[test]
fn tilde_slash_goes_inside_home() {
    assert_eq!(expand_home_dir("~/.ssh/id_ed25519", "/home/ann"), "/home/ann/.ssh/id_ed25519");
    assert_eq!(expand_home_dir("~/.ssh/id_ed25519", "/home/ann/"), "/home/ann/.ssh/id_ed25519");
    assert_eq!(expand_home_dir("~/", "/root"), "/root/");
}

#[test]
fn other_paths_are_kept() {
    assert_eq!(expand_home_dir("/etc/ssh/key", "/home/ann"), "/etc/ssh/key");
    assert_eq!(expand_home_dir("~bob/key", "/home/ann"), "~bob/key");
    assert_eq!(expand_home_dir("keys/~/id", "/home/ann"), "keys/~/id");
    assert_eq!(expand_home_dir("", "/home/ann"), "");
}

fn sample_args() -> Arguments {
    Arguments {
        user: "root".to_string(),
        ip: [10, 0, 0, 5],
        remote_port: 8000,
        local_port: 9876,
        private_key_path: "~/.ssh/id_ed25519".to_string(),
        public_key_path: Some("~/.ssh/id_ed25519.pub".to_string()),
    }
}

#[test]
fn forwarding_rule_from_arguments() {
    let rule = sample_args().forwarding_rule();
    assert_eq!(
        rule,
        ForwardingRule {
            local_ip: [127, 0, 0, 1],
            local_port: 9876,
            remote_ip: [10, 0, 0, 5],
            ssh_port: 22,
            remote_port: 8000,
        }
    );
}

#[test]
fn key_paths_are_expanded() {
    let (private_key, public_key) = sample_args().key_paths("/home/ann");
    assert_eq!(private_key, "/home/ann/.ssh/id_ed25519");
    assert_eq!(public_key, Some("/home/ann/.ssh/id_ed25519.pub".to_string()));

    let mut args = sample_args();
    args.public_key_path = None;
    args.private_key_path = "/keys/id".to_string();
    let (private_key, public_key) = args.key_paths("/home/ann");
    assert_eq!(private_key, "/keys/id");
    assert_eq!(public_key, None);
}
