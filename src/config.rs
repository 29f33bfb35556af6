use vstd::prelude::*;

use crate::paths::{expand_home_dir, expanded};

verus! {

/// The port of the transport service on the remote host.
pub const SSH_PORT: u16 = 22;

/// The forwarder's settings, as given on the command line.
#[derive(Debug)]
pub struct Arguments {
    /// The user to connect as on the remote host.
    pub user: String,
    /// The IPv4 address of the remote host, octet by octet.
    pub ip: [u8; 4],
    /// The port on the remote host to forward to.
    pub remote_port: u16,
    /// The local port to listen on.
    pub local_port: u16,
    /// The private key used to authenticate; may start with `~`.
    pub private_key_path: String,
    /// The matching public key, if given; may start with `~`.
    pub public_key_path: Option<String>,
}

/// What is forwarded where: fixed for the life of the process.
#[derive(PartialEq, Eq, Clone, Copy, Debug)]
pub struct ForwardingRule {
    /// The local address to listen on (loopback).
    pub local_ip: [u8; 4],
    pub local_port: u16,
    /// The remote host and the port of its transport service.
    pub remote_ip: [u8; 4],
    pub ssh_port: u16,
    /// The port that channels open to, on the remote host's loopback.
    pub remote_port: u16,
}

impl Arguments {
    /// The forwarding rule these settings describe.
    pub fn forwarding_rule(&self) -> (r: ForwardingRule)
        ensures
            r.local_ip == [127u8, 0u8, 0u8, 1u8],
            r.local_port == self.local_port,
            r.remote_ip == self.ip,
            r.ssh_port == SSH_PORT,
            r.remote_port == self.remote_port,
    {
        ForwardingRule {
            local_ip: [127, 0, 0, 1],
            local_port: self.local_port,
            remote_ip: self.ip,
            ssh_port: SSH_PORT,
            remote_port: self.remote_port,
        }
    }

    /// The key paths with a leading `~` taken against `home`.
    pub fn key_paths(&self, home: &str) -> (r: (String, Option<String>))
        ensures
            r.0@ == expanded(self.private_key_path@, home@),
            r.1 is Some <==> self.public_key_path is Some,
            self.public_key_path is Some ==> r.1->Some_0@ == expanded(
                self.public_key_path->Some_0@,
                home@,
            ),
    {
        let private_key = expand_home_dir(self.private_key_path.as_str(), home);
        let public_key = match &self.public_key_path {
            Some(p) => Some(expand_home_dir(p.as_str(), home)),
            None => None,
        };
        (private_key, public_key)
    }
}

} // verus!
