//! The ports that are forwarded through the tunnel to the development
//! host. The tunnel itself is driven by the caller; this module keeps its
//! port table.

use vstd::prelude::*;
use vstd::string::StringExecFns;
use crate::text::{decimal_text, push_num};

verus! {

/// The direction of a forwarded port.
#[derive(Clone, Copy, Debug, PartialEq, Eq, Structural)]
pub enum PortType {
    Forward,
    Reverse,
}

/// One forwarded port.
#[derive(Clone, Copy, Debug, PartialEq, Eq, Structural)]
pub struct Port {
    pub port_type: PortType,
    pub local_port_num: u16,
    pub remote_port_num: u16,
}

impl Port {
    pub fn new(port_type: PortType, local_port_num: u16, remote_port_num: u16) -> (port: Self)
        ensures
            port == (Port { port_type, local_port_num, remote_port_num }),
    {
        Self { port_type, local_port_num, remote_port_num }
    }
}

/// What the tunnel can fail with.
#[derive(Debug, PartialEq)]
pub enum AdbError {
    Adb(String),
}

/// The ports that are to be forwarded, in the order in which they were
/// added. After a reconnect the tunnel restores them in this order.
pub struct PortTable {
    ports: Vec<Port>,
}

impl View for PortTable {
    type V = Seq<Port>;

    closed spec fn view(&self) -> Seq<Port> {
        self.ports@
    }
}

/// `ports[i]` is the first forward port on the local port `local_port`.
pub open spec fn first_forward(ports: Seq<Port>, local_port: u16, i: int) -> bool {
    &&& 0 <= i < ports.len()
    &&& ports[i].port_type == PortType::Forward && ports[i].local_port_num == local_port
    &&& forall|j: int|
        0 <= j < i ==> !((#[trigger] ports[j]).port_type == PortType::Forward
            && ports[j].local_port_num == local_port)
}

/// `ports[i]` is the first reverse port on the remote port `remote_port`.
pub open spec fn first_reverse(ports: Seq<Port>, remote_port: u16, i: int) -> bool {
    &&& 0 <= i < ports.len()
    &&& ports[i].port_type == PortType::Reverse && ports[i].remote_port_num == remote_port
    &&& forall|j: int|
        0 <= j < i ==> !((#[trigger] ports[j]).port_type == PortType::Reverse
            && ports[j].remote_port_num == remote_port)
}

impl PortTable {
    pub fn new() -> (table: Self)
        ensures
            table@ == Seq::<Port>::empty(),
    {
        PortTable { ports: Vec::new() }
    }

    /// Notes a port as forwarded.
    pub fn forward_port(&mut self, port_type: PortType, local_port: u16, remote_port: u16)
        ensures
            final(self)@ == old(self)@.push(
                Port { port_type, local_port_num: local_port, remote_port_num: remote_port },
            ),
    {
        self.ports.push(Port::new(port_type, local_port, remote_port));
    }

    /// The ports, in the order in which they were added.
    pub fn get_running_ports(&self) -> (ports: &Vec<Port>)
        ensures
            ports@ == self@,
    {
        &self.ports
    }

    /// The position of the first forward port on `local_port`. Where there
    /// is none, the error says that the local port is not in use.
    pub fn find_forward_port(&self, local_port: u16) -> (r: Result<usize, AdbError>)
        ensures
            match r {
                Ok(i) => first_forward(self@, local_port, i as int),
                Err(e) => (forall|j: int|
                    0 <= j < self@.len() ==> !((#[trigger] self@[j]).port_type == PortType::Forward
                        && self@[j].local_port_num == local_port)) && (e matches AdbError::Adb(m)
                    && m@ == "local port "@ + decimal_text(local_port as nat) + " is not in use"@),
            },
    {
        let n = self.ports.len();
        let mut i: usize = 0;
        while i < n
            invariant
                i <= n,
                n == self@.len(),
                forall|j: int|
                    0 <= j < i ==> !((#[trigger] self@[j]).port_type == PortType::Forward
                        && self@[j].local_port_num == local_port),
            decreases n - i,
        {
            let p = &self.ports[i];
            if p.port_type == PortType::Forward && p.local_port_num == local_port {
                return Ok(i);
            }
            i += 1;
        }
        let mut m = String::from_str("local port ");
        push_num(&mut m, local_port as u64);
        m.append(" is not in use");
        Err(AdbError::Adb(m))
    }

    /// The position of the first reverse port on `remote_port`. Where there
    /// is none, the error says that the remote port is not in use.
    pub fn find_reverse_port(&self, remote_port: u16) -> (r: Result<usize, AdbError>)
        ensures
            match r {
                Ok(i) => first_reverse(self@, remote_port, i as int),
                Err(e) => (forall|j: int|
                    0 <= j < self@.len() ==> !((#[trigger] self@[j]).port_type == PortType::Reverse
                        && self@[j].remote_port_num == remote_port)) && (e matches AdbError::Adb(m)
                    && m@ == "remote port "@ + decimal_text(remote_port as nat)
                    + " is not in use"@),
            },
    {
        let n = self.ports.len();
        let mut i: usize = 0;
        while i < n
            invariant
                i <= n,
                n == self@.len(),
                forall|j: int|
                    0 <= j < i ==> !((#[trigger] self@[j]).port_type == PortType::Reverse
                        && self@[j].remote_port_num == remote_port),
            decreases n - i,
        {
            let p = &self.ports[i];
            if p.port_type == PortType::Reverse && p.remote_port_num == remote_port {
                return Ok(i);
            }
            i += 1;
        }
        let mut m = String::from_str("remote port ");
        push_num(&mut m, remote_port as u64);
        m.append(" is not in use");
        Err(AdbError::Adb(m))
    }

    /// Drops the first forward port on `local_port`. Where there is none,
    /// the table stays as it was and the error says so.
    pub fn remove_forward_port(&mut self, local_port: u16) -> (r: Result<(), AdbError>)
        ensures
            r is Err ==> final(self)@ == old(self)@,
            r is Ok <==> exists|i: int| first_forward(old(self)@, local_port, i),
            forall|i: int| #[trigger]
                first_forward(old(self)@, local_port, i) ==> final(self)@ == old(self)@.remove(i),
            r matches Err(e) ==> (e matches AdbError::Adb(m) && m@ == "local port "@
                + decimal_text(local_port as nat) + " is not in use"@),
    {
        match self.find_forward_port(local_port) {
            Ok(i) => {
                proof {
                    assert forall|k: int| #[trigger]
                        first_forward(old(self)@, local_port, k) implies k == i by {
                        if k < i {
                            assert(old(self)@[k].port_type == PortType::Forward);
                        } else if i < k {
                            assert(old(self)@[i as int].port_type == PortType::Forward);
                        }
                    }
                }
                self.ports.remove(i);
                Ok(())
            },
            Err(e) => {
                proof {
                    assert forall|k: int| !first_forward(old(self)@, local_port, k) by {
                        if 0 <= k < old(self)@.len() {
                            assert(!(old(self)@[k].port_type == PortType::Forward && old(
                                self)@[k].local_port_num == local_port));
                        }
                    }
                }
                Err(e)
            },
        }
    }

    /// Drops the first reverse port on `remote_port`. Where there is none,
    /// the table stays as it was and the error says so.
    pub fn remove_reverse_port(&mut self, remote_port: u16) -> (r: Result<(), AdbError>)
        ensures
            r is Err ==> final(self)@ == old(self)@,
            r is Ok <==> exists|i: int| first_reverse(old(self)@, remote_port, i),
            forall|i: int| #[trigger]
                first_reverse(old(self)@, remote_port, i) ==> final(self)@ == old(self)@.remove(i),
            r matches Err(e) ==> (e matches AdbError::Adb(m) && m@ == "remote port "@
                + decimal_text(remote_port as nat) + " is not in use"@),
    {
        match self.find_reverse_port(remote_port) {
            Ok(i) => {
                proof {
                    assert forall|k: int| #[trigger]
                        first_reverse(old(self)@, remote_port, k) implies k == i by {
                        if k < i {
                            assert(old(self)@[k].port_type == PortType::Reverse);
                        } else if i < k {
                            assert(old(self)@[i as int].port_type == PortType::Reverse);
                        }
                    }
                }
                self.ports.remove(i);
                Ok(())
            },
            Err(e) => {
                proof {
                    assert forall|k: int| !first_reverse(old(self)@, remote_port, k) by {
                        if 0 <= k < old(self)@.len() {
                            assert(!(old(self)@[k].port_type == PortType::Reverse && old(
                                self)@[k].remote_port_num == remote_port));
                        }
                    }
                }
                Err(e)
            },
        }
    }
}

} // verus!
