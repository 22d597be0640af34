//! Peer addresses: a node, and the process on it that speaks the protocol.

use vstd::prelude::*;
use vstd::string::*;

verus! {

/// Identifies a process on a node by its own name, its package and the
/// publisher of the package.
#[derive(Debug, PartialEq, Eq)]
pub struct ProcessId {
    pub process_name: String,
    pub package_name: String,
    pub publisher_node: String,
}

/// What a `ProcessId` stands for in contracts.
pub struct ProcessIdView {
    pub process_name: Seq<char>,
    pub package_name: Seq<char>,
    pub publisher_node: Seq<char>,
}

impl View for ProcessId {
    type V = ProcessIdView;

    open spec fn view(&self) -> ProcessIdView {
        ProcessIdView {
            process_name: self.process_name@,
            package_name: self.package_name@,
            publisher_node: self.publisher_node@,
        }
    }
}

impl Clone for ProcessId {
    fn clone(&self) -> (copy: Self)
        ensures
            copy == *self,
    {
        ProcessId {
            process_name: self.process_name.clone(),
            package_name: self.package_name.clone(),
            publisher_node: self.publisher_node.clone(),
        }
    }
}

impl ProcessIdView {
    /// The package of the process, written `package:publisher`.
    pub open spec fn package_id(self) -> Seq<char> {
        self.package_name + ":"@ + self.publisher_node
    }
}

impl ProcessId {
    pub fn new(process_name: &str, package_name: &str, publisher_node: &str) -> (id: ProcessId)
        ensures
            id@ == (ProcessIdView {
                process_name: process_name@,
                package_name: package_name@,
                publisher_node: publisher_node@,
            }),
    {
        ProcessId {
            process_name: String::from_str(process_name),
            package_name: String::from_str(package_name),
            publisher_node: String::from_str(publisher_node),
        }
    }

    /// The package of the process, written `package:publisher`.
    pub fn package_id(&self) -> (text: String)
        ensures
            text@ == self@.package_id(),
    {
        let mut text = self.package_name.clone();
        text.append(":");
        text.append(self.publisher_node.as_str());
        text
    }
}

/// A peer: a node and a process on it.
#[derive(Debug, PartialEq, Eq)]
pub struct Address {
    pub node: String,
    pub process: ProcessId,
}

/// What an `Address` stands for in contracts.
pub struct AddressView {
    pub node: Seq<char>,
    pub process: ProcessIdView,
}

impl View for Address {
    type V = AddressView;

    open spec fn view(&self) -> AddressView {
        AddressView { node: self.node@, process: self.process@ }
    }
}

impl Clone for Address {
    fn clone(&self) -> (copy: Self)
        ensures
            copy == *self,
    {
        Address { node: self.node.clone(), process: self.process.clone() }
    }
}

impl Address {
    pub fn new(node: &str, process: ProcessId) -> (address: Address)
        ensures
            address@ == (AddressView { node: node@, process: process@ }),
    {
        Address { node: String::from_str(node), process }
    }
}

} // verus!
