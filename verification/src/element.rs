//! Elements: the addressable parts of a node, which hand the access
//! messages addressed to them to their models.
use vstd::prelude::*;
use crate::pdu::access::Opcode;

verus! {

/// Why an element could not handle a message.
#[derive(PartialEq, Eq, Structural, Clone, Copy, Debug)]
pub enum ElementError {
    NotConnected,
}

/// Where an element sends the messages its models produce.
#[derive(PartialEq, Eq, Structural, Clone, Copy, Debug)]
pub struct ElementSink {}

/// An element, which an application implements: it is connected to a sink
/// and handles the access messages addressed to it.
pub trait Element {
    /// Connects this element to the sink of its outbound messages.
    fn connect(&mut self, sink: ElementSink);

    /// Handles an access message with `opcode` and `payload`.
    fn handle(&mut self, opcode: Opcode, payload: &[u8]) -> Result<(), ElementError>;
}

/// An element of a provisioned node.
pub struct ProvisionedElement<E: Element> {
    pub element: E,
}

} // verus!
