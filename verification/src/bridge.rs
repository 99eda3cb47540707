//! The bounded debug bridge between a debug client and the app runtime:
//! commands travel one way, each with its own one-slot reply channel.
use vstd::prelude::*;
use crossbeam_channel::{Receiver, Sender};
use crate::command::{command_admission, command_frame, DebugCommand};
use crate::frame::FrameIdentity;
use crate::reply::{
    checked_product, checked_product_spec, DebugReply, DebugReplyProduct,
    SlipwayDebugCommandHandler,
};
use crate::screenshot::PresentedScreenshotAdmission;

verus! {

#[verifier::external_type_specification]
#[verifier::external_body]
#[verifier::reject_recursive_types(T)]
pub struct ExCrossbeamSender<T>(crossbeam_channel::Sender<T>);

#[verifier::external_type_specification]
#[verifier::external_body]
#[verifier::reject_recursive_types(T)]
pub struct ExCrossbeamReceiver<T>(crossbeam_channel::Receiver<T>);

/// `<Sender<T> as Clone>::clone`: another sender for the same channel.
/// Nothing is claimed of the channel it refers to.
pub assume_specification<T>[ <crossbeam_channel::Sender<T> as Clone>::clone ](sender: &crossbeam_channel::Sender<T>) -> crossbeam_channel::Sender<T>;

/// Why a message could not be sent without blocking.
#[derive(Clone, Copy, Debug, PartialEq, Eq, Structural)]
pub enum SendFailure {
    Full,
    Disconnected,
}

/// The sending side is gone and nothing is left to receive.
#[derive(Clone, Copy, Debug, PartialEq, Eq, Structural)]
pub struct ReceiveDisconnected;

/// `crossbeam_channel::bounded`: a channel that holds at most `cap` messages
/// (a rendezvous channel when `cap` is zero). Nothing is claimed of it. The
/// array flavor computes `(cap + 1).next_power_of_two() * 2` in its index
/// type and panics when that overflows; where the index type is a 32-bit
/// `usize` (targets without 64-bit atomics) that happens from `cap == 2^30`
/// on, so `cap` stays below it.
#[verifier::external_body]
pub(crate) fn channel<T>(cap: usize) -> (Sender<T>, Receiver<T>)
    requires
        cap < 0x4000_0000,
{
    crossbeam_channel::bounded(cap)
}

/// `Sender::try_send`: sends without blocking, or reports whether the channel
/// was full or disconnected. Which happens depends on the other threads; the
/// message itself is dropped on failure.
#[verifier::external_body]
pub(crate) fn try_send<T>(sender: &Sender<T>, msg: T) -> Result<(), SendFailure> {
    match sender.try_send(msg) {
        Ok(()) => Ok(()),
        Err(crossbeam_channel::TrySendError::Full(_)) => Err(SendFailure::Full),
        Err(crossbeam_channel::TrySendError::Disconnected(_)) => Err(SendFailure::Disconnected),
    }
}

/// `Receiver::try_recv`: a waiting message, nothing when the channel is
/// empty, or disconnection. Which happens depends on the other threads.
#[verifier::external_body]
pub(crate) fn try_recv<T>(receiver: &Receiver<T>) -> Result<Option<T>, ReceiveDisconnected> {
    match receiver.try_recv() {
        Ok(msg) => Ok(Some(msg)),
        Err(crossbeam_channel::TryRecvError::Empty) => Ok(None),
        Err(crossbeam_channel::TryRecvError::Disconnected) => Err(ReceiveDisconnected),
    }
}

/// `Receiver::recv`: waits for a message, or reports disconnection once the
/// channel is empty and every sender is gone. Nothing is claimed of the message.
#[verifier::external_body]
pub(crate) fn recv<T>(receiver: &Receiver<T>) -> Result<T, ReceiveDisconnected> {
    match receiver.recv() {
        Ok(msg) => Ok(msg),
        Err(_) => Err(ReceiveDisconnected),
    }
}

#[derive(Clone, Copy, Debug, PartialEq, Eq, Structural)]
pub enum DebugBridgeError {
    CommandQueueFull,
    CommandQueueDisconnected,
    ReplyQueueEmpty,
    ReplyQueueFull,
    ReplyQueueDisconnected,
}

/// A command with the channel its reply goes back on.
pub struct DebugEnvelope {
    command: DebugCommand,
    reply_tx: Sender<DebugReply>,
}

/// The client side of the bridge; clones share the queue.
#[derive(Clone)]
pub struct DebugBridgeClient {
    command_tx: Sender<DebugEnvelope>,
}

/// The runtime side of the bridge.
pub struct DebugBridgeRuntime {
    command_rx: Receiver<DebugEnvelope>,
}

/// A submitted command's handle: its request id and the channel its reply arrives on.
pub struct DebugRequestHandle {
    request_id: String,
    reply_rx: Receiver<DebugReply>,
    command: Ghost<DebugCommand>,
}

/// A command taken from the bridge, to be completed with a product later.
pub struct DebugCommandLease {
    request_id: String,
    frame: FrameIdentity,
    screenshot_admission: Option<PresentedScreenshotAdmission>,
    command: DebugCommand,
    reply_tx: Sender<DebugReply>,
}

/// A bridge whose command queue holds at most `capacity` commands.
pub fn bounded_debug_bridge(capacity: usize) -> (r: (DebugBridgeClient, DebugBridgeRuntime))
    requires
        capacity < 0x4000_0000,
{
    let (command_tx, command_rx) = channel(capacity);
    (DebugBridgeClient { command_tx }, DebugBridgeRuntime { command_rx })
}

impl DebugBridgeClient {
    /// Queues a command without blocking; the handle waits for its reply.
    pub fn submit(&self, command: DebugCommand) -> (r: Result<DebugRequestHandle, DebugBridgeError>)
        ensures
            r matches Ok(h) ==> h.awaited_id() == command.request_id && h.submitted_command() == command,
            r matches Err(e) ==> e == DebugBridgeError::CommandQueueFull || e == DebugBridgeError::CommandQueueDisconnected,
    {
        let request_id = command.request_id.clone();
        let ghost submitted = command;
        let (reply_tx, reply_rx) = channel(1);
        match try_send(&self.command_tx, DebugEnvelope { command, reply_tx }) {
            Ok(()) => Ok(DebugRequestHandle { request_id, reply_rx, command: Ghost(submitted) }),
            Err(SendFailure::Full) => Err(DebugBridgeError::CommandQueueFull),
            Err(SendFailure::Disconnected) => Err(DebugBridgeError::CommandQueueDisconnected),
        }
    }
}

impl DebugRequestHandle {
    /// The request id of the command this handle waits on.
    pub closed spec fn awaited_id(&self) -> String {
        self.request_id
    }

    /// The command whose submission gave this handle.
    pub closed spec fn submitted_command(&self) -> DebugCommand {
        self.command@
    }

    /// The request id of the command this handle waits on.
    pub fn request_id(&self) -> (r: &str)
        ensures
            r@ == self.awaited_id()@,
    {
        self.request_id.as_str()
    }

    /// The reply, once the runtime has sent it.
    pub fn try_recv(&self) -> (r: Result<Option<DebugReply>, DebugBridgeError>)
        ensures
            r matches Err(e) ==> e == DebugBridgeError::ReplyQueueDisconnected,
    {
        match try_recv(&self.reply_rx) {
            Ok(reply) => Ok(reply),
            Err(ReceiveDisconnected) => Err(DebugBridgeError::ReplyQueueDisconnected),
        }
    }
}

/// What a reply to a command is: the command's request id and frame, and the
/// product as checked for the command's frame and admission.
pub open spec fn reply_answers(command: DebugCommand, product: DebugReplyProduct, reply: DebugReply) -> bool {
    &&& reply.request_id == command.request_id
    &&& reply.frame == command_frame(command.kind)
    &&& checked_product_spec(reply.frame, command_admission(command.kind), product, reply.product)
}

impl DebugCommandLease {
    /// The request id, frame and admission of a lease are those of its command.
    pub closed spec fn wf(&self) -> bool {
        &&& self.request_id == self.command.request_id
        &&& self.frame == command_frame(self.command.kind)
        &&& self.screenshot_admission == command_admission(self.command.kind)
    }

    pub closed spec fn leased_command(&self) -> DebugCommand {
        self.command
    }

    pub fn command(&self) -> (r: &DebugCommand)
        ensures
            *r == self.leased_command(),
    {
        &self.command
    }

    /// Completes the lease: checks the product against the command and sends the reply.
    pub fn complete(self, product: DebugReplyProduct) -> (r: Result<DebugReply, DebugBridgeError>)
        requires
            self.wf(),
        ensures
            r matches Ok(reply) ==> reply_answers(self.leased_command(), product, reply),
            r matches Err(e) ==> e == DebugBridgeError::ReplyQueueFull || e == DebugBridgeError::ReplyQueueDisconnected,
    {
        let ghost command = self.command;
        let DebugCommandLease { request_id, frame, screenshot_admission, command: _, reply_tx } = self;
        let checked = checked_product(&frame, screenshot_admission, product);
        let reply = DebugReply { request_id, frame, product: checked };
        match try_send(&reply_tx, reply.clone()) {
            Ok(()) => Ok(reply),
            Err(SendFailure::Full) => Err(DebugBridgeError::ReplyQueueFull),
            Err(SendFailure::Disconnected) => Err(DebugBridgeError::ReplyQueueDisconnected),
        }
    }
}

impl DebugBridgeRuntime {
    /// Takes the next queued command as a lease, if one is waiting.
    pub fn take_one(&self) -> (r: Result<Option<DebugCommandLease>, DebugBridgeError>)
        ensures
            r matches Ok(Some(lease)) ==> lease.wf(),
            r matches Err(e) ==> e == DebugBridgeError::CommandQueueDisconnected,
    {
        let envelope = match try_recv(&self.command_rx) {
            Ok(Some(envelope)) => envelope,
            Ok(None) => return Ok(None),
            Err(ReceiveDisconnected) => return Err(DebugBridgeError::CommandQueueDisconnected),
        };
        let DebugEnvelope { command, reply_tx } = envelope;
        let screenshot_admission = command.screenshot_admission();
        let request_id = command.request_id.clone();
        let frame = command.frame_identity().duplicate();
        Ok(Some(DebugCommandLease { request_id, frame, screenshot_admission, command, reply_tx }))
    }

    /// Answers the next queued command with the handler, if one is waiting.
    pub fn drain_one<H: SlipwayDebugCommandHandler>(&self, handler: &mut H) -> (r: Result<Option<DebugReply>, DebugBridgeError>)
        ensures
            r matches Ok(Some(reply)) ==> exists|c: DebugCommand, p: DebugReplyProduct| #[trigger] reply_answers(c, p, reply)
                && old(handler).answers(c, p),
            r matches Err(e) ==> e == DebugBridgeError::CommandQueueDisconnected || e == DebugBridgeError::ReplyQueueFull
                || e == DebugBridgeError::ReplyQueueDisconnected,
            r matches Ok(None) ==> *final(handler) == *old(handler),
            r matches Err(DebugBridgeError::CommandQueueDisconnected) ==> *final(handler) == *old(handler),
    {
        let pass = |_command: &DebugCommand| -> (p: Option<DebugReplyProduct>)
            ensures
                p is None,
        { None };
        self.drain_one_with_interceptor(handler, &pass)
    }

    /// Answers the next queued command, if one is waiting: with the
    /// interceptor's product when it gives one, and with the handler's otherwise.
    pub fn drain_one_with_interceptor<H: SlipwayDebugCommandHandler, I: Fn(&DebugCommand) -> Option<DebugReplyProduct>>(
        &self,
        handler: &mut H,
        intercept: &I,
    ) -> (r: Result<Option<DebugReply>, DebugBridgeError>)
        requires
            forall|c: &DebugCommand| #[trigger] intercept.requires((c,)),
        ensures
            r matches Ok(Some(reply)) ==> exists|c: DebugCommand, p: DebugReplyProduct| #[trigger] reply_answers(c, p, reply)
                && ((intercept.ensures((&c,), Some(p)) && *final(handler) == *old(handler))
                    || (intercept.ensures((&c,), None::<DebugReplyProduct>) && old(handler).answers(c, p))),
            r matches Err(e) ==> e == DebugBridgeError::CommandQueueDisconnected || e == DebugBridgeError::ReplyQueueFull
                || e == DebugBridgeError::ReplyQueueDisconnected,
            r matches Ok(None) ==> *final(handler) == *old(handler),
            r matches Err(DebugBridgeError::CommandQueueDisconnected) ==> *final(handler) == *old(handler),
    {
        let envelope = match try_recv(&self.command_rx) {
            Ok(Some(envelope)) => envelope,
            Ok(None) => return Ok(None),
            Err(ReceiveDisconnected) => return Err(DebugBridgeError::CommandQueueDisconnected),
        };
        let DebugEnvelope { command, reply_tx } = envelope;
        let ghost original = command;
        let request_id = command.request_id.clone();
        let frame = command.frame_identity().duplicate();
        let screenshot_admission = command.screenshot_admission();
        let intercepted = intercept(&command);
        let product = match intercepted {
            Some(product) => product,
            None => handler.handle_debug_command(command),
        };
        let ghost handled = product;
        let checked = checked_product(&frame, screenshot_admission, product);
        let reply = DebugReply { request_id, frame, product: checked };
        assert(reply_answers(original, handled, reply));
        assert((intercept.ensures((&original,), Some(handled)) && *handler == *old(handler))
            || (intercept.ensures((&original,), None::<DebugReplyProduct>) && old(handler).answers(original, handled)));
        match try_send(&reply_tx, reply.clone()) {
            Ok(()) => Ok(Some(reply)),
            Err(SendFailure::Full) => Err(DebugBridgeError::ReplyQueueFull),
            Err(SendFailure::Disconnected) => Err(DebugBridgeError::ReplyQueueDisconnected),
        }
    }
}


/// A probe command for an MCP transport, with the bridge method it travels through.
pub struct McpProbeRequest {
    pub method: crate::reply::McpProbeMethod,
    pub command: DebugCommand,
}

/// A reply from an MCP transport, with the bridge method it came through.
pub struct McpProbeResponse {
    pub method: crate::reply::McpProbeMethod,
    pub reply: DebugReply,
}

/// A transport that carries probe commands to a runtime and turns replies into responses.
pub trait SlipwayMcpProbeTransport {
    fn submit_probe_command(&mut self, request: McpProbeRequest) -> Result<DebugRequestHandle, DebugBridgeError>;

    fn response_from_reply(&mut self, method: crate::reply::McpProbeMethod, reply: DebugReply) -> McpProbeResponse;
}

} // verus!
