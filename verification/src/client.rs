//! The command-line client's side of the ordinary socket: where the daemon
//! listens, and what a reply frame means for the request that was sent.

use vstd::prelude::*;
use crate::contract::{AgentOutput, AgentOutputView};

verus! {

/// The ordinary agent socket.
#[derive(Debug, PartialEq, Eq)]
pub struct AgentSocket {
    path: String,
}

impl View for AgentSocket {
    type V = Seq<char>;

    closed spec fn view(&self) -> Seq<char> {
        self.path@
    }
}

impl Clone for AgentSocket {
    fn clone(&self) -> (s: Self)
        ensures
            s@ == self@,
    {
        AgentSocket { path: self.path.clone() }
    }
}

impl AgentSocket {
    pub fn from_path(path: String) -> (s: Self)
        ensures
            s@ == path@,
    {
        AgentSocket { path }
    }

    pub fn path(&self) -> (p: &str)
        ensures
            p@ == self@,
    {
        self.path.as_str()
    }
}

/// The lane an exchange runs on.
#[derive(Debug, PartialEq, Eq, Structural, Clone, Copy)]
pub enum ExchangeLane {
    Connector,
    Acceptor,
}

/// Which exchange a frame belongs to.
#[derive(Debug, PartialEq, Eq, Structural, Clone, Copy)]
pub struct ExchangeIdentifier {
    pub session_epoch: u64,
    pub lane: ExchangeLane,
    pub sequence: u64,
}

/// The daemon's answer to an exchange.
pub enum ExchangeReply {
    /// The request was accepted; `head` is the first operation's output when
    /// that operation succeeded.
    Accepted { head: Option<AgentOutput> },
    Rejected,
}

/// A frame read back from the ordinary socket.
pub enum ReplyFrame {
    Reply { exchange: ExchangeIdentifier, reply: ExchangeReply },
    /// Any frame that is not a reply.
    Other,
}

/// Why a reply carried no output for the request.
#[derive(Debug, PartialEq, Eq, Structural, Clone, Copy)]
pub enum ClientError {
    DidNotCommit,
    Rejected,
    ExchangeMismatch,
    NotAReply,
}

pub open spec fn client_error_message(e: ClientError) -> Seq<char> {
    match e {
        ClientError::DidNotCommit => "agent request did not commit"@,
        ClientError::Rejected => "agent request was rejected"@,
        ClientError::ExchangeMismatch => "agent reply exchange mismatch"@,
        ClientError::NotAReply => "agent reply was not a reply frame"@,
    }
}

impl ClientError {
    pub fn message(&self) -> (m: &'static str)
        ensures
            m@ == client_error_message(*self),
    {
        match self {
            ClientError::DidNotCommit => "agent request did not commit",
            ClientError::Rejected => "agent request was rejected",
            ClientError::ExchangeMismatch => "agent reply exchange mismatch",
            ClientError::NotAReply => "agent reply was not a reply frame",
        }
    }
}

/// What a reply frame answers to the exchange that was sent.
pub open spec fn reply_outcome(sent: ExchangeIdentifier, frame: ReplyFrame) -> Result<AgentOutputView, ClientError> {
    match frame {
        ReplyFrame::Reply { exchange, reply } => if exchange != sent {
            Err(ClientError::ExchangeMismatch)
        } else {
            match reply {
                ExchangeReply::Accepted { head: Some(output) } => Ok(output@),
                ExchangeReply::Accepted { head: None } => Err(ClientError::DidNotCommit),
                ExchangeReply::Rejected => Err(ClientError::Rejected),
            }
        },
        ReplyFrame::Other => Err(ClientError::NotAReply),
    }
}

/// The output a reply frame carries for the exchange that was sent: only an
/// accepted reply to that very exchange whose operation succeeded has one.
pub fn reply_output(sent: ExchangeIdentifier, frame: ReplyFrame) -> (r: Result<AgentOutput, ClientError>)
    ensures
        r matches Ok(o) ==> reply_outcome(sent, frame) == Ok::<AgentOutputView, ClientError>(o@),
        r matches Err(e) ==> reply_outcome(sent, frame) == Err::<AgentOutputView, ClientError>(e),
{
    match frame {
        ReplyFrame::Reply { exchange, reply } => {
            if exchange != sent {
                return Err(ClientError::ExchangeMismatch);
            }
            match reply {
                ExchangeReply::Accepted { head: Some(output) } => Ok(output),
                ExchangeReply::Accepted { head: None } => Err(ClientError::DidNotCommit),
                ExchangeReply::Rejected => Err(ClientError::Rejected),
            }
        },
        ReplyFrame::Other => Err(ClientError::NotAReply),
    }
}

} // verus!
