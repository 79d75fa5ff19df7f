//! The values that come back from the remote end, as far as the client reads
//! them, and the errors that a call can end in.
use vstd::prelude::*;

verus! {

/// One value of an XML-RPC answer. Integers of either width are `Int`;
/// every kind that the client never reads (booleans, doubles, dates, binary
/// data, structs, nil) is `Other`.
#[derive(Debug)]
pub enum Reply {
    Int(i64),
    Text(String),
    List(Vec<Reply>),
    Other,
}

/// The kind of value that a decoder looked for and did not find.
#[derive(Clone, Copy, Debug, PartialEq, Eq, Structural)]
pub enum Expected {
    /// An integer.
    Integer,
    /// A string.
    Text,
    /// An array.
    List,
    /// An array of six values: four strings and two integers, in the order
    /// hash, name, base path, size, label, ratio.
    Row,
}

/// Why a call gave no result.
#[derive(Debug)]
pub enum RpcError {
    /// The request could not be sent, or the answer could not be read.
    Transport(String),
    /// The remote end answered with an XML-RPC fault.
    Fault { code: i64, message: String },
    /// The answer is not of the shape that the call expects.
    UnexpectedShape(Expected),
    /// The answer is a string, but no dotted-decimal IPv4 address.
    NotAnAddress(String),
}

impl Reply {
    /// The integer that this value holds, if it is one.
    pub open spec fn integer(self) -> Option<i64> {
        match self {
            Reply::Int(n) => Some(n),
            _ => None,
        }
    }

    /// The text that this value holds, if it is a string.
    pub open spec fn text(self) -> Option<Seq<char>> {
        match self {
            Reply::Text(s) => Some(s@),
            _ => None,
        }
    }

    /// The elements of this value, if it is an array.
    pub open spec fn list(self) -> Option<Seq<Reply>> {
        match self {
            Reply::List(v) => Some(v@),
            _ => None,
        }
    }

    /// Reads the value as an integer.
    pub fn as_int(&self) -> (r: Result<i64, RpcError>)
        ensures
            match r {
                Ok(n) => self.integer() == Some(n),
                Err(e) => self.integer() is None && e == RpcError::UnexpectedShape(Expected::Integer),
            },
    {
        match self {
            Reply::Int(n) => Ok(*n),
            _ => Err(RpcError::UnexpectedShape(Expected::Integer)),
        }
    }

    /// Reads the value as a string.
    pub fn as_text(&self) -> (r: Result<String, RpcError>)
        ensures
            match r {
                Ok(s) => self.text() == Some(s@),
                Err(e) => self.text() is None && e == RpcError::UnexpectedShape(Expected::Text),
            },
    {
        match self {
            Reply::Text(s) => Ok(s.clone()),
            _ => Err(RpcError::UnexpectedShape(Expected::Text)),
        }
    }
}

} // verus!
