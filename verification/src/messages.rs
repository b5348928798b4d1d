//! The typed records of the wire messages.
//!
//! A record is the ordered concatenation of its fields.  A record with a
//! message number begins with that number as one byte; on parse the byte is
//! checked against the number expected.
//!
//! Every record has the same three parts.  `spec_parse` reads the fields one
//! after the other, each from where the one before it ended.  `spec_dump`
//! joins the bytes of the fields in the same order.  `lemma_parse_dump`
//! walks through the bytes of a dumped record: `w0`, `w1`, ... are the bytes
//! of the fields, `q0`, `q1`, ... what stands before each field, and `t0`,
//! `t1`, ... what stands from each field on, with whatever follows the
//! record.  Each field is then read back from `t` by the law of its own type.

use crate::error::Error;
pub use crate::channelrequest::{ChannelRequest, ChannelRequestView};
pub use crate::mpint::UnsignedMpInt;
use crate::parsedump::{chain, lemma_regroup, lemma_skip_front, put_u8, tail, text_eq, ParseDump};
pub use crate::userauth::{UserauthRequest, UserauthRequestView};
use vstd::prelude::*;

verus! {

/// The message numbers that the library knows.
#[derive(Copy, Clone, Debug, PartialEq, Eq, Structural)]
pub enum MessageType {
    /// The peer ends the connection.
    Disconnect,
    /// Data to be ignored.
    Ignore,
    /// A packet was not understood.
    Unimplemented,
    /// A debugging message.
    Debug,
    /// Asks for a service.
    ServiceRequest,
    /// Grants a service.
    ServiceAccept,
    /// Opens algorithm negotiation.
    Kexinit,
    /// Switches to the new keys.
    Newkeys,
    /// The client's ephemeral public key.
    KexdhInit,
    /// The server's host key, ephemeral key and signature.
    KexdhReply,
    /// An authentication attempt.
    UserauthRequest,
    /// The attempt was rejected.
    UserauthFailure,
    /// The attempt was accepted.
    UserauthSuccess,
    /// A text to show before authentication.
    UserauthBanner,
    /// The offered public key is acceptable.
    UserauthPkOk,
    /// A request that concerns no channel.
    GlobalRequest,
    /// A global request succeeded.
    RequestSuccess,
    /// A global request failed.
    RequestFailure,
    /// Asks to open a channel.
    ChannelOpen,
    /// The channel is open.
    ChannelOpenConfirmation,
    /// The channel was not opened.
    ChannelOpenFailure,
    /// Grants more window.
    ChannelWindowAdjust,
    /// Data of a channel.
    ChannelData,
    /// Typed data of a channel, such as stderr.
    ChannelExtendedData,
    /// No more data will come.
    ChannelEof,
    /// The channel is closed.
    ChannelClose,
    /// A request on a channel.
    ChannelRequest,
    /// A channel request succeeded.
    ChannelSuccess,
    /// A channel request failed.
    ChannelFailure,
}

impl MessageType {
    /// The number that stands for this type on the wire.
    pub open spec fn spec_code(self) -> u8 {
        match self {
            MessageType::Disconnect => 1,
            MessageType::Ignore => 2,
            MessageType::Unimplemented => 3,
            MessageType::Debug => 4,
            MessageType::ServiceRequest => 5,
            MessageType::ServiceAccept => 6,
            MessageType::Kexinit => 20,
            MessageType::Newkeys => 21,
            MessageType::KexdhInit => 30,
            MessageType::KexdhReply => 31,
            MessageType::UserauthRequest => 50,
            MessageType::UserauthFailure => 51,
            MessageType::UserauthSuccess => 52,
            MessageType::UserauthBanner => 53,
            MessageType::UserauthPkOk => 60,
            MessageType::GlobalRequest => 80,
            MessageType::RequestSuccess => 81,
            MessageType::RequestFailure => 82,
            MessageType::ChannelOpen => 90,
            MessageType::ChannelOpenConfirmation => 91,
            MessageType::ChannelOpenFailure => 92,
            MessageType::ChannelWindowAdjust => 93,
            MessageType::ChannelData => 94,
            MessageType::ChannelExtendedData => 95,
            MessageType::ChannelEof => 96,
            MessageType::ChannelClose => 97,
            MessageType::ChannelRequest => 98,
            MessageType::ChannelSuccess => 99,
            MessageType::ChannelFailure => 100,
        }
    }

    /// The type that a number stands for, if it is in the registry.
    pub open spec fn spec_of_code(value: u8) -> Option<MessageType> {
        if value == 1 {
            Some(MessageType::Disconnect)
        } else if value == 2 {
            Some(MessageType::Ignore)
        } else if value == 3 {
            Some(MessageType::Unimplemented)
        } else if value == 4 {
            Some(MessageType::Debug)
        } else if value == 5 {
            Some(MessageType::ServiceRequest)
        } else if value == 6 {
            Some(MessageType::ServiceAccept)
        } else if value == 20 {
            Some(MessageType::Kexinit)
        } else if value == 21 {
            Some(MessageType::Newkeys)
        } else if value == 30 {
            Some(MessageType::KexdhInit)
        } else if value == 31 {
            Some(MessageType::KexdhReply)
        } else if value == 50 {
            Some(MessageType::UserauthRequest)
        } else if value == 51 {
            Some(MessageType::UserauthFailure)
        } else if value == 52 {
            Some(MessageType::UserauthSuccess)
        } else if value == 53 {
            Some(MessageType::UserauthBanner)
        } else if value == 60 {
            Some(MessageType::UserauthPkOk)
        } else if value == 80 {
            Some(MessageType::GlobalRequest)
        } else if value == 81 {
            Some(MessageType::RequestSuccess)
        } else if value == 82 {
            Some(MessageType::RequestFailure)
        } else if value == 90 {
            Some(MessageType::ChannelOpen)
        } else if value == 91 {
            Some(MessageType::ChannelOpenConfirmation)
        } else if value == 92 {
            Some(MessageType::ChannelOpenFailure)
        } else if value == 93 {
            Some(MessageType::ChannelWindowAdjust)
        } else if value == 94 {
            Some(MessageType::ChannelData)
        } else if value == 95 {
            Some(MessageType::ChannelExtendedData)
        } else if value == 96 {
            Some(MessageType::ChannelEof)
        } else if value == 97 {
            Some(MessageType::ChannelClose)
        } else if value == 98 {
            Some(MessageType::ChannelRequest)
        } else if value == 99 {
            Some(MessageType::ChannelSuccess)
        } else if value == 100 {
            Some(MessageType::ChannelFailure)
        } else {
            None
        }
    }

    /// The number that stands for this type on the wire.
    pub fn code(self) -> (c: u8)
        ensures
            c == self.spec_code(),
    {
        match self {
            MessageType::Disconnect => 1,
            MessageType::Ignore => 2,
            MessageType::Unimplemented => 3,
            MessageType::Debug => 4,
            MessageType::ServiceRequest => 5,
            MessageType::ServiceAccept => 6,
            MessageType::Kexinit => 20,
            MessageType::Newkeys => 21,
            MessageType::KexdhInit => 30,
            MessageType::KexdhReply => 31,
            MessageType::UserauthRequest => 50,
            MessageType::UserauthFailure => 51,
            MessageType::UserauthSuccess => 52,
            MessageType::UserauthBanner => 53,
            MessageType::UserauthPkOk => 60,
            MessageType::GlobalRequest => 80,
            MessageType::RequestSuccess => 81,
            MessageType::RequestFailure => 82,
            MessageType::ChannelOpen => 90,
            MessageType::ChannelOpenConfirmation => 91,
            MessageType::ChannelOpenFailure => 92,
            MessageType::ChannelWindowAdjust => 93,
            MessageType::ChannelData => 94,
            MessageType::ChannelExtendedData => 95,
            MessageType::ChannelEof => 96,
            MessageType::ChannelClose => 97,
            MessageType::ChannelRequest => 98,
            MessageType::ChannelSuccess => 99,
            MessageType::ChannelFailure => 100,
        }
    }

    /// Reads a message number.  Fails with `UnknownMessageType` on a number
    /// outside the registry.
    pub fn try_from(value: u8) -> (r: Result<MessageType, Error>)
        ensures
            r == match Self::spec_of_code(value) {
                Some(t) => Ok::<MessageType, Error>(t),
                None => Err(Error::UnknownMessageType(value)),
            },
    {
        match value {
            1 => Ok(MessageType::Disconnect),
            2 => Ok(MessageType::Ignore),
            3 => Ok(MessageType::Unimplemented),
            4 => Ok(MessageType::Debug),
            5 => Ok(MessageType::ServiceRequest),
            6 => Ok(MessageType::ServiceAccept),
            20 => Ok(MessageType::Kexinit),
            21 => Ok(MessageType::Newkeys),
            30 => Ok(MessageType::KexdhInit),
            31 => Ok(MessageType::KexdhReply),
            50 => Ok(MessageType::UserauthRequest),
            51 => Ok(MessageType::UserauthFailure),
            52 => Ok(MessageType::UserauthSuccess),
            53 => Ok(MessageType::UserauthBanner),
            60 => Ok(MessageType::UserauthPkOk),
            80 => Ok(MessageType::GlobalRequest),
            81 => Ok(MessageType::RequestSuccess),
            82 => Ok(MessageType::RequestFailure),
            90 => Ok(MessageType::ChannelOpen),
            91 => Ok(MessageType::ChannelOpenConfirmation),
            92 => Ok(MessageType::ChannelOpenFailure),
            93 => Ok(MessageType::ChannelWindowAdjust),
            94 => Ok(MessageType::ChannelData),
            95 => Ok(MessageType::ChannelExtendedData),
            96 => Ok(MessageType::ChannelEof),
            97 => Ok(MessageType::ChannelClose),
            98 => Ok(MessageType::ChannelRequest),
            99 => Ok(MessageType::ChannelSuccess),
            100 => Ok(MessageType::ChannelFailure),
            _ => Err(Error::UnknownMessageType(value)),
        }
    }

    /// The type that carries the name of a record, if there is one.
    pub open spec fn spec_from_struct_name(name: Seq<char>) -> Option<MessageType> {
        if name == "Disconnect"@ {
            Some(MessageType::Disconnect)
        } else if name == "Ignore"@ {
            Some(MessageType::Ignore)
        } else if name == "Unimplemented"@ {
            Some(MessageType::Unimplemented)
        } else if name == "Debug"@ {
            Some(MessageType::Debug)
        } else if name == "ServiceRequest"@ {
            Some(MessageType::ServiceRequest)
        } else if name == "ServiceAccept"@ {
            Some(MessageType::ServiceAccept)
        } else if name == "Kexinit"@ {
            Some(MessageType::Kexinit)
        } else if name == "Newkeys"@ {
            Some(MessageType::Newkeys)
        } else if name == "KexdhInit"@ {
            Some(MessageType::KexdhInit)
        } else if name == "KexdhReply"@ {
            Some(MessageType::KexdhReply)
        } else if name == "UserauthRequest"@ {
            Some(MessageType::UserauthRequest)
        } else if name == "UserauthFailure"@ {
            Some(MessageType::UserauthFailure)
        } else if name == "UserauthSuccess"@ {
            Some(MessageType::UserauthSuccess)
        } else if name == "UserauthBanner"@ {
            Some(MessageType::UserauthBanner)
        } else if name == "UserauthPkOk"@ {
            Some(MessageType::UserauthPkOk)
        } else if name == "GlobalRequest"@ {
            Some(MessageType::GlobalRequest)
        } else if name == "RequestSuccess"@ {
            Some(MessageType::RequestSuccess)
        } else if name == "RequestFailure"@ {
            Some(MessageType::RequestFailure)
        } else if name == "ChannelOpen"@ {
            Some(MessageType::ChannelOpen)
        } else if name == "ChannelOpenConfirmation"@ {
            Some(MessageType::ChannelOpenConfirmation)
        } else if name == "ChannelOpenFailure"@ {
            Some(MessageType::ChannelOpenFailure)
        } else if name == "ChannelWindowAdjust"@ {
            Some(MessageType::ChannelWindowAdjust)
        } else if name == "ChannelData"@ {
            Some(MessageType::ChannelData)
        } else if name == "ChannelExtendedData"@ {
            Some(MessageType::ChannelExtendedData)
        } else if name == "ChannelEof"@ {
            Some(MessageType::ChannelEof)
        } else if name == "ChannelClose"@ {
            Some(MessageType::ChannelClose)
        } else if name == "ChannelRequest"@ {
            Some(MessageType::ChannelRequest)
        } else if name == "ChannelSuccess"@ {
            Some(MessageType::ChannelSuccess)
        } else if name == "ChannelFailure"@ {
            Some(MessageType::ChannelFailure)
        } else {
            None
        }
    }

    /// The type that carries the name of a record, if there is one.
    pub fn from_struct_name(name: &str) -> (r: Option<MessageType>)
        ensures
            r == Self::spec_from_struct_name(name@),
    {
        if text_eq(name, "Disconnect") {
            Some(MessageType::Disconnect)
        } else if text_eq(name, "Ignore") {
            Some(MessageType::Ignore)
        } else if text_eq(name, "Unimplemented") {
            Some(MessageType::Unimplemented)
        } else if text_eq(name, "Debug") {
            Some(MessageType::Debug)
        } else if text_eq(name, "ServiceRequest") {
            Some(MessageType::ServiceRequest)
        } else if text_eq(name, "ServiceAccept") {
            Some(MessageType::ServiceAccept)
        } else if text_eq(name, "Kexinit") {
            Some(MessageType::Kexinit)
        } else if text_eq(name, "Newkeys") {
            Some(MessageType::Newkeys)
        } else if text_eq(name, "KexdhInit") {
            Some(MessageType::KexdhInit)
        } else if text_eq(name, "KexdhReply") {
            Some(MessageType::KexdhReply)
        } else if text_eq(name, "UserauthRequest") {
            Some(MessageType::UserauthRequest)
        } else if text_eq(name, "UserauthFailure") {
            Some(MessageType::UserauthFailure)
        } else if text_eq(name, "UserauthSuccess") {
            Some(MessageType::UserauthSuccess)
        } else if text_eq(name, "UserauthBanner") {
            Some(MessageType::UserauthBanner)
        } else if text_eq(name, "UserauthPkOk") {
            Some(MessageType::UserauthPkOk)
        } else if text_eq(name, "GlobalRequest") {
            Some(MessageType::GlobalRequest)
        } else if text_eq(name, "RequestSuccess") {
            Some(MessageType::RequestSuccess)
        } else if text_eq(name, "RequestFailure") {
            Some(MessageType::RequestFailure)
        } else if text_eq(name, "ChannelOpen") {
            Some(MessageType::ChannelOpen)
        } else if text_eq(name, "ChannelOpenConfirmation") {
            Some(MessageType::ChannelOpenConfirmation)
        } else if text_eq(name, "ChannelOpenFailure") {
            Some(MessageType::ChannelOpenFailure)
        } else if text_eq(name, "ChannelWindowAdjust") {
            Some(MessageType::ChannelWindowAdjust)
        } else if text_eq(name, "ChannelData") {
            Some(MessageType::ChannelData)
        } else if text_eq(name, "ChannelExtendedData") {
            Some(MessageType::ChannelExtendedData)
        } else if text_eq(name, "ChannelEof") {
            Some(MessageType::ChannelEof)
        } else if text_eq(name, "ChannelClose") {
            Some(MessageType::ChannelClose)
        } else if text_eq(name, "ChannelRequest") {
            Some(MessageType::ChannelRequest)
        } else if text_eq(name, "ChannelSuccess") {
            Some(MessageType::ChannelSuccess)
        } else if text_eq(name, "ChannelFailure") {
            Some(MessageType::ChannelFailure)
        } else {
            None
        }
    }

    /// Every type is found again from its number.
    pub proof fn lemma_code_roundtrip(self)
        ensures
            Self::spec_of_code(self.spec_code()) == Some(self),
    {
    }

    /// A number in the registry is the number of the type it stands for.
    pub proof fn lemma_of_code_roundtrip(value: u8)
        ensures
            Self::spec_of_code(value) matches Some(t) ==> t.spec_code() == value,
    {
    }
}

/// Whether `bytes` begins with the number of `expected`.  An empty input is
/// truncated, a number outside the registry is unknown, and the number of
/// another type is that type, unexpected.
pub open spec fn spec_expect_tag(bytes: Seq<u8>, expected: MessageType) -> Result<(), Error> {
    if bytes.len() < 1 {
        Err(Error::TruncatedInput)
    } else {
        match MessageType::spec_of_code(bytes[0]) {
            None => Err(Error::UnknownMessageType(bytes[0])),
            Some(t) => if t == expected {
                Ok(())
            } else {
                Err(Error::UnexpectedMessageType(t))
            },
        }
    }
}

/// Checks the message type byte at the start of `bytes`.
pub fn expect_tag(bytes: &[u8], expected: MessageType) -> (r: Result<(), Error>)
    ensures
        r == spec_expect_tag(bytes@, expected),
{
    if bytes.len() < 1 {
        return Err(Error::TruncatedInput);
    }
    let t = MessageType::try_from(bytes[0])?;
    if t == expected {
        Ok(())
    } else {
        Err(Error::UnexpectedMessageType(t))
    }
}

/// Why a peer disconnects.
#[derive(Copy, Clone, Debug, PartialEq, Eq, Structural)]
pub enum DisconnectReasonCode {
    HostNotAllowedToConnect,
    ProtocolError,
    KeyExchangeFailed,
    Reserved,
    MacError,
    CompressionError,
    ServiceNotAvailable,
    ProtocolVersionNotSupported,
    HostKeyNotVerifiable,
    ConnectionLost,
    ByApplication,
    TooManyConnections,
    AuthCancelledByUser,
    NoMoreAuthMethodsAvailable,
    IllegalUserName,
}

impl DisconnectReasonCode {
    /// The number that stands for this reason on the wire.
    pub open spec fn spec_code(self) -> u8 {
        match self {
            DisconnectReasonCode::HostNotAllowedToConnect => 1,
            DisconnectReasonCode::ProtocolError => 2,
            DisconnectReasonCode::KeyExchangeFailed => 3,
            DisconnectReasonCode::Reserved => 4,
            DisconnectReasonCode::MacError => 5,
            DisconnectReasonCode::CompressionError => 6,
            DisconnectReasonCode::ServiceNotAvailable => 7,
            DisconnectReasonCode::ProtocolVersionNotSupported => 8,
            DisconnectReasonCode::HostKeyNotVerifiable => 9,
            DisconnectReasonCode::ConnectionLost => 10,
            DisconnectReasonCode::ByApplication => 11,
            DisconnectReasonCode::TooManyConnections => 12,
            DisconnectReasonCode::AuthCancelledByUser => 13,
            DisconnectReasonCode::NoMoreAuthMethodsAvailable => 14,
            DisconnectReasonCode::IllegalUserName => 15,
        }
    }

    /// The reason that a number stands for, if any.
    pub open spec fn spec_of_code(value: u8) -> Option<DisconnectReasonCode> {
        if value == 1 {
            Some(DisconnectReasonCode::HostNotAllowedToConnect)
        } else if value == 2 {
            Some(DisconnectReasonCode::ProtocolError)
        } else if value == 3 {
            Some(DisconnectReasonCode::KeyExchangeFailed)
        } else if value == 4 {
            Some(DisconnectReasonCode::Reserved)
        } else if value == 5 {
            Some(DisconnectReasonCode::MacError)
        } else if value == 6 {
            Some(DisconnectReasonCode::CompressionError)
        } else if value == 7 {
            Some(DisconnectReasonCode::ServiceNotAvailable)
        } else if value == 8 {
            Some(DisconnectReasonCode::ProtocolVersionNotSupported)
        } else if value == 9 {
            Some(DisconnectReasonCode::HostKeyNotVerifiable)
        } else if value == 10 {
            Some(DisconnectReasonCode::ConnectionLost)
        } else if value == 11 {
            Some(DisconnectReasonCode::ByApplication)
        } else if value == 12 {
            Some(DisconnectReasonCode::TooManyConnections)
        } else if value == 13 {
            Some(DisconnectReasonCode::AuthCancelledByUser)
        } else if value == 14 {
            Some(DisconnectReasonCode::NoMoreAuthMethodsAvailable)
        } else if value == 15 {
            Some(DisconnectReasonCode::IllegalUserName)
        } else {
            None
        }
    }

    /// The number that stands for this reason on the wire.
    pub fn code(self) -> (c: u8)
        ensures
            c == self.spec_code(),
    {
        match self {
            DisconnectReasonCode::HostNotAllowedToConnect => 1,
            DisconnectReasonCode::ProtocolError => 2,
            DisconnectReasonCode::KeyExchangeFailed => 3,
            DisconnectReasonCode::Reserved => 4,
            DisconnectReasonCode::MacError => 5,
            DisconnectReasonCode::CompressionError => 6,
            DisconnectReasonCode::ServiceNotAvailable => 7,
            DisconnectReasonCode::ProtocolVersionNotSupported => 8,
            DisconnectReasonCode::HostKeyNotVerifiable => 9,
            DisconnectReasonCode::ConnectionLost => 10,
            DisconnectReasonCode::ByApplication => 11,
            DisconnectReasonCode::TooManyConnections => 12,
            DisconnectReasonCode::AuthCancelledByUser => 13,
            DisconnectReasonCode::NoMoreAuthMethodsAvailable => 14,
            DisconnectReasonCode::IllegalUserName => 15,
        }
    }

    /// The reason that a number stands for, if any.
    pub fn of_code(value: u8) -> (r: Option<DisconnectReasonCode>)
        ensures
            r == Self::spec_of_code(value),
    {
        match value {
            1 => Some(DisconnectReasonCode::HostNotAllowedToConnect),
            2 => Some(DisconnectReasonCode::ProtocolError),
            3 => Some(DisconnectReasonCode::KeyExchangeFailed),
            4 => Some(DisconnectReasonCode::Reserved),
            5 => Some(DisconnectReasonCode::MacError),
            6 => Some(DisconnectReasonCode::CompressionError),
            7 => Some(DisconnectReasonCode::ServiceNotAvailable),
            8 => Some(DisconnectReasonCode::ProtocolVersionNotSupported),
            9 => Some(DisconnectReasonCode::HostKeyNotVerifiable),
            10 => Some(DisconnectReasonCode::ConnectionLost),
            11 => Some(DisconnectReasonCode::ByApplication),
            12 => Some(DisconnectReasonCode::TooManyConnections),
            13 => Some(DisconnectReasonCode::AuthCancelledByUser),
            14 => Some(DisconnectReasonCode::NoMoreAuthMethodsAvailable),
            15 => Some(DisconnectReasonCode::IllegalUserName),
            _ => None,
        }
    }
}

impl View for DisconnectReasonCode {
    type V = DisconnectReasonCode;

    open spec fn view(&self) -> DisconnectReasonCode {
        *self
    }
}

/// The reason at the start of `bytes`.  A number that stands for no reason
/// is invalid data.
#[verifier::opaque]
pub open spec fn spec_parse_reason(bytes: Seq<u8>) -> Result<(DisconnectReasonCode, nat), Error> {
    if bytes.len() < 1 {
        Err(Error::TruncatedInput)
    } else {
        match DisconnectReasonCode::spec_of_code(bytes[0]) {
            Some(c) => Ok((c, 1)),
            None => Err(Error::InvalidData),
        }
    }
}

/// The byte of a reason.
#[verifier::opaque]
pub open spec fn spec_dump_reason(v: DisconnectReasonCode) -> Result<Seq<u8>, Error> {
    Ok(seq![v.spec_code()])
}

impl ParseDump for DisconnectReasonCode {
    open spec fn spec_parse(bytes: Seq<u8>) -> Result<(DisconnectReasonCode, nat), Error> {
        spec_parse_reason(bytes)
    }

    open spec fn spec_dump(v: DisconnectReasonCode) -> Result<Seq<u8>, Error> {
        spec_dump_reason(v)
    }

    fn parse(bytes: &[u8]) -> (r: Result<(DisconnectReasonCode, usize), Error>) {
        proof {
            reveal(spec_parse_reason);
        }
        if bytes.len() < 1 {
            return Err(Error::TruncatedInput);
        }
        match Self::of_code(bytes[0]) {
            Some(c) => Ok((c, 1)),
            None => Err(Error::InvalidData),
        }
    }

    fn dump(&self, sink: &mut Vec<u8>) -> (r: Result<(), Error>) {
        proof {
            reveal(spec_dump_reason);
        }
        put_u8(sink, self.code());
        Ok(())
    }

    proof fn lemma_parse_dump(v: DisconnectReasonCode, rest: Seq<u8>) {
        reveal(spec_parse_reason);
        reveal(spec_dump_reason);
    }
}

/// The peer did not understand the packet with this sequence number.
#[derive(Copy, Clone, Debug, PartialEq, Eq, Structural)]
pub struct Unimplemented {
    pub packet_number: u32,
}

impl View for Unimplemented {
    type V = Unimplemented;

    open spec fn view(&self) -> Unimplemented {
        *self
    }
}

impl ParseDump for Unimplemented {
    open spec fn spec_parse(bytes: Seq<u8>) -> Result<(Unimplemented, nat), Error> {
        match spec_expect_tag(bytes, MessageType::Unimplemented) {
            Err(e) => Err(e),
            Ok(_) => {
                let b0 = bytes.skip(1);
                match <u32 as ParseDump>::spec_parse(b0) {
                    Err(e) => Err(e),
                    Ok((packet_number, n0)) => {
                        Ok((Unimplemented { packet_number }, (1 + n0) as nat))
                    },
                }
            },
        }
    }

    open spec fn spec_dump(v: Unimplemented) -> Result<Seq<u8>, Error> {
        chain(Ok(seq![3u8]), <u32 as ParseDump>::spec_dump(v.packet_number))
    }

    fn parse(bytes: &[u8]) -> (r: Result<(Unimplemented, usize), Error>) {
        expect_tag(bytes, MessageType::Unimplemented)?;
        let b0 = tail(bytes, 1);
        let (packet_number, n0) = <u32 as ParseDump>::parse(b0)?;
        Ok((Unimplemented { packet_number }, 1 + n0))
    }

    fn dump(&self, sink: &mut Vec<u8>) -> (r: Result<(), Error>) {
        put_u8(sink, 3);
        self.packet_number.dump(sink)?;
        Ok(())
    }

    proof fn lemma_parse_dump(v: Unimplemented, rest: Seq<u8>) {
        if let Ok(w) = Self::spec_dump(v) {
            let w0 = <u32 as ParseDump>::spec_dump(v.packet_number).unwrap();
            let b0 = (w + rest).skip(1);
            let d0 = <u32 as ParseDump>::spec_dump(v.packet_number);
            let c0 = Ok::<Seq<u8>, Error>(seq![3u8]);
            let c1 = chain(c0, d0);
            assert(c0 is Ok && d0 is Ok);
            let q0 = c0.unwrap();
            let q1 = c1.unwrap();
            let t1 = rest;
            let t0 = w0 + t1;
            lemma_regroup(q0, w0, t1);
            lemma_skip_front(q0, t0);
            <u32 as ParseDump>::lemma_parse_dump(v.packet_number, t1);
        }
    }
}

/// Opens algorithm negotiation: one name list for each kind of algorithm.
#[derive(Clone, Debug, PartialEq, Eq)]
pub struct Kexinit {
    pub cookie: [u8; 16],
    pub kex_algorithms: String,
    pub server_host_key_algorithms: String,
    pub encryption_algorithms_client_to_server: String,
    pub encryption_algorithms_server_to_client: String,
    pub mac_algorithms_client_to_server: String,
    pub mac_algorithms_server_to_client: String,
    pub compression_algorithms_client_to_server: String,
    pub compression_algorithms_server_to_client: String,
    pub languages_client_to_server: String,
    pub languages_server_to_client: String,
    pub first_kex_packet_follows: bool,
    pub nop: u32,
}

/// What a `Kexinit` holds.
pub ghost struct KexinitView {
    pub cookie: Seq<u8>,
    pub kex_algorithms: Seq<char>,
    pub server_host_key_algorithms: Seq<char>,
    pub encryption_algorithms_client_to_server: Seq<char>,
    pub encryption_algorithms_server_to_client: Seq<char>,
    pub mac_algorithms_client_to_server: Seq<char>,
    pub mac_algorithms_server_to_client: Seq<char>,
    pub compression_algorithms_client_to_server: Seq<char>,
    pub compression_algorithms_server_to_client: Seq<char>,
    pub languages_client_to_server: Seq<char>,
    pub languages_server_to_client: Seq<char>,
    pub first_kex_packet_follows: bool,
    pub nop: u32,
}

impl View for Kexinit {
    type V = KexinitView;

    open spec fn view(&self) -> KexinitView {
        KexinitView {
            cookie: self.cookie@,
            kex_algorithms: self.kex_algorithms@,
            server_host_key_algorithms: self.server_host_key_algorithms@,
            encryption_algorithms_client_to_server: self.encryption_algorithms_client_to_server@,
            encryption_algorithms_server_to_client: self.encryption_algorithms_server_to_client@,
            mac_algorithms_client_to_server: self.mac_algorithms_client_to_server@,
            mac_algorithms_server_to_client: self.mac_algorithms_server_to_client@,
            compression_algorithms_client_to_server: self.compression_algorithms_client_to_server@,
            compression_algorithms_server_to_client: self.compression_algorithms_server_to_client@,
            languages_client_to_server: self.languages_client_to_server@,
            languages_server_to_client: self.languages_server_to_client@,
            first_kex_packet_follows: self.first_kex_packet_follows,
            nop: self.nop,
        }
    }
}

impl ParseDump for Kexinit {
    open spec fn spec_parse(bytes: Seq<u8>) -> Result<(KexinitView, nat), Error> {
        match spec_expect_tag(bytes, MessageType::Kexinit) {
            Err(e) => Err(e),
            Ok(_) => {
                let b0 = bytes.skip(1);
                match <[u8; 16] as ParseDump>::spec_parse(b0) {
                    Err(e) => Err(e),
                    Ok((cookie, n0)) => {
                        let b1 = b0.skip(n0 as int);
                        match <String as ParseDump>::spec_parse(b1) {
                            Err(e) => Err(e),
                            Ok((kex_algorithms, n1)) => {
                                let b2 = b1.skip(n1 as int);
                                match <String as ParseDump>::spec_parse(b2) {
                                    Err(e) => Err(e),
                                    Ok((server_host_key_algorithms, n2)) => {
                                        let b3 = b2.skip(n2 as int);
                                        match <String as ParseDump>::spec_parse(b3) {
                                            Err(e) => Err(e),
                                            Ok((encryption_algorithms_client_to_server, n3)) => {
                                                let b4 = b3.skip(n3 as int);
                                                match <String as ParseDump>::spec_parse(b4) {
                                                    Err(e) => Err(e),
                                                    Ok((encryption_algorithms_server_to_client, n4)) => {
                                                        let b5 = b4.skip(n4 as int);
                                                        match <String as ParseDump>::spec_parse(b5) {
                                                            Err(e) => Err(e),
                                                            Ok((mac_algorithms_client_to_server, n5)) => {
                                                                let b6 = b5.skip(n5 as int);
                                                                match <String as ParseDump>::spec_parse(b6) {
                                                                    Err(e) => Err(e),
                                                                    Ok((mac_algorithms_server_to_client, n6)) => {
                                                                        let b7 = b6.skip(n6 as int);
                                                                        match <String as ParseDump>::spec_parse(b7) {
                                                                            Err(e) => Err(e),
                                                                            Ok((compression_algorithms_client_to_server, n7)) => {
                                                                                let b8 = b7.skip(n7 as int);
                                                                                match <String as ParseDump>::spec_parse(b8) {
                                                                                    Err(e) => Err(e),
                                                                                    Ok((compression_algorithms_server_to_client, n8)) => {
                                                                                        let b9 = b8.skip(n8 as int);
                                                                                        match <String as ParseDump>::spec_parse(b9) {
                                                                                            Err(e) => Err(e),
                                                                                            Ok((languages_client_to_server, n9)) => {
                                                                                                let b10 = b9.skip(n9 as int);
                                                                                                match <String as ParseDump>::spec_parse(b10) {
                                                                                                    Err(e) => Err(e),
                                                                                                    Ok((languages_server_to_client, n10)) => {
                                                                                                        let b11 = b10.skip(n10 as int);
                                                                                                        match <bool as ParseDump>::spec_parse(b11) {
                                                                                                            Err(e) => Err(e),
                                                                                                            Ok((first_kex_packet_follows, n11)) => {
                                                                                                                let b12 = b11.skip(n11 as int);
                                                                                                                match <u32 as ParseDump>::spec_parse(b12) {
                                                                                                                    Err(e) => Err(e),
                                                                                                                    Ok((nop, n12)) => {
                                                                                                                        Ok(
                                                                                                                            (
                                                                                                                                KexinitView {
                                                                                                                                    cookie,
                                                                                                                                    kex_algorithms,
                                                                                                                                    server_host_key_algorithms,
                                                                                                                                    encryption_algorithms_client_to_server,
                                                                                                                                    encryption_algorithms_server_to_client,
                                                                                                                                    mac_algorithms_client_to_server,
                                                                                                                                    mac_algorithms_server_to_client,
                                                                                                                                    compression_algorithms_client_to_server,
                                                                                                                                    compression_algorithms_server_to_client,
                                                                                                                                    languages_client_to_server,
                                                                                                                                    languages_server_to_client,
                                                                                                                                    first_kex_packet_follows,
                                                                                                                                    nop,
                                                                                                                                },
                                                                                                                                (1 + n0 + n1 + n2 + n3 + n4 + n5 + n6 + n7 + n8 + n9 + n10 + n11 + n12) as nat,
                                                                                                                            ),
                                                                                                                        )
                                                                                                                    },
                                                                                                                }
                                                                                                            },
                                                                                                        }
                                                                                                    },
                                                                                                }
                                                                                            },
                                                                                        }
                                                                                    },
                                                                                }
                                                                            },
                                                                        }
                                                                    },
                                                                }
                                                            },
                                                        }
                                                    },
                                                }
                                            },
                                        }
                                    },
                                }
                            },
                        }
                    },
                }
            },
        }
    }

    open spec fn spec_dump(v: KexinitView) -> Result<Seq<u8>, Error> {
        let a = Ok(seq![20u8]);
        let a = chain(a, <[u8; 16] as ParseDump>::spec_dump(v.cookie));
        let a = chain(a, <String as ParseDump>::spec_dump(v.kex_algorithms));
        let a = chain(a, <String as ParseDump>::spec_dump(v.server_host_key_algorithms));
        let a = chain(
            a,
            <String as ParseDump>::spec_dump(v.encryption_algorithms_client_to_server),
        );
        let a = chain(
            a,
            <String as ParseDump>::spec_dump(v.encryption_algorithms_server_to_client),
        );
        let a = chain(a, <String as ParseDump>::spec_dump(v.mac_algorithms_client_to_server));
        let a = chain(a, <String as ParseDump>::spec_dump(v.mac_algorithms_server_to_client));
        let a = chain(
            a,
            <String as ParseDump>::spec_dump(v.compression_algorithms_client_to_server),
        );
        let a = chain(
            a,
            <String as ParseDump>::spec_dump(v.compression_algorithms_server_to_client),
        );
        let a = chain(a, <String as ParseDump>::spec_dump(v.languages_client_to_server));
        let a = chain(a, <String as ParseDump>::spec_dump(v.languages_server_to_client));
        let a = chain(a, <bool as ParseDump>::spec_dump(v.first_kex_packet_follows));
        chain(a, <u32 as ParseDump>::spec_dump(v.nop))
    }

    fn parse(bytes: &[u8]) -> (r: Result<(Kexinit, usize), Error>) {
        expect_tag(bytes, MessageType::Kexinit)?;
        let b0 = tail(bytes, 1);
        let (cookie, n0) = <[u8; 16] as ParseDump>::parse(b0)?;
        let b1 = tail(b0, n0);
        let (kex_algorithms, n1) = <String as ParseDump>::parse(b1)?;
        let b2 = tail(b1, n1);
        let (server_host_key_algorithms, n2) = <String as ParseDump>::parse(b2)?;
        let b3 = tail(b2, n2);
        let (encryption_algorithms_client_to_server, n3) = <String as ParseDump>::parse(b3)?;
        let b4 = tail(b3, n3);
        let (encryption_algorithms_server_to_client, n4) = <String as ParseDump>::parse(b4)?;
        let b5 = tail(b4, n4);
        let (mac_algorithms_client_to_server, n5) = <String as ParseDump>::parse(b5)?;
        let b6 = tail(b5, n5);
        let (mac_algorithms_server_to_client, n6) = <String as ParseDump>::parse(b6)?;
        let b7 = tail(b6, n6);
        let (compression_algorithms_client_to_server, n7) = <String as ParseDump>::parse(b7)?;
        let b8 = tail(b7, n7);
        let (compression_algorithms_server_to_client, n8) = <String as ParseDump>::parse(b8)?;
        let b9 = tail(b8, n8);
        let (languages_client_to_server, n9) = <String as ParseDump>::parse(b9)?;
        let b10 = tail(b9, n9);
        let (languages_server_to_client, n10) = <String as ParseDump>::parse(b10)?;
        let b11 = tail(b10, n10);
        let (first_kex_packet_follows, n11) = <bool as ParseDump>::parse(b11)?;
        let b12 = tail(b11, n11);
        let (nop, n12) = <u32 as ParseDump>::parse(b12)?;
        Ok(
            (
                Kexinit {
                    cookie,
                    kex_algorithms,
                    server_host_key_algorithms,
                    encryption_algorithms_client_to_server,
                    encryption_algorithms_server_to_client,
                    mac_algorithms_client_to_server,
                    mac_algorithms_server_to_client,
                    compression_algorithms_client_to_server,
                    compression_algorithms_server_to_client,
                    languages_client_to_server,
                    languages_server_to_client,
                    first_kex_packet_follows,
                    nop,
                },
                1 + n0 + n1 + n2 + n3 + n4 + n5 + n6 + n7 + n8 + n9 + n10 + n11 + n12,
            ),
        )
    }

    fn dump(&self, sink: &mut Vec<u8>) -> (r: Result<(), Error>) {
        let ghost before = sink@;
        put_u8(sink, 20);
        let ghost done = seq![20u8];
        self.cookie.dump(sink)?;
        proof {
            lemma_regroup(before, done, <[u8; 16] as ParseDump>::spec_dump(self.cookie@).unwrap());
        }
        let ghost done = done + <[u8; 16] as ParseDump>::spec_dump(self.cookie@).unwrap();
        self.kex_algorithms.dump(sink)?;
        proof {
            lemma_regroup(
                before,
                done,
                <String as ParseDump>::spec_dump(self.kex_algorithms@).unwrap(),
            );
        }
        let ghost done = done + <String as ParseDump>::spec_dump(self.kex_algorithms@).unwrap();
        self.server_host_key_algorithms.dump(sink)?;
        proof {
            lemma_regroup(
                before,
                done,
                <String as ParseDump>::spec_dump(self.server_host_key_algorithms@).unwrap(),
            );
        }
        let ghost done = done + <String as ParseDump>::spec_dump(
            self.server_host_key_algorithms@,
        ).unwrap();
        self.encryption_algorithms_client_to_server.dump(sink)?;
        proof {
            lemma_regroup(
                before,
                done,
                <String as ParseDump>::spec_dump(self.encryption_algorithms_client_to_server@).unwrap(),
            );
        }
        let ghost done = done + <String as ParseDump>::spec_dump(
            self.encryption_algorithms_client_to_server@,
        ).unwrap();
        self.encryption_algorithms_server_to_client.dump(sink)?;
        proof {
            lemma_regroup(
                before,
                done,
                <String as ParseDump>::spec_dump(self.encryption_algorithms_server_to_client@).unwrap(),
            );
        }
        let ghost done = done + <String as ParseDump>::spec_dump(
            self.encryption_algorithms_server_to_client@,
        ).unwrap();
        self.mac_algorithms_client_to_server.dump(sink)?;
        proof {
            lemma_regroup(
                before,
                done,
                <String as ParseDump>::spec_dump(self.mac_algorithms_client_to_server@).unwrap(),
            );
        }
        let ghost done = done + <String as ParseDump>::spec_dump(
            self.mac_algorithms_client_to_server@,
        ).unwrap();
        self.mac_algorithms_server_to_client.dump(sink)?;
        proof {
            lemma_regroup(
                before,
                done,
                <String as ParseDump>::spec_dump(self.mac_algorithms_server_to_client@).unwrap(),
            );
        }
        let ghost done = done + <String as ParseDump>::spec_dump(
            self.mac_algorithms_server_to_client@,
        ).unwrap();
        self.compression_algorithms_client_to_server.dump(sink)?;
        proof {
            lemma_regroup(
                before,
                done,
                <String as ParseDump>::spec_dump(self.compression_algorithms_client_to_server@).unwrap(),
            );
        }
        let ghost done = done + <String as ParseDump>::spec_dump(
            self.compression_algorithms_client_to_server@,
        ).unwrap();
        self.compression_algorithms_server_to_client.dump(sink)?;
        proof {
            lemma_regroup(
                before,
                done,
                <String as ParseDump>::spec_dump(self.compression_algorithms_server_to_client@).unwrap(),
            );
        }
        let ghost done = done + <String as ParseDump>::spec_dump(
            self.compression_algorithms_server_to_client@,
        ).unwrap();
        self.languages_client_to_server.dump(sink)?;
        proof {
            lemma_regroup(
                before,
                done,
                <String as ParseDump>::spec_dump(self.languages_client_to_server@).unwrap(),
            );
        }
        let ghost done = done + <String as ParseDump>::spec_dump(
            self.languages_client_to_server@,
        ).unwrap();
        self.languages_server_to_client.dump(sink)?;
        proof {
            lemma_regroup(
                before,
                done,
                <String as ParseDump>::spec_dump(self.languages_server_to_client@).unwrap(),
            );
        }
        let ghost done = done + <String as ParseDump>::spec_dump(
            self.languages_server_to_client@,
        ).unwrap();
        self.first_kex_packet_follows.dump(sink)?;
        proof {
            lemma_regroup(
                before,
                done,
                <bool as ParseDump>::spec_dump(self.first_kex_packet_follows).unwrap(),
            );
        }
        let ghost done = done + <bool as ParseDump>::spec_dump(
            self.first_kex_packet_follows,
        ).unwrap();
        self.nop.dump(sink)?;
        proof {
            lemma_regroup(before, done, <u32 as ParseDump>::spec_dump(self.nop).unwrap());
        }
        let ghost done = done + <u32 as ParseDump>::spec_dump(self.nop).unwrap();
        Ok(())
    }

    proof fn lemma_parse_dump(v: KexinitView, rest: Seq<u8>) {
        Self::lemma_fields(v, rest);
    }
}

impl Kexinit {
    /// The steps of the round trip: in the bytes of `v`, followed by `rest`,
    /// each field is read from where the one before it ended.
    pub proof fn lemma_fields(v: KexinitView, rest: Seq<u8>)
        ensures
            Self::spec_dump(v) matches Ok(w) ==> ({
                let w0 = <[u8; 16] as ParseDump>::spec_dump(v.cookie).unwrap();
                let w1 = <String as ParseDump>::spec_dump(v.kex_algorithms).unwrap();
                let w2 = <String as ParseDump>::spec_dump(v.server_host_key_algorithms).unwrap();
                let w3 = <String as ParseDump>::spec_dump(
                    v.encryption_algorithms_client_to_server,
                ).unwrap();
                let w4 = <String as ParseDump>::spec_dump(
                    v.encryption_algorithms_server_to_client,
                ).unwrap();
                let w5 = <String as ParseDump>::spec_dump(
                    v.mac_algorithms_client_to_server,
                ).unwrap();
                let w6 = <String as ParseDump>::spec_dump(
                    v.mac_algorithms_server_to_client,
                ).unwrap();
                let w7 = <String as ParseDump>::spec_dump(
                    v.compression_algorithms_client_to_server,
                ).unwrap();
                let w8 = <String as ParseDump>::spec_dump(
                    v.compression_algorithms_server_to_client,
                ).unwrap();
                let w9 = <String as ParseDump>::spec_dump(v.languages_client_to_server).unwrap();
                let w10 = <String as ParseDump>::spec_dump(v.languages_server_to_client).unwrap();
                let w11 = <bool as ParseDump>::spec_dump(v.first_kex_packet_follows).unwrap();
                let w12 = <u32 as ParseDump>::spec_dump(v.nop).unwrap();
                let b0 = (w + rest).skip(1);
                let b1 = b0.skip(w0.len() as int);
                let b2 = b1.skip(w1.len() as int);
                let b3 = b2.skip(w2.len() as int);
                let b4 = b3.skip(w3.len() as int);
                let b5 = b4.skip(w4.len() as int);
                let b6 = b5.skip(w5.len() as int);
                let b7 = b6.skip(w6.len() as int);
                let b8 = b7.skip(w7.len() as int);
                let b9 = b8.skip(w8.len() as int);
                let b10 = b9.skip(w9.len() as int);
                let b11 = b10.skip(w10.len() as int);
                let b12 = b11.skip(w11.len() as int);
                &&& (w + rest)[0] == 20u8
                &&& w.len() == 1 + w0.len() + w1.len() + w2.len() + w3.len() + w4.len() + w5.len() + w6.len() + w7.len() + w8.len() + w9.len() + w10.len() + w11.len() + w12.len()
                &&& <[u8; 16] as ParseDump>::spec_parse(b0) == Ok::<(Seq<u8>, nat), Error>(
                    (v.cookie, w0.len()),
                )
                &&& <String as ParseDump>::spec_parse(b1) == Ok::<(Seq<char>, nat), Error>(
                    (v.kex_algorithms, w1.len()),
                )
                &&& <String as ParseDump>::spec_parse(b2) == Ok::<(Seq<char>, nat), Error>(
                    (v.server_host_key_algorithms, w2.len()),
                )
                &&& <String as ParseDump>::spec_parse(b3) == Ok::<(Seq<char>, nat), Error>(
                    (v.encryption_algorithms_client_to_server, w3.len()),
                )
                &&& <String as ParseDump>::spec_parse(b4) == Ok::<(Seq<char>, nat), Error>(
                    (v.encryption_algorithms_server_to_client, w4.len()),
                )
                &&& <String as ParseDump>::spec_parse(b5) == Ok::<(Seq<char>, nat), Error>(
                    (v.mac_algorithms_client_to_server, w5.len()),
                )
                &&& <String as ParseDump>::spec_parse(b6) == Ok::<(Seq<char>, nat), Error>(
                    (v.mac_algorithms_server_to_client, w6.len()),
                )
                &&& <String as ParseDump>::spec_parse(b7) == Ok::<(Seq<char>, nat), Error>(
                    (v.compression_algorithms_client_to_server, w7.len()),
                )
                &&& <String as ParseDump>::spec_parse(b8) == Ok::<(Seq<char>, nat), Error>(
                    (v.compression_algorithms_server_to_client, w8.len()),
                )
                &&& <String as ParseDump>::spec_parse(b9) == Ok::<(Seq<char>, nat), Error>(
                    (v.languages_client_to_server, w9.len()),
                )
                &&& <String as ParseDump>::spec_parse(b10) == Ok::<(Seq<char>, nat), Error>(
                    (v.languages_server_to_client, w10.len()),
                )
                &&& <bool as ParseDump>::spec_parse(b11) == Ok::<(bool, nat), Error>(
                    (v.first_kex_packet_follows, w11.len()),
                )
                &&& <u32 as ParseDump>::spec_parse(b12) == Ok::<(u32, nat), Error>(
                    (v.nop, w12.len()),
                )
            }),
    {
        if let Ok(w) = Self::spec_dump(v) {
            let w0 = <[u8; 16] as ParseDump>::spec_dump(v.cookie).unwrap();
            let w1 = <String as ParseDump>::spec_dump(v.kex_algorithms).unwrap();
            let w2 = <String as ParseDump>::spec_dump(v.server_host_key_algorithms).unwrap();
            let w3 = <String as ParseDump>::spec_dump(
                v.encryption_algorithms_client_to_server,
            ).unwrap();
            let w4 = <String as ParseDump>::spec_dump(
                v.encryption_algorithms_server_to_client,
            ).unwrap();
            let w5 = <String as ParseDump>::spec_dump(v.mac_algorithms_client_to_server).unwrap();
            let w6 = <String as ParseDump>::spec_dump(v.mac_algorithms_server_to_client).unwrap();
            let w7 = <String as ParseDump>::spec_dump(
                v.compression_algorithms_client_to_server,
            ).unwrap();
            let w8 = <String as ParseDump>::spec_dump(
                v.compression_algorithms_server_to_client,
            ).unwrap();
            let w9 = <String as ParseDump>::spec_dump(v.languages_client_to_server).unwrap();
            let w10 = <String as ParseDump>::spec_dump(v.languages_server_to_client).unwrap();
            let w11 = <bool as ParseDump>::spec_dump(v.first_kex_packet_follows).unwrap();
            let w12 = <u32 as ParseDump>::spec_dump(v.nop).unwrap();
            let b0 = (w + rest).skip(1);
            let b1 = b0.skip(w0.len() as int);
            let b2 = b1.skip(w1.len() as int);
            let b3 = b2.skip(w2.len() as int);
            let b4 = b3.skip(w3.len() as int);
            let b5 = b4.skip(w4.len() as int);
            let b6 = b5.skip(w5.len() as int);
            let b7 = b6.skip(w6.len() as int);
            let b8 = b7.skip(w7.len() as int);
            let b9 = b8.skip(w8.len() as int);
            let b10 = b9.skip(w9.len() as int);
            let b11 = b10.skip(w10.len() as int);
            let b12 = b11.skip(w11.len() as int);
            let d0 = <[u8; 16] as ParseDump>::spec_dump(v.cookie);
            let d1 = <String as ParseDump>::spec_dump(v.kex_algorithms);
            let d2 = <String as ParseDump>::spec_dump(v.server_host_key_algorithms);
            let d3 = <String as ParseDump>::spec_dump(v.encryption_algorithms_client_to_server);
            let d4 = <String as ParseDump>::spec_dump(v.encryption_algorithms_server_to_client);
            let d5 = <String as ParseDump>::spec_dump(v.mac_algorithms_client_to_server);
            let d6 = <String as ParseDump>::spec_dump(v.mac_algorithms_server_to_client);
            let d7 = <String as ParseDump>::spec_dump(v.compression_algorithms_client_to_server);
            let d8 = <String as ParseDump>::spec_dump(v.compression_algorithms_server_to_client);
            let d9 = <String as ParseDump>::spec_dump(v.languages_client_to_server);
            let d10 = <String as ParseDump>::spec_dump(v.languages_server_to_client);
            let d11 = <bool as ParseDump>::spec_dump(v.first_kex_packet_follows);
            let d12 = <u32 as ParseDump>::spec_dump(v.nop);
            let c0 = Ok::<Seq<u8>, Error>(seq![20u8]);
            let c1 = chain(c0, d0);
            let c2 = chain(c1, d1);
            let c3 = chain(c2, d2);
            let c4 = chain(c3, d3);
            let c5 = chain(c4, d4);
            let c6 = chain(c5, d5);
            let c7 = chain(c6, d6);
            let c8 = chain(c7, d7);
            let c9 = chain(c8, d8);
            let c10 = chain(c9, d9);
            let c11 = chain(c10, d10);
            let c12 = chain(c11, d11);
            let c13 = chain(c12, d12);
            assert(c12 is Ok && d12 is Ok);
            assert(c11 is Ok && d11 is Ok);
            assert(c10 is Ok && d10 is Ok);
            assert(c9 is Ok && d9 is Ok);
            assert(c8 is Ok && d8 is Ok);
            assert(c7 is Ok && d7 is Ok);
            assert(c6 is Ok && d6 is Ok);
            assert(c5 is Ok && d5 is Ok);
            assert(c4 is Ok && d4 is Ok);
            assert(c3 is Ok && d3 is Ok);
            assert(c2 is Ok && d2 is Ok);
            assert(c1 is Ok && d1 is Ok);
            assert(c0 is Ok && d0 is Ok);
            let q0 = c0.unwrap();
            let q1 = c1.unwrap();
            let q2 = c2.unwrap();
            let q3 = c3.unwrap();
            let q4 = c4.unwrap();
            let q5 = c5.unwrap();
            let q6 = c6.unwrap();
            let q7 = c7.unwrap();
            let q8 = c8.unwrap();
            let q9 = c9.unwrap();
            let q10 = c10.unwrap();
            let q11 = c11.unwrap();
            let q12 = c12.unwrap();
            let q13 = c13.unwrap();
            let t13 = rest;
            let t12 = w12 + t13;
            let t11 = w11 + t12;
            let t10 = w10 + t11;
            let t9 = w9 + t10;
            let t8 = w8 + t9;
            let t7 = w7 + t8;
            let t6 = w6 + t7;
            let t5 = w5 + t6;
            let t4 = w4 + t5;
            let t3 = w3 + t4;
            let t2 = w2 + t3;
            let t1 = w1 + t2;
            let t0 = w0 + t1;
            lemma_regroup(q12, w12, t13);
            lemma_regroup(q11, w11, t12);
            lemma_regroup(q10, w10, t11);
            lemma_regroup(q9, w9, t10);
            lemma_regroup(q8, w8, t9);
            lemma_regroup(q7, w7, t8);
            lemma_regroup(q6, w6, t7);
            lemma_regroup(q5, w5, t6);
            lemma_regroup(q4, w4, t5);
            lemma_regroup(q3, w3, t4);
            lemma_regroup(q2, w2, t3);
            lemma_regroup(q1, w1, t2);
            lemma_regroup(q0, w0, t1);
            lemma_skip_front(q0, t0);
            <[u8; 16] as ParseDump>::lemma_parse_dump(v.cookie, t1);
            lemma_skip_front(w0, t1);
            <String as ParseDump>::lemma_parse_dump(v.kex_algorithms, t2);
            lemma_skip_front(w1, t2);
            <String as ParseDump>::lemma_parse_dump(v.server_host_key_algorithms, t3);
            lemma_skip_front(w2, t3);
            <String as ParseDump>::lemma_parse_dump(v.encryption_algorithms_client_to_server, t4);
            lemma_skip_front(w3, t4);
            <String as ParseDump>::lemma_parse_dump(v.encryption_algorithms_server_to_client, t5);
            lemma_skip_front(w4, t5);
            <String as ParseDump>::lemma_parse_dump(v.mac_algorithms_client_to_server, t6);
            lemma_skip_front(w5, t6);
            <String as ParseDump>::lemma_parse_dump(v.mac_algorithms_server_to_client, t7);
            lemma_skip_front(w6, t7);
            <String as ParseDump>::lemma_parse_dump(v.compression_algorithms_client_to_server, t8);
            lemma_skip_front(w7, t8);
            <String as ParseDump>::lemma_parse_dump(v.compression_algorithms_server_to_client, t9);
            lemma_skip_front(w8, t9);
            <String as ParseDump>::lemma_parse_dump(v.languages_client_to_server, t10);
            lemma_skip_front(w9, t10);
            <String as ParseDump>::lemma_parse_dump(v.languages_server_to_client, t11);
            lemma_skip_front(w10, t11);
            <bool as ParseDump>::lemma_parse_dump(v.first_kex_packet_follows, t12);
            lemma_skip_front(w11, t12);
            <u32 as ParseDump>::lemma_parse_dump(v.nop, t13);
        }
    }
}

/// The client's ephemeral public key.
#[derive(Clone, Debug, PartialEq, Eq)]
pub struct KexdhInit {
    pub client_ephemeral_pubkey: Vec<u8>,
}

/// What a `KexdhInit` holds.
pub ghost struct KexdhInitView {
    pub client_ephemeral_pubkey: Seq<u8>,
}

impl View for KexdhInit {
    type V = KexdhInitView;

    open spec fn view(&self) -> KexdhInitView {
        KexdhInitView {
            client_ephemeral_pubkey: self.client_ephemeral_pubkey@,
        }
    }
}

impl ParseDump for KexdhInit {
    open spec fn spec_parse(bytes: Seq<u8>) -> Result<(KexdhInitView, nat), Error> {
        match spec_expect_tag(bytes, MessageType::KexdhInit) {
            Err(e) => Err(e),
            Ok(_) => {
                let b0 = bytes.skip(1);
                match <Vec<u8> as ParseDump>::spec_parse(b0) {
                    Err(e) => Err(e),
                    Ok((client_ephemeral_pubkey, n0)) => {
                        Ok((KexdhInitView { client_ephemeral_pubkey }, (1 + n0) as nat))
                    },
                }
            },
        }
    }

    open spec fn spec_dump(v: KexdhInitView) -> Result<Seq<u8>, Error> {
        chain(Ok(seq![30u8]), <Vec<u8> as ParseDump>::spec_dump(v.client_ephemeral_pubkey))
    }

    fn parse(bytes: &[u8]) -> (r: Result<(KexdhInit, usize), Error>) {
        expect_tag(bytes, MessageType::KexdhInit)?;
        let b0 = tail(bytes, 1);
        let (client_ephemeral_pubkey, n0) = <Vec<u8> as ParseDump>::parse(b0)?;
        Ok((KexdhInit { client_ephemeral_pubkey }, 1 + n0))
    }

    fn dump(&self, sink: &mut Vec<u8>) -> (r: Result<(), Error>) {
        put_u8(sink, 30);
        self.client_ephemeral_pubkey.dump(sink)?;
        Ok(())
    }

    proof fn lemma_parse_dump(v: KexdhInitView, rest: Seq<u8>) {
        if let Ok(w) = Self::spec_dump(v) {
            let w0 = <Vec<u8> as ParseDump>::spec_dump(v.client_ephemeral_pubkey).unwrap();
            let b0 = (w + rest).skip(1);
            let d0 = <Vec<u8> as ParseDump>::spec_dump(v.client_ephemeral_pubkey);
            let c0 = Ok::<Seq<u8>, Error>(seq![30u8]);
            let c1 = chain(c0, d0);
            assert(c0 is Ok && d0 is Ok);
            let q0 = c0.unwrap();
            let q1 = c1.unwrap();
            let t1 = rest;
            let t0 = w0 + t1;
            lemma_regroup(q0, w0, t1);
            lemma_skip_front(q0, t0);
            <Vec<u8> as ParseDump>::lemma_parse_dump(v.client_ephemeral_pubkey, t1);
        }
    }
}

/// The server's host key, its ephemeral public key and its signature over the exchange hash.
#[derive(Clone, Debug, PartialEq, Eq)]
pub struct KexdhReply {
    pub server_public_host_key: Blob,
    pub server_ephemeral_pubkey: Vec<u8>,
    pub exchange_hash_signature: Blob,
}

/// What a `KexdhReply` holds.
pub ghost struct KexdhReplyView {
    pub server_public_host_key: BlobView,
    pub server_ephemeral_pubkey: Seq<u8>,
    pub exchange_hash_signature: BlobView,
}

impl View for KexdhReply {
    type V = KexdhReplyView;

    open spec fn view(&self) -> KexdhReplyView {
        KexdhReplyView {
            server_public_host_key: self.server_public_host_key@,
            server_ephemeral_pubkey: self.server_ephemeral_pubkey@,
            exchange_hash_signature: self.exchange_hash_signature@,
        }
    }
}

impl ParseDump for KexdhReply {
    open spec fn spec_parse(bytes: Seq<u8>) -> Result<(KexdhReplyView, nat), Error> {
        match spec_expect_tag(bytes, MessageType::KexdhReply) {
            Err(e) => Err(e),
            Ok(_) => {
                let b0 = bytes.skip(1);
                match <Blob as ParseDump>::spec_parse(b0) {
                    Err(e) => Err(e),
                    Ok((server_public_host_key, n0)) => {
                        let b1 = b0.skip(n0 as int);
                        match <Vec<u8> as ParseDump>::spec_parse(b1) {
                            Err(e) => Err(e),
                            Ok((server_ephemeral_pubkey, n1)) => {
                                let b2 = b1.skip(n1 as int);
                                match <Blob as ParseDump>::spec_parse(b2) {
                                    Err(e) => Err(e),
                                    Ok((exchange_hash_signature, n2)) => {
                                        Ok(
                                            (
                                                KexdhReplyView {
                                                    server_public_host_key,
                                                    server_ephemeral_pubkey,
                                                    exchange_hash_signature,
                                                },
                                                (1 + n0 + n1 + n2) as nat,
                                            ),
                                        )
                                    },
                                }
                            },
                        }
                    },
                }
            },
        }
    }

    open spec fn spec_dump(v: KexdhReplyView) -> Result<Seq<u8>, Error> {
        let a = Ok(seq![31u8]);
        let a = chain(a, <Blob as ParseDump>::spec_dump(v.server_public_host_key));
        let a = chain(a, <Vec<u8> as ParseDump>::spec_dump(v.server_ephemeral_pubkey));
        chain(a, <Blob as ParseDump>::spec_dump(v.exchange_hash_signature))
    }

    fn parse(bytes: &[u8]) -> (r: Result<(KexdhReply, usize), Error>) {
        expect_tag(bytes, MessageType::KexdhReply)?;
        let b0 = tail(bytes, 1);
        let (server_public_host_key, n0) = <Blob as ParseDump>::parse(b0)?;
        let b1 = tail(b0, n0);
        let (server_ephemeral_pubkey, n1) = <Vec<u8> as ParseDump>::parse(b1)?;
        let b2 = tail(b1, n1);
        let (exchange_hash_signature, n2) = <Blob as ParseDump>::parse(b2)?;
        Ok(
            (
                KexdhReply {
                    server_public_host_key,
                    server_ephemeral_pubkey,
                    exchange_hash_signature,
                },
                1 + n0 + n1 + n2,
            ),
        )
    }

    fn dump(&self, sink: &mut Vec<u8>) -> (r: Result<(), Error>) {
        let ghost before = sink@;
        put_u8(sink, 31);
        let ghost done = seq![31u8];
        self.server_public_host_key.dump(sink)?;
        proof {
            lemma_regroup(
                before,
                done,
                <Blob as ParseDump>::spec_dump(self.server_public_host_key@).unwrap(),
            );
        }
        let ghost done = done + <Blob as ParseDump>::spec_dump(
            self.server_public_host_key@,
        ).unwrap();
        self.server_ephemeral_pubkey.dump(sink)?;
        proof {
            lemma_regroup(
                before,
                done,
                <Vec<u8> as ParseDump>::spec_dump(self.server_ephemeral_pubkey@).unwrap(),
            );
        }
        let ghost done = done + <Vec<u8> as ParseDump>::spec_dump(
            self.server_ephemeral_pubkey@,
        ).unwrap();
        self.exchange_hash_signature.dump(sink)?;
        proof {
            lemma_regroup(
                before,
                done,
                <Blob as ParseDump>::spec_dump(self.exchange_hash_signature@).unwrap(),
            );
        }
        let ghost done = done + <Blob as ParseDump>::spec_dump(
            self.exchange_hash_signature@,
        ).unwrap();
        Ok(())
    }

    proof fn lemma_parse_dump(v: KexdhReplyView, rest: Seq<u8>) {
        if let Ok(w) = Self::spec_dump(v) {
            let w0 = <Blob as ParseDump>::spec_dump(v.server_public_host_key).unwrap();
            let w1 = <Vec<u8> as ParseDump>::spec_dump(v.server_ephemeral_pubkey).unwrap();
            let w2 = <Blob as ParseDump>::spec_dump(v.exchange_hash_signature).unwrap();
            let b0 = (w + rest).skip(1);
            let b1 = b0.skip(w0.len() as int);
            let b2 = b1.skip(w1.len() as int);
            let d0 = <Blob as ParseDump>::spec_dump(v.server_public_host_key);
            let d1 = <Vec<u8> as ParseDump>::spec_dump(v.server_ephemeral_pubkey);
            let d2 = <Blob as ParseDump>::spec_dump(v.exchange_hash_signature);
            let c0 = Ok::<Seq<u8>, Error>(seq![31u8]);
            let c1 = chain(c0, d0);
            let c2 = chain(c1, d1);
            let c3 = chain(c2, d2);
            assert(c2 is Ok && d2 is Ok);
            assert(c1 is Ok && d1 is Ok);
            assert(c0 is Ok && d0 is Ok);
            let q0 = c0.unwrap();
            let q1 = c1.unwrap();
            let q2 = c2.unwrap();
            let q3 = c3.unwrap();
            let t3 = rest;
            let t2 = w2 + t3;
            let t1 = w1 + t2;
            let t0 = w0 + t1;
            lemma_regroup(q2, w2, t3);
            lemma_regroup(q1, w1, t2);
            lemma_regroup(q0, w0, t1);
            lemma_skip_front(q0, t0);
            <Blob as ParseDump>::lemma_parse_dump(v.server_public_host_key, t1);
            lemma_skip_front(w0, t1);
            <Vec<u8> as ParseDump>::lemma_parse_dump(v.server_ephemeral_pubkey, t2);
            lemma_skip_front(w1, t2);
            <Blob as ParseDump>::lemma_parse_dump(v.exchange_hash_signature, t3);
        }
    }
}

/// From here on the new keys are in use.
#[derive(Copy, Clone, Debug, PartialEq, Eq, Structural)]
pub struct Newkeys {}

impl View for Newkeys {
    type V = Newkeys;

    open spec fn view(&self) -> Newkeys {
        *self
    }
}

impl ParseDump for Newkeys {
    open spec fn spec_parse(bytes: Seq<u8>) -> Result<(Newkeys, nat), Error> {
        match spec_expect_tag(bytes, MessageType::Newkeys) {
            Err(e) => Err(e),
            Ok(_) => {
                Ok((Newkeys {  }, (1) as nat))
            },
        }
    }

    open spec fn spec_dump(v: Newkeys) -> Result<Seq<u8>, Error> {
        Ok(seq![21u8])
    }

    fn parse(bytes: &[u8]) -> (r: Result<(Newkeys, usize), Error>) {
        expect_tag(bytes, MessageType::Newkeys)?;
        Ok((Newkeys {  }, 1))
    }

    fn dump(&self, sink: &mut Vec<u8>) -> (r: Result<(), Error>) {
        put_u8(sink, 21);
        Ok(())
    }

    proof fn lemma_parse_dump(v: Newkeys, rest: Seq<u8>) {
        assert((seq![21u8] + rest)[0] == 21u8);
    }
}

/// Asks for a service by name.
#[derive(Clone, Debug, PartialEq, Eq)]
pub struct ServiceRequest {
    pub service_name: String,
}

/// What a `ServiceRequest` holds.
pub ghost struct ServiceRequestView {
    pub service_name: Seq<char>,
}

impl View for ServiceRequest {
    type V = ServiceRequestView;

    open spec fn view(&self) -> ServiceRequestView {
        ServiceRequestView {
            service_name: self.service_name@,
        }
    }
}

impl ParseDump for ServiceRequest {
    open spec fn spec_parse(bytes: Seq<u8>) -> Result<(ServiceRequestView, nat), Error> {
        match spec_expect_tag(bytes, MessageType::ServiceRequest) {
            Err(e) => Err(e),
            Ok(_) => {
                let b0 = bytes.skip(1);
                match <String as ParseDump>::spec_parse(b0) {
                    Err(e) => Err(e),
                    Ok((service_name, n0)) => {
                        Ok((ServiceRequestView { service_name }, (1 + n0) as nat))
                    },
                }
            },
        }
    }

    open spec fn spec_dump(v: ServiceRequestView) -> Result<Seq<u8>, Error> {
        chain(Ok(seq![5u8]), <String as ParseDump>::spec_dump(v.service_name))
    }

    fn parse(bytes: &[u8]) -> (r: Result<(ServiceRequest, usize), Error>) {
        expect_tag(bytes, MessageType::ServiceRequest)?;
        let b0 = tail(bytes, 1);
        let (service_name, n0) = <String as ParseDump>::parse(b0)?;
        Ok((ServiceRequest { service_name }, 1 + n0))
    }

    fn dump(&self, sink: &mut Vec<u8>) -> (r: Result<(), Error>) {
        put_u8(sink, 5);
        self.service_name.dump(sink)?;
        Ok(())
    }

    proof fn lemma_parse_dump(v: ServiceRequestView, rest: Seq<u8>) {
        if let Ok(w) = Self::spec_dump(v) {
            let w0 = <String as ParseDump>::spec_dump(v.service_name).unwrap();
            let b0 = (w + rest).skip(1);
            let d0 = <String as ParseDump>::spec_dump(v.service_name);
            let c0 = Ok::<Seq<u8>, Error>(seq![5u8]);
            let c1 = chain(c0, d0);
            assert(c0 is Ok && d0 is Ok);
            let q0 = c0.unwrap();
            let q1 = c1.unwrap();
            let t1 = rest;
            let t0 = w0 + t1;
            lemma_regroup(q0, w0, t1);
            lemma_skip_front(q0, t0);
            <String as ParseDump>::lemma_parse_dump(v.service_name, t1);
        }
    }
}

/// Grants a service.
#[derive(Clone, Debug, PartialEq, Eq)]
pub struct ServiceAccept {
    pub service_name: String,
}

/// What a `ServiceAccept` holds.
pub ghost struct ServiceAcceptView {
    pub service_name: Seq<char>,
}

impl View for ServiceAccept {
    type V = ServiceAcceptView;

    open spec fn view(&self) -> ServiceAcceptView {
        ServiceAcceptView {
            service_name: self.service_name@,
        }
    }
}

impl ParseDump for ServiceAccept {
    open spec fn spec_parse(bytes: Seq<u8>) -> Result<(ServiceAcceptView, nat), Error> {
        match spec_expect_tag(bytes, MessageType::ServiceAccept) {
            Err(e) => Err(e),
            Ok(_) => {
                let b0 = bytes.skip(1);
                match <String as ParseDump>::spec_parse(b0) {
                    Err(e) => Err(e),
                    Ok((service_name, n0)) => {
                        Ok((ServiceAcceptView { service_name }, (1 + n0) as nat))
                    },
                }
            },
        }
    }

    open spec fn spec_dump(v: ServiceAcceptView) -> Result<Seq<u8>, Error> {
        chain(Ok(seq![6u8]), <String as ParseDump>::spec_dump(v.service_name))
    }

    fn parse(bytes: &[u8]) -> (r: Result<(ServiceAccept, usize), Error>) {
        expect_tag(bytes, MessageType::ServiceAccept)?;
        let b0 = tail(bytes, 1);
        let (service_name, n0) = <String as ParseDump>::parse(b0)?;
        Ok((ServiceAccept { service_name }, 1 + n0))
    }

    fn dump(&self, sink: &mut Vec<u8>) -> (r: Result<(), Error>) {
        put_u8(sink, 6);
        self.service_name.dump(sink)?;
        Ok(())
    }

    proof fn lemma_parse_dump(v: ServiceAcceptView, rest: Seq<u8>) {
        if let Ok(w) = Self::spec_dump(v) {
            let w0 = <String as ParseDump>::spec_dump(v.service_name).unwrap();
            let b0 = (w + rest).skip(1);
            let d0 = <String as ParseDump>::spec_dump(v.service_name);
            let c0 = Ok::<Seq<u8>, Error>(seq![6u8]);
            let c1 = chain(c0, d0);
            assert(c0 is Ok && d0 is Ok);
            let q0 = c0.unwrap();
            let q1 = c1.unwrap();
            let t1 = rest;
            let t0 = w0 + t1;
            lemma_regroup(q0, w0, t1);
            lemma_skip_front(q0, t0);
            <String as ParseDump>::lemma_parse_dump(v.service_name, t1);
        }
    }
}

/// The peer ends the connection.
#[derive(Clone, Debug, PartialEq, Eq)]
pub struct Disconnect {
    pub reason_code: DisconnectReasonCode,
    pub description: String,
    pub language_tag: String,
}

/// What a `Disconnect` holds.
pub ghost struct DisconnectView {
    pub reason_code: DisconnectReasonCode,
    pub description: Seq<char>,
    pub language_tag: Seq<char>,
}

impl View for Disconnect {
    type V = DisconnectView;

    open spec fn view(&self) -> DisconnectView {
        DisconnectView {
            reason_code: self.reason_code,
            description: self.description@,
            language_tag: self.language_tag@,
        }
    }
}

impl ParseDump for Disconnect {
    open spec fn spec_parse(bytes: Seq<u8>) -> Result<(DisconnectView, nat), Error> {
        match spec_expect_tag(bytes, MessageType::Disconnect) {
            Err(e) => Err(e),
            Ok(_) => {
                let b0 = bytes.skip(1);
                match <DisconnectReasonCode as ParseDump>::spec_parse(b0) {
                    Err(e) => Err(e),
                    Ok((reason_code, n0)) => {
                        let b1 = b0.skip(n0 as int);
                        match <String as ParseDump>::spec_parse(b1) {
                            Err(e) => Err(e),
                            Ok((description, n1)) => {
                                let b2 = b1.skip(n1 as int);
                                match <String as ParseDump>::spec_parse(b2) {
                                    Err(e) => Err(e),
                                    Ok((language_tag, n2)) => {
                                        Ok(
                                            (
                                                DisconnectView {
                                                    reason_code,
                                                    description,
                                                    language_tag,
                                                },
                                                (1 + n0 + n1 + n2) as nat,
                                            ),
                                        )
                                    },
                                }
                            },
                        }
                    },
                }
            },
        }
    }

    open spec fn spec_dump(v: DisconnectView) -> Result<Seq<u8>, Error> {
        let a = Ok(seq![1u8]);
        let a = chain(a, <DisconnectReasonCode as ParseDump>::spec_dump(v.reason_code));
        let a = chain(a, <String as ParseDump>::spec_dump(v.description));
        chain(a, <String as ParseDump>::spec_dump(v.language_tag))
    }

    fn parse(bytes: &[u8]) -> (r: Result<(Disconnect, usize), Error>) {
        expect_tag(bytes, MessageType::Disconnect)?;
        let b0 = tail(bytes, 1);
        let (reason_code, n0) = <DisconnectReasonCode as ParseDump>::parse(b0)?;
        let b1 = tail(b0, n0);
        let (description, n1) = <String as ParseDump>::parse(b1)?;
        let b2 = tail(b1, n1);
        let (language_tag, n2) = <String as ParseDump>::parse(b2)?;
        Ok((Disconnect { reason_code, description, language_tag }, 1 + n0 + n1 + n2))
    }

    fn dump(&self, sink: &mut Vec<u8>) -> (r: Result<(), Error>) {
        let ghost before = sink@;
        put_u8(sink, 1);
        let ghost done = seq![1u8];
        self.reason_code.dump(sink)?;
        proof {
            lemma_regroup(
                before,
                done,
                <DisconnectReasonCode as ParseDump>::spec_dump(self.reason_code).unwrap(),
            );
        }
        let ghost done = done + <DisconnectReasonCode as ParseDump>::spec_dump(
            self.reason_code,
        ).unwrap();
        self.description.dump(sink)?;
        proof {
            lemma_regroup(
                before,
                done,
                <String as ParseDump>::spec_dump(self.description@).unwrap(),
            );
        }
        let ghost done = done + <String as ParseDump>::spec_dump(self.description@).unwrap();
        self.language_tag.dump(sink)?;
        proof {
            lemma_regroup(
                before,
                done,
                <String as ParseDump>::spec_dump(self.language_tag@).unwrap(),
            );
        }
        let ghost done = done + <String as ParseDump>::spec_dump(self.language_tag@).unwrap();
        Ok(())
    }

    proof fn lemma_parse_dump(v: DisconnectView, rest: Seq<u8>) {
        if let Ok(w) = Self::spec_dump(v) {
            let w0 = <DisconnectReasonCode as ParseDump>::spec_dump(v.reason_code).unwrap();
            let w1 = <String as ParseDump>::spec_dump(v.description).unwrap();
            let w2 = <String as ParseDump>::spec_dump(v.language_tag).unwrap();
            let b0 = (w + rest).skip(1);
            let b1 = b0.skip(w0.len() as int);
            let b2 = b1.skip(w1.len() as int);
            let d0 = <DisconnectReasonCode as ParseDump>::spec_dump(v.reason_code);
            let d1 = <String as ParseDump>::spec_dump(v.description);
            let d2 = <String as ParseDump>::spec_dump(v.language_tag);
            let c0 = Ok::<Seq<u8>, Error>(seq![1u8]);
            let c1 = chain(c0, d0);
            let c2 = chain(c1, d1);
            let c3 = chain(c2, d2);
            assert(c2 is Ok && d2 is Ok);
            assert(c1 is Ok && d1 is Ok);
            assert(c0 is Ok && d0 is Ok);
            let q0 = c0.unwrap();
            let q1 = c1.unwrap();
            let q2 = c2.unwrap();
            let q3 = c3.unwrap();
            let t3 = rest;
            let t2 = w2 + t3;
            let t1 = w1 + t2;
            let t0 = w0 + t1;
            lemma_regroup(q2, w2, t3);
            lemma_regroup(q1, w1, t2);
            lemma_regroup(q0, w0, t1);
            lemma_skip_front(q0, t0);
            <DisconnectReasonCode as ParseDump>::lemma_parse_dump(v.reason_code, t1);
            lemma_skip_front(w0, t1);
            <String as ParseDump>::lemma_parse_dump(v.description, t2);
            lemma_skip_front(w1, t2);
            <String as ParseDump>::lemma_parse_dump(v.language_tag, t3);
        }
    }
}

/// The authentication attempt was accepted.
#[derive(Copy, Clone, Debug, PartialEq, Eq, Structural)]
pub struct UserauthSuccess {}

impl View for UserauthSuccess {
    type V = UserauthSuccess;

    open spec fn view(&self) -> UserauthSuccess {
        *self
    }
}

impl ParseDump for UserauthSuccess {
    open spec fn spec_parse(bytes: Seq<u8>) -> Result<(UserauthSuccess, nat), Error> {
        match spec_expect_tag(bytes, MessageType::UserauthSuccess) {
            Err(e) => Err(e),
            Ok(_) => {
                Ok((UserauthSuccess {  }, (1) as nat))
            },
        }
    }

    open spec fn spec_dump(v: UserauthSuccess) -> Result<Seq<u8>, Error> {
        Ok(seq![52u8])
    }

    fn parse(bytes: &[u8]) -> (r: Result<(UserauthSuccess, usize), Error>) {
        expect_tag(bytes, MessageType::UserauthSuccess)?;
        Ok((UserauthSuccess {  }, 1))
    }

    fn dump(&self, sink: &mut Vec<u8>) -> (r: Result<(), Error>) {
        put_u8(sink, 52);
        Ok(())
    }

    proof fn lemma_parse_dump(v: UserauthSuccess, rest: Seq<u8>) {
        assert((seq![52u8] + rest)[0] == 52u8);
    }
}

/// The server would accept a signature by this public key.
#[derive(Clone, Debug, PartialEq, Eq)]
pub struct UserauthPkOk {
    pub algorithm: String,
    pub blob: Blob,
}

/// What a `UserauthPkOk` holds.
pub ghost struct UserauthPkOkView {
    pub algorithm: Seq<char>,
    pub blob: BlobView,
}

impl View for UserauthPkOk {
    type V = UserauthPkOkView;

    open spec fn view(&self) -> UserauthPkOkView {
        UserauthPkOkView {
            algorithm: self.algorithm@,
            blob: self.blob@,
        }
    }
}

impl ParseDump for UserauthPkOk {
    open spec fn spec_parse(bytes: Seq<u8>) -> Result<(UserauthPkOkView, nat), Error> {
        match spec_expect_tag(bytes, MessageType::UserauthPkOk) {
            Err(e) => Err(e),
            Ok(_) => {
                let b0 = bytes.skip(1);
                match <String as ParseDump>::spec_parse(b0) {
                    Err(e) => Err(e),
                    Ok((algorithm, n0)) => {
                        let b1 = b0.skip(n0 as int);
                        match <Blob as ParseDump>::spec_parse(b1) {
                            Err(e) => Err(e),
                            Ok((blob, n1)) => {
                                Ok((UserauthPkOkView { algorithm, blob }, (1 + n0 + n1) as nat))
                            },
                        }
                    },
                }
            },
        }
    }

    open spec fn spec_dump(v: UserauthPkOkView) -> Result<Seq<u8>, Error> {
        let a = Ok(seq![60u8]);
        let a = chain(a, <String as ParseDump>::spec_dump(v.algorithm));
        chain(a, <Blob as ParseDump>::spec_dump(v.blob))
    }

    fn parse(bytes: &[u8]) -> (r: Result<(UserauthPkOk, usize), Error>) {
        expect_tag(bytes, MessageType::UserauthPkOk)?;
        let b0 = tail(bytes, 1);
        let (algorithm, n0) = <String as ParseDump>::parse(b0)?;
        let b1 = tail(b0, n0);
        let (blob, n1) = <Blob as ParseDump>::parse(b1)?;
        Ok((UserauthPkOk { algorithm, blob }, 1 + n0 + n1))
    }

    fn dump(&self, sink: &mut Vec<u8>) -> (r: Result<(), Error>) {
        put_u8(sink, 60);
        self.algorithm.dump(sink)?;
        self.blob.dump(sink)?;
        Ok(())
    }

    proof fn lemma_parse_dump(v: UserauthPkOkView, rest: Seq<u8>) {
        if let Ok(w) = Self::spec_dump(v) {
            let w0 = <String as ParseDump>::spec_dump(v.algorithm).unwrap();
            let w1 = <Blob as ParseDump>::spec_dump(v.blob).unwrap();
            let b0 = (w + rest).skip(1);
            let b1 = b0.skip(w0.len() as int);
            let d0 = <String as ParseDump>::spec_dump(v.algorithm);
            let d1 = <Blob as ParseDump>::spec_dump(v.blob);
            let c0 = Ok::<Seq<u8>, Error>(seq![60u8]);
            let c1 = chain(c0, d0);
            let c2 = chain(c1, d1);
            assert(c1 is Ok && d1 is Ok);
            assert(c0 is Ok && d0 is Ok);
            let q0 = c0.unwrap();
            let q1 = c1.unwrap();
            let q2 = c2.unwrap();
            let t2 = rest;
            let t1 = w1 + t2;
            let t0 = w0 + t1;
            lemma_regroup(q1, w1, t2);
            lemma_regroup(q0, w0, t1);
            lemma_skip_front(q0, t0);
            <String as ParseDump>::lemma_parse_dump(v.algorithm, t1);
            lemma_skip_front(w0, t1);
            <Blob as ParseDump>::lemma_parse_dump(v.blob, t2);
        }
    }
}

/// The authentication attempt was rejected.
#[derive(Clone, Debug, PartialEq, Eq)]
pub struct UserauthFailure {
    pub allowed_auth: String,
    pub partial_success: bool,
}

/// What a `UserauthFailure` holds.
pub ghost struct UserauthFailureView {
    pub allowed_auth: Seq<char>,
    pub partial_success: bool,
}

impl View for UserauthFailure {
    type V = UserauthFailureView;

    open spec fn view(&self) -> UserauthFailureView {
        UserauthFailureView {
            allowed_auth: self.allowed_auth@,
            partial_success: self.partial_success,
        }
    }
}

impl ParseDump for UserauthFailure {
    open spec fn spec_parse(bytes: Seq<u8>) -> Result<(UserauthFailureView, nat), Error> {
        match spec_expect_tag(bytes, MessageType::UserauthFailure) {
            Err(e) => Err(e),
            Ok(_) => {
                let b0 = bytes.skip(1);
                match <String as ParseDump>::spec_parse(b0) {
                    Err(e) => Err(e),
                    Ok((allowed_auth, n0)) => {
                        let b1 = b0.skip(n0 as int);
                        match <bool as ParseDump>::spec_parse(b1) {
                            Err(e) => Err(e),
                            Ok((partial_success, n1)) => {
                                Ok(
                                    (
                                        UserauthFailureView {
                                            allowed_auth,
                                            partial_success,
                                        },
                                        (1 + n0 + n1) as nat,
                                    ),
                                )
                            },
                        }
                    },
                }
            },
        }
    }

    open spec fn spec_dump(v: UserauthFailureView) -> Result<Seq<u8>, Error> {
        let a = Ok(seq![51u8]);
        let a = chain(a, <String as ParseDump>::spec_dump(v.allowed_auth));
        chain(a, <bool as ParseDump>::spec_dump(v.partial_success))
    }

    fn parse(bytes: &[u8]) -> (r: Result<(UserauthFailure, usize), Error>) {
        expect_tag(bytes, MessageType::UserauthFailure)?;
        let b0 = tail(bytes, 1);
        let (allowed_auth, n0) = <String as ParseDump>::parse(b0)?;
        let b1 = tail(b0, n0);
        let (partial_success, n1) = <bool as ParseDump>::parse(b1)?;
        Ok((UserauthFailure { allowed_auth, partial_success }, 1 + n0 + n1))
    }

    fn dump(&self, sink: &mut Vec<u8>) -> (r: Result<(), Error>) {
        put_u8(sink, 51);
        self.allowed_auth.dump(sink)?;
        self.partial_success.dump(sink)?;
        Ok(())
    }

    proof fn lemma_parse_dump(v: UserauthFailureView, rest: Seq<u8>) {
        if let Ok(w) = Self::spec_dump(v) {
            let w0 = <String as ParseDump>::spec_dump(v.allowed_auth).unwrap();
            let w1 = <bool as ParseDump>::spec_dump(v.partial_success).unwrap();
            let b0 = (w + rest).skip(1);
            let b1 = b0.skip(w0.len() as int);
            let d0 = <String as ParseDump>::spec_dump(v.allowed_auth);
            let d1 = <bool as ParseDump>::spec_dump(v.partial_success);
            let c0 = Ok::<Seq<u8>, Error>(seq![51u8]);
            let c1 = chain(c0, d0);
            let c2 = chain(c1, d1);
            assert(c1 is Ok && d1 is Ok);
            assert(c0 is Ok && d0 is Ok);
            let q0 = c0.unwrap();
            let q1 = c1.unwrap();
            let q2 = c2.unwrap();
            let t2 = rest;
            let t1 = w1 + t2;
            let t0 = w0 + t1;
            lemma_regroup(q1, w1, t2);
            lemma_regroup(q0, w0, t1);
            lemma_skip_front(q0, t0);
            <String as ParseDump>::lemma_parse_dump(v.allowed_auth, t1);
            lemma_skip_front(w0, t1);
            <bool as ParseDump>::lemma_parse_dump(v.partial_success, t2);
        }
    }
}

/// Asks to open a channel.
#[derive(Clone, Debug, PartialEq, Eq)]
pub struct ChannelOpen {
    pub channel_type: String,
    pub client_channel: u32,
    pub client_initial_window_size: u32,
    pub client_max_packet_size: u32,
}

/// What a `ChannelOpen` holds.
pub ghost struct ChannelOpenView {
    pub channel_type: Seq<char>,
    pub client_channel: u32,
    pub client_initial_window_size: u32,
    pub client_max_packet_size: u32,
}

impl View for ChannelOpen {
    type V = ChannelOpenView;

    open spec fn view(&self) -> ChannelOpenView {
        ChannelOpenView {
            channel_type: self.channel_type@,
            client_channel: self.client_channel,
            client_initial_window_size: self.client_initial_window_size,
            client_max_packet_size: self.client_max_packet_size,
        }
    }
}

impl ParseDump for ChannelOpen {
    open spec fn spec_parse(bytes: Seq<u8>) -> Result<(ChannelOpenView, nat), Error> {
        match spec_expect_tag(bytes, MessageType::ChannelOpen) {
            Err(e) => Err(e),
            Ok(_) => {
                let b0 = bytes.skip(1);
                match <String as ParseDump>::spec_parse(b0) {
                    Err(e) => Err(e),
                    Ok((channel_type, n0)) => {
                        let b1 = b0.skip(n0 as int);
                        match <u32 as ParseDump>::spec_parse(b1) {
                            Err(e) => Err(e),
                            Ok((client_channel, n1)) => {
                                let b2 = b1.skip(n1 as int);
                                match <u32 as ParseDump>::spec_parse(b2) {
                                    Err(e) => Err(e),
                                    Ok((client_initial_window_size, n2)) => {
                                        let b3 = b2.skip(n2 as int);
                                        match <u32 as ParseDump>::spec_parse(b3) {
                                            Err(e) => Err(e),
                                            Ok((client_max_packet_size, n3)) => {
                                                Ok(
                                                    (
                                                        ChannelOpenView {
                                                            channel_type,
                                                            client_channel,
                                                            client_initial_window_size,
                                                            client_max_packet_size,
                                                        },
                                                        (1 + n0 + n1 + n2 + n3) as nat,
                                                    ),
                                                )
                                            },
                                        }
                                    },
                                }
                            },
                        }
                    },
                }
            },
        }
    }

    open spec fn spec_dump(v: ChannelOpenView) -> Result<Seq<u8>, Error> {
        let a = Ok(seq![90u8]);
        let a = chain(a, <String as ParseDump>::spec_dump(v.channel_type));
        let a = chain(a, <u32 as ParseDump>::spec_dump(v.client_channel));
        let a = chain(a, <u32 as ParseDump>::spec_dump(v.client_initial_window_size));
        chain(a, <u32 as ParseDump>::spec_dump(v.client_max_packet_size))
    }

    fn parse(bytes: &[u8]) -> (r: Result<(ChannelOpen, usize), Error>) {
        expect_tag(bytes, MessageType::ChannelOpen)?;
        let b0 = tail(bytes, 1);
        let (channel_type, n0) = <String as ParseDump>::parse(b0)?;
        let b1 = tail(b0, n0);
        let (client_channel, n1) = <u32 as ParseDump>::parse(b1)?;
        let b2 = tail(b1, n1);
        let (client_initial_window_size, n2) = <u32 as ParseDump>::parse(b2)?;
        let b3 = tail(b2, n2);
        let (client_max_packet_size, n3) = <u32 as ParseDump>::parse(b3)?;
        Ok(
            (
                ChannelOpen {
                    channel_type,
                    client_channel,
                    client_initial_window_size,
                    client_max_packet_size,
                },
                1 + n0 + n1 + n2 + n3,
            ),
        )
    }

    fn dump(&self, sink: &mut Vec<u8>) -> (r: Result<(), Error>) {
        let ghost before = sink@;
        put_u8(sink, 90);
        let ghost done = seq![90u8];
        self.channel_type.dump(sink)?;
        proof {
            lemma_regroup(
                before,
                done,
                <String as ParseDump>::spec_dump(self.channel_type@).unwrap(),
            );
        }
        let ghost done = done + <String as ParseDump>::spec_dump(self.channel_type@).unwrap();
        self.client_channel.dump(sink)?;
        proof {
            lemma_regroup(
                before,
                done,
                <u32 as ParseDump>::spec_dump(self.client_channel).unwrap(),
            );
        }
        let ghost done = done + <u32 as ParseDump>::spec_dump(self.client_channel).unwrap();
        self.client_initial_window_size.dump(sink)?;
        proof {
            lemma_regroup(
                before,
                done,
                <u32 as ParseDump>::spec_dump(self.client_initial_window_size).unwrap(),
            );
        }
        let ghost done = done + <u32 as ParseDump>::spec_dump(
            self.client_initial_window_size,
        ).unwrap();
        self.client_max_packet_size.dump(sink)?;
        proof {
            lemma_regroup(
                before,
                done,
                <u32 as ParseDump>::spec_dump(self.client_max_packet_size).unwrap(),
            );
        }
        let ghost done = done + <u32 as ParseDump>::spec_dump(self.client_max_packet_size).unwrap();
        Ok(())
    }

    proof fn lemma_parse_dump(v: ChannelOpenView, rest: Seq<u8>) {
        if let Ok(w) = Self::spec_dump(v) {
            let w0 = <String as ParseDump>::spec_dump(v.channel_type).unwrap();
            let w1 = <u32 as ParseDump>::spec_dump(v.client_channel).unwrap();
            let w2 = <u32 as ParseDump>::spec_dump(v.client_initial_window_size).unwrap();
            let w3 = <u32 as ParseDump>::spec_dump(v.client_max_packet_size).unwrap();
            let b0 = (w + rest).skip(1);
            let b1 = b0.skip(w0.len() as int);
            let b2 = b1.skip(w1.len() as int);
            let b3 = b2.skip(w2.len() as int);
            let d0 = <String as ParseDump>::spec_dump(v.channel_type);
            let d1 = <u32 as ParseDump>::spec_dump(v.client_channel);
            let d2 = <u32 as ParseDump>::spec_dump(v.client_initial_window_size);
            let d3 = <u32 as ParseDump>::spec_dump(v.client_max_packet_size);
            let c0 = Ok::<Seq<u8>, Error>(seq![90u8]);
            let c1 = chain(c0, d0);
            let c2 = chain(c1, d1);
            let c3 = chain(c2, d2);
            let c4 = chain(c3, d3);
            assert(c3 is Ok && d3 is Ok);
            assert(c2 is Ok && d2 is Ok);
            assert(c1 is Ok && d1 is Ok);
            assert(c0 is Ok && d0 is Ok);
            let q0 = c0.unwrap();
            let q1 = c1.unwrap();
            let q2 = c2.unwrap();
            let q3 = c3.unwrap();
            let q4 = c4.unwrap();
            let t4 = rest;
            let t3 = w3 + t4;
            let t2 = w2 + t3;
            let t1 = w1 + t2;
            let t0 = w0 + t1;
            lemma_regroup(q3, w3, t4);
            lemma_regroup(q2, w2, t3);
            lemma_regroup(q1, w1, t2);
            lemma_regroup(q0, w0, t1);
            lemma_skip_front(q0, t0);
            <String as ParseDump>::lemma_parse_dump(v.channel_type, t1);
            lemma_skip_front(w0, t1);
            <u32 as ParseDump>::lemma_parse_dump(v.client_channel, t2);
            lemma_skip_front(w1, t2);
            <u32 as ParseDump>::lemma_parse_dump(v.client_initial_window_size, t3);
            lemma_skip_front(w2, t3);
            <u32 as ParseDump>::lemma_parse_dump(v.client_max_packet_size, t4);
        }
    }
}

/// The channel is open.
#[derive(Copy, Clone, Debug, PartialEq, Eq, Structural)]
pub struct ChannelOpenConfirmation {
    pub client_channel: u32,
    pub server_channel: u32,
    pub server_initial_window_size: u32,
    pub server_max_packet_size: u32,
}

impl View for ChannelOpenConfirmation {
    type V = ChannelOpenConfirmation;

    open spec fn view(&self) -> ChannelOpenConfirmation {
        *self
    }
}

impl ParseDump for ChannelOpenConfirmation {
    open spec fn spec_parse(bytes: Seq<u8>) -> Result<(ChannelOpenConfirmation, nat), Error> {
        match spec_expect_tag(bytes, MessageType::ChannelOpenConfirmation) {
            Err(e) => Err(e),
            Ok(_) => {
                let b0 = bytes.skip(1);
                match <u32 as ParseDump>::spec_parse(b0) {
                    Err(e) => Err(e),
                    Ok((client_channel, n0)) => {
                        let b1 = b0.skip(n0 as int);
                        match <u32 as ParseDump>::spec_parse(b1) {
                            Err(e) => Err(e),
                            Ok((server_channel, n1)) => {
                                let b2 = b1.skip(n1 as int);
                                match <u32 as ParseDump>::spec_parse(b2) {
                                    Err(e) => Err(e),
                                    Ok((server_initial_window_size, n2)) => {
                                        let b3 = b2.skip(n2 as int);
                                        match <u32 as ParseDump>::spec_parse(b3) {
                                            Err(e) => Err(e),
                                            Ok((server_max_packet_size, n3)) => {
                                                Ok(
                                                    (
                                                        ChannelOpenConfirmation {
                                                            client_channel,
                                                            server_channel,
                                                            server_initial_window_size,
                                                            server_max_packet_size,
                                                        },
                                                        (1 + n0 + n1 + n2 + n3) as nat,
                                                    ),
                                                )
                                            },
                                        }
                                    },
                                }
                            },
                        }
                    },
                }
            },
        }
    }

    open spec fn spec_dump(v: ChannelOpenConfirmation) -> Result<Seq<u8>, Error> {
        let a = Ok(seq![91u8]);
        let a = chain(a, <u32 as ParseDump>::spec_dump(v.client_channel));
        let a = chain(a, <u32 as ParseDump>::spec_dump(v.server_channel));
        let a = chain(a, <u32 as ParseDump>::spec_dump(v.server_initial_window_size));
        chain(a, <u32 as ParseDump>::spec_dump(v.server_max_packet_size))
    }

    fn parse(bytes: &[u8]) -> (r: Result<(ChannelOpenConfirmation, usize), Error>) {
        expect_tag(bytes, MessageType::ChannelOpenConfirmation)?;
        let b0 = tail(bytes, 1);
        let (client_channel, n0) = <u32 as ParseDump>::parse(b0)?;
        let b1 = tail(b0, n0);
        let (server_channel, n1) = <u32 as ParseDump>::parse(b1)?;
        let b2 = tail(b1, n1);
        let (server_initial_window_size, n2) = <u32 as ParseDump>::parse(b2)?;
        let b3 = tail(b2, n2);
        let (server_max_packet_size, n3) = <u32 as ParseDump>::parse(b3)?;
        Ok(
            (
                ChannelOpenConfirmation {
                    client_channel,
                    server_channel,
                    server_initial_window_size,
                    server_max_packet_size,
                },
                1 + n0 + n1 + n2 + n3,
            ),
        )
    }

    fn dump(&self, sink: &mut Vec<u8>) -> (r: Result<(), Error>) {
        let ghost before = sink@;
        put_u8(sink, 91);
        let ghost done = seq![91u8];
        self.client_channel.dump(sink)?;
        proof {
            lemma_regroup(
                before,
                done,
                <u32 as ParseDump>::spec_dump(self.client_channel).unwrap(),
            );
        }
        let ghost done = done + <u32 as ParseDump>::spec_dump(self.client_channel).unwrap();
        self.server_channel.dump(sink)?;
        proof {
            lemma_regroup(
                before,
                done,
                <u32 as ParseDump>::spec_dump(self.server_channel).unwrap(),
            );
        }
        let ghost done = done + <u32 as ParseDump>::spec_dump(self.server_channel).unwrap();
        self.server_initial_window_size.dump(sink)?;
        proof {
            lemma_regroup(
                before,
                done,
                <u32 as ParseDump>::spec_dump(self.server_initial_window_size).unwrap(),
            );
        }
        let ghost done = done + <u32 as ParseDump>::spec_dump(
            self.server_initial_window_size,
        ).unwrap();
        self.server_max_packet_size.dump(sink)?;
        proof {
            lemma_regroup(
                before,
                done,
                <u32 as ParseDump>::spec_dump(self.server_max_packet_size).unwrap(),
            );
        }
        let ghost done = done + <u32 as ParseDump>::spec_dump(self.server_max_packet_size).unwrap();
        Ok(())
    }

    proof fn lemma_parse_dump(v: ChannelOpenConfirmation, rest: Seq<u8>) {
        if let Ok(w) = Self::spec_dump(v) {
            let w0 = <u32 as ParseDump>::spec_dump(v.client_channel).unwrap();
            let w1 = <u32 as ParseDump>::spec_dump(v.server_channel).unwrap();
            let w2 = <u32 as ParseDump>::spec_dump(v.server_initial_window_size).unwrap();
            let w3 = <u32 as ParseDump>::spec_dump(v.server_max_packet_size).unwrap();
            let b0 = (w + rest).skip(1);
            let b1 = b0.skip(w0.len() as int);
            let b2 = b1.skip(w1.len() as int);
            let b3 = b2.skip(w2.len() as int);
            let d0 = <u32 as ParseDump>::spec_dump(v.client_channel);
            let d1 = <u32 as ParseDump>::spec_dump(v.server_channel);
            let d2 = <u32 as ParseDump>::spec_dump(v.server_initial_window_size);
            let d3 = <u32 as ParseDump>::spec_dump(v.server_max_packet_size);
            let c0 = Ok::<Seq<u8>, Error>(seq![91u8]);
            let c1 = chain(c0, d0);
            let c2 = chain(c1, d1);
            let c3 = chain(c2, d2);
            let c4 = chain(c3, d3);
            assert(c3 is Ok && d3 is Ok);
            assert(c2 is Ok && d2 is Ok);
            assert(c1 is Ok && d1 is Ok);
            assert(c0 is Ok && d0 is Ok);
            let q0 = c0.unwrap();
            let q1 = c1.unwrap();
            let q2 = c2.unwrap();
            let q3 = c3.unwrap();
            let q4 = c4.unwrap();
            let t4 = rest;
            let t3 = w3 + t4;
            let t2 = w2 + t3;
            let t1 = w1 + t2;
            let t0 = w0 + t1;
            lemma_regroup(q3, w3, t4);
            lemma_regroup(q2, w2, t3);
            lemma_regroup(q1, w1, t2);
            lemma_regroup(q0, w0, t1);
            lemma_skip_front(q0, t0);
            <u32 as ParseDump>::lemma_parse_dump(v.client_channel, t1);
            lemma_skip_front(w0, t1);
            <u32 as ParseDump>::lemma_parse_dump(v.server_channel, t2);
            lemma_skip_front(w1, t2);
            <u32 as ParseDump>::lemma_parse_dump(v.server_initial_window_size, t3);
            lemma_skip_front(w2, t3);
            <u32 as ParseDump>::lemma_parse_dump(v.server_max_packet_size, t4);
        }
    }
}

/// The channel was not opened.
#[derive(Clone, Debug, PartialEq, Eq)]
pub struct ChannelOpenFailure {
    pub client_channel: u32,
    pub reason_code: u32,
    pub description: String,
    pub language_tag: String,
}

/// What a `ChannelOpenFailure` holds.
pub ghost struct ChannelOpenFailureView {
    pub client_channel: u32,
    pub reason_code: u32,
    pub description: Seq<char>,
    pub language_tag: Seq<char>,
}

impl View for ChannelOpenFailure {
    type V = ChannelOpenFailureView;

    open spec fn view(&self) -> ChannelOpenFailureView {
        ChannelOpenFailureView {
            client_channel: self.client_channel,
            reason_code: self.reason_code,
            description: self.description@,
            language_tag: self.language_tag@,
        }
    }
}

impl ParseDump for ChannelOpenFailure {
    open spec fn spec_parse(bytes: Seq<u8>) -> Result<(ChannelOpenFailureView, nat), Error> {
        match spec_expect_tag(bytes, MessageType::ChannelOpenFailure) {
            Err(e) => Err(e),
            Ok(_) => {
                let b0 = bytes.skip(1);
                match <u32 as ParseDump>::spec_parse(b0) {
                    Err(e) => Err(e),
                    Ok((client_channel, n0)) => {
                        let b1 = b0.skip(n0 as int);
                        match <u32 as ParseDump>::spec_parse(b1) {
                            Err(e) => Err(e),
                            Ok((reason_code, n1)) => {
                                let b2 = b1.skip(n1 as int);
                                match <String as ParseDump>::spec_parse(b2) {
                                    Err(e) => Err(e),
                                    Ok((description, n2)) => {
                                        let b3 = b2.skip(n2 as int);
                                        match <String as ParseDump>::spec_parse(b3) {
                                            Err(e) => Err(e),
                                            Ok((language_tag, n3)) => {
                                                Ok(
                                                    (
                                                        ChannelOpenFailureView {
                                                            client_channel,
                                                            reason_code,
                                                            description,
                                                            language_tag,
                                                        },
                                                        (1 + n0 + n1 + n2 + n3) as nat,
                                                    ),
                                                )
                                            },
                                        }
                                    },
                                }
                            },
                        }
                    },
                }
            },
        }
    }

    open spec fn spec_dump(v: ChannelOpenFailureView) -> Result<Seq<u8>, Error> {
        let a = Ok(seq![92u8]);
        let a = chain(a, <u32 as ParseDump>::spec_dump(v.client_channel));
        let a = chain(a, <u32 as ParseDump>::spec_dump(v.reason_code));
        let a = chain(a, <String as ParseDump>::spec_dump(v.description));
        chain(a, <String as ParseDump>::spec_dump(v.language_tag))
    }

    fn parse(bytes: &[u8]) -> (r: Result<(ChannelOpenFailure, usize), Error>) {
        expect_tag(bytes, MessageType::ChannelOpenFailure)?;
        let b0 = tail(bytes, 1);
        let (client_channel, n0) = <u32 as ParseDump>::parse(b0)?;
        let b1 = tail(b0, n0);
        let (reason_code, n1) = <u32 as ParseDump>::parse(b1)?;
        let b2 = tail(b1, n1);
        let (description, n2) = <String as ParseDump>::parse(b2)?;
        let b3 = tail(b2, n2);
        let (language_tag, n3) = <String as ParseDump>::parse(b3)?;
        Ok(
            (
                ChannelOpenFailure {
                    client_channel,
                    reason_code,
                    description,
                    language_tag,
                },
                1 + n0 + n1 + n2 + n3,
            ),
        )
    }

    fn dump(&self, sink: &mut Vec<u8>) -> (r: Result<(), Error>) {
        let ghost before = sink@;
        put_u8(sink, 92);
        let ghost done = seq![92u8];
        self.client_channel.dump(sink)?;
        proof {
            lemma_regroup(
                before,
                done,
                <u32 as ParseDump>::spec_dump(self.client_channel).unwrap(),
            );
        }
        let ghost done = done + <u32 as ParseDump>::spec_dump(self.client_channel).unwrap();
        self.reason_code.dump(sink)?;
        proof {
            lemma_regroup(before, done, <u32 as ParseDump>::spec_dump(self.reason_code).unwrap());
        }
        let ghost done = done + <u32 as ParseDump>::spec_dump(self.reason_code).unwrap();
        self.description.dump(sink)?;
        proof {
            lemma_regroup(
                before,
                done,
                <String as ParseDump>::spec_dump(self.description@).unwrap(),
            );
        }
        let ghost done = done + <String as ParseDump>::spec_dump(self.description@).unwrap();
        self.language_tag.dump(sink)?;
        proof {
            lemma_regroup(
                before,
                done,
                <String as ParseDump>::spec_dump(self.language_tag@).unwrap(),
            );
        }
        let ghost done = done + <String as ParseDump>::spec_dump(self.language_tag@).unwrap();
        Ok(())
    }

    proof fn lemma_parse_dump(v: ChannelOpenFailureView, rest: Seq<u8>) {
        if let Ok(w) = Self::spec_dump(v) {
            let w0 = <u32 as ParseDump>::spec_dump(v.client_channel).unwrap();
            let w1 = <u32 as ParseDump>::spec_dump(v.reason_code).unwrap();
            let w2 = <String as ParseDump>::spec_dump(v.description).unwrap();
            let w3 = <String as ParseDump>::spec_dump(v.language_tag).unwrap();
            let b0 = (w + rest).skip(1);
            let b1 = b0.skip(w0.len() as int);
            let b2 = b1.skip(w1.len() as int);
            let b3 = b2.skip(w2.len() as int);
            let d0 = <u32 as ParseDump>::spec_dump(v.client_channel);
            let d1 = <u32 as ParseDump>::spec_dump(v.reason_code);
            let d2 = <String as ParseDump>::spec_dump(v.description);
            let d3 = <String as ParseDump>::spec_dump(v.language_tag);
            let c0 = Ok::<Seq<u8>, Error>(seq![92u8]);
            let c1 = chain(c0, d0);
            let c2 = chain(c1, d1);
            let c3 = chain(c2, d2);
            let c4 = chain(c3, d3);
            assert(c3 is Ok && d3 is Ok);
            assert(c2 is Ok && d2 is Ok);
            assert(c1 is Ok && d1 is Ok);
            assert(c0 is Ok && d0 is Ok);
            let q0 = c0.unwrap();
            let q1 = c1.unwrap();
            let q2 = c2.unwrap();
            let q3 = c3.unwrap();
            let q4 = c4.unwrap();
            let t4 = rest;
            let t3 = w3 + t4;
            let t2 = w2 + t3;
            let t1 = w1 + t2;
            let t0 = w0 + t1;
            lemma_regroup(q3, w3, t4);
            lemma_regroup(q2, w2, t3);
            lemma_regroup(q1, w1, t2);
            lemma_regroup(q0, w0, t1);
            lemma_skip_front(q0, t0);
            <u32 as ParseDump>::lemma_parse_dump(v.client_channel, t1);
            lemma_skip_front(w0, t1);
            <u32 as ParseDump>::lemma_parse_dump(v.reason_code, t2);
            lemma_skip_front(w1, t2);
            <String as ParseDump>::lemma_parse_dump(v.description, t3);
            lemma_skip_front(w2, t3);
            <String as ParseDump>::lemma_parse_dump(v.language_tag, t4);
        }
    }
}

/// Data for a channel.
#[derive(Clone, Debug, PartialEq, Eq)]
pub struct ChannelData {
    pub recipient_channel: u32,
    pub data: Vec<u8>,
}

/// What a `ChannelData` holds.
pub ghost struct ChannelDataView {
    pub recipient_channel: u32,
    pub data: Seq<u8>,
}

impl View for ChannelData {
    type V = ChannelDataView;

    open spec fn view(&self) -> ChannelDataView {
        ChannelDataView {
            recipient_channel: self.recipient_channel,
            data: self.data@,
        }
    }
}

impl ParseDump for ChannelData {
    open spec fn spec_parse(bytes: Seq<u8>) -> Result<(ChannelDataView, nat), Error> {
        match spec_expect_tag(bytes, MessageType::ChannelData) {
            Err(e) => Err(e),
            Ok(_) => {
                let b0 = bytes.skip(1);
                match <u32 as ParseDump>::spec_parse(b0) {
                    Err(e) => Err(e),
                    Ok((recipient_channel, n0)) => {
                        let b1 = b0.skip(n0 as int);
                        match <Vec<u8> as ParseDump>::spec_parse(b1) {
                            Err(e) => Err(e),
                            Ok((data, n1)) => {
                                Ok(
                                    (
                                        ChannelDataView {
                                            recipient_channel,
                                            data,
                                        },
                                        (1 + n0 + n1) as nat,
                                    ),
                                )
                            },
                        }
                    },
                }
            },
        }
    }

    open spec fn spec_dump(v: ChannelDataView) -> Result<Seq<u8>, Error> {
        let a = Ok(seq![94u8]);
        let a = chain(a, <u32 as ParseDump>::spec_dump(v.recipient_channel));
        chain(a, <Vec<u8> as ParseDump>::spec_dump(v.data))
    }

    fn parse(bytes: &[u8]) -> (r: Result<(ChannelData, usize), Error>) {
        expect_tag(bytes, MessageType::ChannelData)?;
        let b0 = tail(bytes, 1);
        let (recipient_channel, n0) = <u32 as ParseDump>::parse(b0)?;
        let b1 = tail(b0, n0);
        let (data, n1) = <Vec<u8> as ParseDump>::parse(b1)?;
        Ok((ChannelData { recipient_channel, data }, 1 + n0 + n1))
    }

    fn dump(&self, sink: &mut Vec<u8>) -> (r: Result<(), Error>) {
        put_u8(sink, 94);
        self.recipient_channel.dump(sink)?;
        self.data.dump(sink)?;
        Ok(())
    }

    proof fn lemma_parse_dump(v: ChannelDataView, rest: Seq<u8>) {
        if let Ok(w) = Self::spec_dump(v) {
            let w0 = <u32 as ParseDump>::spec_dump(v.recipient_channel).unwrap();
            let w1 = <Vec<u8> as ParseDump>::spec_dump(v.data).unwrap();
            let b0 = (w + rest).skip(1);
            let b1 = b0.skip(w0.len() as int);
            let d0 = <u32 as ParseDump>::spec_dump(v.recipient_channel);
            let d1 = <Vec<u8> as ParseDump>::spec_dump(v.data);
            let c0 = Ok::<Seq<u8>, Error>(seq![94u8]);
            let c1 = chain(c0, d0);
            let c2 = chain(c1, d1);
            assert(c1 is Ok && d1 is Ok);
            assert(c0 is Ok && d0 is Ok);
            let q0 = c0.unwrap();
            let q1 = c1.unwrap();
            let q2 = c2.unwrap();
            let t2 = rest;
            let t1 = w1 + t2;
            let t0 = w0 + t1;
            lemma_regroup(q1, w1, t2);
            lemma_regroup(q0, w0, t1);
            lemma_skip_front(q0, t0);
            <u32 as ParseDump>::lemma_parse_dump(v.recipient_channel, t1);
            lemma_skip_front(w0, t1);
            <Vec<u8> as ParseDump>::lemma_parse_dump(v.data, t2);
        }
    }
}

/// Typed data for a channel; type 1 is stderr.
#[derive(Clone, Debug, PartialEq, Eq)]
pub struct ChannelExtendedData {
    pub recipient_channel: u32,
    pub data_type: u32,
    pub data: Vec<u8>,
}

/// What a `ChannelExtendedData` holds.
pub ghost struct ChannelExtendedDataView {
    pub recipient_channel: u32,
    pub data_type: u32,
    pub data: Seq<u8>,
}

impl View for ChannelExtendedData {
    type V = ChannelExtendedDataView;

    open spec fn view(&self) -> ChannelExtendedDataView {
        ChannelExtendedDataView {
            recipient_channel: self.recipient_channel,
            data_type: self.data_type,
            data: self.data@,
        }
    }
}

impl ParseDump for ChannelExtendedData {
    open spec fn spec_parse(bytes: Seq<u8>) -> Result<(ChannelExtendedDataView, nat), Error> {
        match spec_expect_tag(bytes, MessageType::ChannelExtendedData) {
            Err(e) => Err(e),
            Ok(_) => {
                let b0 = bytes.skip(1);
                match <u32 as ParseDump>::spec_parse(b0) {
                    Err(e) => Err(e),
                    Ok((recipient_channel, n0)) => {
                        let b1 = b0.skip(n0 as int);
                        match <u32 as ParseDump>::spec_parse(b1) {
                            Err(e) => Err(e),
                            Ok((data_type, n1)) => {
                                let b2 = b1.skip(n1 as int);
                                match <Vec<u8> as ParseDump>::spec_parse(b2) {
                                    Err(e) => Err(e),
                                    Ok((data, n2)) => {
                                        Ok(
                                            (
                                                ChannelExtendedDataView {
                                                    recipient_channel,
                                                    data_type,
                                                    data,
                                                },
                                                (1 + n0 + n1 + n2) as nat,
                                            ),
                                        )
                                    },
                                }
                            },
                        }
                    },
                }
            },
        }
    }

    open spec fn spec_dump(v: ChannelExtendedDataView) -> Result<Seq<u8>, Error> {
        let a = Ok(seq![95u8]);
        let a = chain(a, <u32 as ParseDump>::spec_dump(v.recipient_channel));
        let a = chain(a, <u32 as ParseDump>::spec_dump(v.data_type));
        chain(a, <Vec<u8> as ParseDump>::spec_dump(v.data))
    }

    fn parse(bytes: &[u8]) -> (r: Result<(ChannelExtendedData, usize), Error>) {
        expect_tag(bytes, MessageType::ChannelExtendedData)?;
        let b0 = tail(bytes, 1);
        let (recipient_channel, n0) = <u32 as ParseDump>::parse(b0)?;
        let b1 = tail(b0, n0);
        let (data_type, n1) = <u32 as ParseDump>::parse(b1)?;
        let b2 = tail(b1, n1);
        let (data, n2) = <Vec<u8> as ParseDump>::parse(b2)?;
        Ok((ChannelExtendedData { recipient_channel, data_type, data }, 1 + n0 + n1 + n2))
    }

    fn dump(&self, sink: &mut Vec<u8>) -> (r: Result<(), Error>) {
        let ghost before = sink@;
        put_u8(sink, 95);
        let ghost done = seq![95u8];
        self.recipient_channel.dump(sink)?;
        proof {
            lemma_regroup(
                before,
                done,
                <u32 as ParseDump>::spec_dump(self.recipient_channel).unwrap(),
            );
        }
        let ghost done = done + <u32 as ParseDump>::spec_dump(self.recipient_channel).unwrap();
        self.data_type.dump(sink)?;
        proof {
            lemma_regroup(before, done, <u32 as ParseDump>::spec_dump(self.data_type).unwrap());
        }
        let ghost done = done + <u32 as ParseDump>::spec_dump(self.data_type).unwrap();
        self.data.dump(sink)?;
        proof {
            lemma_regroup(before, done, <Vec<u8> as ParseDump>::spec_dump(self.data@).unwrap());
        }
        let ghost done = done + <Vec<u8> as ParseDump>::spec_dump(self.data@).unwrap();
        Ok(())
    }

    proof fn lemma_parse_dump(v: ChannelExtendedDataView, rest: Seq<u8>) {
        if let Ok(w) = Self::spec_dump(v) {
            let w0 = <u32 as ParseDump>::spec_dump(v.recipient_channel).unwrap();
            let w1 = <u32 as ParseDump>::spec_dump(v.data_type).unwrap();
            let w2 = <Vec<u8> as ParseDump>::spec_dump(v.data).unwrap();
            let b0 = (w + rest).skip(1);
            let b1 = b0.skip(w0.len() as int);
            let b2 = b1.skip(w1.len() as int);
            let d0 = <u32 as ParseDump>::spec_dump(v.recipient_channel);
            let d1 = <u32 as ParseDump>::spec_dump(v.data_type);
            let d2 = <Vec<u8> as ParseDump>::spec_dump(v.data);
            let c0 = Ok::<Seq<u8>, Error>(seq![95u8]);
            let c1 = chain(c0, d0);
            let c2 = chain(c1, d1);
            let c3 = chain(c2, d2);
            assert(c2 is Ok && d2 is Ok);
            assert(c1 is Ok && d1 is Ok);
            assert(c0 is Ok && d0 is Ok);
            let q0 = c0.unwrap();
            let q1 = c1.unwrap();
            let q2 = c2.unwrap();
            let q3 = c3.unwrap();
            let t3 = rest;
            let t2 = w2 + t3;
            let t1 = w1 + t2;
            let t0 = w0 + t1;
            lemma_regroup(q2, w2, t3);
            lemma_regroup(q1, w1, t2);
            lemma_regroup(q0, w0, t1);
            lemma_skip_front(q0, t0);
            <u32 as ParseDump>::lemma_parse_dump(v.recipient_channel, t1);
            lemma_skip_front(w0, t1);
            <u32 as ParseDump>::lemma_parse_dump(v.data_type, t2);
            lemma_skip_front(w1, t2);
            <Vec<u8> as ParseDump>::lemma_parse_dump(v.data, t3);
        }
    }
}

/// No more data will come on the channel.
#[derive(Copy, Clone, Debug, PartialEq, Eq, Structural)]
pub struct ChannelEof {
    pub recipient_channel: u32,
}

impl View for ChannelEof {
    type V = ChannelEof;

    open spec fn view(&self) -> ChannelEof {
        *self
    }
}

impl ParseDump for ChannelEof {
    open spec fn spec_parse(bytes: Seq<u8>) -> Result<(ChannelEof, nat), Error> {
        match spec_expect_tag(bytes, MessageType::ChannelEof) {
            Err(e) => Err(e),
            Ok(_) => {
                let b0 = bytes.skip(1);
                match <u32 as ParseDump>::spec_parse(b0) {
                    Err(e) => Err(e),
                    Ok((recipient_channel, n0)) => {
                        Ok((ChannelEof { recipient_channel }, (1 + n0) as nat))
                    },
                }
            },
        }
    }

    open spec fn spec_dump(v: ChannelEof) -> Result<Seq<u8>, Error> {
        chain(Ok(seq![96u8]), <u32 as ParseDump>::spec_dump(v.recipient_channel))
    }

    fn parse(bytes: &[u8]) -> (r: Result<(ChannelEof, usize), Error>) {
        expect_tag(bytes, MessageType::ChannelEof)?;
        let b0 = tail(bytes, 1);
        let (recipient_channel, n0) = <u32 as ParseDump>::parse(b0)?;
        Ok((ChannelEof { recipient_channel }, 1 + n0))
    }

    fn dump(&self, sink: &mut Vec<u8>) -> (r: Result<(), Error>) {
        put_u8(sink, 96);
        self.recipient_channel.dump(sink)?;
        Ok(())
    }

    proof fn lemma_parse_dump(v: ChannelEof, rest: Seq<u8>) {
        if let Ok(w) = Self::spec_dump(v) {
            let w0 = <u32 as ParseDump>::spec_dump(v.recipient_channel).unwrap();
            let b0 = (w + rest).skip(1);
            let d0 = <u32 as ParseDump>::spec_dump(v.recipient_channel);
            let c0 = Ok::<Seq<u8>, Error>(seq![96u8]);
            let c1 = chain(c0, d0);
            assert(c0 is Ok && d0 is Ok);
            let q0 = c0.unwrap();
            let q1 = c1.unwrap();
            let t1 = rest;
            let t0 = w0 + t1;
            lemma_regroup(q0, w0, t1);
            lemma_skip_front(q0, t0);
            <u32 as ParseDump>::lemma_parse_dump(v.recipient_channel, t1);
        }
    }
}

/// The channel is closed.
#[derive(Copy, Clone, Debug, PartialEq, Eq, Structural)]
pub struct ChannelClose {
    pub recipient_channel: u32,
}

impl View for ChannelClose {
    type V = ChannelClose;

    open spec fn view(&self) -> ChannelClose {
        *self
    }
}

impl ParseDump for ChannelClose {
    open spec fn spec_parse(bytes: Seq<u8>) -> Result<(ChannelClose, nat), Error> {
        match spec_expect_tag(bytes, MessageType::ChannelClose) {
            Err(e) => Err(e),
            Ok(_) => {
                let b0 = bytes.skip(1);
                match <u32 as ParseDump>::spec_parse(b0) {
                    Err(e) => Err(e),
                    Ok((recipient_channel, n0)) => {
                        Ok((ChannelClose { recipient_channel }, (1 + n0) as nat))
                    },
                }
            },
        }
    }

    open spec fn spec_dump(v: ChannelClose) -> Result<Seq<u8>, Error> {
        chain(Ok(seq![97u8]), <u32 as ParseDump>::spec_dump(v.recipient_channel))
    }

    fn parse(bytes: &[u8]) -> (r: Result<(ChannelClose, usize), Error>) {
        expect_tag(bytes, MessageType::ChannelClose)?;
        let b0 = tail(bytes, 1);
        let (recipient_channel, n0) = <u32 as ParseDump>::parse(b0)?;
        Ok((ChannelClose { recipient_channel }, 1 + n0))
    }

    fn dump(&self, sink: &mut Vec<u8>) -> (r: Result<(), Error>) {
        put_u8(sink, 97);
        self.recipient_channel.dump(sink)?;
        Ok(())
    }

    proof fn lemma_parse_dump(v: ChannelClose, rest: Seq<u8>) {
        if let Ok(w) = Self::spec_dump(v) {
            let w0 = <u32 as ParseDump>::spec_dump(v.recipient_channel).unwrap();
            let b0 = (w + rest).skip(1);
            let d0 = <u32 as ParseDump>::spec_dump(v.recipient_channel);
            let c0 = Ok::<Seq<u8>, Error>(seq![97u8]);
            let c1 = chain(c0, d0);
            assert(c0 is Ok && d0 is Ok);
            let q0 = c0.unwrap();
            let q1 = c1.unwrap();
            let t1 = rest;
            let t0 = w0 + t1;
            lemma_regroup(q0, w0, t1);
            lemma_skip_front(q0, t0);
            <u32 as ParseDump>::lemma_parse_dump(v.recipient_channel, t1);
        }
    }
}

/// The channel request succeeded.
#[derive(Copy, Clone, Debug, PartialEq, Eq, Structural)]
pub struct ChannelSuccess {
    pub recipient_channel: u32,
}

impl View for ChannelSuccess {
    type V = ChannelSuccess;

    open spec fn view(&self) -> ChannelSuccess {
        *self
    }
}

impl ParseDump for ChannelSuccess {
    open spec fn spec_parse(bytes: Seq<u8>) -> Result<(ChannelSuccess, nat), Error> {
        match spec_expect_tag(bytes, MessageType::ChannelSuccess) {
            Err(e) => Err(e),
            Ok(_) => {
                let b0 = bytes.skip(1);
                match <u32 as ParseDump>::spec_parse(b0) {
                    Err(e) => Err(e),
                    Ok((recipient_channel, n0)) => {
                        Ok((ChannelSuccess { recipient_channel }, (1 + n0) as nat))
                    },
                }
            },
        }
    }

    open spec fn spec_dump(v: ChannelSuccess) -> Result<Seq<u8>, Error> {
        chain(Ok(seq![99u8]), <u32 as ParseDump>::spec_dump(v.recipient_channel))
    }

    fn parse(bytes: &[u8]) -> (r: Result<(ChannelSuccess, usize), Error>) {
        expect_tag(bytes, MessageType::ChannelSuccess)?;
        let b0 = tail(bytes, 1);
        let (recipient_channel, n0) = <u32 as ParseDump>::parse(b0)?;
        Ok((ChannelSuccess { recipient_channel }, 1 + n0))
    }

    fn dump(&self, sink: &mut Vec<u8>) -> (r: Result<(), Error>) {
        put_u8(sink, 99);
        self.recipient_channel.dump(sink)?;
        Ok(())
    }

    proof fn lemma_parse_dump(v: ChannelSuccess, rest: Seq<u8>) {
        if let Ok(w) = Self::spec_dump(v) {
            let w0 = <u32 as ParseDump>::spec_dump(v.recipient_channel).unwrap();
            let b0 = (w + rest).skip(1);
            let d0 = <u32 as ParseDump>::spec_dump(v.recipient_channel);
            let c0 = Ok::<Seq<u8>, Error>(seq![99u8]);
            let c1 = chain(c0, d0);
            assert(c0 is Ok && d0 is Ok);
            let q0 = c0.unwrap();
            let q1 = c1.unwrap();
            let t1 = rest;
            let t0 = w0 + t1;
            lemma_regroup(q0, w0, t1);
            lemma_skip_front(q0, t0);
            <u32 as ParseDump>::lemma_parse_dump(v.recipient_channel, t1);
        }
    }
}

/// The channel request failed.
#[derive(Copy, Clone, Debug, PartialEq, Eq, Structural)]
pub struct ChannelFailure {
    pub recipient_channel: u32,
}

impl View for ChannelFailure {
    type V = ChannelFailure;

    open spec fn view(&self) -> ChannelFailure {
        *self
    }
}

impl ParseDump for ChannelFailure {
    open spec fn spec_parse(bytes: Seq<u8>) -> Result<(ChannelFailure, nat), Error> {
        match spec_expect_tag(bytes, MessageType::ChannelFailure) {
            Err(e) => Err(e),
            Ok(_) => {
                let b0 = bytes.skip(1);
                match <u32 as ParseDump>::spec_parse(b0) {
                    Err(e) => Err(e),
                    Ok((recipient_channel, n0)) => {
                        Ok((ChannelFailure { recipient_channel }, (1 + n0) as nat))
                    },
                }
            },
        }
    }

    open spec fn spec_dump(v: ChannelFailure) -> Result<Seq<u8>, Error> {
        chain(Ok(seq![100u8]), <u32 as ParseDump>::spec_dump(v.recipient_channel))
    }

    fn parse(bytes: &[u8]) -> (r: Result<(ChannelFailure, usize), Error>) {
        expect_tag(bytes, MessageType::ChannelFailure)?;
        let b0 = tail(bytes, 1);
        let (recipient_channel, n0) = <u32 as ParseDump>::parse(b0)?;
        Ok((ChannelFailure { recipient_channel }, 1 + n0))
    }

    fn dump(&self, sink: &mut Vec<u8>) -> (r: Result<(), Error>) {
        put_u8(sink, 100);
        self.recipient_channel.dump(sink)?;
        Ok(())
    }

    proof fn lemma_parse_dump(v: ChannelFailure, rest: Seq<u8>) {
        if let Ok(w) = Self::spec_dump(v) {
            let w0 = <u32 as ParseDump>::spec_dump(v.recipient_channel).unwrap();
            let b0 = (w + rest).skip(1);
            let d0 = <u32 as ParseDump>::spec_dump(v.recipient_channel);
            let c0 = Ok::<Seq<u8>, Error>(seq![100u8]);
            let c1 = chain(c0, d0);
            assert(c0 is Ok && d0 is Ok);
            let q0 = c0.unwrap();
            let q1 = c1.unwrap();
            let t1 = rest;
            let t0 = w0 + t1;
            lemma_regroup(q0, w0, t1);
            lemma_skip_front(q0, t0);
            <u32 as ParseDump>::lemma_parse_dump(v.recipient_channel, t1);
        }
    }
}

/// A request that concerns no channel.  What follows the two fields depends on
/// the request and is not read.
#[derive(Clone, Debug, PartialEq, Eq)]
pub struct GlobalRequest {
    pub request_name: String,
    pub want_reply: bool,
}

/// What a `GlobalRequest` holds.
pub ghost struct GlobalRequestView {
    pub request_name: Seq<char>,
    pub want_reply: bool,
}

impl View for GlobalRequest {
    type V = GlobalRequestView;

    open spec fn view(&self) -> GlobalRequestView {
        GlobalRequestView {
            request_name: self.request_name@,
            want_reply: self.want_reply,
        }
    }
}

impl ParseDump for GlobalRequest {
    open spec fn spec_parse(bytes: Seq<u8>) -> Result<(GlobalRequestView, nat), Error> {
        match spec_expect_tag(bytes, MessageType::GlobalRequest) {
            Err(e) => Err(e),
            Ok(_) => {
                let b0 = bytes.skip(1);
                match <String as ParseDump>::spec_parse(b0) {
                    Err(e) => Err(e),
                    Ok((request_name, n0)) => {
                        let b1 = b0.skip(n0 as int);
                        match <bool as ParseDump>::spec_parse(b1) {
                            Err(e) => Err(e),
                            Ok((want_reply, n1)) => {
                                Ok(
                                    (
                                        GlobalRequestView {
                                            request_name,
                                            want_reply,
                                        },
                                        (1 + n0 + n1) as nat,
                                    ),
                                )
                            },
                        }
                    },
                }
            },
        }
    }

    open spec fn spec_dump(v: GlobalRequestView) -> Result<Seq<u8>, Error> {
        let a = Ok(seq![80u8]);
        let a = chain(a, <String as ParseDump>::spec_dump(v.request_name));
        chain(a, <bool as ParseDump>::spec_dump(v.want_reply))
    }

    fn parse(bytes: &[u8]) -> (r: Result<(GlobalRequest, usize), Error>) {
        expect_tag(bytes, MessageType::GlobalRequest)?;
        let b0 = tail(bytes, 1);
        let (request_name, n0) = <String as ParseDump>::parse(b0)?;
        let b1 = tail(b0, n0);
        let (want_reply, n1) = <bool as ParseDump>::parse(b1)?;
        Ok((GlobalRequest { request_name, want_reply }, 1 + n0 + n1))
    }

    fn dump(&self, sink: &mut Vec<u8>) -> (r: Result<(), Error>) {
        put_u8(sink, 80);
        self.request_name.dump(sink)?;
        self.want_reply.dump(sink)?;
        Ok(())
    }

    proof fn lemma_parse_dump(v: GlobalRequestView, rest: Seq<u8>) {
        if let Ok(w) = Self::spec_dump(v) {
            let w0 = <String as ParseDump>::spec_dump(v.request_name).unwrap();
            let w1 = <bool as ParseDump>::spec_dump(v.want_reply).unwrap();
            let b0 = (w + rest).skip(1);
            let b1 = b0.skip(w0.len() as int);
            let d0 = <String as ParseDump>::spec_dump(v.request_name);
            let d1 = <bool as ParseDump>::spec_dump(v.want_reply);
            let c0 = Ok::<Seq<u8>, Error>(seq![80u8]);
            let c1 = chain(c0, d0);
            let c2 = chain(c1, d1);
            assert(c1 is Ok && d1 is Ok);
            assert(c0 is Ok && d0 is Ok);
            let q0 = c0.unwrap();
            let q1 = c1.unwrap();
            let q2 = c2.unwrap();
            let t2 = rest;
            let t1 = w1 + t2;
            let t0 = w0 + t1;
            lemma_regroup(q1, w1, t2);
            lemma_regroup(q0, w0, t1);
            lemma_skip_front(q0, t0);
            <String as ParseDump>::lemma_parse_dump(v.request_name, t1);
            lemma_skip_front(w0, t1);
            <bool as ParseDump>::lemma_parse_dump(v.want_reply, t2);
        }
    }
}

/// Grants the peer more window on a channel.
#[derive(Copy, Clone, Debug, PartialEq, Eq, Structural)]
pub struct ChannelWindowAdjust {
    pub recipient_channel: u32,
    pub bytes_to_add: u32,
}

impl View for ChannelWindowAdjust {
    type V = ChannelWindowAdjust;

    open spec fn view(&self) -> ChannelWindowAdjust {
        *self
    }
}

impl ParseDump for ChannelWindowAdjust {
    open spec fn spec_parse(bytes: Seq<u8>) -> Result<(ChannelWindowAdjust, nat), Error> {
        match spec_expect_tag(bytes, MessageType::ChannelWindowAdjust) {
            Err(e) => Err(e),
            Ok(_) => {
                let b0 = bytes.skip(1);
                match <u32 as ParseDump>::spec_parse(b0) {
                    Err(e) => Err(e),
                    Ok((recipient_channel, n0)) => {
                        let b1 = b0.skip(n0 as int);
                        match <u32 as ParseDump>::spec_parse(b1) {
                            Err(e) => Err(e),
                            Ok((bytes_to_add, n1)) => {
                                Ok(
                                    (
                                        ChannelWindowAdjust {
                                            recipient_channel,
                                            bytes_to_add,
                                        },
                                        (1 + n0 + n1) as nat,
                                    ),
                                )
                            },
                        }
                    },
                }
            },
        }
    }

    open spec fn spec_dump(v: ChannelWindowAdjust) -> Result<Seq<u8>, Error> {
        let a = Ok(seq![93u8]);
        let a = chain(a, <u32 as ParseDump>::spec_dump(v.recipient_channel));
        chain(a, <u32 as ParseDump>::spec_dump(v.bytes_to_add))
    }

    fn parse(bytes: &[u8]) -> (r: Result<(ChannelWindowAdjust, usize), Error>) {
        expect_tag(bytes, MessageType::ChannelWindowAdjust)?;
        let b0 = tail(bytes, 1);
        let (recipient_channel, n0) = <u32 as ParseDump>::parse(b0)?;
        let b1 = tail(b0, n0);
        let (bytes_to_add, n1) = <u32 as ParseDump>::parse(b1)?;
        Ok((ChannelWindowAdjust { recipient_channel, bytes_to_add }, 1 + n0 + n1))
    }

    fn dump(&self, sink: &mut Vec<u8>) -> (r: Result<(), Error>) {
        put_u8(sink, 93);
        self.recipient_channel.dump(sink)?;
        self.bytes_to_add.dump(sink)?;
        Ok(())
    }

    proof fn lemma_parse_dump(v: ChannelWindowAdjust, rest: Seq<u8>) {
        if let Ok(w) = Self::spec_dump(v) {
            let w0 = <u32 as ParseDump>::spec_dump(v.recipient_channel).unwrap();
            let w1 = <u32 as ParseDump>::spec_dump(v.bytes_to_add).unwrap();
            let b0 = (w + rest).skip(1);
            let b1 = b0.skip(w0.len() as int);
            let d0 = <u32 as ParseDump>::spec_dump(v.recipient_channel);
            let d1 = <u32 as ParseDump>::spec_dump(v.bytes_to_add);
            let c0 = Ok::<Seq<u8>, Error>(seq![93u8]);
            let c1 = chain(c0, d0);
            let c2 = chain(c1, d1);
            assert(c1 is Ok && d1 is Ok);
            assert(c0 is Ok && d0 is Ok);
            let q0 = c0.unwrap();
            let q1 = c1.unwrap();
            let q2 = c2.unwrap();
            let t2 = rest;
            let t1 = w1 + t2;
            let t0 = w0 + t1;
            lemma_regroup(q1, w1, t2);
            lemma_regroup(q0, w0, t1);
            lemma_skip_front(q0, t0);
            <u32 as ParseDump>::lemma_parse_dump(v.recipient_channel, t1);
            lemma_skip_front(w0, t1);
            <u32 as ParseDump>::lemma_parse_dump(v.bytes_to_add, t2);
        }
    }
}

/// The inputs of the exchange hash, in the order in which they are hashed.
/// It has no message number: its bytes are only ever fed to SHA-256.
#[derive(Clone, Debug, PartialEq, Eq)]
pub struct ExchangeHash {
    pub client_header: Vec<u8>,
    pub server_header: Vec<u8>,
    pub client_kexinit_payload: Vec<u8>,
    pub server_kexinit_payload: Vec<u8>,
    pub server_public_host_key: Blob,
    pub client_ephemeral_pubkey: Vec<u8>,
    pub server_ephemeral_pubkey: Vec<u8>,
    pub shared_secret: UnsignedMpInt,
}

/// What a `ExchangeHash` holds.
pub ghost struct ExchangeHashView {
    pub client_header: Seq<u8>,
    pub server_header: Seq<u8>,
    pub client_kexinit_payload: Seq<u8>,
    pub server_kexinit_payload: Seq<u8>,
    pub server_public_host_key: BlobView,
    pub client_ephemeral_pubkey: Seq<u8>,
    pub server_ephemeral_pubkey: Seq<u8>,
    pub shared_secret: nat,
}

impl View for ExchangeHash {
    type V = ExchangeHashView;

    open spec fn view(&self) -> ExchangeHashView {
        ExchangeHashView {
            client_header: self.client_header@,
            server_header: self.server_header@,
            client_kexinit_payload: self.client_kexinit_payload@,
            server_kexinit_payload: self.server_kexinit_payload@,
            server_public_host_key: self.server_public_host_key@,
            client_ephemeral_pubkey: self.client_ephemeral_pubkey@,
            server_ephemeral_pubkey: self.server_ephemeral_pubkey@,
            shared_secret: self.shared_secret@,
        }
    }
}

impl ParseDump for ExchangeHash {
    open spec fn spec_parse(bytes: Seq<u8>) -> Result<(ExchangeHashView, nat), Error> {
        let b0 = bytes;
        match <Vec<u8> as ParseDump>::spec_parse(b0) {
            Err(e) => Err(e),
            Ok((client_header, n0)) => {
                let b1 = b0.skip(n0 as int);
                match <Vec<u8> as ParseDump>::spec_parse(b1) {
                    Err(e) => Err(e),
                    Ok((server_header, n1)) => {
                        let b2 = b1.skip(n1 as int);
                        match <Vec<u8> as ParseDump>::spec_parse(b2) {
                            Err(e) => Err(e),
                            Ok((client_kexinit_payload, n2)) => {
                                let b3 = b2.skip(n2 as int);
                                match <Vec<u8> as ParseDump>::spec_parse(b3) {
                                    Err(e) => Err(e),
                                    Ok((server_kexinit_payload, n3)) => {
                                        let b4 = b3.skip(n3 as int);
                                        match <Blob as ParseDump>::spec_parse(b4) {
                                            Err(e) => Err(e),
                                            Ok((server_public_host_key, n4)) => {
                                                let b5 = b4.skip(n4 as int);
                                                match <Vec<u8> as ParseDump>::spec_parse(b5) {
                                                    Err(e) => Err(e),
                                                    Ok((client_ephemeral_pubkey, n5)) => {
                                                        let b6 = b5.skip(n5 as int);
                                                        match <Vec<u8> as ParseDump>::spec_parse(b6) {
                                                            Err(e) => Err(e),
                                                            Ok((server_ephemeral_pubkey, n6)) => {
                                                                let b7 = b6.skip(n6 as int);
                                                                match <UnsignedMpInt as ParseDump>::spec_parse(b7) {
                                                                    Err(e) => Err(e),
                                                                    Ok((shared_secret, n7)) => {
                                                                        Ok(
                                                                            (
                                                                                ExchangeHashView {
                                                                                    client_header,
                                                                                    server_header,
                                                                                    client_kexinit_payload,
                                                                                    server_kexinit_payload,
                                                                                    server_public_host_key,
                                                                                    client_ephemeral_pubkey,
                                                                                    server_ephemeral_pubkey,
                                                                                    shared_secret,
                                                                                },
                                                                                (n0 + n1 + n2 + n3 + n4 + n5 + n6 + n7) as nat,
                                                                            ),
                                                                        )
                                                                    },
                                                                }
                                                            },
                                                        }
                                                    },
                                                }
                                            },
                                        }
                                    },
                                }
                            },
                        }
                    },
                }
            },
        }
    }

    open spec fn spec_dump(v: ExchangeHashView) -> Result<Seq<u8>, Error> {
        let a = <Vec<u8> as ParseDump>::spec_dump(v.client_header);
        let a = chain(a, <Vec<u8> as ParseDump>::spec_dump(v.server_header));
        let a = chain(a, <Vec<u8> as ParseDump>::spec_dump(v.client_kexinit_payload));
        let a = chain(a, <Vec<u8> as ParseDump>::spec_dump(v.server_kexinit_payload));
        let a = chain(a, <Blob as ParseDump>::spec_dump(v.server_public_host_key));
        let a = chain(a, <Vec<u8> as ParseDump>::spec_dump(v.client_ephemeral_pubkey));
        let a = chain(a, <Vec<u8> as ParseDump>::spec_dump(v.server_ephemeral_pubkey));
        chain(a, <UnsignedMpInt as ParseDump>::spec_dump(v.shared_secret))
    }

    fn parse(bytes: &[u8]) -> (r: Result<(ExchangeHash, usize), Error>) {
        let b0 = bytes;
        let (client_header, n0) = <Vec<u8> as ParseDump>::parse(b0)?;
        let b1 = tail(b0, n0);
        let (server_header, n1) = <Vec<u8> as ParseDump>::parse(b1)?;
        let b2 = tail(b1, n1);
        let (client_kexinit_payload, n2) = <Vec<u8> as ParseDump>::parse(b2)?;
        let b3 = tail(b2, n2);
        let (server_kexinit_payload, n3) = <Vec<u8> as ParseDump>::parse(b3)?;
        let b4 = tail(b3, n3);
        let (server_public_host_key, n4) = <Blob as ParseDump>::parse(b4)?;
        let b5 = tail(b4, n4);
        let (client_ephemeral_pubkey, n5) = <Vec<u8> as ParseDump>::parse(b5)?;
        let b6 = tail(b5, n5);
        let (server_ephemeral_pubkey, n6) = <Vec<u8> as ParseDump>::parse(b6)?;
        let b7 = tail(b6, n6);
        let (shared_secret, n7) = <UnsignedMpInt as ParseDump>::parse(b7)?;
        Ok(
            (
                ExchangeHash {
                    client_header,
                    server_header,
                    client_kexinit_payload,
                    server_kexinit_payload,
                    server_public_host_key,
                    client_ephemeral_pubkey,
                    server_ephemeral_pubkey,
                    shared_secret,
                },
                n0 + n1 + n2 + n3 + n4 + n5 + n6 + n7,
            ),
        )
    }

    fn dump(&self, sink: &mut Vec<u8>) -> (r: Result<(), Error>) {
        let ghost before = sink@;
        let ghost done = Seq::<u8>::empty();
        assert(sink@ =~= before + done);
        self.client_header.dump(sink)?;
        proof {
            lemma_regroup(
                before,
                done,
                <Vec<u8> as ParseDump>::spec_dump(self.client_header@).unwrap(),
            );
        }
        let ghost done = done + <Vec<u8> as ParseDump>::spec_dump(self.client_header@).unwrap();
        self.server_header.dump(sink)?;
        proof {
            lemma_regroup(
                before,
                done,
                <Vec<u8> as ParseDump>::spec_dump(self.server_header@).unwrap(),
            );
        }
        let ghost done = done + <Vec<u8> as ParseDump>::spec_dump(self.server_header@).unwrap();
        self.client_kexinit_payload.dump(sink)?;
        proof {
            lemma_regroup(
                before,
                done,
                <Vec<u8> as ParseDump>::spec_dump(self.client_kexinit_payload@).unwrap(),
            );
        }
        let ghost done = done + <Vec<u8> as ParseDump>::spec_dump(
            self.client_kexinit_payload@,
        ).unwrap();
        self.server_kexinit_payload.dump(sink)?;
        proof {
            lemma_regroup(
                before,
                done,
                <Vec<u8> as ParseDump>::spec_dump(self.server_kexinit_payload@).unwrap(),
            );
        }
        let ghost done = done + <Vec<u8> as ParseDump>::spec_dump(
            self.server_kexinit_payload@,
        ).unwrap();
        self.server_public_host_key.dump(sink)?;
        proof {
            lemma_regroup(
                before,
                done,
                <Blob as ParseDump>::spec_dump(self.server_public_host_key@).unwrap(),
            );
        }
        let ghost done = done + <Blob as ParseDump>::spec_dump(
            self.server_public_host_key@,
        ).unwrap();
        self.client_ephemeral_pubkey.dump(sink)?;
        proof {
            lemma_regroup(
                before,
                done,
                <Vec<u8> as ParseDump>::spec_dump(self.client_ephemeral_pubkey@).unwrap(),
            );
        }
        let ghost done = done + <Vec<u8> as ParseDump>::spec_dump(
            self.client_ephemeral_pubkey@,
        ).unwrap();
        self.server_ephemeral_pubkey.dump(sink)?;
        proof {
            lemma_regroup(
                before,
                done,
                <Vec<u8> as ParseDump>::spec_dump(self.server_ephemeral_pubkey@).unwrap(),
            );
        }
        let ghost done = done + <Vec<u8> as ParseDump>::spec_dump(
            self.server_ephemeral_pubkey@,
        ).unwrap();
        self.shared_secret.dump(sink)?;
        proof {
            lemma_regroup(
                before,
                done,
                <UnsignedMpInt as ParseDump>::spec_dump(self.shared_secret@).unwrap(),
            );
        }
        let ghost done = done + <UnsignedMpInt as ParseDump>::spec_dump(
            self.shared_secret@,
        ).unwrap();
        Ok(())
    }

    proof fn lemma_parse_dump(v: ExchangeHashView, rest: Seq<u8>) {
        Self::lemma_fields(v, rest);
    }
}

impl ExchangeHash {
    /// The steps of the round trip: in the bytes of `v`, followed by `rest`,
    /// each field is read from where the one before it ended.
    pub proof fn lemma_fields(v: ExchangeHashView, rest: Seq<u8>)
        ensures
            Self::spec_dump(v) matches Ok(w) ==> ({
                let w0 = <Vec<u8> as ParseDump>::spec_dump(v.client_header).unwrap();
                let w1 = <Vec<u8> as ParseDump>::spec_dump(v.server_header).unwrap();
                let w2 = <Vec<u8> as ParseDump>::spec_dump(v.client_kexinit_payload).unwrap();
                let w3 = <Vec<u8> as ParseDump>::spec_dump(v.server_kexinit_payload).unwrap();
                let w4 = <Blob as ParseDump>::spec_dump(v.server_public_host_key).unwrap();
                let w5 = <Vec<u8> as ParseDump>::spec_dump(v.client_ephemeral_pubkey).unwrap();
                let w6 = <Vec<u8> as ParseDump>::spec_dump(v.server_ephemeral_pubkey).unwrap();
                let w7 = <UnsignedMpInt as ParseDump>::spec_dump(v.shared_secret).unwrap();
                let b0 = w + rest;
                let b1 = b0.skip(w0.len() as int);
                let b2 = b1.skip(w1.len() as int);
                let b3 = b2.skip(w2.len() as int);
                let b4 = b3.skip(w3.len() as int);
                let b5 = b4.skip(w4.len() as int);
                let b6 = b5.skip(w5.len() as int);
                let b7 = b6.skip(w6.len() as int);
                &&& w.len() == w0.len() + w1.len() + w2.len() + w3.len() + w4.len() + w5.len() + w6.len() + w7.len()
                &&& <Vec<u8> as ParseDump>::spec_parse(b0) == Ok::<(Seq<u8>, nat), Error>(
                    (v.client_header, w0.len()),
                )
                &&& <Vec<u8> as ParseDump>::spec_parse(b1) == Ok::<(Seq<u8>, nat), Error>(
                    (v.server_header, w1.len()),
                )
                &&& <Vec<u8> as ParseDump>::spec_parse(b2) == Ok::<(Seq<u8>, nat), Error>(
                    (v.client_kexinit_payload, w2.len()),
                )
                &&& <Vec<u8> as ParseDump>::spec_parse(b3) == Ok::<(Seq<u8>, nat), Error>(
                    (v.server_kexinit_payload, w3.len()),
                )
                &&& <Blob as ParseDump>::spec_parse(b4) == Ok::<(BlobView, nat), Error>(
                    (v.server_public_host_key, w4.len()),
                )
                &&& <Vec<u8> as ParseDump>::spec_parse(b5) == Ok::<(Seq<u8>, nat), Error>(
                    (v.client_ephemeral_pubkey, w5.len()),
                )
                &&& <Vec<u8> as ParseDump>::spec_parse(b6) == Ok::<(Seq<u8>, nat), Error>(
                    (v.server_ephemeral_pubkey, w6.len()),
                )
                &&& <UnsignedMpInt as ParseDump>::spec_parse(b7) == Ok::<(nat, nat), Error>(
                    (v.shared_secret, w7.len()),
                )
            }),
    {
        if let Ok(w) = Self::spec_dump(v) {
            let w0 = <Vec<u8> as ParseDump>::spec_dump(v.client_header).unwrap();
            let w1 = <Vec<u8> as ParseDump>::spec_dump(v.server_header).unwrap();
            let w2 = <Vec<u8> as ParseDump>::spec_dump(v.client_kexinit_payload).unwrap();
            let w3 = <Vec<u8> as ParseDump>::spec_dump(v.server_kexinit_payload).unwrap();
            let w4 = <Blob as ParseDump>::spec_dump(v.server_public_host_key).unwrap();
            let w5 = <Vec<u8> as ParseDump>::spec_dump(v.client_ephemeral_pubkey).unwrap();
            let w6 = <Vec<u8> as ParseDump>::spec_dump(v.server_ephemeral_pubkey).unwrap();
            let w7 = <UnsignedMpInt as ParseDump>::spec_dump(v.shared_secret).unwrap();
            let b0 = w + rest;
            let b1 = b0.skip(w0.len() as int);
            let b2 = b1.skip(w1.len() as int);
            let b3 = b2.skip(w2.len() as int);
            let b4 = b3.skip(w3.len() as int);
            let b5 = b4.skip(w4.len() as int);
            let b6 = b5.skip(w5.len() as int);
            let b7 = b6.skip(w6.len() as int);
            let d0 = <Vec<u8> as ParseDump>::spec_dump(v.client_header);
            let d1 = <Vec<u8> as ParseDump>::spec_dump(v.server_header);
            let d2 = <Vec<u8> as ParseDump>::spec_dump(v.client_kexinit_payload);
            let d3 = <Vec<u8> as ParseDump>::spec_dump(v.server_kexinit_payload);
            let d4 = <Blob as ParseDump>::spec_dump(v.server_public_host_key);
            let d5 = <Vec<u8> as ParseDump>::spec_dump(v.client_ephemeral_pubkey);
            let d6 = <Vec<u8> as ParseDump>::spec_dump(v.server_ephemeral_pubkey);
            let d7 = <UnsignedMpInt as ParseDump>::spec_dump(v.shared_secret);
            let c1 = d0;
            let c2 = chain(c1, d1);
            let c3 = chain(c2, d2);
            let c4 = chain(c3, d3);
            let c5 = chain(c4, d4);
            let c6 = chain(c5, d5);
            let c7 = chain(c6, d6);
            let c8 = chain(c7, d7);
            assert(c7 is Ok && d7 is Ok);
            assert(c6 is Ok && d6 is Ok);
            assert(c5 is Ok && d5 is Ok);
            assert(c4 is Ok && d4 is Ok);
            assert(c3 is Ok && d3 is Ok);
            assert(c2 is Ok && d2 is Ok);
            assert(c1 is Ok && d1 is Ok);
            assert(d0 is Ok);
            let q1 = c1.unwrap();
            let q2 = c2.unwrap();
            let q3 = c3.unwrap();
            let q4 = c4.unwrap();
            let q5 = c5.unwrap();
            let q6 = c6.unwrap();
            let q7 = c7.unwrap();
            let q8 = c8.unwrap();
            let t8 = rest;
            let t7 = w7 + t8;
            let t6 = w6 + t7;
            let t5 = w5 + t6;
            let t4 = w4 + t5;
            let t3 = w3 + t4;
            let t2 = w2 + t3;
            let t1 = w1 + t2;
            let t0 = w0 + t1;
            lemma_regroup(q7, w7, t8);
            lemma_regroup(q6, w6, t7);
            lemma_regroup(q5, w5, t6);
            lemma_regroup(q4, w4, t5);
            lemma_regroup(q3, w3, t4);
            lemma_regroup(q2, w2, t3);
            lemma_regroup(q1, w1, t2);
            assert(b0 == t0);
            <Vec<u8> as ParseDump>::lemma_parse_dump(v.client_header, t1);
            lemma_skip_front(w0, t1);
            <Vec<u8> as ParseDump>::lemma_parse_dump(v.server_header, t2);
            lemma_skip_front(w1, t2);
            <Vec<u8> as ParseDump>::lemma_parse_dump(v.client_kexinit_payload, t3);
            lemma_skip_front(w2, t3);
            <Vec<u8> as ParseDump>::lemma_parse_dump(v.server_kexinit_payload, t4);
            lemma_skip_front(w3, t4);
            <Blob as ParseDump>::lemma_parse_dump(v.server_public_host_key, t5);
            lemma_skip_front(w4, t5);
            <Vec<u8> as ParseDump>::lemma_parse_dump(v.client_ephemeral_pubkey, t6);
            lemma_skip_front(w5, t6);
            <Vec<u8> as ParseDump>::lemma_parse_dump(v.server_ephemeral_pubkey, t7);
            lemma_skip_front(w6, t7);
            <UnsignedMpInt as ParseDump>::lemma_parse_dump(v.shared_secret, t8);
        }
    }
}

/// A self-framed record: an outer length, a header that names the format and
/// the content.  Public keys and signatures travel in this form.
#[derive(Clone, Debug, PartialEq, Eq)]
pub struct Blob {
    pub blob_len: u32,
    pub header: String,
    pub content: Vec<u8>,
}

/// What a `Blob` holds.
pub ghost struct BlobView {
    pub blob_len: u32,
    pub header: Seq<char>,
    pub content: Seq<u8>,
}

impl View for Blob {
    type V = BlobView;

    open spec fn view(&self) -> BlobView {
        BlobView {
            blob_len: self.blob_len,
            header: self.header@,
            content: self.content@,
        }
    }
}

impl ParseDump for Blob {
    open spec fn spec_parse(bytes: Seq<u8>) -> Result<(BlobView, nat), Error> {
        let b0 = bytes;
        match <u32 as ParseDump>::spec_parse(b0) {
            Err(e) => Err(e),
            Ok((blob_len, n0)) => {
                let b1 = b0.skip(n0 as int);
                match <String as ParseDump>::spec_parse(b1) {
                    Err(e) => Err(e),
                    Ok((header, n1)) => {
                        let b2 = b1.skip(n1 as int);
                        match <Vec<u8> as ParseDump>::spec_parse(b2) {
                            Err(e) => Err(e),
                            Ok((content, n2)) => {
                                Ok((BlobView { blob_len, header, content }, (n0 + n1 + n2) as nat))
                            },
                        }
                    },
                }
            },
        }
    }

    open spec fn spec_dump(v: BlobView) -> Result<Seq<u8>, Error> {
        let a = <u32 as ParseDump>::spec_dump(v.blob_len);
        let a = chain(a, <String as ParseDump>::spec_dump(v.header));
        chain(a, <Vec<u8> as ParseDump>::spec_dump(v.content))
    }

    fn parse(bytes: &[u8]) -> (r: Result<(Blob, usize), Error>) {
        let b0 = bytes;
        let (blob_len, n0) = <u32 as ParseDump>::parse(b0)?;
        let b1 = tail(b0, n0);
        let (header, n1) = <String as ParseDump>::parse(b1)?;
        let b2 = tail(b1, n1);
        let (content, n2) = <Vec<u8> as ParseDump>::parse(b2)?;
        Ok((Blob { blob_len, header, content }, n0 + n1 + n2))
    }

    fn dump(&self, sink: &mut Vec<u8>) -> (r: Result<(), Error>) {
        let ghost before = sink@;
        let ghost done = Seq::<u8>::empty();
        assert(sink@ =~= before + done);
        self.blob_len.dump(sink)?;
        proof {
            lemma_regroup(before, done, <u32 as ParseDump>::spec_dump(self.blob_len).unwrap());
        }
        let ghost done = done + <u32 as ParseDump>::spec_dump(self.blob_len).unwrap();
        self.header.dump(sink)?;
        proof {
            lemma_regroup(before, done, <String as ParseDump>::spec_dump(self.header@).unwrap());
        }
        let ghost done = done + <String as ParseDump>::spec_dump(self.header@).unwrap();
        self.content.dump(sink)?;
        proof {
            lemma_regroup(before, done, <Vec<u8> as ParseDump>::spec_dump(self.content@).unwrap());
        }
        let ghost done = done + <Vec<u8> as ParseDump>::spec_dump(self.content@).unwrap();
        Ok(())
    }

    proof fn lemma_parse_dump(v: BlobView, rest: Seq<u8>) {
        if let Ok(w) = Self::spec_dump(v) {
            let w0 = <u32 as ParseDump>::spec_dump(v.blob_len).unwrap();
            let w1 = <String as ParseDump>::spec_dump(v.header).unwrap();
            let w2 = <Vec<u8> as ParseDump>::spec_dump(v.content).unwrap();
            let b0 = w + rest;
            let b1 = b0.skip(w0.len() as int);
            let b2 = b1.skip(w1.len() as int);
            let d0 = <u32 as ParseDump>::spec_dump(v.blob_len);
            let d1 = <String as ParseDump>::spec_dump(v.header);
            let d2 = <Vec<u8> as ParseDump>::spec_dump(v.content);
            let c1 = d0;
            let c2 = chain(c1, d1);
            let c3 = chain(c2, d2);
            assert(c2 is Ok && d2 is Ok);
            assert(c1 is Ok && d1 is Ok);
            assert(d0 is Ok);
            let q1 = c1.unwrap();
            let q2 = c2.unwrap();
            let q3 = c3.unwrap();
            let t3 = rest;
            let t2 = w2 + t3;
            let t1 = w1 + t2;
            let t0 = w0 + t1;
            lemma_regroup(q2, w2, t3);
            lemma_regroup(q1, w1, t2);
            assert(b0 == t0);
            <u32 as ParseDump>::lemma_parse_dump(v.blob_len, t1);
            lemma_skip_front(w0, t1);
            <String as ParseDump>::lemma_parse_dump(v.header, t2);
            lemma_skip_front(w1, t2);
            <Vec<u8> as ParseDump>::lemma_parse_dump(v.content, t3);
        }
    }
}

/// Any message that the library knows.  Four kinds carry nothing that the
/// library reads; they have no wire form here and cannot be parsed or dumped.
#[derive(Clone, Debug, PartialEq, Eq)]
pub enum Message {
    Disconnect(Disconnect),
    Ignore,
    Unimplemented(Unimplemented),
    Debug,
    ServiceRequest(ServiceRequest),
    ServiceAccept(ServiceAccept),
    Kexinit(Kexinit),
    Newkeys(Newkeys),
    KexdhInit(KexdhInit),
    KexdhReply(KexdhReply),
    UserauthRequest(UserauthRequest),
    UserauthFailure(UserauthFailure),
    UserauthSuccess(UserauthSuccess),
    UserauthPkOk(UserauthPkOk),
    GlobalRequest(GlobalRequest),
    RequestSuccess,
    RequestFailure,
    ChannelOpen(ChannelOpen),
    ChannelOpenConfirmation(ChannelOpenConfirmation),
    ChannelOpenFailure(ChannelOpenFailure),
    ChannelWindowAdjust(ChannelWindowAdjust),
    ChannelData(ChannelData),
    ChannelExtendedData(ChannelExtendedData),
    ChannelEof(ChannelEof),
    ChannelClose(ChannelClose),
    ChannelRequest(ChannelRequest),
    ChannelSuccess(ChannelSuccess),
    ChannelFailure(ChannelFailure),
}

/// What a `Message` holds.
pub ghost enum MessageView {
    Disconnect(DisconnectView),
    Ignore,
    Unimplemented(Unimplemented),
    Debug,
    ServiceRequest(ServiceRequestView),
    ServiceAccept(ServiceAcceptView),
    Kexinit(KexinitView),
    Newkeys(Newkeys),
    KexdhInit(KexdhInitView),
    KexdhReply(KexdhReplyView),
    UserauthRequest(UserauthRequestView),
    UserauthFailure(UserauthFailureView),
    UserauthSuccess(UserauthSuccess),
    UserauthPkOk(UserauthPkOkView),
    GlobalRequest(GlobalRequestView),
    RequestSuccess,
    RequestFailure,
    ChannelOpen(ChannelOpenView),
    ChannelOpenConfirmation(ChannelOpenConfirmation),
    ChannelOpenFailure(ChannelOpenFailureView),
    ChannelWindowAdjust(ChannelWindowAdjust),
    ChannelData(ChannelDataView),
    ChannelExtendedData(ChannelExtendedDataView),
    ChannelEof(ChannelEof),
    ChannelClose(ChannelClose),
    ChannelRequest(ChannelRequestView),
    ChannelSuccess(ChannelSuccess),
    ChannelFailure(ChannelFailure),
}

impl View for Message {
    type V = MessageView;

    open spec fn view(&self) -> MessageView {
        match self {
            Message::Disconnect(m) => MessageView::Disconnect(m@),
            Message::Ignore => MessageView::Ignore,
            Message::Unimplemented(m) => MessageView::Unimplemented(m@),
            Message::Debug => MessageView::Debug,
            Message::ServiceRequest(m) => MessageView::ServiceRequest(m@),
            Message::ServiceAccept(m) => MessageView::ServiceAccept(m@),
            Message::Kexinit(m) => MessageView::Kexinit(m@),
            Message::Newkeys(m) => MessageView::Newkeys(m@),
            Message::KexdhInit(m) => MessageView::KexdhInit(m@),
            Message::KexdhReply(m) => MessageView::KexdhReply(m@),
            Message::UserauthRequest(m) => MessageView::UserauthRequest(m@),
            Message::UserauthFailure(m) => MessageView::UserauthFailure(m@),
            Message::UserauthSuccess(m) => MessageView::UserauthSuccess(m@),
            Message::UserauthPkOk(m) => MessageView::UserauthPkOk(m@),
            Message::GlobalRequest(m) => MessageView::GlobalRequest(m@),
            Message::RequestSuccess => MessageView::RequestSuccess,
            Message::RequestFailure => MessageView::RequestFailure,
            Message::ChannelOpen(m) => MessageView::ChannelOpen(m@),
            Message::ChannelOpenConfirmation(m) => MessageView::ChannelOpenConfirmation(m@),
            Message::ChannelOpenFailure(m) => MessageView::ChannelOpenFailure(m@),
            Message::ChannelWindowAdjust(m) => MessageView::ChannelWindowAdjust(m@),
            Message::ChannelData(m) => MessageView::ChannelData(m@),
            Message::ChannelExtendedData(m) => MessageView::ChannelExtendedData(m@),
            Message::ChannelEof(m) => MessageView::ChannelEof(m@),
            Message::ChannelClose(m) => MessageView::ChannelClose(m@),
            Message::ChannelRequest(m) => MessageView::ChannelRequest(m@),
            Message::ChannelSuccess(m) => MessageView::ChannelSuccess(m@),
            Message::ChannelFailure(m) => MessageView::ChannelFailure(m@),
        }
    }
}

impl MessageView {
    /// The type of the message.
    pub open spec fn typ(self) -> MessageType {
        match self {
            MessageView::Disconnect(_) => MessageType::Disconnect,
            MessageView::Ignore => MessageType::Ignore,
            MessageView::Unimplemented(_) => MessageType::Unimplemented,
            MessageView::Debug => MessageType::Debug,
            MessageView::ServiceRequest(_) => MessageType::ServiceRequest,
            MessageView::ServiceAccept(_) => MessageType::ServiceAccept,
            MessageView::Kexinit(_) => MessageType::Kexinit,
            MessageView::Newkeys(_) => MessageType::Newkeys,
            MessageView::KexdhInit(_) => MessageType::KexdhInit,
            MessageView::KexdhReply(_) => MessageType::KexdhReply,
            MessageView::UserauthRequest(_) => MessageType::UserauthRequest,
            MessageView::UserauthFailure(_) => MessageType::UserauthFailure,
            MessageView::UserauthSuccess(_) => MessageType::UserauthSuccess,
            MessageView::UserauthPkOk(_) => MessageType::UserauthPkOk,
            MessageView::GlobalRequest(_) => MessageType::GlobalRequest,
            MessageView::RequestSuccess => MessageType::RequestSuccess,
            MessageView::RequestFailure => MessageType::RequestFailure,
            MessageView::ChannelOpen(_) => MessageType::ChannelOpen,
            MessageView::ChannelOpenConfirmation(_) => MessageType::ChannelOpenConfirmation,
            MessageView::ChannelOpenFailure(_) => MessageType::ChannelOpenFailure,
            MessageView::ChannelWindowAdjust(_) => MessageType::ChannelWindowAdjust,
            MessageView::ChannelData(_) => MessageType::ChannelData,
            MessageView::ChannelExtendedData(_) => MessageType::ChannelExtendedData,
            MessageView::ChannelEof(_) => MessageType::ChannelEof,
            MessageView::ChannelClose(_) => MessageType::ChannelClose,
            MessageView::ChannelRequest(_) => MessageType::ChannelRequest,
            MessageView::ChannelSuccess(_) => MessageType::ChannelSuccess,
            MessageView::ChannelFailure(_) => MessageType::ChannelFailure,
        }
    }
}

impl Message {
    /// The type of the message.
    pub fn typ(&self) -> (t: MessageType)
        ensures
            t == self@.typ(),
    {
        match self {
            Message::Disconnect(_) => MessageType::Disconnect,
            Message::Ignore => MessageType::Ignore,
            Message::Unimplemented(_) => MessageType::Unimplemented,
            Message::Debug => MessageType::Debug,
            Message::ServiceRequest(_) => MessageType::ServiceRequest,
            Message::ServiceAccept(_) => MessageType::ServiceAccept,
            Message::Kexinit(_) => MessageType::Kexinit,
            Message::Newkeys(_) => MessageType::Newkeys,
            Message::KexdhInit(_) => MessageType::KexdhInit,
            Message::KexdhReply(_) => MessageType::KexdhReply,
            Message::UserauthRequest(_) => MessageType::UserauthRequest,
            Message::UserauthFailure(_) => MessageType::UserauthFailure,
            Message::UserauthSuccess(_) => MessageType::UserauthSuccess,
            Message::UserauthPkOk(_) => MessageType::UserauthPkOk,
            Message::GlobalRequest(_) => MessageType::GlobalRequest,
            Message::RequestSuccess => MessageType::RequestSuccess,
            Message::RequestFailure => MessageType::RequestFailure,
            Message::ChannelOpen(_) => MessageType::ChannelOpen,
            Message::ChannelOpenConfirmation(_) => MessageType::ChannelOpenConfirmation,
            Message::ChannelOpenFailure(_) => MessageType::ChannelOpenFailure,
            Message::ChannelWindowAdjust(_) => MessageType::ChannelWindowAdjust,
            Message::ChannelData(_) => MessageType::ChannelData,
            Message::ChannelExtendedData(_) => MessageType::ChannelExtendedData,
            Message::ChannelEof(_) => MessageType::ChannelEof,
            Message::ChannelClose(_) => MessageType::ChannelClose,
            Message::ChannelRequest(_) => MessageType::ChannelRequest,
            Message::ChannelSuccess(_) => MessageType::ChannelSuccess,
            Message::ChannelFailure(_) => MessageType::ChannelFailure,
        }
    }
}

impl ParseDump for Message {
    open spec fn spec_parse(bytes: Seq<u8>) -> Result<(MessageView, nat), Error> {
        if bytes.len() < 1 {
            Err(Error::TruncatedInput)
        } else {
            match MessageType::spec_of_code(bytes[0]) {
                None => Err(Error::UnknownMessageType(bytes[0])),
                Some(MessageType::Disconnect) => match Disconnect::spec_parse(bytes) {
                    Err(e) => Err(e),
                    Ok((m, n)) => Ok((MessageView::Disconnect(m), n)),
                },
                Some(MessageType::Ignore) => Err(Error::Unimplemented),
                Some(MessageType::Unimplemented) => match Unimplemented::spec_parse(bytes) {
                    Err(e) => Err(e),
                    Ok((m, n)) => Ok((MessageView::Unimplemented(m), n)),
                },
                Some(MessageType::Debug) => Err(Error::Unimplemented),
                Some(MessageType::ServiceRequest) => match ServiceRequest::spec_parse(bytes) {
                    Err(e) => Err(e),
                    Ok((m, n)) => Ok((MessageView::ServiceRequest(m), n)),
                },
                Some(MessageType::ServiceAccept) => match ServiceAccept::spec_parse(bytes) {
                    Err(e) => Err(e),
                    Ok((m, n)) => Ok((MessageView::ServiceAccept(m), n)),
                },
                Some(MessageType::Kexinit) => match Kexinit::spec_parse(bytes) {
                    Err(e) => Err(e),
                    Ok((m, n)) => Ok((MessageView::Kexinit(m), n)),
                },
                Some(MessageType::Newkeys) => match Newkeys::spec_parse(bytes) {
                    Err(e) => Err(e),
                    Ok((m, n)) => Ok((MessageView::Newkeys(m), n)),
                },
                Some(MessageType::KexdhInit) => match KexdhInit::spec_parse(bytes) {
                    Err(e) => Err(e),
                    Ok((m, n)) => Ok((MessageView::KexdhInit(m), n)),
                },
                Some(MessageType::KexdhReply) => match KexdhReply::spec_parse(bytes) {
                    Err(e) => Err(e),
                    Ok((m, n)) => Ok((MessageView::KexdhReply(m), n)),
                },
                Some(MessageType::UserauthRequest) => match UserauthRequest::spec_parse(bytes) {
                    Err(e) => Err(e),
                    Ok((m, n)) => Ok((MessageView::UserauthRequest(m), n)),
                },
                Some(MessageType::UserauthFailure) => match UserauthFailure::spec_parse(bytes) {
                    Err(e) => Err(e),
                    Ok((m, n)) => Ok((MessageView::UserauthFailure(m), n)),
                },
                Some(MessageType::UserauthSuccess) => match UserauthSuccess::spec_parse(bytes) {
                    Err(e) => Err(e),
                    Ok((m, n)) => Ok((MessageView::UserauthSuccess(m), n)),
                },
                Some(MessageType::UserauthBanner) => Err(Error::Unimplemented),
                Some(MessageType::UserauthPkOk) => match UserauthPkOk::spec_parse(bytes) {
                    Err(e) => Err(e),
                    Ok((m, n)) => Ok((MessageView::UserauthPkOk(m), n)),
                },
                Some(MessageType::GlobalRequest) => match GlobalRequest::spec_parse(bytes) {
                    Err(e) => Err(e),
                    Ok((m, n)) => Ok((MessageView::GlobalRequest(m), n)),
                },
                Some(MessageType::RequestSuccess) => Err(Error::Unimplemented),
                Some(MessageType::RequestFailure) => Err(Error::Unimplemented),
                Some(MessageType::ChannelOpen) => match ChannelOpen::spec_parse(bytes) {
                    Err(e) => Err(e),
                    Ok((m, n)) => Ok((MessageView::ChannelOpen(m), n)),
                },
                Some(MessageType::ChannelOpenConfirmation) => match ChannelOpenConfirmation::spec_parse(bytes) {
                    Err(e) => Err(e),
                    Ok((m, n)) => Ok((MessageView::ChannelOpenConfirmation(m), n)),
                },
                Some(MessageType::ChannelOpenFailure) => match ChannelOpenFailure::spec_parse(bytes) {
                    Err(e) => Err(e),
                    Ok((m, n)) => Ok((MessageView::ChannelOpenFailure(m), n)),
                },
                Some(MessageType::ChannelWindowAdjust) => match ChannelWindowAdjust::spec_parse(bytes) {
                    Err(e) => Err(e),
                    Ok((m, n)) => Ok((MessageView::ChannelWindowAdjust(m), n)),
                },
                Some(MessageType::ChannelData) => match ChannelData::spec_parse(bytes) {
                    Err(e) => Err(e),
                    Ok((m, n)) => Ok((MessageView::ChannelData(m), n)),
                },
                Some(MessageType::ChannelExtendedData) => match ChannelExtendedData::spec_parse(bytes) {
                    Err(e) => Err(e),
                    Ok((m, n)) => Ok((MessageView::ChannelExtendedData(m), n)),
                },
                Some(MessageType::ChannelEof) => match ChannelEof::spec_parse(bytes) {
                    Err(e) => Err(e),
                    Ok((m, n)) => Ok((MessageView::ChannelEof(m), n)),
                },
                Some(MessageType::ChannelClose) => match ChannelClose::spec_parse(bytes) {
                    Err(e) => Err(e),
                    Ok((m, n)) => Ok((MessageView::ChannelClose(m), n)),
                },
                Some(MessageType::ChannelRequest) => match ChannelRequest::spec_parse(bytes) {
                    Err(e) => Err(e),
                    Ok((m, n)) => Ok((MessageView::ChannelRequest(m), n)),
                },
                Some(MessageType::ChannelSuccess) => match ChannelSuccess::spec_parse(bytes) {
                    Err(e) => Err(e),
                    Ok((m, n)) => Ok((MessageView::ChannelSuccess(m), n)),
                },
                Some(MessageType::ChannelFailure) => match ChannelFailure::spec_parse(bytes) {
                    Err(e) => Err(e),
                    Ok((m, n)) => Ok((MessageView::ChannelFailure(m), n)),
                },
            }
        }
    }

    open spec fn spec_dump(v: MessageView) -> Result<Seq<u8>, Error> {
        match v {
            MessageView::Disconnect(m) => Disconnect::spec_dump(m),
            MessageView::Ignore => Err(Error::Unimplemented),
            MessageView::Unimplemented(m) => Unimplemented::spec_dump(m),
            MessageView::Debug => Err(Error::Unimplemented),
            MessageView::ServiceRequest(m) => ServiceRequest::spec_dump(m),
            MessageView::ServiceAccept(m) => ServiceAccept::spec_dump(m),
            MessageView::Kexinit(m) => Kexinit::spec_dump(m),
            MessageView::Newkeys(m) => Newkeys::spec_dump(m),
            MessageView::KexdhInit(m) => KexdhInit::spec_dump(m),
            MessageView::KexdhReply(m) => KexdhReply::spec_dump(m),
            MessageView::UserauthRequest(m) => UserauthRequest::spec_dump(m),
            MessageView::UserauthFailure(m) => UserauthFailure::spec_dump(m),
            MessageView::UserauthSuccess(m) => UserauthSuccess::spec_dump(m),
            MessageView::UserauthPkOk(m) => UserauthPkOk::spec_dump(m),
            MessageView::GlobalRequest(m) => GlobalRequest::spec_dump(m),
            MessageView::RequestSuccess => Err(Error::Unimplemented),
            MessageView::RequestFailure => Err(Error::Unimplemented),
            MessageView::ChannelOpen(m) => ChannelOpen::spec_dump(m),
            MessageView::ChannelOpenConfirmation(m) => ChannelOpenConfirmation::spec_dump(m),
            MessageView::ChannelOpenFailure(m) => ChannelOpenFailure::spec_dump(m),
            MessageView::ChannelWindowAdjust(m) => ChannelWindowAdjust::spec_dump(m),
            MessageView::ChannelData(m) => ChannelData::spec_dump(m),
            MessageView::ChannelExtendedData(m) => ChannelExtendedData::spec_dump(m),
            MessageView::ChannelEof(m) => ChannelEof::spec_dump(m),
            MessageView::ChannelClose(m) => ChannelClose::spec_dump(m),
            MessageView::ChannelRequest(m) => ChannelRequest::spec_dump(m),
            MessageView::ChannelSuccess(m) => ChannelSuccess::spec_dump(m),
            MessageView::ChannelFailure(m) => ChannelFailure::spec_dump(m),
        }
    }

    fn parse(bytes: &[u8]) -> (r: Result<(Message, usize), Error>) {
        if bytes.len() < 1 {
            return Err(Error::TruncatedInput);
        }
        match MessageType::try_from(bytes[0])? {
            MessageType::Disconnect => {
                let (m, n) = Disconnect::parse(bytes)?;
                Ok((Message::Disconnect(m), n))
            },
            MessageType::Ignore => Err(Error::Unimplemented),
            MessageType::Unimplemented => {
                let (m, n) = Unimplemented::parse(bytes)?;
                Ok((Message::Unimplemented(m), n))
            },
            MessageType::Debug => Err(Error::Unimplemented),
            MessageType::ServiceRequest => {
                let (m, n) = ServiceRequest::parse(bytes)?;
                Ok((Message::ServiceRequest(m), n))
            },
            MessageType::ServiceAccept => {
                let (m, n) = ServiceAccept::parse(bytes)?;
                Ok((Message::ServiceAccept(m), n))
            },
            MessageType::Kexinit => {
                let (m, n) = Kexinit::parse(bytes)?;
                Ok((Message::Kexinit(m), n))
            },
            MessageType::Newkeys => {
                let (m, n) = Newkeys::parse(bytes)?;
                Ok((Message::Newkeys(m), n))
            },
            MessageType::KexdhInit => {
                let (m, n) = KexdhInit::parse(bytes)?;
                Ok((Message::KexdhInit(m), n))
            },
            MessageType::KexdhReply => {
                let (m, n) = KexdhReply::parse(bytes)?;
                Ok((Message::KexdhReply(m), n))
            },
            MessageType::UserauthRequest => {
                let (m, n) = UserauthRequest::parse(bytes)?;
                Ok((Message::UserauthRequest(m), n))
            },
            MessageType::UserauthFailure => {
                let (m, n) = UserauthFailure::parse(bytes)?;
                Ok((Message::UserauthFailure(m), n))
            },
            MessageType::UserauthSuccess => {
                let (m, n) = UserauthSuccess::parse(bytes)?;
                Ok((Message::UserauthSuccess(m), n))
            },
            MessageType::UserauthBanner => Err(Error::Unimplemented),
            MessageType::UserauthPkOk => {
                let (m, n) = UserauthPkOk::parse(bytes)?;
                Ok((Message::UserauthPkOk(m), n))
            },
            MessageType::GlobalRequest => {
                let (m, n) = GlobalRequest::parse(bytes)?;
                Ok((Message::GlobalRequest(m), n))
            },
            MessageType::RequestSuccess => Err(Error::Unimplemented),
            MessageType::RequestFailure => Err(Error::Unimplemented),
            MessageType::ChannelOpen => {
                let (m, n) = ChannelOpen::parse(bytes)?;
                Ok((Message::ChannelOpen(m), n))
            },
            MessageType::ChannelOpenConfirmation => {
                let (m, n) = ChannelOpenConfirmation::parse(bytes)?;
                Ok((Message::ChannelOpenConfirmation(m), n))
            },
            MessageType::ChannelOpenFailure => {
                let (m, n) = ChannelOpenFailure::parse(bytes)?;
                Ok((Message::ChannelOpenFailure(m), n))
            },
            MessageType::ChannelWindowAdjust => {
                let (m, n) = ChannelWindowAdjust::parse(bytes)?;
                Ok((Message::ChannelWindowAdjust(m), n))
            },
            MessageType::ChannelData => {
                let (m, n) = ChannelData::parse(bytes)?;
                Ok((Message::ChannelData(m), n))
            },
            MessageType::ChannelExtendedData => {
                let (m, n) = ChannelExtendedData::parse(bytes)?;
                Ok((Message::ChannelExtendedData(m), n))
            },
            MessageType::ChannelEof => {
                let (m, n) = ChannelEof::parse(bytes)?;
                Ok((Message::ChannelEof(m), n))
            },
            MessageType::ChannelClose => {
                let (m, n) = ChannelClose::parse(bytes)?;
                Ok((Message::ChannelClose(m), n))
            },
            MessageType::ChannelRequest => {
                let (m, n) = ChannelRequest::parse(bytes)?;
                Ok((Message::ChannelRequest(m), n))
            },
            MessageType::ChannelSuccess => {
                let (m, n) = ChannelSuccess::parse(bytes)?;
                Ok((Message::ChannelSuccess(m), n))
            },
            MessageType::ChannelFailure => {
                let (m, n) = ChannelFailure::parse(bytes)?;
                Ok((Message::ChannelFailure(m), n))
            },
        }
    }

    fn dump(&self, sink: &mut Vec<u8>) -> (r: Result<(), Error>) {
        match self {
            Message::Disconnect(m) => m.dump(sink),
            Message::Ignore => Err(Error::Unimplemented),
            Message::Unimplemented(m) => m.dump(sink),
            Message::Debug => Err(Error::Unimplemented),
            Message::ServiceRequest(m) => m.dump(sink),
            Message::ServiceAccept(m) => m.dump(sink),
            Message::Kexinit(m) => m.dump(sink),
            Message::Newkeys(m) => m.dump(sink),
            Message::KexdhInit(m) => m.dump(sink),
            Message::KexdhReply(m) => m.dump(sink),
            Message::UserauthRequest(m) => m.dump(sink),
            Message::UserauthFailure(m) => m.dump(sink),
            Message::UserauthSuccess(m) => m.dump(sink),
            Message::UserauthPkOk(m) => m.dump(sink),
            Message::GlobalRequest(m) => m.dump(sink),
            Message::RequestSuccess => Err(Error::Unimplemented),
            Message::RequestFailure => Err(Error::Unimplemented),
            Message::ChannelOpen(m) => m.dump(sink),
            Message::ChannelOpenConfirmation(m) => m.dump(sink),
            Message::ChannelOpenFailure(m) => m.dump(sink),
            Message::ChannelWindowAdjust(m) => m.dump(sink),
            Message::ChannelData(m) => m.dump(sink),
            Message::ChannelExtendedData(m) => m.dump(sink),
            Message::ChannelEof(m) => m.dump(sink),
            Message::ChannelClose(m) => m.dump(sink),
            Message::ChannelRequest(m) => m.dump(sink),
            Message::ChannelSuccess(m) => m.dump(sink),
            Message::ChannelFailure(m) => m.dump(sink),
        }
    }

    proof fn lemma_parse_dump(v: MessageView, rest: Seq<u8>) {
        match v {
            MessageView::Disconnect(m) => {
                Disconnect::lemma_parse_dump(m, rest);
            },
            MessageView::Ignore => {},
            MessageView::Unimplemented(m) => {
                Unimplemented::lemma_parse_dump(m, rest);
            },
            MessageView::Debug => {},
            MessageView::ServiceRequest(m) => {
                ServiceRequest::lemma_parse_dump(m, rest);
            },
            MessageView::ServiceAccept(m) => {
                ServiceAccept::lemma_parse_dump(m, rest);
            },
            MessageView::Kexinit(m) => {
                Kexinit::lemma_parse_dump(m, rest);
            },
            MessageView::Newkeys(m) => {
                Newkeys::lemma_parse_dump(m, rest);
            },
            MessageView::KexdhInit(m) => {
                KexdhInit::lemma_parse_dump(m, rest);
            },
            MessageView::KexdhReply(m) => {
                KexdhReply::lemma_parse_dump(m, rest);
            },
            MessageView::UserauthRequest(m) => {
                UserauthRequest::lemma_parse_dump(m, rest);
            },
            MessageView::UserauthFailure(m) => {
                UserauthFailure::lemma_parse_dump(m, rest);
            },
            MessageView::UserauthSuccess(m) => {
                UserauthSuccess::lemma_parse_dump(m, rest);
            },
            MessageView::UserauthPkOk(m) => {
                UserauthPkOk::lemma_parse_dump(m, rest);
            },
            MessageView::GlobalRequest(m) => {
                GlobalRequest::lemma_parse_dump(m, rest);
            },
            MessageView::RequestSuccess => {},
            MessageView::RequestFailure => {},
            MessageView::ChannelOpen(m) => {
                ChannelOpen::lemma_parse_dump(m, rest);
            },
            MessageView::ChannelOpenConfirmation(m) => {
                ChannelOpenConfirmation::lemma_parse_dump(m, rest);
            },
            MessageView::ChannelOpenFailure(m) => {
                ChannelOpenFailure::lemma_parse_dump(m, rest);
            },
            MessageView::ChannelWindowAdjust(m) => {
                ChannelWindowAdjust::lemma_parse_dump(m, rest);
            },
            MessageView::ChannelData(m) => {
                ChannelData::lemma_parse_dump(m, rest);
            },
            MessageView::ChannelExtendedData(m) => {
                ChannelExtendedData::lemma_parse_dump(m, rest);
            },
            MessageView::ChannelEof(m) => {
                ChannelEof::lemma_parse_dump(m, rest);
            },
            MessageView::ChannelClose(m) => {
                ChannelClose::lemma_parse_dump(m, rest);
            },
            MessageView::ChannelRequest(m) => {
                ChannelRequest::lemma_parse_dump(m, rest);
            },
            MessageView::ChannelSuccess(m) => {
                ChannelSuccess::lemma_parse_dump(m, rest);
            },
            MessageView::ChannelFailure(m) => {
                ChannelFailure::lemma_parse_dump(m, rest);
            },
        }
    }
}
} // verus!
