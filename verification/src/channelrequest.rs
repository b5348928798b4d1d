//! Requests on a channel.
//!
//! A request begins with the channel it is for, the name of the request and
//! whether a reply is wanted.  What follows depends on the name: a command
//! for `exec`, a name and a value for `env`, a number for `exit-status`.  Any
//! other name is kept as it is, with nothing read behind the common fields.

use crate::error::Error;
use crate::messages::{expect_tag, spec_expect_tag, MessageType};
use crate::parsedump::{
    chain, dump_str, lemma_regroup, lemma_skip_front, put_u8, tail, text_is, ParseDump,
};
use vstd::prelude::*;

verus! {

/// What every channel request begins with.
#[derive(Clone, Debug, PartialEq, Eq)]
pub struct RequestPrefix {
    pub recipient_channel: u32,
    pub request_type: String,
    pub want_reply: bool,
}

/// What a `RequestPrefix` holds.
pub ghost struct RequestPrefixView {
    pub recipient_channel: u32,
    pub request_type: Seq<char>,
    pub want_reply: bool,
}

impl View for RequestPrefix {
    type V = RequestPrefixView;

    open spec fn view(&self) -> RequestPrefixView {
        RequestPrefixView {
            recipient_channel: self.recipient_channel,
            request_type: self.request_type@,
            want_reply: self.want_reply,
        }
    }
}

impl ParseDump for RequestPrefix {
    open spec fn spec_parse(bytes: Seq<u8>) -> Result<(RequestPrefixView, nat), Error> {
        match spec_expect_tag(bytes, MessageType::ChannelRequest) {
            Err(e) => Err(e),
            Ok(_) => {
                let b0 = bytes.skip(1);
                match <u32 as ParseDump>::spec_parse(b0) {
                    Err(e) => Err(e),
                    Ok((recipient_channel, n0)) => {
                        let b1 = b0.skip(n0 as int);
                        match <String as ParseDump>::spec_parse(b1) {
                            Err(e) => Err(e),
                            Ok((request_type, n1)) => {
                                let b2 = b1.skip(n1 as int);
                                match <bool as ParseDump>::spec_parse(b2) {
                                    Err(e) => Err(e),
                                    Ok((want_reply, n2)) => {
                                        Ok(
                                            (
                                                RequestPrefixView {
                                                    recipient_channel,
                                                    request_type,
                                                    want_reply,
                                                },
                                                (1 + n0 + n1 + n2) as nat,
                                            ),
                                        )
                                    },
                                }
                            },
                        }
                    },
                }
            },
        }
    }

    open spec fn spec_dump(v: RequestPrefixView) -> Result<Seq<u8>, Error> {
        let a = Ok(seq![98u8]);
        let a = chain(a, <u32 as ParseDump>::spec_dump(v.recipient_channel));
        let a = chain(a, <String as ParseDump>::spec_dump(v.request_type));
        chain(a, <bool as ParseDump>::spec_dump(v.want_reply))
    }

    fn parse(bytes: &[u8]) -> (r: Result<(RequestPrefix, usize), Error>) {
        expect_tag(bytes, MessageType::ChannelRequest)?;
        let b0 = tail(bytes, 1);
        let (recipient_channel, n0) = <u32 as ParseDump>::parse(b0)?;
        let b1 = tail(b0, n0);
        let (request_type, n1) = <String as ParseDump>::parse(b1)?;
        let b2 = tail(b1, n1);
        let (want_reply, n2) = <bool as ParseDump>::parse(b2)?;
        Ok((RequestPrefix { recipient_channel, request_type, want_reply }, 1 + n0 + n1 + n2))
    }

    fn dump(&self, sink: &mut Vec<u8>) -> (r: Result<(), Error>) {
        let ghost before = sink@;
        put_u8(sink, 98);
        let ghost done = seq![98u8];
        self.recipient_channel.dump(sink)?;
        proof {
            lemma_regroup(
                before,
                done,
                <u32 as ParseDump>::spec_dump(self.recipient_channel).unwrap(),
            );
        }
        let ghost done = done + <u32 as ParseDump>::spec_dump(self.recipient_channel).unwrap();
        self.request_type.dump(sink)?;
        proof {
            lemma_regroup(
                before,
                done,
                <String as ParseDump>::spec_dump(self.request_type@).unwrap(),
            );
        }
        let ghost done = done + <String as ParseDump>::spec_dump(self.request_type@).unwrap();
        self.want_reply.dump(sink)?;
        proof {
            lemma_regroup(before, done, <bool as ParseDump>::spec_dump(self.want_reply).unwrap());
        }
        let ghost done = done + <bool as ParseDump>::spec_dump(self.want_reply).unwrap();
        Ok(())
    }

    proof fn lemma_parse_dump(v: RequestPrefixView, rest: Seq<u8>) {
        if let Ok(w) = Self::spec_dump(v) {
            let w0 = <u32 as ParseDump>::spec_dump(v.recipient_channel).unwrap();
            let w1 = <String as ParseDump>::spec_dump(v.request_type).unwrap();
            let w2 = <bool as ParseDump>::spec_dump(v.want_reply).unwrap();
            let b0 = (w + rest).skip(1);
            let b1 = b0.skip(w0.len() as int);
            let b2 = b1.skip(w1.len() as int);
            let d0 = <u32 as ParseDump>::spec_dump(v.recipient_channel);
            let d1 = <String as ParseDump>::spec_dump(v.request_type);
            let d2 = <bool as ParseDump>::spec_dump(v.want_reply);
            let c0 = Ok::<Seq<u8>, Error>(seq![98u8]);
            let c1 = chain(c0, d0);
            let c2 = chain(c1, d1);
            let c3 = chain(c2, d2);
            assert(c2 is Ok && d2 is Ok);
            assert(c1 is Ok && d1 is Ok);
            assert(c0 is Ok && d0 is Ok);
            let q0 = c0.unwrap();
            let q1 = c1.unwrap();
            let q2 = c2.unwrap();
            let q3 = c3.unwrap();
            let t3 = rest;
            let t2 = w2 + t3;
            let t1 = w1 + t2;
            let t0 = w0 + t1;
            lemma_regroup(q2, w2, t3);
            lemma_regroup(q1, w1, t2);
            lemma_regroup(q0, w0, t1);
            lemma_skip_front(q0, t0);
            <u32 as ParseDump>::lemma_parse_dump(v.recipient_channel, t1);
            lemma_skip_front(w0, t1);
            <String as ParseDump>::lemma_parse_dump(v.request_type, t2);
            lemma_skip_front(w1, t2);
            <bool as ParseDump>::lemma_parse_dump(v.want_reply, t3);
        }
    }
}

/// The wire form of a request to run a command.
#[derive(Clone, Debug, PartialEq, Eq)]
pub struct ExecRequest {
    pub recipient_channel: u32,
    pub request_type: String,
    pub want_reply: bool,
    pub command: String,
}

/// What a `ExecRequest` holds.
pub ghost struct ExecRequestView {
    pub recipient_channel: u32,
    pub request_type: Seq<char>,
    pub want_reply: bool,
    pub command: Seq<char>,
}

impl View for ExecRequest {
    type V = ExecRequestView;

    open spec fn view(&self) -> ExecRequestView {
        ExecRequestView {
            recipient_channel: self.recipient_channel,
            request_type: self.request_type@,
            want_reply: self.want_reply,
            command: self.command@,
        }
    }
}

impl ParseDump for ExecRequest {
    open spec fn spec_parse(bytes: Seq<u8>) -> Result<(ExecRequestView, nat), Error> {
        match spec_expect_tag(bytes, MessageType::ChannelRequest) {
            Err(e) => Err(e),
            Ok(_) => {
                let b0 = bytes.skip(1);
                match <u32 as ParseDump>::spec_parse(b0) {
                    Err(e) => Err(e),
                    Ok((recipient_channel, n0)) => {
                        let b1 = b0.skip(n0 as int);
                        match <String as ParseDump>::spec_parse(b1) {
                            Err(e) => Err(e),
                            Ok((request_type, n1)) => {
                                let b2 = b1.skip(n1 as int);
                                match <bool as ParseDump>::spec_parse(b2) {
                                    Err(e) => Err(e),
                                    Ok((want_reply, n2)) => {
                                        let b3 = b2.skip(n2 as int);
                                        match <String as ParseDump>::spec_parse(b3) {
                                            Err(e) => Err(e),
                                            Ok((command, n3)) => {
                                                Ok(
                                                    (
                                                        ExecRequestView {
                                                            recipient_channel,
                                                            request_type,
                                                            want_reply,
                                                            command,
                                                        },
                                                        (1 + n0 + n1 + n2 + n3) as nat,
                                                    ),
                                                )
                                            },
                                        }
                                    },
                                }
                            },
                        }
                    },
                }
            },
        }
    }

    open spec fn spec_dump(v: ExecRequestView) -> Result<Seq<u8>, Error> {
        let a = Ok(seq![98u8]);
        let a = chain(a, <u32 as ParseDump>::spec_dump(v.recipient_channel));
        let a = chain(a, <String as ParseDump>::spec_dump(v.request_type));
        let a = chain(a, <bool as ParseDump>::spec_dump(v.want_reply));
        chain(a, <String as ParseDump>::spec_dump(v.command))
    }

    fn parse(bytes: &[u8]) -> (r: Result<(ExecRequest, usize), Error>) {
        expect_tag(bytes, MessageType::ChannelRequest)?;
        let b0 = tail(bytes, 1);
        let (recipient_channel, n0) = <u32 as ParseDump>::parse(b0)?;
        let b1 = tail(b0, n0);
        let (request_type, n1) = <String as ParseDump>::parse(b1)?;
        let b2 = tail(b1, n1);
        let (want_reply, n2) = <bool as ParseDump>::parse(b2)?;
        let b3 = tail(b2, n2);
        let (command, n3) = <String as ParseDump>::parse(b3)?;
        Ok(
            (
                ExecRequest {
                    recipient_channel,
                    request_type,
                    want_reply,
                    command,
                },
                1 + n0 + n1 + n2 + n3,
            ),
        )
    }

    fn dump(&self, sink: &mut Vec<u8>) -> (r: Result<(), Error>) {
        let ghost before = sink@;
        put_u8(sink, 98);
        let ghost done = seq![98u8];
        self.recipient_channel.dump(sink)?;
        proof {
            lemma_regroup(
                before,
                done,
                <u32 as ParseDump>::spec_dump(self.recipient_channel).unwrap(),
            );
        }
        let ghost done = done + <u32 as ParseDump>::spec_dump(self.recipient_channel).unwrap();
        self.request_type.dump(sink)?;
        proof {
            lemma_regroup(
                before,
                done,
                <String as ParseDump>::spec_dump(self.request_type@).unwrap(),
            );
        }
        let ghost done = done + <String as ParseDump>::spec_dump(self.request_type@).unwrap();
        self.want_reply.dump(sink)?;
        proof {
            lemma_regroup(before, done, <bool as ParseDump>::spec_dump(self.want_reply).unwrap());
        }
        let ghost done = done + <bool as ParseDump>::spec_dump(self.want_reply).unwrap();
        self.command.dump(sink)?;
        proof {
            lemma_regroup(before, done, <String as ParseDump>::spec_dump(self.command@).unwrap());
        }
        let ghost done = done + <String as ParseDump>::spec_dump(self.command@).unwrap();
        Ok(())
    }

    proof fn lemma_parse_dump(v: ExecRequestView, rest: Seq<u8>) {
        if let Ok(w) = Self::spec_dump(v) {
            let w0 = <u32 as ParseDump>::spec_dump(v.recipient_channel).unwrap();
            let w1 = <String as ParseDump>::spec_dump(v.request_type).unwrap();
            let w2 = <bool as ParseDump>::spec_dump(v.want_reply).unwrap();
            let w3 = <String as ParseDump>::spec_dump(v.command).unwrap();
            let b0 = (w + rest).skip(1);
            let b1 = b0.skip(w0.len() as int);
            let b2 = b1.skip(w1.len() as int);
            let b3 = b2.skip(w2.len() as int);
            let d0 = <u32 as ParseDump>::spec_dump(v.recipient_channel);
            let d1 = <String as ParseDump>::spec_dump(v.request_type);
            let d2 = <bool as ParseDump>::spec_dump(v.want_reply);
            let d3 = <String as ParseDump>::spec_dump(v.command);
            let c0 = Ok::<Seq<u8>, Error>(seq![98u8]);
            let c1 = chain(c0, d0);
            let c2 = chain(c1, d1);
            let c3 = chain(c2, d2);
            let c4 = chain(c3, d3);
            assert(c3 is Ok && d3 is Ok);
            assert(c2 is Ok && d2 is Ok);
            assert(c1 is Ok && d1 is Ok);
            assert(c0 is Ok && d0 is Ok);
            let q0 = c0.unwrap();
            let q1 = c1.unwrap();
            let q2 = c2.unwrap();
            let q3 = c3.unwrap();
            let q4 = c4.unwrap();
            let t4 = rest;
            let t3 = w3 + t4;
            let t2 = w2 + t3;
            let t1 = w1 + t2;
            let t0 = w0 + t1;
            lemma_regroup(q3, w3, t4);
            lemma_regroup(q2, w2, t3);
            lemma_regroup(q1, w1, t2);
            lemma_regroup(q0, w0, t1);
            lemma_skip_front(q0, t0);
            <u32 as ParseDump>::lemma_parse_dump(v.recipient_channel, t1);
            lemma_skip_front(w0, t1);
            <String as ParseDump>::lemma_parse_dump(v.request_type, t2);
            lemma_skip_front(w1, t2);
            <bool as ParseDump>::lemma_parse_dump(v.want_reply, t3);
            lemma_skip_front(w2, t3);
            <String as ParseDump>::lemma_parse_dump(v.command, t4);
        }
    }
}

/// The wire form of a request to set an environment variable.
#[derive(Clone, Debug, PartialEq, Eq)]
pub struct EnvRequest {
    pub recipient_channel: u32,
    pub request_type: String,
    pub want_reply: bool,
    pub name: String,
    pub value: String,
}

/// What a `EnvRequest` holds.
pub ghost struct EnvRequestView {
    pub recipient_channel: u32,
    pub request_type: Seq<char>,
    pub want_reply: bool,
    pub name: Seq<char>,
    pub value: Seq<char>,
}

impl View for EnvRequest {
    type V = EnvRequestView;

    open spec fn view(&self) -> EnvRequestView {
        EnvRequestView {
            recipient_channel: self.recipient_channel,
            request_type: self.request_type@,
            want_reply: self.want_reply,
            name: self.name@,
            value: self.value@,
        }
    }
}

impl ParseDump for EnvRequest {
    open spec fn spec_parse(bytes: Seq<u8>) -> Result<(EnvRequestView, nat), Error> {
        match spec_expect_tag(bytes, MessageType::ChannelRequest) {
            Err(e) => Err(e),
            Ok(_) => {
                let b0 = bytes.skip(1);
                match <u32 as ParseDump>::spec_parse(b0) {
                    Err(e) => Err(e),
                    Ok((recipient_channel, n0)) => {
                        let b1 = b0.skip(n0 as int);
                        match <String as ParseDump>::spec_parse(b1) {
                            Err(e) => Err(e),
                            Ok((request_type, n1)) => {
                                let b2 = b1.skip(n1 as int);
                                match <bool as ParseDump>::spec_parse(b2) {
                                    Err(e) => Err(e),
                                    Ok((want_reply, n2)) => {
                                        let b3 = b2.skip(n2 as int);
                                        match <String as ParseDump>::spec_parse(b3) {
                                            Err(e) => Err(e),
                                            Ok((name, n3)) => {
                                                let b4 = b3.skip(n3 as int);
                                                match <String as ParseDump>::spec_parse(b4) {
                                                    Err(e) => Err(e),
                                                    Ok((value, n4)) => {
                                                        Ok(
                                                            (
                                                                EnvRequestView {
                                                                    recipient_channel,
                                                                    request_type,
                                                                    want_reply,
                                                                    name,
                                                                    value,
                                                                },
                                                                (1 + n0 + n1 + n2 + n3 + n4) as nat,
                                                            ),
                                                        )
                                                    },
                                                }
                                            },
                                        }
                                    },
                                }
                            },
                        }
                    },
                }
            },
        }
    }

    open spec fn spec_dump(v: EnvRequestView) -> Result<Seq<u8>, Error> {
        let a = Ok(seq![98u8]);
        let a = chain(a, <u32 as ParseDump>::spec_dump(v.recipient_channel));
        let a = chain(a, <String as ParseDump>::spec_dump(v.request_type));
        let a = chain(a, <bool as ParseDump>::spec_dump(v.want_reply));
        let a = chain(a, <String as ParseDump>::spec_dump(v.name));
        chain(a, <String as ParseDump>::spec_dump(v.value))
    }

    fn parse(bytes: &[u8]) -> (r: Result<(EnvRequest, usize), Error>) {
        expect_tag(bytes, MessageType::ChannelRequest)?;
        let b0 = tail(bytes, 1);
        let (recipient_channel, n0) = <u32 as ParseDump>::parse(b0)?;
        let b1 = tail(b0, n0);
        let (request_type, n1) = <String as ParseDump>::parse(b1)?;
        let b2 = tail(b1, n1);
        let (want_reply, n2) = <bool as ParseDump>::parse(b2)?;
        let b3 = tail(b2, n2);
        let (name, n3) = <String as ParseDump>::parse(b3)?;
        let b4 = tail(b3, n3);
        let (value, n4) = <String as ParseDump>::parse(b4)?;
        Ok(
            (
                EnvRequest {
                    recipient_channel,
                    request_type,
                    want_reply,
                    name,
                    value,
                },
                1 + n0 + n1 + n2 + n3 + n4,
            ),
        )
    }

    fn dump(&self, sink: &mut Vec<u8>) -> (r: Result<(), Error>) {
        let ghost before = sink@;
        put_u8(sink, 98);
        let ghost done = seq![98u8];
        self.recipient_channel.dump(sink)?;
        proof {
            lemma_regroup(
                before,
                done,
                <u32 as ParseDump>::spec_dump(self.recipient_channel).unwrap(),
            );
        }
        let ghost done = done + <u32 as ParseDump>::spec_dump(self.recipient_channel).unwrap();
        self.request_type.dump(sink)?;
        proof {
            lemma_regroup(
                before,
                done,
                <String as ParseDump>::spec_dump(self.request_type@).unwrap(),
            );
        }
        let ghost done = done + <String as ParseDump>::spec_dump(self.request_type@).unwrap();
        self.want_reply.dump(sink)?;
        proof {
            lemma_regroup(before, done, <bool as ParseDump>::spec_dump(self.want_reply).unwrap());
        }
        let ghost done = done + <bool as ParseDump>::spec_dump(self.want_reply).unwrap();
        self.name.dump(sink)?;
        proof {
            lemma_regroup(before, done, <String as ParseDump>::spec_dump(self.name@).unwrap());
        }
        let ghost done = done + <String as ParseDump>::spec_dump(self.name@).unwrap();
        self.value.dump(sink)?;
        proof {
            lemma_regroup(before, done, <String as ParseDump>::spec_dump(self.value@).unwrap());
        }
        let ghost done = done + <String as ParseDump>::spec_dump(self.value@).unwrap();
        Ok(())
    }

    proof fn lemma_parse_dump(v: EnvRequestView, rest: Seq<u8>) {
        if let Ok(w) = Self::spec_dump(v) {
            let w0 = <u32 as ParseDump>::spec_dump(v.recipient_channel).unwrap();
            let w1 = <String as ParseDump>::spec_dump(v.request_type).unwrap();
            let w2 = <bool as ParseDump>::spec_dump(v.want_reply).unwrap();
            let w3 = <String as ParseDump>::spec_dump(v.name).unwrap();
            let w4 = <String as ParseDump>::spec_dump(v.value).unwrap();
            let b0 = (w + rest).skip(1);
            let b1 = b0.skip(w0.len() as int);
            let b2 = b1.skip(w1.len() as int);
            let b3 = b2.skip(w2.len() as int);
            let b4 = b3.skip(w3.len() as int);
            let d0 = <u32 as ParseDump>::spec_dump(v.recipient_channel);
            let d1 = <String as ParseDump>::spec_dump(v.request_type);
            let d2 = <bool as ParseDump>::spec_dump(v.want_reply);
            let d3 = <String as ParseDump>::spec_dump(v.name);
            let d4 = <String as ParseDump>::spec_dump(v.value);
            let c0 = Ok::<Seq<u8>, Error>(seq![98u8]);
            let c1 = chain(c0, d0);
            let c2 = chain(c1, d1);
            let c3 = chain(c2, d2);
            let c4 = chain(c3, d3);
            let c5 = chain(c4, d4);
            assert(c4 is Ok && d4 is Ok);
            assert(c3 is Ok && d3 is Ok);
            assert(c2 is Ok && d2 is Ok);
            assert(c1 is Ok && d1 is Ok);
            assert(c0 is Ok && d0 is Ok);
            let q0 = c0.unwrap();
            let q1 = c1.unwrap();
            let q2 = c2.unwrap();
            let q3 = c3.unwrap();
            let q4 = c4.unwrap();
            let q5 = c5.unwrap();
            let t5 = rest;
            let t4 = w4 + t5;
            let t3 = w3 + t4;
            let t2 = w2 + t3;
            let t1 = w1 + t2;
            let t0 = w0 + t1;
            lemma_regroup(q4, w4, t5);
            lemma_regroup(q3, w3, t4);
            lemma_regroup(q2, w2, t3);
            lemma_regroup(q1, w1, t2);
            lemma_regroup(q0, w0, t1);
            lemma_skip_front(q0, t0);
            <u32 as ParseDump>::lemma_parse_dump(v.recipient_channel, t1);
            lemma_skip_front(w0, t1);
            <String as ParseDump>::lemma_parse_dump(v.request_type, t2);
            lemma_skip_front(w1, t2);
            <bool as ParseDump>::lemma_parse_dump(v.want_reply, t3);
            lemma_skip_front(w2, t3);
            <String as ParseDump>::lemma_parse_dump(v.name, t4);
            lemma_skip_front(w3, t4);
            <String as ParseDump>::lemma_parse_dump(v.value, t5);
        }
    }
}

/// The wire form of the report of an exit status.
#[derive(Clone, Debug, PartialEq, Eq)]
pub struct ExitStatusRequest {
    pub recipient_channel: u32,
    pub request_type: String,
    pub want_reply: bool,
    pub exit_status: u32,
}

/// What a `ExitStatusRequest` holds.
pub ghost struct ExitStatusRequestView {
    pub recipient_channel: u32,
    pub request_type: Seq<char>,
    pub want_reply: bool,
    pub exit_status: u32,
}

impl View for ExitStatusRequest {
    type V = ExitStatusRequestView;

    open spec fn view(&self) -> ExitStatusRequestView {
        ExitStatusRequestView {
            recipient_channel: self.recipient_channel,
            request_type: self.request_type@,
            want_reply: self.want_reply,
            exit_status: self.exit_status,
        }
    }
}

impl ParseDump for ExitStatusRequest {
    open spec fn spec_parse(bytes: Seq<u8>) -> Result<(ExitStatusRequestView, nat), Error> {
        match spec_expect_tag(bytes, MessageType::ChannelRequest) {
            Err(e) => Err(e),
            Ok(_) => {
                let b0 = bytes.skip(1);
                match <u32 as ParseDump>::spec_parse(b0) {
                    Err(e) => Err(e),
                    Ok((recipient_channel, n0)) => {
                        let b1 = b0.skip(n0 as int);
                        match <String as ParseDump>::spec_parse(b1) {
                            Err(e) => Err(e),
                            Ok((request_type, n1)) => {
                                let b2 = b1.skip(n1 as int);
                                match <bool as ParseDump>::spec_parse(b2) {
                                    Err(e) => Err(e),
                                    Ok((want_reply, n2)) => {
                                        let b3 = b2.skip(n2 as int);
                                        match <u32 as ParseDump>::spec_parse(b3) {
                                            Err(e) => Err(e),
                                            Ok((exit_status, n3)) => {
                                                Ok(
                                                    (
                                                        ExitStatusRequestView {
                                                            recipient_channel,
                                                            request_type,
                                                            want_reply,
                                                            exit_status,
                                                        },
                                                        (1 + n0 + n1 + n2 + n3) as nat,
                                                    ),
                                                )
                                            },
                                        }
                                    },
                                }
                            },
                        }
                    },
                }
            },
        }
    }

    open spec fn spec_dump(v: ExitStatusRequestView) -> Result<Seq<u8>, Error> {
        let a = Ok(seq![98u8]);
        let a = chain(a, <u32 as ParseDump>::spec_dump(v.recipient_channel));
        let a = chain(a, <String as ParseDump>::spec_dump(v.request_type));
        let a = chain(a, <bool as ParseDump>::spec_dump(v.want_reply));
        chain(a, <u32 as ParseDump>::spec_dump(v.exit_status))
    }

    fn parse(bytes: &[u8]) -> (r: Result<(ExitStatusRequest, usize), Error>) {
        expect_tag(bytes, MessageType::ChannelRequest)?;
        let b0 = tail(bytes, 1);
        let (recipient_channel, n0) = <u32 as ParseDump>::parse(b0)?;
        let b1 = tail(b0, n0);
        let (request_type, n1) = <String as ParseDump>::parse(b1)?;
        let b2 = tail(b1, n1);
        let (want_reply, n2) = <bool as ParseDump>::parse(b2)?;
        let b3 = tail(b2, n2);
        let (exit_status, n3) = <u32 as ParseDump>::parse(b3)?;
        Ok(
            (
                ExitStatusRequest {
                    recipient_channel,
                    request_type,
                    want_reply,
                    exit_status,
                },
                1 + n0 + n1 + n2 + n3,
            ),
        )
    }

    fn dump(&self, sink: &mut Vec<u8>) -> (r: Result<(), Error>) {
        let ghost before = sink@;
        put_u8(sink, 98);
        let ghost done = seq![98u8];
        self.recipient_channel.dump(sink)?;
        proof {
            lemma_regroup(
                before,
                done,
                <u32 as ParseDump>::spec_dump(self.recipient_channel).unwrap(),
            );
        }
        let ghost done = done + <u32 as ParseDump>::spec_dump(self.recipient_channel).unwrap();
        self.request_type.dump(sink)?;
        proof {
            lemma_regroup(
                before,
                done,
                <String as ParseDump>::spec_dump(self.request_type@).unwrap(),
            );
        }
        let ghost done = done + <String as ParseDump>::spec_dump(self.request_type@).unwrap();
        self.want_reply.dump(sink)?;
        proof {
            lemma_regroup(before, done, <bool as ParseDump>::spec_dump(self.want_reply).unwrap());
        }
        let ghost done = done + <bool as ParseDump>::spec_dump(self.want_reply).unwrap();
        self.exit_status.dump(sink)?;
        proof {
            lemma_regroup(before, done, <u32 as ParseDump>::spec_dump(self.exit_status).unwrap());
        }
        let ghost done = done + <u32 as ParseDump>::spec_dump(self.exit_status).unwrap();
        Ok(())
    }

    proof fn lemma_parse_dump(v: ExitStatusRequestView, rest: Seq<u8>) {
        if let Ok(w) = Self::spec_dump(v) {
            let w0 = <u32 as ParseDump>::spec_dump(v.recipient_channel).unwrap();
            let w1 = <String as ParseDump>::spec_dump(v.request_type).unwrap();
            let w2 = <bool as ParseDump>::spec_dump(v.want_reply).unwrap();
            let w3 = <u32 as ParseDump>::spec_dump(v.exit_status).unwrap();
            let b0 = (w + rest).skip(1);
            let b1 = b0.skip(w0.len() as int);
            let b2 = b1.skip(w1.len() as int);
            let b3 = b2.skip(w2.len() as int);
            let d0 = <u32 as ParseDump>::spec_dump(v.recipient_channel);
            let d1 = <String as ParseDump>::spec_dump(v.request_type);
            let d2 = <bool as ParseDump>::spec_dump(v.want_reply);
            let d3 = <u32 as ParseDump>::spec_dump(v.exit_status);
            let c0 = Ok::<Seq<u8>, Error>(seq![98u8]);
            let c1 = chain(c0, d0);
            let c2 = chain(c1, d1);
            let c3 = chain(c2, d2);
            let c4 = chain(c3, d3);
            assert(c3 is Ok && d3 is Ok);
            assert(c2 is Ok && d2 is Ok);
            assert(c1 is Ok && d1 is Ok);
            assert(c0 is Ok && d0 is Ok);
            let q0 = c0.unwrap();
            let q1 = c1.unwrap();
            let q2 = c2.unwrap();
            let q3 = c3.unwrap();
            let q4 = c4.unwrap();
            let t4 = rest;
            let t3 = w3 + t4;
            let t2 = w2 + t3;
            let t1 = w1 + t2;
            let t0 = w0 + t1;
            lemma_regroup(q3, w3, t4);
            lemma_regroup(q2, w2, t3);
            lemma_regroup(q1, w1, t2);
            lemma_regroup(q0, w0, t1);
            lemma_skip_front(q0, t0);
            <u32 as ParseDump>::lemma_parse_dump(v.recipient_channel, t1);
            lemma_skip_front(w0, t1);
            <String as ParseDump>::lemma_parse_dump(v.request_type, t2);
            lemma_skip_front(w1, t2);
            <bool as ParseDump>::lemma_parse_dump(v.want_reply, t3);
            lemma_skip_front(w2, t3);
            <u32 as ParseDump>::lemma_parse_dump(v.exit_status, t4);
        }
    }
}

/// A request on a channel.
#[derive(Clone, Debug, PartialEq, Eq)]
pub enum ChannelRequest {
    /// Run a command.
    Exec { recipient_channel: u32, want_reply: bool, command: String },
    /// Set an environment variable for the command to come.
    EnvironmentVariable { recipient_channel: u32, want_reply: bool, name: String, value: String },
    /// The command has ended with this status.  Never asks for a reply.
    ExitStatus { recipient_channel: u32, exit_status: u32 },
    /// A request of any other name.
    Other { recipient_channel: u32, request_type: String, want_reply: bool },
}

/// What a `ChannelRequest` holds.
pub ghost enum ChannelRequestView {
    Exec { recipient_channel: u32, want_reply: bool, command: Seq<char> },
    EnvironmentVariable { recipient_channel: u32, want_reply: bool, name: Seq<char>, value: Seq<char> },
    ExitStatus { recipient_channel: u32, exit_status: u32 },
    Other { recipient_channel: u32, request_type: Seq<char>, want_reply: bool },
}

impl View for ChannelRequest {
    type V = ChannelRequestView;

    open spec fn view(&self) -> ChannelRequestView {
        match self {
            ChannelRequest::Exec { recipient_channel, want_reply, command } => ChannelRequestView::Exec {
                recipient_channel: *recipient_channel,
                want_reply: *want_reply,
                command: command@,
            },
            ChannelRequest::EnvironmentVariable {
                recipient_channel,
                want_reply,
                name,
                value,
            } => ChannelRequestView::EnvironmentVariable {
                recipient_channel: *recipient_channel,
                want_reply: *want_reply,
                name: name@,
                value: value@,
            },
            ChannelRequest::ExitStatus { recipient_channel, exit_status } => ChannelRequestView::ExitStatus {
                recipient_channel: *recipient_channel,
                exit_status: *exit_status,
            },
            ChannelRequest::Other { recipient_channel, request_type, want_reply } => ChannelRequestView::Other {
                recipient_channel: *recipient_channel,
                request_type: request_type@,
                want_reply: *want_reply,
            },
        }
    }
}

/// The three request names are different texts.
pub proof fn lemma_request_names()
    ensures
        "exec"@ != "env"@,
        "exec"@ != "exit-status"@,
        "env"@ != "exit-status"@,
{
    reveal_strlit("exec");
    reveal_strlit("env");
    reveal_strlit("exit-status");
    assert("exec"@.len() == 4);
    assert("env"@.len() == 3);
    assert("exit-status"@.len() == 11);
}

impl ParseDump for ChannelRequest {
    open spec fn spec_parse(bytes: Seq<u8>) -> Result<(ChannelRequestView, nat), Error> {
        match RequestPrefix::spec_parse(bytes) {
            Err(e) => Err(e),
            Ok((prefix, n)) => {
                if prefix.request_type == "exec"@ {
                    match ExecRequest::spec_parse(bytes) {
                        Err(e) => Err(e),
                        Ok((x, m)) => Ok(
                            (
                                ChannelRequestView::Exec {
                                    recipient_channel: x.recipient_channel,
                                    want_reply: x.want_reply,
                                    command: x.command,
                                },
                                m,
                            ),
                        ),
                    }
                } else if prefix.request_type == "env"@ {
                    match EnvRequest::spec_parse(bytes) {
                        Err(e) => Err(e),
                        Ok((x, m)) => Ok(
                            (
                                ChannelRequestView::EnvironmentVariable {
                                    recipient_channel: x.recipient_channel,
                                    want_reply: x.want_reply,
                                    name: x.name,
                                    value: x.value,
                                },
                                m,
                            ),
                        ),
                    }
                } else if prefix.request_type == "exit-status"@ {
                    if prefix.want_reply {
                        Err(Error::InvalidData)
                    } else {
                        match ExitStatusRequest::spec_parse(bytes) {
                            Err(e) => Err(e),
                            Ok((x, m)) => Ok(
                                (
                                    ChannelRequestView::ExitStatus {
                                        recipient_channel: x.recipient_channel,
                                        exit_status: x.exit_status,
                                    },
                                    m,
                                ),
                            ),
                        }
                    }
                } else {
                    Ok(
                        (
                            ChannelRequestView::Other {
                                recipient_channel: prefix.recipient_channel,
                                request_type: prefix.request_type,
                                want_reply: prefix.want_reply,
                            },
                            n,
                        ),
                    )
                }
            },
        }
    }

    open spec fn spec_dump(v: ChannelRequestView) -> Result<Seq<u8>, Error> {
        match v {
            ChannelRequestView::Exec { recipient_channel, want_reply, command } => ExecRequest::spec_dump(
                ExecRequestView { recipient_channel, request_type: "exec"@, want_reply, command },
            ),
            ChannelRequestView::EnvironmentVariable {
                recipient_channel,
                want_reply,
                name,
                value,
            } => EnvRequest::spec_dump(
                EnvRequestView { recipient_channel, request_type: "env"@, want_reply, name, value },
            ),
            ChannelRequestView::ExitStatus { recipient_channel, exit_status } => ExitStatusRequest::spec_dump(
                ExitStatusRequestView {
                    recipient_channel,
                    request_type: "exit-status"@,
                    want_reply: false,
                    exit_status,
                },
            ),
            ChannelRequestView::Other { .. } => Err(Error::InvalidData),
        }
    }

    fn parse(bytes: &[u8]) -> (r: Result<(ChannelRequest, usize), Error>) {
        let (prefix, n) = RequestPrefix::parse(bytes)?;
        if text_is(&prefix.request_type, "exec") {
            let (x, m) = ExecRequest::parse(bytes)?;
            Ok(
                (
                    ChannelRequest::Exec {
                        recipient_channel: x.recipient_channel,
                        want_reply: x.want_reply,
                        command: x.command,
                    },
                    m,
                ),
            )
        } else if text_is(&prefix.request_type, "env") {
            let (x, m) = EnvRequest::parse(bytes)?;
            Ok(
                (
                    ChannelRequest::EnvironmentVariable {
                        recipient_channel: x.recipient_channel,
                        want_reply: x.want_reply,
                        name: x.name,
                        value: x.value,
                    },
                    m,
                ),
            )
        } else if text_is(&prefix.request_type, "exit-status") {
            if prefix.want_reply {
                return Err(Error::InvalidData);
            }
            let (x, m) = ExitStatusRequest::parse(bytes)?;
            Ok(
                (
                    ChannelRequest::ExitStatus {
                        recipient_channel: x.recipient_channel,
                        exit_status: x.exit_status,
                    },
                    m,
                ),
            )
        } else {
            Ok(
                (
                    ChannelRequest::Other {
                        recipient_channel: prefix.recipient_channel,
                        request_type: prefix.request_type,
                        want_reply: prefix.want_reply,
                    },
                    n,
                ),
            )
        }
    }

    fn dump(&self, sink: &mut Vec<u8>) -> (r: Result<(), Error>) {
        match self {
            ChannelRequest::Exec { recipient_channel, want_reply, command } => {
                put_u8(sink, 98);
                recipient_channel.dump(sink)?;
                dump_str("exec", sink)?;
                want_reply.dump(sink)?;
                command.dump(sink)?;
                Ok(())
            },
            ChannelRequest::EnvironmentVariable { recipient_channel, want_reply, name, value } => {
                put_u8(sink, 98);
                recipient_channel.dump(sink)?;
                dump_str("env", sink)?;
                want_reply.dump(sink)?;
                name.dump(sink)?;
                value.dump(sink)?;
                Ok(())
            },
            ChannelRequest::ExitStatus { recipient_channel, exit_status } => {
                put_u8(sink, 98);
                recipient_channel.dump(sink)?;
                dump_str("exit-status", sink)?;
                false.dump(sink)?;
                exit_status.dump(sink)?;
                Ok(())
            },
            ChannelRequest::Other { .. } => Err(Error::InvalidData),
        }
    }

    proof fn lemma_parse_dump(v: ChannelRequestView, rest: Seq<u8>) {
        lemma_request_names();
        match v {
            ChannelRequestView::Exec { recipient_channel, want_reply, command } => {
                let x = ExecRequestView { recipient_channel, request_type: "exec"@, want_reply, command };
                ExecRequest::lemma_parse_dump(x, rest);
            },
            ChannelRequestView::EnvironmentVariable { recipient_channel, want_reply, name, value } => {
                let x = EnvRequestView { recipient_channel, request_type: "env"@, want_reply, name, value };
                EnvRequest::lemma_parse_dump(x, rest);
            },
            ChannelRequestView::ExitStatus { recipient_channel, exit_status } => {
                let x = ExitStatusRequestView {
                    recipient_channel,
                    request_type: "exit-status"@,
                    want_reply: false,
                    exit_status,
                };
                ExitStatusRequest::lemma_parse_dump(x, rest);
            },
            ChannelRequestView::Other { .. } => {},
        }
    }
}

} // verus!
