//! Authentication requests.
//!
//! A request begins with the user name, the service to start after
//! authentication, the name of the method and one flag.  For `publickey` an
//! algorithm and a public key follow, and a signature where the flag is set.
//! For `password` the password follows, and a new password where the flag is
//! set.  Any other method is not implemented.

use crate::crypto::{ed25519_sign, spec_ed25519_sign};
use crate::error::Error;
use crate::messages::{expect_tag, spec_expect_tag, Blob, BlobView, MessageType};
use crate::parsedump::{
    chain, dump_bytes, dump_str, lemma_regroup, lemma_skip_front, put_u8, spec_dump_bool, spec_dump_bytes,
    spec_dump_str, tail, text_is, ParseDump,
};
use vstd::prelude::*;

verus! {

/// What every authentication request begins with.
#[derive(Clone, Debug, PartialEq, Eq)]
pub struct AuthPrefix {
    pub username: String,
    pub service_name: String,
    pub method_name: String,
    pub has_option: bool,
}

/// What a `AuthPrefix` holds.
pub ghost struct AuthPrefixView {
    pub username: Seq<char>,
    pub service_name: Seq<char>,
    pub method_name: Seq<char>,
    pub has_option: bool,
}

impl View for AuthPrefix {
    type V = AuthPrefixView;

    open spec fn view(&self) -> AuthPrefixView {
        AuthPrefixView {
            username: self.username@,
            service_name: self.service_name@,
            method_name: self.method_name@,
            has_option: self.has_option,
        }
    }
}

impl ParseDump for AuthPrefix {
    open spec fn spec_parse(bytes: Seq<u8>) -> Result<(AuthPrefixView, nat), Error> {
        match spec_expect_tag(bytes, MessageType::UserauthRequest) {
            Err(e) => Err(e),
            Ok(_) => {
                let b0 = bytes.skip(1);
                match <String as ParseDump>::spec_parse(b0) {
                    Err(e) => Err(e),
                    Ok((username, n0)) => {
                        let b1 = b0.skip(n0 as int);
                        match <String as ParseDump>::spec_parse(b1) {
                            Err(e) => Err(e),
                            Ok((service_name, n1)) => {
                                let b2 = b1.skip(n1 as int);
                                match <String as ParseDump>::spec_parse(b2) {
                                    Err(e) => Err(e),
                                    Ok((method_name, n2)) => {
                                        let b3 = b2.skip(n2 as int);
                                        match <bool as ParseDump>::spec_parse(b3) {
                                            Err(e) => Err(e),
                                            Ok((has_option, n3)) => {
                                                Ok(
                                                    (
                                                        AuthPrefixView {
                                                            username,
                                                            service_name,
                                                            method_name,
                                                            has_option,
                                                        },
                                                        (1 + n0 + n1 + n2 + n3) as nat,
                                                    ),
                                                )
                                            },
                                        }
                                    },
                                }
                            },
                        }
                    },
                }
            },
        }
    }

    open spec fn spec_dump(v: AuthPrefixView) -> Result<Seq<u8>, Error> {
        let a = Ok(seq![50u8]);
        let a = chain(a, <String as ParseDump>::spec_dump(v.username));
        let a = chain(a, <String as ParseDump>::spec_dump(v.service_name));
        let a = chain(a, <String as ParseDump>::spec_dump(v.method_name));
        chain(a, <bool as ParseDump>::spec_dump(v.has_option))
    }

    fn parse(bytes: &[u8]) -> (r: Result<(AuthPrefix, usize), Error>) {
        expect_tag(bytes, MessageType::UserauthRequest)?;
        let b0 = tail(bytes, 1);
        let (username, n0) = <String as ParseDump>::parse(b0)?;
        let b1 = tail(b0, n0);
        let (service_name, n1) = <String as ParseDump>::parse(b1)?;
        let b2 = tail(b1, n1);
        let (method_name, n2) = <String as ParseDump>::parse(b2)?;
        let b3 = tail(b2, n2);
        let (has_option, n3) = <bool as ParseDump>::parse(b3)?;
        Ok((AuthPrefix { username, service_name, method_name, has_option }, 1 + n0 + n1 + n2 + n3))
    }

    fn dump(&self, sink: &mut Vec<u8>) -> (r: Result<(), Error>) {
        let ghost before = sink@;
        put_u8(sink, 50);
        let ghost done = seq![50u8];
        self.username.dump(sink)?;
        proof {
            lemma_regroup(before, done, <String as ParseDump>::spec_dump(self.username@).unwrap());
        }
        let ghost done = done + <String as ParseDump>::spec_dump(self.username@).unwrap();
        self.service_name.dump(sink)?;
        proof {
            lemma_regroup(
                before,
                done,
                <String as ParseDump>::spec_dump(self.service_name@).unwrap(),
            );
        }
        let ghost done = done + <String as ParseDump>::spec_dump(self.service_name@).unwrap();
        self.method_name.dump(sink)?;
        proof {
            lemma_regroup(
                before,
                done,
                <String as ParseDump>::spec_dump(self.method_name@).unwrap(),
            );
        }
        let ghost done = done + <String as ParseDump>::spec_dump(self.method_name@).unwrap();
        self.has_option.dump(sink)?;
        proof {
            lemma_regroup(before, done, <bool as ParseDump>::spec_dump(self.has_option).unwrap());
        }
        let ghost done = done + <bool as ParseDump>::spec_dump(self.has_option).unwrap();
        Ok(())
    }

    proof fn lemma_parse_dump(v: AuthPrefixView, rest: Seq<u8>) {
        if let Ok(w) = Self::spec_dump(v) {
            let w0 = <String as ParseDump>::spec_dump(v.username).unwrap();
            let w1 = <String as ParseDump>::spec_dump(v.service_name).unwrap();
            let w2 = <String as ParseDump>::spec_dump(v.method_name).unwrap();
            let w3 = <bool as ParseDump>::spec_dump(v.has_option).unwrap();
            let b0 = (w + rest).skip(1);
            let b1 = b0.skip(w0.len() as int);
            let b2 = b1.skip(w1.len() as int);
            let b3 = b2.skip(w2.len() as int);
            let d0 = <String as ParseDump>::spec_dump(v.username);
            let d1 = <String as ParseDump>::spec_dump(v.service_name);
            let d2 = <String as ParseDump>::spec_dump(v.method_name);
            let d3 = <bool as ParseDump>::spec_dump(v.has_option);
            let c0 = Ok::<Seq<u8>, Error>(seq![50u8]);
            let c1 = chain(c0, d0);
            let c2 = chain(c1, d1);
            let c3 = chain(c2, d2);
            let c4 = chain(c3, d3);
            assert(c3 is Ok && d3 is Ok);
            assert(c2 is Ok && d2 is Ok);
            assert(c1 is Ok && d1 is Ok);
            assert(c0 is Ok && d0 is Ok);
            let q0 = c0.unwrap();
            let q1 = c1.unwrap();
            let q2 = c2.unwrap();
            let q3 = c3.unwrap();
            let q4 = c4.unwrap();
            let t4 = rest;
            let t3 = w3 + t4;
            let t2 = w2 + t3;
            let t1 = w1 + t2;
            let t0 = w0 + t1;
            lemma_regroup(q3, w3, t4);
            lemma_regroup(q2, w2, t3);
            lemma_regroup(q1, w1, t2);
            lemma_regroup(q0, w0, t1);
            lemma_skip_front(q0, t0);
            <String as ParseDump>::lemma_parse_dump(v.username, t1);
            lemma_skip_front(w0, t1);
            <String as ParseDump>::lemma_parse_dump(v.service_name, t2);
            lemma_skip_front(w1, t2);
            <String as ParseDump>::lemma_parse_dump(v.method_name, t3);
            lemma_skip_front(w2, t3);
            <bool as ParseDump>::lemma_parse_dump(v.has_option, t4);
        }
    }
}

/// The wire form of the question whether a public key would be accepted.
#[derive(Clone, Debug, PartialEq, Eq)]
pub struct PublicKeyQuery {
    pub username: String,
    pub service_name: String,
    pub method_name: String,
    pub has_option: bool,
    pub algorithm: String,
    pub blob: Blob,
}

/// What a `PublicKeyQuery` holds.
pub ghost struct PublicKeyQueryView {
    pub username: Seq<char>,
    pub service_name: Seq<char>,
    pub method_name: Seq<char>,
    pub has_option: bool,
    pub algorithm: Seq<char>,
    pub blob: BlobView,
}

impl View for PublicKeyQuery {
    type V = PublicKeyQueryView;

    open spec fn view(&self) -> PublicKeyQueryView {
        PublicKeyQueryView {
            username: self.username@,
            service_name: self.service_name@,
            method_name: self.method_name@,
            has_option: self.has_option,
            algorithm: self.algorithm@,
            blob: self.blob@,
        }
    }
}

impl ParseDump for PublicKeyQuery {
    open spec fn spec_parse(bytes: Seq<u8>) -> Result<(PublicKeyQueryView, nat), Error> {
        match spec_expect_tag(bytes, MessageType::UserauthRequest) {
            Err(e) => Err(e),
            Ok(_) => {
                let b0 = bytes.skip(1);
                match <String as ParseDump>::spec_parse(b0) {
                    Err(e) => Err(e),
                    Ok((username, n0)) => {
                        let b1 = b0.skip(n0 as int);
                        match <String as ParseDump>::spec_parse(b1) {
                            Err(e) => Err(e),
                            Ok((service_name, n1)) => {
                                let b2 = b1.skip(n1 as int);
                                match <String as ParseDump>::spec_parse(b2) {
                                    Err(e) => Err(e),
                                    Ok((method_name, n2)) => {
                                        let b3 = b2.skip(n2 as int);
                                        match <bool as ParseDump>::spec_parse(b3) {
                                            Err(e) => Err(e),
                                            Ok((has_option, n3)) => {
                                                let b4 = b3.skip(n3 as int);
                                                match <String as ParseDump>::spec_parse(b4) {
                                                    Err(e) => Err(e),
                                                    Ok((algorithm, n4)) => {
                                                        let b5 = b4.skip(n4 as int);
                                                        match <Blob as ParseDump>::spec_parse(b5) {
                                                            Err(e) => Err(e),
                                                            Ok((blob, n5)) => {
                                                                Ok(
                                                                    (
                                                                        PublicKeyQueryView {
                                                                            username,
                                                                            service_name,
                                                                            method_name,
                                                                            has_option,
                                                                            algorithm,
                                                                            blob,
                                                                        },
                                                                        (1 + n0 + n1 + n2 + n3 + n4 + n5) as nat,
                                                                    ),
                                                                )
                                                            },
                                                        }
                                                    },
                                                }
                                            },
                                        }
                                    },
                                }
                            },
                        }
                    },
                }
            },
        }
    }

    open spec fn spec_dump(v: PublicKeyQueryView) -> Result<Seq<u8>, Error> {
        let a = Ok(seq![50u8]);
        let a = chain(a, <String as ParseDump>::spec_dump(v.username));
        let a = chain(a, <String as ParseDump>::spec_dump(v.service_name));
        let a = chain(a, <String as ParseDump>::spec_dump(v.method_name));
        let a = chain(a, <bool as ParseDump>::spec_dump(v.has_option));
        let a = chain(a, <String as ParseDump>::spec_dump(v.algorithm));
        chain(a, <Blob as ParseDump>::spec_dump(v.blob))
    }

    fn parse(bytes: &[u8]) -> (r: Result<(PublicKeyQuery, usize), Error>) {
        expect_tag(bytes, MessageType::UserauthRequest)?;
        let b0 = tail(bytes, 1);
        let (username, n0) = <String as ParseDump>::parse(b0)?;
        let b1 = tail(b0, n0);
        let (service_name, n1) = <String as ParseDump>::parse(b1)?;
        let b2 = tail(b1, n1);
        let (method_name, n2) = <String as ParseDump>::parse(b2)?;
        let b3 = tail(b2, n2);
        let (has_option, n3) = <bool as ParseDump>::parse(b3)?;
        let b4 = tail(b3, n3);
        let (algorithm, n4) = <String as ParseDump>::parse(b4)?;
        let b5 = tail(b4, n4);
        let (blob, n5) = <Blob as ParseDump>::parse(b5)?;
        Ok(
            (
                PublicKeyQuery {
                    username,
                    service_name,
                    method_name,
                    has_option,
                    algorithm,
                    blob,
                },
                1 + n0 + n1 + n2 + n3 + n4 + n5,
            ),
        )
    }

    fn dump(&self, sink: &mut Vec<u8>) -> (r: Result<(), Error>) {
        let ghost before = sink@;
        put_u8(sink, 50);
        let ghost done = seq![50u8];
        self.username.dump(sink)?;
        proof {
            lemma_regroup(before, done, <String as ParseDump>::spec_dump(self.username@).unwrap());
        }
        let ghost done = done + <String as ParseDump>::spec_dump(self.username@).unwrap();
        self.service_name.dump(sink)?;
        proof {
            lemma_regroup(
                before,
                done,
                <String as ParseDump>::spec_dump(self.service_name@).unwrap(),
            );
        }
        let ghost done = done + <String as ParseDump>::spec_dump(self.service_name@).unwrap();
        self.method_name.dump(sink)?;
        proof {
            lemma_regroup(
                before,
                done,
                <String as ParseDump>::spec_dump(self.method_name@).unwrap(),
            );
        }
        let ghost done = done + <String as ParseDump>::spec_dump(self.method_name@).unwrap();
        self.has_option.dump(sink)?;
        proof {
            lemma_regroup(before, done, <bool as ParseDump>::spec_dump(self.has_option).unwrap());
        }
        let ghost done = done + <bool as ParseDump>::spec_dump(self.has_option).unwrap();
        self.algorithm.dump(sink)?;
        proof {
            lemma_regroup(before, done, <String as ParseDump>::spec_dump(self.algorithm@).unwrap());
        }
        let ghost done = done + <String as ParseDump>::spec_dump(self.algorithm@).unwrap();
        self.blob.dump(sink)?;
        proof {
            lemma_regroup(before, done, <Blob as ParseDump>::spec_dump(self.blob@).unwrap());
        }
        let ghost done = done + <Blob as ParseDump>::spec_dump(self.blob@).unwrap();
        Ok(())
    }

    proof fn lemma_parse_dump(v: PublicKeyQueryView, rest: Seq<u8>) {
        if let Ok(w) = Self::spec_dump(v) {
            let w0 = <String as ParseDump>::spec_dump(v.username).unwrap();
            let w1 = <String as ParseDump>::spec_dump(v.service_name).unwrap();
            let w2 = <String as ParseDump>::spec_dump(v.method_name).unwrap();
            let w3 = <bool as ParseDump>::spec_dump(v.has_option).unwrap();
            let w4 = <String as ParseDump>::spec_dump(v.algorithm).unwrap();
            let w5 = <Blob as ParseDump>::spec_dump(v.blob).unwrap();
            let b0 = (w + rest).skip(1);
            let b1 = b0.skip(w0.len() as int);
            let b2 = b1.skip(w1.len() as int);
            let b3 = b2.skip(w2.len() as int);
            let b4 = b3.skip(w3.len() as int);
            let b5 = b4.skip(w4.len() as int);
            let d0 = <String as ParseDump>::spec_dump(v.username);
            let d1 = <String as ParseDump>::spec_dump(v.service_name);
            let d2 = <String as ParseDump>::spec_dump(v.method_name);
            let d3 = <bool as ParseDump>::spec_dump(v.has_option);
            let d4 = <String as ParseDump>::spec_dump(v.algorithm);
            let d5 = <Blob as ParseDump>::spec_dump(v.blob);
            let c0 = Ok::<Seq<u8>, Error>(seq![50u8]);
            let c1 = chain(c0, d0);
            let c2 = chain(c1, d1);
            let c3 = chain(c2, d2);
            let c4 = chain(c3, d3);
            let c5 = chain(c4, d4);
            let c6 = chain(c5, d5);
            assert(c5 is Ok && d5 is Ok);
            assert(c4 is Ok && d4 is Ok);
            assert(c3 is Ok && d3 is Ok);
            assert(c2 is Ok && d2 is Ok);
            assert(c1 is Ok && d1 is Ok);
            assert(c0 is Ok && d0 is Ok);
            let q0 = c0.unwrap();
            let q1 = c1.unwrap();
            let q2 = c2.unwrap();
            let q3 = c3.unwrap();
            let q4 = c4.unwrap();
            let q5 = c5.unwrap();
            let q6 = c6.unwrap();
            let t6 = rest;
            let t5 = w5 + t6;
            let t4 = w4 + t5;
            let t3 = w3 + t4;
            let t2 = w2 + t3;
            let t1 = w1 + t2;
            let t0 = w0 + t1;
            lemma_regroup(q5, w5, t6);
            lemma_regroup(q4, w4, t5);
            lemma_regroup(q3, w3, t4);
            lemma_regroup(q2, w2, t3);
            lemma_regroup(q1, w1, t2);
            lemma_regroup(q0, w0, t1);
            lemma_skip_front(q0, t0);
            <String as ParseDump>::lemma_parse_dump(v.username, t1);
            lemma_skip_front(w0, t1);
            <String as ParseDump>::lemma_parse_dump(v.service_name, t2);
            lemma_skip_front(w1, t2);
            <String as ParseDump>::lemma_parse_dump(v.method_name, t3);
            lemma_skip_front(w2, t3);
            <bool as ParseDump>::lemma_parse_dump(v.has_option, t4);
            lemma_skip_front(w3, t4);
            <String as ParseDump>::lemma_parse_dump(v.algorithm, t5);
            lemma_skip_front(w4, t5);
            <Blob as ParseDump>::lemma_parse_dump(v.blob, t6);
        }
    }
}

/// The wire form of an authentication by a signature.
#[derive(Clone, Debug, PartialEq, Eq)]
pub struct PublicKeySigned {
    pub username: String,
    pub service_name: String,
    pub method_name: String,
    pub has_option: bool,
    pub algorithm: String,
    pub blob: Blob,
    pub signature: Blob,
}

/// What a `PublicKeySigned` holds.
pub ghost struct PublicKeySignedView {
    pub username: Seq<char>,
    pub service_name: Seq<char>,
    pub method_name: Seq<char>,
    pub has_option: bool,
    pub algorithm: Seq<char>,
    pub blob: BlobView,
    pub signature: BlobView,
}

impl View for PublicKeySigned {
    type V = PublicKeySignedView;

    open spec fn view(&self) -> PublicKeySignedView {
        PublicKeySignedView {
            username: self.username@,
            service_name: self.service_name@,
            method_name: self.method_name@,
            has_option: self.has_option,
            algorithm: self.algorithm@,
            blob: self.blob@,
            signature: self.signature@,
        }
    }
}

impl ParseDump for PublicKeySigned {
    open spec fn spec_parse(bytes: Seq<u8>) -> Result<(PublicKeySignedView, nat), Error> {
        match spec_expect_tag(bytes, MessageType::UserauthRequest) {
            Err(e) => Err(e),
            Ok(_) => {
                let b0 = bytes.skip(1);
                match <String as ParseDump>::spec_parse(b0) {
                    Err(e) => Err(e),
                    Ok((username, n0)) => {
                        let b1 = b0.skip(n0 as int);
                        match <String as ParseDump>::spec_parse(b1) {
                            Err(e) => Err(e),
                            Ok((service_name, n1)) => {
                                let b2 = b1.skip(n1 as int);
                                match <String as ParseDump>::spec_parse(b2) {
                                    Err(e) => Err(e),
                                    Ok((method_name, n2)) => {
                                        let b3 = b2.skip(n2 as int);
                                        match <bool as ParseDump>::spec_parse(b3) {
                                            Err(e) => Err(e),
                                            Ok((has_option, n3)) => {
                                                let b4 = b3.skip(n3 as int);
                                                match <String as ParseDump>::spec_parse(b4) {
                                                    Err(e) => Err(e),
                                                    Ok((algorithm, n4)) => {
                                                        let b5 = b4.skip(n4 as int);
                                                        match <Blob as ParseDump>::spec_parse(b5) {
                                                            Err(e) => Err(e),
                                                            Ok((blob, n5)) => {
                                                                let b6 = b5.skip(n5 as int);
                                                                match <Blob as ParseDump>::spec_parse(b6) {
                                                                    Err(e) => Err(e),
                                                                    Ok((signature, n6)) => {
                                                                        Ok(
                                                                            (
                                                                                PublicKeySignedView {
                                                                                    username,
                                                                                    service_name,
                                                                                    method_name,
                                                                                    has_option,
                                                                                    algorithm,
                                                                                    blob,
                                                                                    signature,
                                                                                },
                                                                                (1 + n0 + n1 + n2 + n3 + n4 + n5 + n6) as nat,
                                                                            ),
                                                                        )
                                                                    },
                                                                }
                                                            },
                                                        }
                                                    },
                                                }
                                            },
                                        }
                                    },
                                }
                            },
                        }
                    },
                }
            },
        }
    }

    open spec fn spec_dump(v: PublicKeySignedView) -> Result<Seq<u8>, Error> {
        let a = Ok(seq![50u8]);
        let a = chain(a, <String as ParseDump>::spec_dump(v.username));
        let a = chain(a, <String as ParseDump>::spec_dump(v.service_name));
        let a = chain(a, <String as ParseDump>::spec_dump(v.method_name));
        let a = chain(a, <bool as ParseDump>::spec_dump(v.has_option));
        let a = chain(a, <String as ParseDump>::spec_dump(v.algorithm));
        let a = chain(a, <Blob as ParseDump>::spec_dump(v.blob));
        chain(a, <Blob as ParseDump>::spec_dump(v.signature))
    }

    fn parse(bytes: &[u8]) -> (r: Result<(PublicKeySigned, usize), Error>) {
        expect_tag(bytes, MessageType::UserauthRequest)?;
        let b0 = tail(bytes, 1);
        let (username, n0) = <String as ParseDump>::parse(b0)?;
        let b1 = tail(b0, n0);
        let (service_name, n1) = <String as ParseDump>::parse(b1)?;
        let b2 = tail(b1, n1);
        let (method_name, n2) = <String as ParseDump>::parse(b2)?;
        let b3 = tail(b2, n2);
        let (has_option, n3) = <bool as ParseDump>::parse(b3)?;
        let b4 = tail(b3, n3);
        let (algorithm, n4) = <String as ParseDump>::parse(b4)?;
        let b5 = tail(b4, n4);
        let (blob, n5) = <Blob as ParseDump>::parse(b5)?;
        let b6 = tail(b5, n5);
        let (signature, n6) = <Blob as ParseDump>::parse(b6)?;
        Ok(
            (
                PublicKeySigned {
                    username,
                    service_name,
                    method_name,
                    has_option,
                    algorithm,
                    blob,
                    signature,
                },
                1 + n0 + n1 + n2 + n3 + n4 + n5 + n6,
            ),
        )
    }

    fn dump(&self, sink: &mut Vec<u8>) -> (r: Result<(), Error>) {
        let ghost before = sink@;
        put_u8(sink, 50);
        let ghost done = seq![50u8];
        self.username.dump(sink)?;
        proof {
            lemma_regroup(before, done, <String as ParseDump>::spec_dump(self.username@).unwrap());
        }
        let ghost done = done + <String as ParseDump>::spec_dump(self.username@).unwrap();
        self.service_name.dump(sink)?;
        proof {
            lemma_regroup(
                before,
                done,
                <String as ParseDump>::spec_dump(self.service_name@).unwrap(),
            );
        }
        let ghost done = done + <String as ParseDump>::spec_dump(self.service_name@).unwrap();
        self.method_name.dump(sink)?;
        proof {
            lemma_regroup(
                before,
                done,
                <String as ParseDump>::spec_dump(self.method_name@).unwrap(),
            );
        }
        let ghost done = done + <String as ParseDump>::spec_dump(self.method_name@).unwrap();
        self.has_option.dump(sink)?;
        proof {
            lemma_regroup(before, done, <bool as ParseDump>::spec_dump(self.has_option).unwrap());
        }
        let ghost done = done + <bool as ParseDump>::spec_dump(self.has_option).unwrap();
        self.algorithm.dump(sink)?;
        proof {
            lemma_regroup(before, done, <String as ParseDump>::spec_dump(self.algorithm@).unwrap());
        }
        let ghost done = done + <String as ParseDump>::spec_dump(self.algorithm@).unwrap();
        self.blob.dump(sink)?;
        proof {
            lemma_regroup(before, done, <Blob as ParseDump>::spec_dump(self.blob@).unwrap());
        }
        let ghost done = done + <Blob as ParseDump>::spec_dump(self.blob@).unwrap();
        self.signature.dump(sink)?;
        proof {
            lemma_regroup(before, done, <Blob as ParseDump>::spec_dump(self.signature@).unwrap());
        }
        let ghost done = done + <Blob as ParseDump>::spec_dump(self.signature@).unwrap();
        Ok(())
    }

    proof fn lemma_parse_dump(v: PublicKeySignedView, rest: Seq<u8>) {
        Self::lemma_fields(v, rest);
    }
}

impl PublicKeySigned {
    /// The steps of the round trip: in the bytes of `v`, followed by `rest`,
    /// each field is read from where the one before it ended.
    pub proof fn lemma_fields(v: PublicKeySignedView, rest: Seq<u8>)
        ensures
            Self::spec_dump(v) matches Ok(w) ==> ({
                let w0 = <String as ParseDump>::spec_dump(v.username).unwrap();
                let w1 = <String as ParseDump>::spec_dump(v.service_name).unwrap();
                let w2 = <String as ParseDump>::spec_dump(v.method_name).unwrap();
                let w3 = <bool as ParseDump>::spec_dump(v.has_option).unwrap();
                let w4 = <String as ParseDump>::spec_dump(v.algorithm).unwrap();
                let w5 = <Blob as ParseDump>::spec_dump(v.blob).unwrap();
                let w6 = <Blob as ParseDump>::spec_dump(v.signature).unwrap();
                let b0 = (w + rest).skip(1);
                let b1 = b0.skip(w0.len() as int);
                let b2 = b1.skip(w1.len() as int);
                let b3 = b2.skip(w2.len() as int);
                let b4 = b3.skip(w3.len() as int);
                let b5 = b4.skip(w4.len() as int);
                let b6 = b5.skip(w5.len() as int);
                &&& (w + rest)[0] == 50u8
                &&& w.len() == 1 + w0.len() + w1.len() + w2.len() + w3.len() + w4.len() + w5.len() + w6.len()
                &&& <String as ParseDump>::spec_parse(b0) == Ok::<(Seq<char>, nat), Error>(
                    (v.username, w0.len()),
                )
                &&& <String as ParseDump>::spec_parse(b1) == Ok::<(Seq<char>, nat), Error>(
                    (v.service_name, w1.len()),
                )
                &&& <String as ParseDump>::spec_parse(b2) == Ok::<(Seq<char>, nat), Error>(
                    (v.method_name, w2.len()),
                )
                &&& <bool as ParseDump>::spec_parse(b3) == Ok::<(bool, nat), Error>(
                    (v.has_option, w3.len()),
                )
                &&& <String as ParseDump>::spec_parse(b4) == Ok::<(Seq<char>, nat), Error>(
                    (v.algorithm, w4.len()),
                )
                &&& <Blob as ParseDump>::spec_parse(b5) == Ok::<(BlobView, nat), Error>(
                    (v.blob, w5.len()),
                )
                &&& <Blob as ParseDump>::spec_parse(b6) == Ok::<(BlobView, nat), Error>(
                    (v.signature, w6.len()),
                )
            }),
    {
        if let Ok(w) = Self::spec_dump(v) {
            let w0 = <String as ParseDump>::spec_dump(v.username).unwrap();
            let w1 = <String as ParseDump>::spec_dump(v.service_name).unwrap();
            let w2 = <String as ParseDump>::spec_dump(v.method_name).unwrap();
            let w3 = <bool as ParseDump>::spec_dump(v.has_option).unwrap();
            let w4 = <String as ParseDump>::spec_dump(v.algorithm).unwrap();
            let w5 = <Blob as ParseDump>::spec_dump(v.blob).unwrap();
            let w6 = <Blob as ParseDump>::spec_dump(v.signature).unwrap();
            let b0 = (w + rest).skip(1);
            let b1 = b0.skip(w0.len() as int);
            let b2 = b1.skip(w1.len() as int);
            let b3 = b2.skip(w2.len() as int);
            let b4 = b3.skip(w3.len() as int);
            let b5 = b4.skip(w4.len() as int);
            let b6 = b5.skip(w5.len() as int);
            let d0 = <String as ParseDump>::spec_dump(v.username);
            let d1 = <String as ParseDump>::spec_dump(v.service_name);
            let d2 = <String as ParseDump>::spec_dump(v.method_name);
            let d3 = <bool as ParseDump>::spec_dump(v.has_option);
            let d4 = <String as ParseDump>::spec_dump(v.algorithm);
            let d5 = <Blob as ParseDump>::spec_dump(v.blob);
            let d6 = <Blob as ParseDump>::spec_dump(v.signature);
            let c0 = Ok::<Seq<u8>, Error>(seq![50u8]);
            let c1 = chain(c0, d0);
            let c2 = chain(c1, d1);
            let c3 = chain(c2, d2);
            let c4 = chain(c3, d3);
            let c5 = chain(c4, d4);
            let c6 = chain(c5, d5);
            let c7 = chain(c6, d6);
            assert(c6 is Ok && d6 is Ok);
            assert(c5 is Ok && d5 is Ok);
            assert(c4 is Ok && d4 is Ok);
            assert(c3 is Ok && d3 is Ok);
            assert(c2 is Ok && d2 is Ok);
            assert(c1 is Ok && d1 is Ok);
            assert(c0 is Ok && d0 is Ok);
            let q0 = c0.unwrap();
            let q1 = c1.unwrap();
            let q2 = c2.unwrap();
            let q3 = c3.unwrap();
            let q4 = c4.unwrap();
            let q5 = c5.unwrap();
            let q6 = c6.unwrap();
            let q7 = c7.unwrap();
            let t7 = rest;
            let t6 = w6 + t7;
            let t5 = w5 + t6;
            let t4 = w4 + t5;
            let t3 = w3 + t4;
            let t2 = w2 + t3;
            let t1 = w1 + t2;
            let t0 = w0 + t1;
            lemma_regroup(q6, w6, t7);
            lemma_regroup(q5, w5, t6);
            lemma_regroup(q4, w4, t5);
            lemma_regroup(q3, w3, t4);
            lemma_regroup(q2, w2, t3);
            lemma_regroup(q1, w1, t2);
            lemma_regroup(q0, w0, t1);
            lemma_skip_front(q0, t0);
            <String as ParseDump>::lemma_parse_dump(v.username, t1);
            lemma_skip_front(w0, t1);
            <String as ParseDump>::lemma_parse_dump(v.service_name, t2);
            lemma_skip_front(w1, t2);
            <String as ParseDump>::lemma_parse_dump(v.method_name, t3);
            lemma_skip_front(w2, t3);
            <bool as ParseDump>::lemma_parse_dump(v.has_option, t4);
            lemma_skip_front(w3, t4);
            <String as ParseDump>::lemma_parse_dump(v.algorithm, t5);
            lemma_skip_front(w4, t5);
            <Blob as ParseDump>::lemma_parse_dump(v.blob, t6);
            lemma_skip_front(w5, t6);
            <Blob as ParseDump>::lemma_parse_dump(v.signature, t7);
        }
    }
}

/// The wire form of an authentication by password.
#[derive(Clone, Debug, PartialEq, Eq)]
pub struct PasswordLogin {
    pub username: String,
    pub service_name: String,
    pub method_name: String,
    pub has_option: bool,
    pub password: String,
}

/// What a `PasswordLogin` holds.
pub ghost struct PasswordLoginView {
    pub username: Seq<char>,
    pub service_name: Seq<char>,
    pub method_name: Seq<char>,
    pub has_option: bool,
    pub password: Seq<char>,
}

impl View for PasswordLogin {
    type V = PasswordLoginView;

    open spec fn view(&self) -> PasswordLoginView {
        PasswordLoginView {
            username: self.username@,
            service_name: self.service_name@,
            method_name: self.method_name@,
            has_option: self.has_option,
            password: self.password@,
        }
    }
}

impl ParseDump for PasswordLogin {
    open spec fn spec_parse(bytes: Seq<u8>) -> Result<(PasswordLoginView, nat), Error> {
        match spec_expect_tag(bytes, MessageType::UserauthRequest) {
            Err(e) => Err(e),
            Ok(_) => {
                let b0 = bytes.skip(1);
                match <String as ParseDump>::spec_parse(b0) {
                    Err(e) => Err(e),
                    Ok((username, n0)) => {
                        let b1 = b0.skip(n0 as int);
                        match <String as ParseDump>::spec_parse(b1) {
                            Err(e) => Err(e),
                            Ok((service_name, n1)) => {
                                let b2 = b1.skip(n1 as int);
                                match <String as ParseDump>::spec_parse(b2) {
                                    Err(e) => Err(e),
                                    Ok((method_name, n2)) => {
                                        let b3 = b2.skip(n2 as int);
                                        match <bool as ParseDump>::spec_parse(b3) {
                                            Err(e) => Err(e),
                                            Ok((has_option, n3)) => {
                                                let b4 = b3.skip(n3 as int);
                                                match <String as ParseDump>::spec_parse(b4) {
                                                    Err(e) => Err(e),
                                                    Ok((password, n4)) => {
                                                        Ok(
                                                            (
                                                                PasswordLoginView {
                                                                    username,
                                                                    service_name,
                                                                    method_name,
                                                                    has_option,
                                                                    password,
                                                                },
                                                                (1 + n0 + n1 + n2 + n3 + n4) as nat,
                                                            ),
                                                        )
                                                    },
                                                }
                                            },
                                        }
                                    },
                                }
                            },
                        }
                    },
                }
            },
        }
    }

    open spec fn spec_dump(v: PasswordLoginView) -> Result<Seq<u8>, Error> {
        let a = Ok(seq![50u8]);
        let a = chain(a, <String as ParseDump>::spec_dump(v.username));
        let a = chain(a, <String as ParseDump>::spec_dump(v.service_name));
        let a = chain(a, <String as ParseDump>::spec_dump(v.method_name));
        let a = chain(a, <bool as ParseDump>::spec_dump(v.has_option));
        chain(a, <String as ParseDump>::spec_dump(v.password))
    }

    fn parse(bytes: &[u8]) -> (r: Result<(PasswordLogin, usize), Error>) {
        expect_tag(bytes, MessageType::UserauthRequest)?;
        let b0 = tail(bytes, 1);
        let (username, n0) = <String as ParseDump>::parse(b0)?;
        let b1 = tail(b0, n0);
        let (service_name, n1) = <String as ParseDump>::parse(b1)?;
        let b2 = tail(b1, n1);
        let (method_name, n2) = <String as ParseDump>::parse(b2)?;
        let b3 = tail(b2, n2);
        let (has_option, n3) = <bool as ParseDump>::parse(b3)?;
        let b4 = tail(b3, n3);
        let (password, n4) = <String as ParseDump>::parse(b4)?;
        Ok(
            (
                PasswordLogin {
                    username,
                    service_name,
                    method_name,
                    has_option,
                    password,
                },
                1 + n0 + n1 + n2 + n3 + n4,
            ),
        )
    }

    fn dump(&self, sink: &mut Vec<u8>) -> (r: Result<(), Error>) {
        let ghost before = sink@;
        put_u8(sink, 50);
        let ghost done = seq![50u8];
        self.username.dump(sink)?;
        proof {
            lemma_regroup(before, done, <String as ParseDump>::spec_dump(self.username@).unwrap());
        }
        let ghost done = done + <String as ParseDump>::spec_dump(self.username@).unwrap();
        self.service_name.dump(sink)?;
        proof {
            lemma_regroup(
                before,
                done,
                <String as ParseDump>::spec_dump(self.service_name@).unwrap(),
            );
        }
        let ghost done = done + <String as ParseDump>::spec_dump(self.service_name@).unwrap();
        self.method_name.dump(sink)?;
        proof {
            lemma_regroup(
                before,
                done,
                <String as ParseDump>::spec_dump(self.method_name@).unwrap(),
            );
        }
        let ghost done = done + <String as ParseDump>::spec_dump(self.method_name@).unwrap();
        self.has_option.dump(sink)?;
        proof {
            lemma_regroup(before, done, <bool as ParseDump>::spec_dump(self.has_option).unwrap());
        }
        let ghost done = done + <bool as ParseDump>::spec_dump(self.has_option).unwrap();
        self.password.dump(sink)?;
        proof {
            lemma_regroup(before, done, <String as ParseDump>::spec_dump(self.password@).unwrap());
        }
        let ghost done = done + <String as ParseDump>::spec_dump(self.password@).unwrap();
        Ok(())
    }

    proof fn lemma_parse_dump(v: PasswordLoginView, rest: Seq<u8>) {
        if let Ok(w) = Self::spec_dump(v) {
            let w0 = <String as ParseDump>::spec_dump(v.username).unwrap();
            let w1 = <String as ParseDump>::spec_dump(v.service_name).unwrap();
            let w2 = <String as ParseDump>::spec_dump(v.method_name).unwrap();
            let w3 = <bool as ParseDump>::spec_dump(v.has_option).unwrap();
            let w4 = <String as ParseDump>::spec_dump(v.password).unwrap();
            let b0 = (w + rest).skip(1);
            let b1 = b0.skip(w0.len() as int);
            let b2 = b1.skip(w1.len() as int);
            let b3 = b2.skip(w2.len() as int);
            let b4 = b3.skip(w3.len() as int);
            let d0 = <String as ParseDump>::spec_dump(v.username);
            let d1 = <String as ParseDump>::spec_dump(v.service_name);
            let d2 = <String as ParseDump>::spec_dump(v.method_name);
            let d3 = <bool as ParseDump>::spec_dump(v.has_option);
            let d4 = <String as ParseDump>::spec_dump(v.password);
            let c0 = Ok::<Seq<u8>, Error>(seq![50u8]);
            let c1 = chain(c0, d0);
            let c2 = chain(c1, d1);
            let c3 = chain(c2, d2);
            let c4 = chain(c3, d3);
            let c5 = chain(c4, d4);
            assert(c4 is Ok && d4 is Ok);
            assert(c3 is Ok && d3 is Ok);
            assert(c2 is Ok && d2 is Ok);
            assert(c1 is Ok && d1 is Ok);
            assert(c0 is Ok && d0 is Ok);
            let q0 = c0.unwrap();
            let q1 = c1.unwrap();
            let q2 = c2.unwrap();
            let q3 = c3.unwrap();
            let q4 = c4.unwrap();
            let q5 = c5.unwrap();
            let t5 = rest;
            let t4 = w4 + t5;
            let t3 = w3 + t4;
            let t2 = w2 + t3;
            let t1 = w1 + t2;
            let t0 = w0 + t1;
            lemma_regroup(q4, w4, t5);
            lemma_regroup(q3, w3, t4);
            lemma_regroup(q2, w2, t3);
            lemma_regroup(q1, w1, t2);
            lemma_regroup(q0, w0, t1);
            lemma_skip_front(q0, t0);
            <String as ParseDump>::lemma_parse_dump(v.username, t1);
            lemma_skip_front(w0, t1);
            <String as ParseDump>::lemma_parse_dump(v.service_name, t2);
            lemma_skip_front(w1, t2);
            <String as ParseDump>::lemma_parse_dump(v.method_name, t3);
            lemma_skip_front(w2, t3);
            <bool as ParseDump>::lemma_parse_dump(v.has_option, t4);
            lemma_skip_front(w3, t4);
            <String as ParseDump>::lemma_parse_dump(v.password, t5);
        }
    }
}

/// The wire form of an authentication by password that also sets a new
/// password.
#[derive(Clone, Debug, PartialEq, Eq)]
pub struct PasswordChange {
    pub username: String,
    pub service_name: String,
    pub method_name: String,
    pub has_option: bool,
    pub password: String,
    pub new_password: String,
}

/// What a `PasswordChange` holds.
pub ghost struct PasswordChangeView {
    pub username: Seq<char>,
    pub service_name: Seq<char>,
    pub method_name: Seq<char>,
    pub has_option: bool,
    pub password: Seq<char>,
    pub new_password: Seq<char>,
}

impl View for PasswordChange {
    type V = PasswordChangeView;

    open spec fn view(&self) -> PasswordChangeView {
        PasswordChangeView {
            username: self.username@,
            service_name: self.service_name@,
            method_name: self.method_name@,
            has_option: self.has_option,
            password: self.password@,
            new_password: self.new_password@,
        }
    }
}

impl ParseDump for PasswordChange {
    open spec fn spec_parse(bytes: Seq<u8>) -> Result<(PasswordChangeView, nat), Error> {
        match spec_expect_tag(bytes, MessageType::UserauthRequest) {
            Err(e) => Err(e),
            Ok(_) => {
                let b0 = bytes.skip(1);
                match <String as ParseDump>::spec_parse(b0) {
                    Err(e) => Err(e),
                    Ok((username, n0)) => {
                        let b1 = b0.skip(n0 as int);
                        match <String as ParseDump>::spec_parse(b1) {
                            Err(e) => Err(e),
                            Ok((service_name, n1)) => {
                                let b2 = b1.skip(n1 as int);
                                match <String as ParseDump>::spec_parse(b2) {
                                    Err(e) => Err(e),
                                    Ok((method_name, n2)) => {
                                        let b3 = b2.skip(n2 as int);
                                        match <bool as ParseDump>::spec_parse(b3) {
                                            Err(e) => Err(e),
                                            Ok((has_option, n3)) => {
                                                let b4 = b3.skip(n3 as int);
                                                match <String as ParseDump>::spec_parse(b4) {
                                                    Err(e) => Err(e),
                                                    Ok((password, n4)) => {
                                                        let b5 = b4.skip(n4 as int);
                                                        match <String as ParseDump>::spec_parse(b5) {
                                                            Err(e) => Err(e),
                                                            Ok((new_password, n5)) => {
                                                                Ok(
                                                                    (
                                                                        PasswordChangeView {
                                                                            username,
                                                                            service_name,
                                                                            method_name,
                                                                            has_option,
                                                                            password,
                                                                            new_password,
                                                                        },
                                                                        (1 + n0 + n1 + n2 + n3 + n4 + n5) as nat,
                                                                    ),
                                                                )
                                                            },
                                                        }
                                                    },
                                                }
                                            },
                                        }
                                    },
                                }
                            },
                        }
                    },
                }
            },
        }
    }

    open spec fn spec_dump(v: PasswordChangeView) -> Result<Seq<u8>, Error> {
        let a = Ok(seq![50u8]);
        let a = chain(a, <String as ParseDump>::spec_dump(v.username));
        let a = chain(a, <String as ParseDump>::spec_dump(v.service_name));
        let a = chain(a, <String as ParseDump>::spec_dump(v.method_name));
        let a = chain(a, <bool as ParseDump>::spec_dump(v.has_option));
        let a = chain(a, <String as ParseDump>::spec_dump(v.password));
        chain(a, <String as ParseDump>::spec_dump(v.new_password))
    }

    fn parse(bytes: &[u8]) -> (r: Result<(PasswordChange, usize), Error>) {
        expect_tag(bytes, MessageType::UserauthRequest)?;
        let b0 = tail(bytes, 1);
        let (username, n0) = <String as ParseDump>::parse(b0)?;
        let b1 = tail(b0, n0);
        let (service_name, n1) = <String as ParseDump>::parse(b1)?;
        let b2 = tail(b1, n1);
        let (method_name, n2) = <String as ParseDump>::parse(b2)?;
        let b3 = tail(b2, n2);
        let (has_option, n3) = <bool as ParseDump>::parse(b3)?;
        let b4 = tail(b3, n3);
        let (password, n4) = <String as ParseDump>::parse(b4)?;
        let b5 = tail(b4, n4);
        let (new_password, n5) = <String as ParseDump>::parse(b5)?;
        Ok(
            (
                PasswordChange {
                    username,
                    service_name,
                    method_name,
                    has_option,
                    password,
                    new_password,
                },
                1 + n0 + n1 + n2 + n3 + n4 + n5,
            ),
        )
    }

    fn dump(&self, sink: &mut Vec<u8>) -> (r: Result<(), Error>) {
        let ghost before = sink@;
        put_u8(sink, 50);
        let ghost done = seq![50u8];
        self.username.dump(sink)?;
        proof {
            lemma_regroup(before, done, <String as ParseDump>::spec_dump(self.username@).unwrap());
        }
        let ghost done = done + <String as ParseDump>::spec_dump(self.username@).unwrap();
        self.service_name.dump(sink)?;
        proof {
            lemma_regroup(
                before,
                done,
                <String as ParseDump>::spec_dump(self.service_name@).unwrap(),
            );
        }
        let ghost done = done + <String as ParseDump>::spec_dump(self.service_name@).unwrap();
        self.method_name.dump(sink)?;
        proof {
            lemma_regroup(
                before,
                done,
                <String as ParseDump>::spec_dump(self.method_name@).unwrap(),
            );
        }
        let ghost done = done + <String as ParseDump>::spec_dump(self.method_name@).unwrap();
        self.has_option.dump(sink)?;
        proof {
            lemma_regroup(before, done, <bool as ParseDump>::spec_dump(self.has_option).unwrap());
        }
        let ghost done = done + <bool as ParseDump>::spec_dump(self.has_option).unwrap();
        self.password.dump(sink)?;
        proof {
            lemma_regroup(before, done, <String as ParseDump>::spec_dump(self.password@).unwrap());
        }
        let ghost done = done + <String as ParseDump>::spec_dump(self.password@).unwrap();
        self.new_password.dump(sink)?;
        proof {
            lemma_regroup(
                before,
                done,
                <String as ParseDump>::spec_dump(self.new_password@).unwrap(),
            );
        }
        let ghost done = done + <String as ParseDump>::spec_dump(self.new_password@).unwrap();
        Ok(())
    }

    proof fn lemma_parse_dump(v: PasswordChangeView, rest: Seq<u8>) {
        if let Ok(w) = Self::spec_dump(v) {
            let w0 = <String as ParseDump>::spec_dump(v.username).unwrap();
            let w1 = <String as ParseDump>::spec_dump(v.service_name).unwrap();
            let w2 = <String as ParseDump>::spec_dump(v.method_name).unwrap();
            let w3 = <bool as ParseDump>::spec_dump(v.has_option).unwrap();
            let w4 = <String as ParseDump>::spec_dump(v.password).unwrap();
            let w5 = <String as ParseDump>::spec_dump(v.new_password).unwrap();
            let b0 = (w + rest).skip(1);
            let b1 = b0.skip(w0.len() as int);
            let b2 = b1.skip(w1.len() as int);
            let b3 = b2.skip(w2.len() as int);
            let b4 = b3.skip(w3.len() as int);
            let b5 = b4.skip(w4.len() as int);
            let d0 = <String as ParseDump>::spec_dump(v.username);
            let d1 = <String as ParseDump>::spec_dump(v.service_name);
            let d2 = <String as ParseDump>::spec_dump(v.method_name);
            let d3 = <bool as ParseDump>::spec_dump(v.has_option);
            let d4 = <String as ParseDump>::spec_dump(v.password);
            let d5 = <String as ParseDump>::spec_dump(v.new_password);
            let c0 = Ok::<Seq<u8>, Error>(seq![50u8]);
            let c1 = chain(c0, d0);
            let c2 = chain(c1, d1);
            let c3 = chain(c2, d2);
            let c4 = chain(c3, d3);
            let c5 = chain(c4, d4);
            let c6 = chain(c5, d5);
            assert(c5 is Ok && d5 is Ok);
            assert(c4 is Ok && d4 is Ok);
            assert(c3 is Ok && d3 is Ok);
            assert(c2 is Ok && d2 is Ok);
            assert(c1 is Ok && d1 is Ok);
            assert(c0 is Ok && d0 is Ok);
            let q0 = c0.unwrap();
            let q1 = c1.unwrap();
            let q2 = c2.unwrap();
            let q3 = c3.unwrap();
            let q4 = c4.unwrap();
            let q5 = c5.unwrap();
            let q6 = c6.unwrap();
            let t6 = rest;
            let t5 = w5 + t6;
            let t4 = w4 + t5;
            let t3 = w3 + t4;
            let t2 = w2 + t3;
            let t1 = w1 + t2;
            let t0 = w0 + t1;
            lemma_regroup(q5, w5, t6);
            lemma_regroup(q4, w4, t5);
            lemma_regroup(q3, w3, t4);
            lemma_regroup(q2, w2, t3);
            lemma_regroup(q1, w1, t2);
            lemma_regroup(q0, w0, t1);
            lemma_skip_front(q0, t0);
            <String as ParseDump>::lemma_parse_dump(v.username, t1);
            lemma_skip_front(w0, t1);
            <String as ParseDump>::lemma_parse_dump(v.service_name, t2);
            lemma_skip_front(w1, t2);
            <String as ParseDump>::lemma_parse_dump(v.method_name, t3);
            lemma_skip_front(w2, t3);
            <bool as ParseDump>::lemma_parse_dump(v.has_option, t4);
            lemma_skip_front(w3, t4);
            <String as ParseDump>::lemma_parse_dump(v.password, t5);
            lemma_skip_front(w4, t5);
            <String as ParseDump>::lemma_parse_dump(v.new_password, t6);
        }
    }
}

/// An authentication request.
#[derive(Clone, Debug, PartialEq, Eq)]
pub enum UserauthRequest {
    /// By public key: a question whether the key would be accepted where
    /// there is no signature, the authentication itself where there is one.
    PublicKey { username: String, service_name: String, algorithm: String, blob: Blob, signature: Option<Blob> },
    /// By password, with a new password where the old one is to be changed.
    Password { username: String, service_name: String, password: String, new_password: Option<String> },
}

/// What a `UserauthRequest` holds.
pub ghost enum UserauthRequestView {
    PublicKey {
        username: Seq<char>,
        service_name: Seq<char>,
        algorithm: Seq<char>,
        blob: BlobView,
        signature: Option<BlobView>,
    },
    Password {
        username: Seq<char>,
        service_name: Seq<char>,
        password: Seq<char>,
        new_password: Option<Seq<char>>,
    },
}

impl View for UserauthRequest {
    type V = UserauthRequestView;

    open spec fn view(&self) -> UserauthRequestView {
        match self {
            UserauthRequest::PublicKey {
                username,
                service_name,
                algorithm,
                blob,
                signature,
            } => UserauthRequestView::PublicKey {
                username: username@,
                service_name: service_name@,
                algorithm: algorithm@,
                blob: blob@,
                signature: match signature {
                    Some(s) => Some(s@),
                    None => None,
                },
            },
            UserauthRequest::Password {
                username,
                service_name,
                password,
                new_password,
            } => UserauthRequestView::Password {
                username: username@,
                service_name: service_name@,
                password: password@,
                new_password: match new_password {
                    Some(s) => Some(s@),
                    None => None,
                },
            },
        }
    }
}

/// The two method names are different texts.
pub proof fn lemma_method_names()
    ensures
        "publickey"@ != "password"@,
{
    reveal_strlit("publickey");
    reveal_strlit("password");
    assert("publickey"@.len() == 9);
    assert("password"@.len() == 8);
}

impl ParseDump for UserauthRequest {
    open spec fn spec_parse(bytes: Seq<u8>) -> Result<(UserauthRequestView, nat), Error> {
        match AuthPrefix::spec_parse(bytes) {
            Err(e) => Err(e),
            Ok((prefix, n)) => {
                if prefix.method_name == "publickey"@ {
                    if prefix.has_option {
                        match PublicKeySigned::spec_parse(bytes) {
                            Err(e) => Err(e),
                            Ok((x, m)) => Ok(
                                (
                                    UserauthRequestView::PublicKey {
                                        username: x.username,
                                        service_name: x.service_name,
                                        algorithm: x.algorithm,
                                        blob: x.blob,
                                        signature: Some(x.signature),
                                    },
                                    m,
                                ),
                            ),
                        }
                    } else {
                        match PublicKeyQuery::spec_parse(bytes) {
                            Err(e) => Err(e),
                            Ok((x, m)) => Ok(
                                (
                                    UserauthRequestView::PublicKey {
                                        username: x.username,
                                        service_name: x.service_name,
                                        algorithm: x.algorithm,
                                        blob: x.blob,
                                        signature: None,
                                    },
                                    m,
                                ),
                            ),
                        }
                    }
                } else if prefix.method_name == "password"@ {
                    if prefix.has_option {
                        match PasswordChange::spec_parse(bytes) {
                            Err(e) => Err(e),
                            Ok((x, m)) => Ok(
                                (
                                    UserauthRequestView::Password {
                                        username: x.username,
                                        service_name: x.service_name,
                                        password: x.password,
                                        new_password: Some(x.new_password),
                                    },
                                    m,
                                ),
                            ),
                        }
                    } else {
                        match PasswordLogin::spec_parse(bytes) {
                            Err(e) => Err(e),
                            Ok((x, m)) => Ok(
                                (
                                    UserauthRequestView::Password {
                                        username: x.username,
                                        service_name: x.service_name,
                                        password: x.password,
                                        new_password: None,
                                    },
                                    m,
                                ),
                            ),
                        }
                    }
                } else {
                    Err(Error::Unimplemented)
                }
            },
        }
    }

    open spec fn spec_dump(v: UserauthRequestView) -> Result<Seq<u8>, Error> {
        match v {
            UserauthRequestView::PublicKey { username, service_name, algorithm, blob, signature } => match signature {
                Some(signature) => PublicKeySigned::spec_dump(
                    PublicKeySignedView {
                        username,
                        service_name,
                        method_name: "publickey"@,
                        has_option: true,
                        algorithm,
                        blob,
                        signature,
                    },
                ),
                None => PublicKeyQuery::spec_dump(
                    PublicKeyQueryView {
                        username,
                        service_name,
                        method_name: "publickey"@,
                        has_option: false,
                        algorithm,
                        blob,
                    },
                ),
            },
            UserauthRequestView::Password { username, service_name, password, new_password } => match new_password {
                Some(new_password) => PasswordChange::spec_dump(
                    PasswordChangeView {
                        username,
                        service_name,
                        method_name: "password"@,
                        has_option: true,
                        password,
                        new_password,
                    },
                ),
                None => PasswordLogin::spec_dump(
                    PasswordLoginView {
                        username,
                        service_name,
                        method_name: "password"@,
                        has_option: false,
                        password,
                    },
                ),
            },
        }
    }

    fn parse(bytes: &[u8]) -> (r: Result<(UserauthRequest, usize), Error>) {
        let (prefix, n) = AuthPrefix::parse(bytes)?;
        if text_is(&prefix.method_name, "publickey") {
            if prefix.has_option {
                let (x, m) = PublicKeySigned::parse(bytes)?;
                Ok(
                    (
                        UserauthRequest::PublicKey {
                            username: x.username,
                            service_name: x.service_name,
                            algorithm: x.algorithm,
                            blob: x.blob,
                            signature: Some(x.signature),
                        },
                        m,
                    ),
                )
            } else {
                let (x, m) = PublicKeyQuery::parse(bytes)?;
                Ok(
                    (
                        UserauthRequest::PublicKey {
                            username: x.username,
                            service_name: x.service_name,
                            algorithm: x.algorithm,
                            blob: x.blob,
                            signature: None,
                        },
                        m,
                    ),
                )
            }
        } else if text_is(&prefix.method_name, "password") {
            if prefix.has_option {
                let (x, m) = PasswordChange::parse(bytes)?;
                Ok(
                    (
                        UserauthRequest::Password {
                            username: x.username,
                            service_name: x.service_name,
                            password: x.password,
                            new_password: Some(x.new_password),
                        },
                        m,
                    ),
                )
            } else {
                let (x, m) = PasswordLogin::parse(bytes)?;
                Ok(
                    (
                        UserauthRequest::Password {
                            username: x.username,
                            service_name: x.service_name,
                            password: x.password,
                            new_password: None,
                        },
                        m,
                    ),
                )
            }
        } else {
            Err(Error::Unimplemented)
        }
    }

    fn dump(&self, sink: &mut Vec<u8>) -> (r: Result<(), Error>) {
        match self {
            UserauthRequest::PublicKey { username, service_name, algorithm, blob, signature } => {
                put_u8(sink, 50);
                username.dump(sink)?;
                service_name.dump(sink)?;
                dump_str("publickey", sink)?;
                signature.is_some().dump(sink)?;
                algorithm.dump(sink)?;
                blob.dump(sink)?;
                if let Some(signature) = signature {
                    signature.dump(sink)?;
                }
                Ok(())
            },
            UserauthRequest::Password { username, service_name, password, new_password } => {
                put_u8(sink, 50);
                username.dump(sink)?;
                service_name.dump(sink)?;
                dump_str("password", sink)?;
                new_password.is_some().dump(sink)?;
                password.dump(sink)?;
                if let Some(new_password) = new_password {
                    new_password.dump(sink)?;
                }
                Ok(())
            },
        }
    }

    proof fn lemma_parse_dump(v: UserauthRequestView, rest: Seq<u8>) {
        lemma_method_names();
        match v {
            UserauthRequestView::PublicKey { username, service_name, algorithm, blob, signature } => match signature {
                Some(signature) => {
                    let x = PublicKeySignedView {
                        username,
                        service_name,
                        method_name: "publickey"@,
                        has_option: true,
                        algorithm,
                        blob,
                        signature,
                    };
                    PublicKeySigned::lemma_parse_dump(x, rest);
                    PublicKeySigned::lemma_fields(x, rest);
                },
                None => {
                    let x = PublicKeyQueryView {
                        username,
                        service_name,
                        method_name: "publickey"@,
                        has_option: false,
                        algorithm,
                        blob,
                    };
                    PublicKeyQuery::lemma_parse_dump(x, rest);
                },
            },
            UserauthRequestView::Password { username, service_name, password, new_password } => match new_password {
                Some(new_password) => {
                    let x = PasswordChangeView {
                        username,
                        service_name,
                        method_name: "password"@,
                        has_option: true,
                        password,
                        new_password,
                    };
                    PasswordChange::lemma_parse_dump(x, rest);
                },
                None => {
                    let x = PasswordLoginView {
                        username,
                        service_name,
                        method_name: "password"@,
                        has_option: false,
                        password,
                    };
                    PasswordLogin::lemma_parse_dump(x, rest);
                },
            },
        }
    }
}

/// The bytes that a client signs to authenticate by public key: the session
/// id as a byte string, the number of the authentication request, the user
/// name, the service name, the method `publickey`, a true flag, the algorithm
/// `ssh-ed25519` and the public key blob.
pub open spec fn spec_signed_blob(
    session_id: Seq<u8>,
    username: Seq<char>,
    service_name: Seq<char>,
    ed25519_pub: BlobView,
) -> Result<Seq<u8>, Error> {
    let a = spec_dump_bytes(session_id);
    let a = chain(a, Ok(seq![50u8]));
    let a = chain(a, spec_dump_str(username));
    let a = chain(a, spec_dump_str(service_name));
    let a = chain(a, spec_dump_str("publickey"@));
    let a = chain(a, spec_dump_bool(true));
    let a = chain(a, spec_dump_str("ssh-ed25519"@));
    chain(a, Blob::spec_dump(ed25519_pub))
}

/// Builds the bytes that a client signs to authenticate by public key.
/// Fails with `InvalidLength` where a field is too long for its length
/// field.
pub fn signed_blob(session_id: &[u8], username: &str, service_name: &str, ed25519_pub: &Blob) -> (r: Result<
    Vec<u8>,
    Error,
>)
    ensures
        match spec_signed_blob(session_id@, username@, service_name@, ed25519_pub@) {
            Ok(bytes) => r matches Ok(v) && v@ == bytes,
            Err(e) => r == Err::<Vec<u8>, Error>(e),
        },
{
    let mut out: Vec<u8> = Vec::new();
    dump_bytes(session_id, &mut out)?;
    let ghost done = spec_dump_bytes(session_id@).unwrap();
    assert(out@ =~= done);
    put_u8(&mut out, 50);
    let ghost done = done + seq![50u8];
    dump_str(username, &mut out)?;
    let ghost done = done + spec_dump_str(username@).unwrap();
    assert(out@ =~= done);
    dump_str(service_name, &mut out)?;
    let ghost done = done + spec_dump_str(service_name@).unwrap();
    assert(out@ =~= done);
    dump_str("publickey", &mut out)?;
    let ghost done = done + spec_dump_str("publickey"@).unwrap();
    assert(out@ =~= done);
    true.dump(&mut out)?;
    let ghost done = done + spec_dump_bool(true).unwrap();
    assert(out@ =~= done);
    dump_str("ssh-ed25519", &mut out)?;
    let ghost done = done + spec_dump_str("ssh-ed25519"@).unwrap();
    assert(out@ =~= done);
    ed25519_pub.dump(&mut out)?;
    let ghost done = done + Blob::spec_dump(ed25519_pub@).unwrap();
    assert(out@ =~= done);
    Ok(out)
}

/// Signs the authentication request of `username` for `service_name` in the
/// session `session_id` with `keypair`, the secret seed followed by the
/// public key.  Fails as `signed_blob` fails, and with `InvalidKeypair`
/// where the key pair cannot sign.
pub fn sign_userauth(
    keypair: &[u8; 64],
    session_id: &[u8],
    username: &str,
    service_name: &str,
    ed25519_pub: &Blob,
) -> (r: Result<[u8; 64], Error>)
    ensures
        match spec_signed_blob(session_id@, username@, service_name@, ed25519_pub@) {
            Err(e) => r == Err::<[u8; 64], Error>(e),
            Ok(bytes) => match spec_ed25519_sign(keypair@, bytes) {
                Some(signature) => r == Ok::<[u8; 64], Error>(signature),
                None => r == Err::<[u8; 64], Error>(Error::InvalidKeypair),
            },
        },
{
    let bytes = signed_blob(session_id, username, service_name, ed25519_pub)?;
    match ed25519_sign(keypair, bytes.as_slice()) {
        Some(signature) => Ok(signature),
        None => Err(Error::InvalidKeypair),
    }
}

} // verus!
