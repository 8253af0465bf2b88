//! The typed client capability toward the vehicle interface, as data: a
//! procedure call is a service name, a procedure name and an ordered list of
//! encoded arguments. The embedding program puts such a request on the wire;
//! the library only guarantees what the request holds.
//!
//! Scalar arguments go on the wire in base-128 little-endian with a
//! continuation bit on every byte but the last, pinned here by [`varint`].

use vstd::prelude::*;

verus! {

/// The wire encoding of an unsigned integer: base-128 little-endian, high
/// bit set on every byte that has a successor.
pub open spec fn varint(n: nat) -> Seq<u8>
    decreases n,
{
    if n < 128 {
        seq![n as u8]
    } else {
        seq![(n % 128 + 128) as u8] + varint(n / 128)
    }
}

/// One request to the vehicle interface: which procedure of which service,
/// with encoded arguments in position order.
#[derive(Debug, Clone)]
pub struct ProcCall {
    pub service: String,
    pub procedure: String,
    pub args: Vec<Vec<u8>>,
}

/// Encode an integer argument for the wire.
pub fn encode_varint(value: u64) -> (out: Vec<u8>)
    ensures
        out@ == varint(value as nat),
{
    let mut out: Vec<u8> = Vec::new();
    let mut n = value;
    proof {
        assert(out@ + varint(n as nat) =~= varint(value as nat));
    }
    while n >= 128
        invariant
            out@ + varint(n as nat) == varint(value as nat),
        decreases n,
    {
        let byte = (n % 128) as u8 + 128;
        out.push(byte);
        let ghost n_prev: nat = n as nat;
        n = n / 128;
        proof {
            assert(varint(n_prev) == seq![(n_prev % 128 + 128) as u8] + varint(n_prev / 128));
            assert(byte == (n_prev % 128 + 128) as u8);
            assert(out@ + varint(n as nat) =~= varint(value as nat));
        }
    }
    out.push(n as u8);
    proof {
        assert(varint(n as nat) =~= seq![n as u8]);
        assert(out@ =~= varint(value as nat));
    }
    out
}

/// A request that takes no arguments.
pub fn call0(service: &str, procedure: &str) -> (c: ProcCall)
    ensures
        c.service@ == service@,
        c.procedure@ == procedure@,
        c.args@.len() == 0,
{
    ProcCall {
        service: String::from_str(service),
        procedure: String::from_str(procedure),
        args: Vec::new(),
    }
}

/// A request with one encoded argument at position zero.
pub fn call1(service: &str, procedure: &str, arg: Vec<u8>) -> (c: ProcCall)
    ensures
        c.service@ == service@,
        c.procedure@ == procedure@,
        c.args@.len() == 1,
        c.args@[0] == arg,
{
    let mut args: Vec<Vec<u8>> = Vec::new();
    args.push(arg);
    ProcCall {
        service: String::from_str(service),
        procedure: String::from_str(procedure),
        args,
    }
}

} // verus!
