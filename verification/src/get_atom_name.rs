//! The GetAtomName request: decoding its fixed header from wire bytes and
//! building the reply frame that carries the resolved name.
//!
//! All multi-byte wire fields are little endian. The surrounding program
//! resolves the atom id against the atom table and writes the produced
//! bytes to the client's ordered byte sink.

use crate::protocol::pad;
use crate::protocol::spec_pad;
use crate::protocol::HandleError;
use crate::protocol::ProtocolError;
use crate::protocol::REPLY_TYPE_REPLY;
use vstd::prelude::*;

verus! {

/// The two little-endian bytes of a 16-bit value.
pub open spec fn u16_le(x: u16) -> Seq<u8> {
    seq![(x as int % 256) as u8, (x as int / 256) as u8]
}

/// The four little-endian bytes of a 32-bit value.
pub open spec fn u32_le(x: u32) -> Seq<u8> {
    seq![
        (x as int % 256) as u8,
        (x as int / 256 % 256) as u8,
        (x as int / 65536 % 256) as u8,
        (x as int / 16777216 % 256) as u8,
    ]
}

/// The 32-bit value read little-endian from four bytes.
pub open spec fn u32_of_le(b0: u8, b1: u8, b2: u8, b3: u8) -> u32 {
    (b0 + b1 * 256 + b2 * 65536 + b3 * 16777216) as u32
}

/// The complete reply to a request whose atom resolved to `name`: a 32-byte
/// header carrying the reply tag, the echoed sequence number, the reply
/// length in 4-byte words covering everything after the header, and the name
/// length; then the raw name bytes; then zero padding to a multiple of 4.
pub open spec fn spec_reply(seq_nbr: u16, name: Seq<u8>) -> Seq<u8>
    recommends
        name.len() <= 0xFFFF,
{
    seq![REPLY_TYPE_REPLY, 0u8] + u16_le(seq_nbr) + u32_le(
        ((name.len() + spec_pad(name.len() as int)) / 4) as u32,
    ) + u16_le(name.len() as u16) + Seq::new(22, |i: int| 0u8) + name + Seq::new(
        spec_pad(name.len() as int) as nat,
        |i: int| 0u8,
    )
}

/// Structure representing the request.
pub struct GetAtomName {
    /// The atom whose name is asked for.
    atom: u32,
}

/// Parses `GetAtomName`. A body shorter than the fixed 4-byte header only
/// means more bytes are needed, not a protocol violation.
pub fn read(buff: &[u8], _opcode_extra: u8) -> (r: Result<Option<GetAtomName>, ProtocolError>)
    ensures
        buff@.len() < 4 ==> r == Ok::<Option<GetAtomName>, ProtocolError>(None),
        buff@.len() >= 4 ==> (r matches Ok(o) && o matches Some(g) && g.spec_atom() == u32_of_le(
            buff@[0],
            buff@[1],
            buff@[2],
            buff@[3],
        )),
{
    if buff.len() < 4 {
        return Ok(None);
    }
    let atom = buff[0] as u32 + buff[1] as u32 * 256 + buff[2] as u32 * 65536 + buff[3] as u32
        * 16777216;
    Ok(Some(GetAtomName { atom }))
}

impl GetAtomName {
    /// The atom id the request carries.
    pub closed spec fn spec_atom(&self) -> u32 {
        self.atom
    }

    /// Returns the atom id the request carries, the key the atom table is
    /// asked to resolve.
    pub fn get_atom(&self) -> (r: u32)
        ensures
            r == self.spec_atom(),
    {
        self.atom
    }

    /// Handles the request. `name` is what the atom table resolved the
    /// request's atom id to. A resolved name yields exactly the reply bytes
    /// of [`spec_reply`]; an unresolved id yields the recoverable
    /// unknown-atom client error, and no normal reply is produced.
    pub fn handle(&self, name: Option<&Vec<u8>>, seq_nbr: u16) -> (r: Result<Vec<u8>, HandleError>)
        requires
            name matches Some(n) ==> n@.len() <= 0xFFFF,
        ensures
            name is None ==> r == Err::<Vec<u8>, HandleError>(
                HandleError::Client(ProtocolError::UnknownAtom(self.spec_atom())),
            ),
            name matches Some(n) ==> (r matches Ok(reply) && reply@ == spec_reply(seq_nbr, n@)),
    {
        let name = match name {
            Some(n) => n,
            None => {
                return Err(HandleError::Client(ProtocolError::UnknownAtom(self.atom)));
            },
        };
        let len = name.len();
        let p = pad(len);
        let reply_length = ((len + p) / 4) as u32;
        let ghost hdr = seq![REPLY_TYPE_REPLY, 0u8] + u16_le(seq_nbr) + u32_le(reply_length)
            + u16_le(len as u16);
        let mut out: Vec<u8> = Vec::new();
        out.push(REPLY_TYPE_REPLY);
        out.push(0);
        out.push((seq_nbr % 256) as u8);
        out.push((seq_nbr / 256) as u8);
        out.push((reply_length % 256) as u8);
        out.push((reply_length / 256 % 256) as u8);
        out.push((reply_length / 65536 % 256) as u8);
        out.push((reply_length / 16777216 % 256) as u8);
        out.push((len % 256) as u8);
        out.push((len / 256) as u8);
        proof {
            assert(out@ =~= hdr);
        }
        let ghost hdr_full = hdr + Seq::new(22, |i: int| 0u8);
        let mut i: usize = 0;
        while i < 22
            invariant
                i <= 22,
                out@ == hdr + Seq::new(i as nat, |q: int| 0u8),
            decreases 22 - i,
        {
            out.push(0);
            proof {
                assert(out@ =~= hdr + Seq::new((i + 1) as nat, |q: int| 0u8));
            }
            i += 1;
        }
        proof {
            assert(out@ == hdr_full);
        }
        let mut k: usize = 0;
        while k < len
            invariant
                k <= len,
                len == name@.len(),
                out@ == hdr_full + name@.take(k as int),
            decreases len - k,
        {
            out.push(name[k]);
            proof {
                assert(out@ =~= hdr_full + name@.take(k + 1));
            }
            k += 1;
        }
        proof {
            assert(name@.take(len as int) =~= name@);
        }
        let ghost with_name = hdr_full + name@;
        let mut z: usize = 0;
        while z < p
            invariant
                z <= p,
                out@ == with_name + Seq::new(z as nat, |q: int| 0u8),
            decreases p - z,
        {
            out.push(0);
            proof {
                assert(out@ =~= with_name + Seq::new((z + 1) as nat, |q: int| 0u8));
            }
            z += 1;
        }
        proof {
            assert(out@ =~= spec_reply(seq_nbr, name@));
        }
        Ok(out)
    }
}

} // verus!
