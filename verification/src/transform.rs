//! The protocol transformer's structural conversion: the payload is
//! re-enveloped under the target protocol, keeping the source protocol for
//! provenance. The conversion works on the serialized payload bytes, so the
//! whole reshaping is plain data.

use vstd::prelude::*;

verus! {

/// The bytes of `{"target":"`.
pub open spec fn env_open() -> Seq<u8> {
    seq![123u8, 34u8, 116u8, 97u8, 114u8, 103u8, 101u8, 116u8, 34u8, 58u8, 34u8]
}

/// The bytes of `","source":"`.
pub open spec fn env_source() -> Seq<u8> {
    seq![34u8, 44u8, 34u8, 115u8, 111u8, 117u8, 114u8, 99u8, 101u8, 34u8, 58u8, 34u8]
}

/// The bytes of `","body":`.
pub open spec fn env_body() -> Seq<u8> {
    seq![34u8, 44u8, 34u8, 98u8, 111u8, 100u8, 121u8, 34u8, 58u8]
}

/// The bytes of `}`.
pub open spec fn env_close() -> Seq<u8> {
    seq![125u8]
}

/// The converted form: the payload bytes wrapped in an envelope naming the
/// target protocol and the source it was converted from. When the payload
/// and the protocol names are JSON text, the result is the JSON object
/// `{"target":"<target>","source":"<source>","body":<payload>}`.
pub open spec fn envelope_spec(source: Seq<u8>, target: Seq<u8>, payload: Seq<u8>) -> Seq<u8> {
    env_open() + target + env_source() + source + env_body() + payload + env_close()
}

/// Appends every byte of `src` to `out`, in order.
fn push_bytes(out: &mut Vec<u8>, src: &[u8])
    ensures
        final(out)@ == old(out)@ + src@,
{
    let n = src.len();
    let mut i: usize = 0;
    while i < n
        invariant
            n == src@.len(),
            i <= n,
            out@ == old(out)@ + src@.subrange(0, i as int),
        decreases n - i,
    {
        out.push(src[i]);
        i += 1;
        proof {
            assert(out@ =~= old(out)@ + src@.subrange(0, i as int));
        }
    }
    proof {
        assert(out@ =~= old(out)@ + src@);
    }
}

/// Builds the envelope of `payload` converted from `source` to `target`.
/// The result is exactly `envelope_spec` of the three byte strings.
pub fn build_envelope(source: &[u8], target: &[u8], payload: &[u8]) -> (out: Vec<u8>)
    ensures
        out@ == envelope_spec(source@, target@, payload@),
{
    let mut out: Vec<u8> = Vec::new();
    out.push(123);
    out.push(34);
    out.push(116);
    out.push(97);
    out.push(114);
    out.push(103);
    out.push(101);
    out.push(116);
    out.push(34);
    out.push(58);
    out.push(34);
    proof {
        assert(out@ =~= env_open());
    }
    push_bytes(&mut out, target);
    let ghost with_target = out@;
    out.push(34);
    out.push(44);
    out.push(34);
    out.push(115);
    out.push(111);
    out.push(117);
    out.push(114);
    out.push(99);
    out.push(101);
    out.push(34);
    out.push(58);
    out.push(34);
    proof {
        assert(out@ =~= with_target + env_source());
    }
    push_bytes(&mut out, source);
    let ghost with_source = out@;
    out.push(34);
    out.push(44);
    out.push(34);
    out.push(98);
    out.push(111);
    out.push(100);
    out.push(121);
    out.push(34);
    out.push(58);
    proof {
        assert(out@ =~= with_source + env_body());
    }
    push_bytes(&mut out, payload);
    out.push(125);
    proof {
        assert(out@ =~= envelope_spec(source@, target@, payload@));
    }
    out
}

} // verus!
