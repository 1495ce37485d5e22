//! Pads a payload with zero bytes to fill a canvas exactly, and recovers the
//! stored bytes verbatim.
//!
//! Byte `i` of the packed buffer is channel `i % components` of pixel
//! `i / components`, pixels in row-major order, so packing is concatenation:
//! the payload followed by zeros up to the canvas capacity. No length is
//! recorded, so unpacking cannot strip the padding; it returns every channel
//! byte of the canvas.

use vstd::prelude::*;

verus! {

use crate::errors::CapacityError;
use crate::options::ImageColor;
use crate::planner::spec_num_components;

/// `data` followed by zero bytes up to a total length of `len`.
pub open spec fn spec_padded(data: Seq<u8>, len: nat) -> Seq<u8>
    recommends
        data.len() <= len,
{
    data + Seq::new((len - data.len()) as nat, |i: int| 0u8)
}

/// Appends zero bytes to `data` until it is exactly `length` bytes long.
pub fn pad_data(data: Vec<u8>, length: usize) -> (r: Vec<u8>)
    requires
        data@.len() <= length,
    ensures
        r@ == spec_padded(data@, length as nat),
        r@.len() == length,
        forall|i: int| 0 <= i < data@.len() ==> r@[i] == data@[i],
        forall|i: int| data@.len() <= i < length ==> r@[i] == 0u8,
{
    let ghost orig: Seq<u8> = data@;
    let mut out = data;
    while out.len() < length
        invariant
            out@.len() <= length,
            out@.len() >= orig.len(),
            out@.subrange(0, orig.len() as int) == orig,
            forall|i: int| orig.len() <= i < out@.len() ==> out@[i] == 0u8,
        decreases length - out@.len(),
    {
        out.push(0u8);
        proof {
            assert(out@.subrange(0, orig.len() as int)
                =~= out@.drop_last().subrange(0, orig.len() as int));
        }
    }
    proof {
        assert(out@ =~= spec_padded(orig, length as nat));
    }
    out
}

/// Capacity of a canvas in channel bytes.
pub open spec fn spec_capacity(width: nat, height: nat, color: ImageColor) -> nat {
    width * height * spec_num_components(color)
}

/// Packs `payload` into a pixel buffer for a `width`-by-`height` canvas of
/// color format `color`: the payload followed by zero bytes, filling the
/// canvas's capacity exactly. Fails when the canvas is too small for the
/// payload; a canvas from `img_dimensions` never is.
pub fn pack(payload: Vec<u8>, width: u32, height: u32, color: ImageColor) -> (r: Result<
    Vec<u8>,
    CapacityError,
>)
    requires
        spec_capacity(width as nat, height as nat, color) <= usize::MAX,
    ensures
        ({
            let cap = spec_capacity(width as nat, height as nat, color);
            &&& r is Ok <==> payload@.len() <= cap
            &&& r is Ok ==> r->Ok_0@ == spec_padded(payload@, cap)
            &&& r is Ok ==> r->Ok_0@.len() == cap
            &&& r is Ok ==> forall|i: int|
                payload@.len() <= i < cap ==> r->Ok_0@[i] == 0u8
        }),
{
    let c = crate::planner::num_components(color);
    proof {
        let w = width as int;
        let h = height as int;
        let ci = c as int;
        assert(w * h <= w * h * ci) by (nonlinear_arith)
            requires
                w >= 0,
                h >= 0,
                ci >= 1,
        ;
    }
    let cap: usize = (width as u64 * height as u64 * c as u64) as usize;
    if payload.len() > cap {
        Err(CapacityError)
    } else {
        Ok(pad_data(payload, cap))
    }
}

/// Returns the canvas's channel bytes verbatim, in linear order. Trailing
/// zero padding is indistinguishable from payload bytes and is kept.
pub fn unpack(pixels: Vec<u8>) -> (r: Vec<u8>)
    ensures
        r@ == pixels@,
{
    pixels
}

/// An exact-fit payload comes back unchanged: when the payload already fills
/// the canvas's capacity, packing appends nothing, and unpacking returns the
/// packed buffer verbatim, so the round trip is the identity.
pub proof fn lemma_exact_fit_round_trip(payload: Seq<u8>, cap: nat)
    requires
        payload.len() == cap,
    ensures
        spec_padded(payload, cap) == payload,
{
    assert(spec_padded(payload, cap) =~= payload);
}

} // verus!
