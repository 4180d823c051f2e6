//! Sample decoder: conversion of interleaved signed 8-bit I/Q byte pairs
//! into complex values.

use vstd::prelude::*;

verus! {

/// The complex-number type of the `num_complex` crate, declared with its
/// two public fields visible so contracts can speak of the real and
/// imaginary parts.
#[verifier::external_type_specification]
pub struct ExComplex<T>(num_complex::Complex<T>);

/// Convert an I/Q sample pair to a complex number: each byte is
/// reinterpreted as a signed 8-bit two's-complement value, the first as the
/// real (in-phase) part and the second as the imaginary (quadrature) part.
pub fn iq_to_cplx_i8(i: u8, q: u8) -> (c: num_complex::Complex<i8>)
    ensures
        c.re == i as i8,
        c.im == q as i8,
{
    num_complex::Complex { re: i as i8, im: q as i8 }
}

} // verus!
