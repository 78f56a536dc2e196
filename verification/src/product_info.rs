//! Product information metadata.

use vstd::prelude::*;

verus! {

/// Product information of the station, as carried by the product
/// information group: protocol level, product code, naming strings,
/// certification level and load equivalence number.
pub struct ProductInfo<'a> {
    /// Network protocol level.
    pub n2k: u8,
    /// Manufacturer's product code.
    pub code: u8,
    /// Model identification.
    pub model: &'a str,
    /// Software version identification.
    pub software: &'a str,
    /// Model version identification.
    pub version: &'a str,
    /// Model serial code.
    pub serial: &'a str,
    /// Certification level.
    pub certification: u8,
    /// Load equivalence number.
    pub load: u8,
}

impl<'a> ProductInfo<'a> {
    /// Collects the product information fields into one value.
    pub fn new(
        n2k: u8,
        code: u8,
        model: &'a str,
        software: &'a str,
        version: &'a str,
        serial: &'a str,
        certification: u8,
        load: u8,
    ) -> (r: ProductInfo<'a>)
        ensures
            r == (ProductInfo { n2k, code, model, software, version, serial, certification, load }),
    {
        ProductInfo { n2k, code, model, software, version, serial, certification, load }
    }
}

} // verus!
