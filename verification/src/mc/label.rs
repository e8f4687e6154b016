use vstd::prelude::*;

verus! {

/// The brands of the label.
#[derive(Clone, Copy, Debug, PartialEq, Eq, Structural)]
pub enum Brand {
    Uncaged,
    Instinct,
    CallofTheWild,
    Silk,
    MonstercatSilkShowcase,
}

impl Brand {
    /// The number by which the service knows the brand.
    pub open spec fn spec_number(self) -> u8 {
        match self {
            Brand::Uncaged => 1,
            Brand::Instinct => 2,
            Brand::CallofTheWild => 3,
            Brand::Silk => 4,
            Brand::MonstercatSilkShowcase => 5,
        }
    }

    /// The number by which the service knows the brand.
    pub fn number(&self) -> (n: u8)
        ensures
            n == self.spec_number(),
    {
        match self {
            Brand::Uncaged => 1,
            Brand::Instinct => 2,
            Brand::CallofTheWild => 3,
            Brand::Silk => 4,
            Brand::MonstercatSilkShowcase => 5,
        }
    }

    /// The brand that the service knows by a number, if it knows one by it.
    pub fn from_number(n: u8) -> (brand: Option<Brand>)
        ensures
            match brand {
                Some(b) => b.spec_number() == n,
                None => n == 0 || n > 5,
            },
    {
        match n {
            1 => Some(Brand::Uncaged),
            2 => Some(Brand::Instinct),
            3 => Some(Brand::CallofTheWild),
            4 => Some(Brand::Silk),
            5 => Some(Brand::MonstercatSilkShowcase),
            _ => None,
        }
    }
}

} // verus!
