use vstd::prelude::*;

use crate::errors::ValidationError;

verus! {

/// A non-negative amount of money in minor currency units.
///
/// Prices are kept as integers throughout the library so that no
/// rounding can drift; the persistence layer converts to and from its
/// decimal column type at the boundary.
#[derive(Clone, Copy, Debug, PartialEq, Eq, Structural)]
pub struct Price(i64);

impl Price {
    /// The amount this price holds.
    pub closed spec fn spec_amount(self) -> i64 {
        self.0
    }

    /// Every constructed price is non-negative.
    pub open spec fn wf(self) -> bool {
        self.spec_amount() >= 0
    }

    /// Accepts exactly the non-negative amounts.
    pub fn new(amount: i64) -> (r: Result<Price, ValidationError>)
        ensures
            r is Ok <==> amount >= 0,
            r matches Ok(p) ==> p.spec_amount() == amount && p.wf(),
            r is Err ==> r == Err::<Price, ValidationError>(ValidationError::NegativePrice),
    {
        if amount < 0 {
            return Err(ValidationError::NegativePrice);
        }
        Ok(Price(amount))
    }

    pub fn amount(&self) -> (r: i64)
        ensures
            r == self.spec_amount(),
    {
        self.0
    }
}

/// The registration plate of the bike an order is about.
#[derive(Clone, Debug, PartialEq, Eq)]
pub struct LicensePlate(String);

impl View for LicensePlate {
    type V = Seq<char>;

    closed spec fn view(&self) -> Seq<char> {
        self.0@
    }
}

impl LicensePlate {
    /// Accepts exactly the non-empty plate strings.
    pub fn new(plate: String) -> (r: Result<LicensePlate, ValidationError>)
        ensures
            r is Ok <==> plate@.len() > 0,
            r matches Ok(p) ==> p@ == plate@,
            r is Err ==> r == Err::<LicensePlate, ValidationError>(
                ValidationError::EmptyLicensePlate,
            ),
    {
        if plate.as_str().is_empty() {
            return Err(ValidationError::EmptyLicensePlate);
        }
        Ok(LicensePlate(plate))
    }

    pub fn value(&self) -> (r: &str)
        ensures
            r@ == self@,
    {
        self.0.as_str()
    }
}

/// An already-hashed password in PHC string form, never the password itself.
#[derive(Clone, Debug, PartialEq, Eq)]
pub struct PasswordHash(String);

impl View for PasswordHash {
    type V = Seq<char>;

    closed spec fn view(&self) -> Seq<char> {
        self.0@
    }
}

impl PasswordHash {
    pub fn new(hash: String) -> (r: PasswordHash)
        ensures
            r@ == hash@,
    {
        PasswordHash(hash)
    }

    pub fn value(&self) -> (r: &str)
        ensures
            r@ == self@,
    {
        self.0.as_str()
    }
}

} // verus!
