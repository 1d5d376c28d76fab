use vstd::prelude::*;

verus! {

/// The variance of a generic parameter.
#[derive(Clone, Copy, Debug, PartialEq, Eq, Structural)]
pub enum GenericParamVariance {
    NonVariant,
    Covariant,
    Contravariant,
}

impl GenericParamVariance {
    /// The number that stands for this value in the flags.
    pub open spec fn spec_value(self) -> u16 {
        match self {
            GenericParamVariance::NonVariant => 0x0,
            GenericParamVariance::Covariant => 0x1,
            GenericParamVariance::Contravariant => 0x2,
        }
    }

    /// The value that the number `v` stands for, if it stands for one.
    pub open spec fn spec_from_u16(v: u16) -> Option<GenericParamVariance> {
        if v == 0x0 {
            Some(GenericParamVariance::NonVariant)
        } else if v == 0x1 {
            Some(GenericParamVariance::Covariant)
        } else if v == 0x2 {
            Some(GenericParamVariance::Contravariant)
        } else {
            None
        }
    }

    /// The number that stands for this value in the flags.
    pub fn value(self) -> (r: u16)
        ensures
            r == self.spec_value(),
            GenericParamVariance::spec_from_u16(r) == Some(self),
    {
        match self {
            GenericParamVariance::NonVariant => 0x0,
            GenericParamVariance::Covariant => 0x1,
            GenericParamVariance::Contravariant => 0x2,
        }
    }

    /// The value that the number `v` stands for, if it stands for one.
    pub fn from_u16(v: u16) -> (r: Option<GenericParamVariance>)
        ensures
            r == GenericParamVariance::spec_from_u16(v),
    {
        match v {
            0x0 => Some(GenericParamVariance::NonVariant),
            0x1 => Some(GenericParamVariance::Covariant),
            0x2 => Some(GenericParamVariance::Contravariant),
            _ => None,
        }
    }
}

/// The special constraint of a generic parameter.
#[derive(Clone, Copy, Debug, PartialEq, Eq, Structural)]
pub enum GenericParamSpecialConstraint {
    ReferenceTypeConstraint,
    NotNullableValueTypeConstraint,
    DefaultConstructorConstraint,
}

impl GenericParamSpecialConstraint {
    /// The number that stands for this value in the flags.
    pub open spec fn spec_value(self) -> u16 {
        match self {
            GenericParamSpecialConstraint::ReferenceTypeConstraint => 0x4,
            GenericParamSpecialConstraint::NotNullableValueTypeConstraint => 0x8,
            GenericParamSpecialConstraint::DefaultConstructorConstraint => 0x10,
        }
    }

    /// The value that the number `v` stands for, if it stands for one.
    pub open spec fn spec_from_u16(v: u16) -> Option<GenericParamSpecialConstraint> {
        if v == 0x4 {
            Some(GenericParamSpecialConstraint::ReferenceTypeConstraint)
        } else if v == 0x8 {
            Some(GenericParamSpecialConstraint::NotNullableValueTypeConstraint)
        } else if v == 0x10 {
            Some(GenericParamSpecialConstraint::DefaultConstructorConstraint)
        } else {
            None
        }
    }

    /// The number that stands for this value in the flags.
    pub fn value(self) -> (r: u16)
        ensures
            r == self.spec_value(),
            GenericParamSpecialConstraint::spec_from_u16(r) == Some(self),
    {
        match self {
            GenericParamSpecialConstraint::ReferenceTypeConstraint => 0x4,
            GenericParamSpecialConstraint::NotNullableValueTypeConstraint => 0x8,
            GenericParamSpecialConstraint::DefaultConstructorConstraint => 0x10,
        }
    }

    /// The value that the number `v` stands for, if it stands for one.
    pub fn from_u16(v: u16) -> (r: Option<GenericParamSpecialConstraint>)
        ensures
            r == GenericParamSpecialConstraint::spec_from_u16(v),
    {
        match v {
            0x4 => Some(GenericParamSpecialConstraint::ReferenceTypeConstraint),
            0x8 => Some(GenericParamSpecialConstraint::NotNullableValueTypeConstraint),
            0x10 => Some(GenericParamSpecialConstraint::DefaultConstructorConstraint),
            _ => None,
        }
    }
}

/// The flags of a generic parameter.
#[derive(Clone, Copy, Debug, PartialEq, Eq, Structural)]
pub struct GenericParamAttributes(pub u16);

impl GenericParamAttributes {
    /// The variance of the parameter. The two variance bits are never both set.
    pub fn variance(&self) -> (r: GenericParamVariance)
        requires
            GenericParamVariance::spec_from_u16(self.0 & 0x3) is Some,
        ensures
            Some(r) == GenericParamVariance::spec_from_u16(self.0 & 0x3),
    {
        match GenericParamVariance::from_u16(self.0 & 0x3) {
            Some(v) => v,
            None => GenericParamVariance::NonVariant,
        }
    }

    /// The special constraint of the parameter. Exactly one of the three constraint bits is set.
    pub fn special_constraint(&self) -> (r: GenericParamSpecialConstraint)
        requires
            GenericParamSpecialConstraint::spec_from_u16(self.0 & 0x1c) is Some,
        ensures
            Some(r) == GenericParamSpecialConstraint::spec_from_u16(self.0 & 0x1c),
    {
        match GenericParamSpecialConstraint::from_u16(self.0 & 0x1c) {
            Some(v) => v,
            None => GenericParamSpecialConstraint::ReferenceTypeConstraint,
        }
    }

}

} // verus!
