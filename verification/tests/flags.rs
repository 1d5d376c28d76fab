use climeta::schema::flags::AssemblyAttributes;
use climeta::schema::flags::CodeType;
use climeta::schema::flags::EventAttributes;
use climeta::schema::flags::FieldAttributes;
use climeta::schema::flags::GenericParamAttributes;
use climeta::schema::flags::GenericParamSpecialConstraint;
use climeta::schema::flags::GenericParamVariance;
use climeta::schema::flags::Managed;
use climeta::schema::flags::MemberAccess;
use climeta::schema::flags::MethodAttributes;
use climeta::schema::flags::MethodImplAttributes;
use climeta::schema::flags::MethodSemanticsAttributes;
use climeta::schema::flags::ParamAttributes;
use climeta::schema::flags::PropertyAttributes;
use climeta::schema::flags::StringFormat;
use climeta::schema::flags::TypeAttributes;
use climeta::schema::flags::TypeLayout;
use climeta::schema::flags::TypeSemantics;
use climeta::schema::flags::TypeVisibility;
use climeta::schema::flags::VtableLayout;

/// The accessors that answer `true` for the value with only the bit `bit` set.
fn set_bits(bits: u32, answers: &dyn Fn(u32) -> Vec<bool>) -> Vec<Vec<usize>> {
    (0..bits)
        .map(|bit| {
            answers(1 << bit).iter().enumerate().filter(|(_, a)| **a).map(|(i, _)| i).collect()
        })
        .collect()
}

#[test]
fn type_attribute_bits() {
    let answers = |v: u32| {
        let a = TypeAttributes(v);
        vec![
            a.abstract_(),
            a.sealed(),
            a.special_name(),
            a.import(),
            a.serializable(),
            a.windows_runtime(),
            a.before_field_init(),
            a.rt_special_name(),
            a.has_security(),
            a.is_type_forwarder(),
        ]
    };
    let expected = [7usize, 8, 10, 12, 13, 14, 20, 11, 18, 21];
    let found = set_bits(32, &answers);
    for bit in 0..32 {
        let want: Vec<usize> =
            expected.iter().enumerate().filter(|(_, b)| **b == bit).map(|(i, _)| i).collect();
        assert_eq!(found[bit], want, "bit {}", bit);
    }
    assert!(answers(0).iter().all(|a| !a));
    assert!(answers(u32::MAX & !0x18).iter().all(|a| *a));
}

#[test]
fn type_attribute_fields() {
    let visibility = [
        TypeVisibility::NotPublic,
        TypeVisibility::Public,
        TypeVisibility::NestedPublic,
        TypeVisibility::NestedPrivate,
        TypeVisibility::NestedFamily,
        TypeVisibility::NestedAssembly,
        TypeVisibility::NestedFamANDAssem,
        TypeVisibility::NestedFamORAssem,
    ];
    for (v, want) in visibility.iter().enumerate() {
        assert_eq!(TypeAttributes(v as u32).visibility(), *want);
        assert_eq!(TypeAttributes(v as u32 | 0xffff_ffe0).visibility(), *want);
        assert_eq!(want.value(), v as u32);
        assert_eq!(TypeVisibility::from_u32(v as u32), Some(*want));
    }
    assert_eq!(TypeVisibility::from_u32(8), None);
    assert_eq!(TypeAttributes(0x00).layout(), TypeLayout::AutoLayout);
    assert_eq!(TypeAttributes(0x08).layout(), TypeLayout::SequentialLayout);
    assert_eq!(TypeAttributes(0x10).layout(), TypeLayout::ExplicitLayout);
    assert_eq!(TypeAttributes(0xffff_fff7).layout(), TypeLayout::ExplicitLayout);
    assert_eq!(TypeLayout::from_u32(0x18), None);
    assert_eq!(TypeAttributes(0x00).semantics(), TypeSemantics::Class);
    assert_eq!(TypeAttributes(0x20).semantics(), TypeSemantics::Interface);
    assert_eq!(TypeAttributes(0xffff_ffdf).semantics(), TypeSemantics::Class);
    assert_eq!(TypeAttributes(0x0000_0000).string_format(), StringFormat::AnsiClass);
    assert_eq!(TypeAttributes(0x0001_0000).string_format(), StringFormat::UnicodeClass);
    assert_eq!(TypeAttributes(0x0002_0000).string_format(), StringFormat::AutoClass);
    assert_eq!(TypeAttributes(0x0003_0000).string_format(), StringFormat::CustomFormatClass);
    assert_eq!(TypeAttributes(0x00C0_0000).string_format(), StringFormat::AnsiClass);
    assert_eq!(StringFormat::CustomFormatMask.value(), 0x00C0_0000);
    let point = TypeAttributes(0x0010_4109);
    assert_eq!(point.visibility(), TypeVisibility::Public);
    assert_eq!(point.layout(), TypeLayout::SequentialLayout);
    assert!(point.sealed() && point.windows_runtime() && point.before_field_init());
    assert!(!point.abstract_());
}

#[test]
fn method_attribute_bits() {
    let answers = |v: u32| {
        let a = MethodAttributes(v as u16);
        vec![
            a.static_(),
            a.final_(),
            a.virtual_(),
            a.hide_by_sig(),
            a.strict(),
            a.abstract_(),
            a.special_name(),
            a.pinvoke_impl(),
            a.unmanaged_export(),
            a.rt_special_name(),
            a.has_security(),
            a.require_sec_object(),
        ]
    };
    let expected = [4usize, 5, 6, 7, 9, 10, 11, 13, 3, 12, 14, 15];
    let found = set_bits(16, &answers);
    for bit in 0..16 {
        let want: Vec<usize> =
            expected.iter().enumerate().filter(|(_, b)| **b == bit).map(|(i, _)| i).collect();
        assert_eq!(found[bit], want, "bit {}", bit);
    }
    let access = [
        MemberAccess::CompilerControlled,
        MemberAccess::Private,
        MemberAccess::FamAndAssem,
        MemberAccess::Assembly,
        MemberAccess::Family,
        MemberAccess::FamOrAssem,
        MemberAccess::Public,
    ];
    for (v, want) in access.iter().enumerate() {
        assert_eq!(MethodAttributes(v as u16 | 0xfff8).access(), *want);
        assert_eq!(FieldAttributes(v as u16).access(), *want);
        assert_eq!(want.value(), v as u16);
    }
    assert_eq!(MemberAccess::from_u16(7), None);
    assert_eq!(MethodAttributes(0x0000).layout(), VtableLayout::ReuseSlot);
    assert_eq!(MethodAttributes(0x0100).layout(), VtableLayout::NewSlot);
    assert_eq!(MethodAttributes(0xfeff).layout(), VtableLayout::ReuseSlot);
}

#[test]
fn method_impl_attribute_bits() {
    let answers = |v: u32| {
        let a = MethodImplAttributes(v as u16);
        vec![
            a.forward_ref(),
            a.preserve_sig(),
            a.internal_call(),
            a.synchronized(),
            a.no_inlining(),
            a.no_optimization(),
        ]
    };
    let expected = [4usize, 7, 12, 5, 3, 6];
    let found = set_bits(16, &answers);
    for bit in 0..16 {
        let want: Vec<usize> =
            expected.iter().enumerate().filter(|(_, b)| **b == bit).map(|(i, _)| i).collect();
        assert_eq!(found[bit], want, "bit {}", bit);
    }
    assert_eq!(MethodImplAttributes(0).code_type(), CodeType::IL);
    assert_eq!(MethodImplAttributes(1).code_type(), CodeType::Native);
    assert_eq!(MethodImplAttributes(2).code_type(), CodeType::OPTIL);
    assert_eq!(MethodImplAttributes(0xffff).code_type(), CodeType::Runtime);
    assert_eq!(MethodImplAttributes(0).managed(), Managed::Managed);
    assert_eq!(MethodImplAttributes(4).managed(), Managed::Unmanaged);
    assert_eq!(MethodImplAttributes(0xfffb).managed(), Managed::Managed);
    assert_eq!(Managed::Unmanaged.value(), 4);
}

#[test]
fn field_attribute_bits() {
    let answers = |v: u32| {
        let a = FieldAttributes(v as u16);
        vec![
            a.static_(),
            a.init_only(),
            a.literal(),
            a.not_serialized(),
            a.special_name(),
            a.pinvoke_impl(),
            a.rt_special_name(),
            a.has_field_marshal(),
            a.has_default(),
            a.has_field_rva(),
        ]
    };
    let expected = [4usize, 5, 6, 7, 9, 13, 10, 12, 15, 8];
    let found = set_bits(16, &answers);
    for bit in 0..16 {
        let want: Vec<usize> =
            expected.iter().enumerate().filter(|(_, b)| **b == bit).map(|(i, _)| i).collect();
        assert_eq!(found[bit], want, "bit {}", bit);
    }
    let literal = FieldAttributes(0x8056);
    assert!(literal.static_() && literal.literal() && literal.has_default());
    assert_eq!(literal.access(), MemberAccess::Public);
}

#[test]
fn small_attribute_bits() {
    let check = |answers: &dyn Fn(u32) -> Vec<bool>, expected: &[usize]| {
        let found = set_bits(16, answers);
        for bit in 0..16 {
            let want: Vec<usize> =
                expected.iter().enumerate().filter(|(_, b)| **b == bit).map(|(i, _)| i).collect();
            assert_eq!(found[bit], want, "bit {}", bit);
        }
    };
    check(
        &|v| {
            let a = ParamAttributes(v as u16);
            vec![a.in_(), a.out(), a.optional(), a.has_default(), a.has_field_marshal()]
        },
        &[0, 1, 4, 12, 13],
    );
    check(
        &|v| {
            let a = PropertyAttributes(v as u16);
            vec![a.special_name(), a.rt_special_name(), a.has_default()]
        },
        &[9, 10, 12],
    );
    check(
        &|v| {
            let a = EventAttributes(v as u16);
            vec![a.special_name(), a.rt_special_name()]
        },
        &[9, 10],
    );
    check(
        &|v| {
            let a = MethodSemanticsAttributes(v as u16);
            vec![a.setter(), a.getter(), a.other(), a.add_on(), a.remove_on(), a.fire()]
        },
        &[0, 1, 2, 3, 4, 5],
    );
    check(&|v| vec![AssemblyAttributes(v as u16).windows_runtime()], &[9]);
}

#[test]
fn generic_param_attribute_fields() {
    assert_eq!(GenericParamAttributes(0x0000).variance(), GenericParamVariance::NonVariant);
    assert_eq!(GenericParamAttributes(0x0001).variance(), GenericParamVariance::Covariant);
    assert_eq!(GenericParamAttributes(0xfffe).variance(), GenericParamVariance::Contravariant);
    assert_eq!(GenericParamVariance::from_u16(3), None);
    assert_eq!(
        GenericParamAttributes(0x0004).special_constraint(),
        GenericParamSpecialConstraint::ReferenceTypeConstraint
    );
    assert_eq!(
        GenericParamAttributes(0x0008).special_constraint(),
        GenericParamSpecialConstraint::NotNullableValueTypeConstraint
    );
    assert_eq!(
        GenericParamAttributes(0xfff3).special_constraint(),
        GenericParamSpecialConstraint::DefaultConstructorConstraint
    );
    assert_eq!(GenericParamSpecialConstraint::from_u16(0), None);
    assert_eq!(GenericParamSpecialConstraint::from_u16(0x0c), None);
    assert_eq!(GenericParamSpecialConstraint::DefaultConstructorConstraint.value(), 0x10);
}
