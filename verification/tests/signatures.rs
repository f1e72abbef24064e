use cranelift_codegen::ir::types::{F64, I32, I64};
use cranelift_codegen::isa::CallConv;
use wasmjit_environ::signature::{
    translate_signature, AbiParam, ArgumentExtension, ArgumentLoc, ArgumentPurpose, Signature,
};

fn normal_param(value_type: cranelift_codegen::ir::Type) -> AbiParam {
    AbiParam {
        value_type,
        purpose: ArgumentPurpose::Normal,
        extension: ArgumentExtension::Unextended,
        location: ArgumentLoc::Unassigned,
    }
}

#[test]
fn special_param_is_unextended_and_unassigned() {
    let param = AbiParam::special(I64, ArgumentPurpose::VMContext);
    assert_eq!(param.value_type, I64);
    assert_eq!(param.purpose, ArgumentPurpose::VMContext);
    assert_eq!(param.extension, ArgumentExtension::Unextended);
    assert_eq!(param.location, ArgumentLoc::Unassigned);
}

#[test]
fn context_param_is_put_in_front() {
    let sig = Signature {
        params: vec![normal_param(I32), normal_param(F64)],
        returns: vec![normal_param(I32)],
        call_conv: CallConv::SystemV,
    };
    let translated = translate_signature(sig, I64);
    assert_eq!(
        translated.params,
        vec![
            AbiParam::special(I64, ArgumentPurpose::VMContext),
            normal_param(I32),
            normal_param(F64),
        ]
    );
    assert_eq!(translated.returns, vec![normal_param(I32)]);
    assert_eq!(translated.call_conv, CallConv::SystemV);
}

#[test]
fn signature_without_params_gets_the_context_param() {
    let sig = Signature { params: vec![], returns: vec![], call_conv: CallConv::Fast };
    let translated = translate_signature(sig, I32);
    assert_eq!(translated.params, vec![AbiParam::special(I32, ArgumentPurpose::VMContext)]);
    assert!(translated.returns.is_empty());
    assert_eq!(translated.call_conv, CallConv::Fast);
}

#[test]
fn translated_signature_has_one_context_param() {
    for count in 0..5usize {
        let sig = Signature {
            params: vec![normal_param(I32); count],
            returns: vec![normal_param(I64)],
            call_conv: CallConv::SystemV,
        };
        let translated = translate_signature(sig, I64);
        assert_eq!(translated.params.len(), count + 1);
        assert_eq!(translated.params[0].purpose, ArgumentPurpose::VMContext);
        let contexts = translated
            .params
            .iter()
            .filter(|param| param.purpose == ArgumentPurpose::VMContext)
            .count();
        assert_eq!(contexts, 1);
    }
}

#[test]
fn a_second_translation_adds_a_second_context_param() {
    let sig = Signature {
        params: vec![normal_param(I32)],
        returns: vec![],
        call_conv: CallConv::SystemV,
    };
    let twice = translate_signature(translate_signature(sig, I64), I64);
    let context = AbiParam::special(I64, ArgumentPurpose::VMContext);
    assert_eq!(twice.params, vec![context, context, normal_param(I32)]);
}

#[test]
fn translate_signature_is_at_hand_beside_the_listener() {
    let sig =
        Signature { params: vec![], returns: vec![normal_param(I32)], call_conv: CallConv::Cold };
    let translated = wasmjit_environ::module_environ::translate_signature(sig, I64);
    assert_eq!(translated.params.len(), 1);
    assert_eq!(translated.params[0].value_type, I64);
    assert_eq!(translated.returns, vec![normal_param(I32)]);
    let again = wasmjit_environ::translate_signature(translated, I64);
    assert_eq!(again.params.len(), 2);
}
