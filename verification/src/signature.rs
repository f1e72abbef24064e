//! Call signatures and the parameter that carries the execution context.

use cranelift_codegen::ir::Type;
use cranelift_codegen::isa::CallConv;
use vstd::prelude::*;

verus! {

/// The special purpose of a parameter or return value, or `Normal`.
#[derive(Clone, Copy, Debug, PartialEq, Eq, Hash, Structural)]
pub enum ArgumentPurpose {
    /// A value of the guest program.
    Normal,
    /// The pointer through which a large value is returned.
    StructReturn,
    /// The link register.
    Link,
    /// The frame pointer.
    FramePointer,
    /// A register that the callee saves.
    CalleeSaved,
    /// The pointer to the execution context of the sandbox.
    VMContext,
    /// The identifier of the signature that an indirect caller expects.
    SignatureId,
    /// The pointer to the stack limit.
    StackLimit,
}

/// How a small integer argument is extended to a full register.
#[derive(Clone, Copy, Debug, PartialEq, Eq, Hash, Structural)]
pub enum ArgumentExtension {
    /// No extension: the high bits are indeterminate.
    Unextended,
    /// The high bits are zero.
    Uext,
    /// The high bits replicate the sign bit.
    Sext,
}

/// Where the ABI places an argument.
#[derive(Clone, Copy, Debug, PartialEq, Eq, Hash, Structural)]
pub enum ArgumentLoc {
    /// Not yet placed.
    Unassigned,
    /// In the register unit of this number.
    Reg(u16),
    /// At this offset from the stack pointer.
    Stack(i32),
}

/// A parameter or a return value of a function.
#[derive(Clone, Copy, Debug, PartialEq, Eq, Hash)]
pub struct AbiParam {
    /// The type of the value.
    pub value_type: Type,
    /// What the value is for.
    pub purpose: ArgumentPurpose,
    /// How the value is extended to a full register.
    pub extension: ArgumentExtension,
    /// Where the value is passed.
    pub location: ArgumentLoc,
}

impl AbiParam {
    /// The parameter of the given type and purpose that is not yet bound to
    /// a location.
    pub open spec fn spec_special(value_type: Type, purpose: ArgumentPurpose) -> AbiParam {
        AbiParam {
            value_type,
            purpose,
            extension: ArgumentExtension::Unextended,
            location: ArgumentLoc::Unassigned,
        }
    }

    /// Creates a special-purpose parameter that is not yet bound to a location.
    pub fn special(value_type: Type, purpose: ArgumentPurpose) -> (param: AbiParam)
        ensures
            param == Self::spec_special(value_type, purpose),
    {
        AbiParam {
            value_type,
            purpose,
            extension: ArgumentExtension::Unextended,
            location: ArgumentLoc::Unassigned,
        }
    }
}

/// The signature of a function: what it takes, what it returns, and how it
/// is called.
#[derive(Debug, PartialEq, Eq, Hash)]
pub struct Signature {
    /// The parameters, in order.
    pub params: Vec<AbiParam>,
    /// The return values, in order.
    pub returns: Vec<AbiParam>,
    /// The calling convention.
    pub call_conv: CallConv,
}

/// What a signature holds.
pub struct SignatureView {
    /// The parameters, in order.
    pub params: Seq<AbiParam>,
    /// The return values, in order.
    pub returns: Seq<AbiParam>,
    /// The calling convention.
    pub call_conv: CallConv,
}

impl View for Signature {
    type V = SignatureView;

    open spec fn view(&self) -> SignatureView {
        SignatureView {
            params: self.params@,
            returns: self.returns@,
            call_conv: self.call_conv,
        }
    }
}

/// The parameter that hands a function its execution context.
pub open spec fn context_param(pointer_type: Type) -> AbiParam {
    AbiParam::spec_special(pointer_type, ArgumentPurpose::VMContext)
}

/// The signature with the context parameter put in front of its parameters.
pub open spec fn spec_translate_signature(sig: SignatureView, pointer_type: Type) -> SignatureView {
    SignatureView {
        params: seq![context_param(pointer_type)] + sig.params,
        returns: sig.returns,
        call_conv: sig.call_conv,
    }
}

/// Adds the parameter for the execution context in front of the parameters
/// of a signature. The return values and the calling convention stay.
pub fn translate_signature(sig: Signature, pointer_type: Type) -> (translated: Signature)
    ensures
        translated@ == spec_translate_signature(sig@, pointer_type),
{
    let ghost declared = sig@;
    let mut sig = sig;
    sig.params.insert(0, AbiParam::special(pointer_type, ArgumentPurpose::VMContext));
    assert(sig.params@ =~= seq![context_param(pointer_type)] + declared.params);
    sig
}

/// Whether a signature begins with the context parameter.
pub open spec fn has_context_param(sig: SignatureView, pointer_type: Type) -> bool {
    sig.params.len() >= 1 && sig.params[0] == context_param(pointer_type)
}

/// Whether no parameter of a signature is marked as the execution context,
/// as is the case of every signature that a guest declares.
pub open spec fn declares_no_context(sig: SignatureView) -> bool {
    forall|i: int| 0 <= i < sig.params.len() ==> (#[trigger] sig.params[i]).purpose
        != ArgumentPurpose::VMContext
}

/// Whether a signature begins with the context parameter and has no other
/// parameter marked as the execution context.
pub open spec fn has_single_context_param(sig: SignatureView, pointer_type: Type) -> bool {
    &&& has_context_param(sig, pointer_type)
    &&& forall|i: int| 1 <= i < sig.params.len() ==> (#[trigger] sig.params[i]).purpose
        != ArgumentPurpose::VMContext
}

/// A translated signature begins with the context parameter, which is marked
/// as such and has the pointer type, and goes on with the declared parameters
/// in their order, however many there are. Where the declared signature has no
/// context parameter of its own, the translated one has exactly one.
pub proof fn lemma_translated_signature_shape(sig: SignatureView, pointer_type: Type)
    ensures
        has_context_param(spec_translate_signature(sig, pointer_type), pointer_type),
        spec_translate_signature(sig, pointer_type).params[0].purpose == ArgumentPurpose::VMContext,
        spec_translate_signature(sig, pointer_type).params[0].value_type == pointer_type,
        spec_translate_signature(sig, pointer_type).params.len() == sig.params.len() + 1,
        spec_translate_signature(sig, pointer_type).params.skip(1) == sig.params,
        declares_no_context(sig) ==> has_single_context_param(
            spec_translate_signature(sig, pointer_type),
            pointer_type,
        ),
{
}

} // verus!
