//! Binding the log entry point to the native method of the runtime-side
//! logger class.

use vstd::prelude::*;
use jni::errors::Error;
use jni::objects::JClass;
use jni::NativeMethod;
use crate::jvm::{find_class, register_native_method, Asked, Runtime};

verus! {

/// Why the bridge could not be installed.
#[derive(Clone, Copy, Debug, PartialEq, Eq, Hash, Structural)]
pub enum BridgeError {
    /// The runtime does not know the logger class: the companion archive is
    /// not on its classpath.
    ClassNotFound,
    /// The runtime refused the binding: the class declares no native method
    /// with this name and signature.
    RegistrationError,
}

/// The class, the method and the signature that a native function is bound
/// to. The runtime-side companion declares the same three.
#[derive(Clone, Copy, Debug, PartialEq, Eq)]
pub struct NativeMethodDescriptor {
    pub class_name: &'static str,
    pub method_name: &'static str,
    pub signature: &'static str,
}

impl NativeMethodDescriptor {
    /// Whether this is the binding of the log bridge: the static native
    /// method of the logger class that takes a severity code and a message
    /// and returns nothing.
    pub open spec fn is_log_bridge(self) -> bool {
        &&& self.class_name@ == "nl/mrfriendly/tracing/TracingSlf4jImpl"@
        &&& self.method_name@ == "tracingSlf4jImpl"@
        &&& self.signature@ == "(ILjava/lang/String;)V"@
    }

    /// The binding of the log bridge. It is written down here and nowhere
    /// else: what is registered is always this.
    pub fn log_bridge() -> (binding: NativeMethodDescriptor)
        ensures
            binding.is_log_bridge(),
    {
        NativeMethodDescriptor {
            class_name: "nl/mrfriendly/tracing/TracingSlf4jImpl",
            method_name: "tracingSlf4jImpl",
            signature: "(ILjava/lang/String;)V",
        }
    }
}

/// What the registration makes of the runtime's answer to the class lookup:
/// the class where it was found, `ClassNotFound` on any failure.
pub fn class_lookup_outcome<'local>(found: Result<JClass<'local>, Error>) -> (outcome: Result<
    JClass<'local>,
    BridgeError,
>)
    ensures
        found matches Ok(class) ==> outcome == Ok::<JClass<'local>, BridgeError>(class),
        found is Err ==> outcome == Err::<JClass<'local>, BridgeError>(BridgeError::ClassNotFound),
{
    match found {
        Ok(class) => Ok(class),
        Err(_) => Err(BridgeError::ClassNotFound),
    }
}

/// What the registration makes of the runtime's answer to the binding:
/// success where the runtime accepted it, `RegistrationError` on any failure.
pub fn binding_outcome(bound: Result<(), Error>) -> (outcome: Result<(), BridgeError>)
    ensures
        bound is Ok ==> outcome == Ok::<(), BridgeError>(()),
        bound is Err ==> outcome == Err::<(), BridgeError>(BridgeError::RegistrationError),
{
    match bound {
        Ok(_) => Ok(()),
        Err(_) => Err(BridgeError::RegistrationError),
    }
}

/// The lookup of the logger class, with the runtime's answer.
pub open spec fn lookup(found: bool) -> Asked {
    Asked::Lookup { class_name: "nl/mrfriendly/tracing/TracingSlf4jImpl"@, found }
}

/// The binding of the logger's native method, with the runtime's answer.
pub open spec fn binding(accepted: bool) -> Asked {
    Asked::Binding {
        method_name: "tracingSlf4jImpl"@,
        signature: "(ILjava/lang/String;)V"@,
        accepted,
    }
}

/// Installs the function that `entry` points to as the implementation of the
/// logger's native method.
///
/// The logger class is looked up once. Where the runtime does not hand it
/// out, the result is `ClassNotFound` and nothing else is asked: no binding
/// is attempted. Where it does, the method is bound once, under the names of
/// [`NativeMethodDescriptor::log_bridge`] (the names in `entry` are not
/// used), and the result is `Ok` where the runtime takes the binding and
/// `RegistrationError` where it does not. These are all the calls that are
/// made. Nothing is kept between calls: a second call asks the runtime the
/// same again.
pub fn register_log_fn<'a, 'local>(runtime: &mut Runtime<'a, 'local>, entry: &NativeMethod) -> (outcome:
    Result<(), BridgeError>)
    ensures
        outcome == Err::<(), BridgeError>(BridgeError::ClassNotFound) <==> final(runtime).asked()
            == old(runtime).asked().push(lookup(false)),
        outcome == Err::<(), BridgeError>(BridgeError::RegistrationError) <==> final(runtime).asked()
            == old(runtime).asked().push(lookup(true)).push(binding(false)),
        outcome is Ok <==> final(runtime).asked() == old(runtime).asked().push(lookup(true)).push(
            binding(true),
        ),
{
    let descriptor = NativeMethodDescriptor::log_bridge();
    let ghost before = runtime.asked();
    proof {
        assert(before.push(lookup(false)).len() == before.len() + 1);
        assert(before.push(lookup(true)).push(binding(false)).len() == before.len() + 2);
        assert(before.push(lookup(true)).push(binding(true)).len() == before.len() + 2);
        assert(before.push(lookup(true)).push(binding(true))[before.len() as int + 1] == binding(
            true,
        ));
        assert(before.push(lookup(true)).push(binding(false))[before.len() as int + 1] == binding(
            false,
        ));
    }
    match class_lookup_outcome(find_class(runtime, &descriptor)) {
        Ok(class) => binding_outcome(register_native_method(runtime, class, &descriptor, entry)),
        Err(error) => Err(error),
    }
}

} // verus!
