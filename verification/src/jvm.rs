//! The calls that this crate makes into the embedded Java runtime.
//!
//! Everything here is trusted: Verus takes the declarations and the wrappers'
//! contracts as given. What the runtime answers depends on the state of the
//! virtual machine, so no wrapper promises anything of its result; the rules
//! that follow a call are verified in the modules that make it. What a
//! wrapper does state is that it was called: every call goes through a
//! [`Runtime`], which holds the handle to the environment together with the
//! record of what was asked through it and what came back.

use vstd::prelude::*;
use jni::errors::Error;
use jni::objects::{JClass, JString};
use jni::{JNIEnv, NativeMethod};
use crate::registrar::NativeMethodDescriptor;

verus! {

/// `jni::JNIEnv`: the handle to the runtime's environment for the current
/// thread. Opaque.
#[verifier::external_type_specification]
#[verifier::external_body]
pub struct ExJNIEnv<'local>(JNIEnv<'local>);

/// `jni::objects::JClass`: a local reference to a class of the runtime.
/// Opaque.
#[verifier::external_type_specification]
#[verifier::external_body]
pub struct ExJClass<'local>(JClass<'local>);

/// `jni::objects::JString`: a local reference to a string owned by the
/// runtime. Opaque.
#[verifier::external_type_specification]
#[verifier::external_body]
pub struct ExJString<'local>(JString<'local>);

/// `jni::NativeMethod`: a method name, a signature and the pointer to the
/// native function that implements the method. Opaque.
#[verifier::external_type_specification]
#[verifier::external_body]
pub struct ExNativeMethod(NativeMethod);

/// `jni::errors::Error`: why a call into the runtime failed. Opaque.
#[verifier::external_type_specification]
#[verifier::external_body]
pub struct ExError(Error);

/// One thing that the runtime was asked, with its answer.
pub ghost enum Asked {
    /// The class named `class_name` was looked up; `found` tells whether the
    /// runtime handed it out.
    Lookup { class_name: Seq<char>, found: bool },
    /// A native function was bound to the method `method_name` with signature
    /// `signature`; `accepted` tells whether the runtime took the binding.
    Binding { method_name: Seq<char>, signature: Seq<char>, accepted: bool },
    /// The bytes of a string were asked for; `bytes` is what the runtime
    /// handed out, and `None` where it handed out nothing.
    Message { bytes: Option<Seq<u8>> },
}

/// The handle to the runtime's environment, together with the record of what
/// was asked through it. The handle cannot be reached from outside this
/// module, so nothing is asked of the runtime but through the wrappers below,
/// and each of them notes its call. The record exists for proofs only and
/// takes no room in a running program.
pub struct Runtime<'a, 'local> {
    env: &'a mut JNIEnv<'local>,
    asked: Ghost<Seq<Asked>>,
}

impl<'a, 'local> Runtime<'a, 'local> {
    /// What was asked through this handle so far, oldest first.
    pub closed spec fn asked(&self) -> Seq<Asked> {
        self.asked@
    }

    /// Takes the environment over for as long as the value lives. Nothing
    /// has been asked through it yet.
    pub fn new(env: &'a mut JNIEnv<'local>) -> (runtime: Self)
        ensures
            runtime.asked() == Seq::<Asked>::empty(),
    {
        Runtime { env, asked: Ghost(Seq::empty()) }
    }
}

/// Calls `JNIEnv::find_class`, which asks the runtime for the class that
/// `binding` names. Nothing is claimed of the answer: whether the class is
/// found depends on the runtime's classpath. The call and its answer are
/// noted. The precondition is this crate's own: it asks the runtime for no
/// class but the logger's.
#[verifier::external_body]
pub(crate) fn find_class<'a, 'local>(
    runtime: &mut Runtime<'a, 'local>,
    binding: &NativeMethodDescriptor,
) -> (found: Result<JClass<'local>, Error>)
    requires
        binding.is_log_bridge(),
    ensures
        final(runtime).asked() == old(runtime).asked().push(
            (Asked::Lookup { class_name: binding.class_name@, found: found is Ok }),
        ),
{
    runtime.env.find_class(binding.class_name)
}

/// Calls `JNIEnv::register_native_methods` with one method: it binds the
/// function that `entry` points to as the implementation of the native method
/// of `class` that `binding` names. Of `entry` only the function pointer is
/// used. Nothing is claimed of the answer: the runtime decides whether the
/// class declares such a method. The call and its answer are noted. The
/// precondition is this crate's own: it binds no method but the logger's.
#[verifier::external_body]
pub(crate) fn register_native_method<'a, 'local>(
    runtime: &mut Runtime<'a, 'local>,
    class: JClass<'local>,
    binding: &NativeMethodDescriptor,
    entry: &NativeMethod,
) -> (bound: Result<(), Error>)
    requires
        binding.is_log_bridge(),
    ensures
        final(runtime).asked() == old(runtime).asked().push(
            (Asked::Binding {
                method_name: binding.method_name@,
                signature: binding.signature@,
                accepted: bound is Ok,
            }),
        ),
{
    let name = binding.method_name.into();
    let sig = binding.signature.into();
    runtime.env.register_native_methods(class, &[NativeMethod { name, sig, fn_ptr: entry.fn_ptr }])
}

/// Calls `JNIEnv::get_string` and copies the bytes that the runtime hands out
/// for the string, without the terminating zero. `None` where the runtime
/// does not hand the string out: a null reference, a reference to something
/// that is no string, a failed call. Nothing is claimed of the bytes: they
/// are whatever the runtime holds, in its own encoding. The call is noted
/// with what it returned.
#[verifier::external_body]
pub(crate) fn string_bytes<'a, 'local>(
    runtime: &mut Runtime<'a, 'local>,
    string: &JString<'_>,
) -> (bytes: Option<Vec<u8>>)
    ensures
        final(runtime).asked() == old(runtime).asked().push(
            (Asked::Message { bytes: handed_out(bytes) }),
        ),
{
    match runtime.env.get_string(string) {
        Ok(chars) => Some(chars.to_bytes().to_vec()),
        Err(_) => None,
    }
}

/// The bytes that were handed out, as a value.
pub open spec fn handed_out(bytes: Option<Vec<u8>>) -> Option<Seq<u8>> {
    match bytes {
        Some(bytes) => Some(bytes@),
        None => None,
    }
}

} // verus!
